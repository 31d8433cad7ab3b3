use pattern_encoder::EncodeError;
use pattern_encoder::Level;
use pattern_encoder::PatternEncoder;
use pattern_encoder::PatternEncoderDeserializer;
use pattern_encoder::Record;

fn record(level: Level, target: &str, message: &str) -> Record {
    Record {
        level,
        target: target.as_bytes().to_vec(),
        module: b"path".to_vec(),
        file: b"file".to_vec(),
        line: 132,
        thread: None,
        message: message.as_bytes().to_vec(),
    }
}

fn render(encoder: &PatternEncoder, rec: &Record) -> Vec<u8> {
    let mut out = Vec::new();
    encoder.append_inner(rec, 0, 0, &mut out).unwrap();
    out
}

#[test]
fn invalid_formatter() {
    assert!(!PatternEncoder::new("{x}").error_free());
}

#[test]
fn unclosed_delimiter() {
    assert!(!PatternEncoder::new("{d(%Y-%m-%d)").error_free());
}

#[test]
fn log() {
    let pw = PatternEncoder::new("{l} {m} at {M} in {f}:{L}");
    let rec = record(Level::Debug, "target", "the message");
    assert_eq!(render(&pw, &rec), b"DEBUG the message at path in file:132");
}

#[test]
fn unnamed_thread() {
    let pw = PatternEncoder::new("{T}");
    let rec = record(Level::Debug, "target", "message");
    assert_eq!(render(&pw, &rec), b"<unnamed>");
}

#[test]
fn named_thread() {
    let pw = PatternEncoder::new("{T}");
    let mut rec = record(Level::Debug, "target", "message");
    rec.thread = Some(b"foobar".to_vec());
    assert_eq!(render(&pw, &rec), b"foobar");
}

#[test]
fn default_okay() {
    assert!(PatternEncoder::default().error_free());
}

#[test]
fn left_align() {
    let pw = PatternEncoder::new("{m:~<5.6}");
    let rec = record(Level::Debug, "", "foo");
    assert_eq!(render(&pw, &rec), b"foo~~");
    let rec = record(Level::Debug, "", "foobar!");
    assert_eq!(render(&pw, &rec), b"foobar");
}

#[test]
fn right_align() {
    let pw = PatternEncoder::new("{m:~>5.6}");
    let rec = record(Level::Debug, "", "foo");
    assert_eq!(render(&pw, &rec), b"~~foo");
    let rec = record(Level::Debug, "", "foobar!");
    assert_eq!(render(&pw, &rec), b"foobar");
}

#[test]
fn left_align_formatter() {
    let pw = PatternEncoder::new("{({l} {m}):15}");
    let rec = record(Level::Info, "", "foobar!");
    assert_eq!(render(&pw, &rec), b"INFO foobar!   ");
}

#[test]
fn right_align_formatter() {
    let pw = PatternEncoder::new("{({l} {m}):>15}");
    let rec = record(Level::Info, "", "foobar!");
    assert_eq!(render(&pw, &rec), b"   INFO foobar!");
}

#[test]
fn brace_escapes() {
    let pw = PatternEncoder::new("a{{b}}c");
    assert!(pw.error_free());
    let rec = record(Level::Info, "", "msg");
    assert_eq!(render(&pw, &rec), b"a{b}c");
}

#[test]
fn empty_pattern() {
    let pw = PatternEncoder::new("");
    assert!(pw.error_free());
    assert_eq!(pw.chunk_count(), 0);
    let rec = record(Level::Info, "", "msg");
    assert_eq!(render(&pw, &rec), b"");
}

#[test]
fn date_fixed_format() {
    let pw = PatternEncoder::new("{d(%Y-%m-%d %H:%M:%S)}");
    assert!(pw.error_free());
    let rec = record(Level::Info, "", "msg");
    assert_eq!(render(&pw, &rec), b"1970-01-01 00:00:00");
}

#[test]
fn date_default_format() {
    let pw = PatternEncoder::new("{d}");
    assert!(pw.error_free());
    let rec = record(Level::Info, "", "msg");
    assert_eq!(render(&pw, &rec), b"1970-01-01T00:00:00+00:00");
}

#[test]
fn invalid_date_format() {
    let pw = PatternEncoder::new("{d(%!)}");
    assert!(pw.error_free());
    let rec = record(Level::Info, "", "msg");
    let mut out = Vec::new();
    let r = pw.append_inner(&rec, 0, 0, &mut out);
    assert!(matches!(r, Err(EncodeError::InvalidTimeFormat)));
}

#[test]
fn unknown_formatter_renders_inline() {
    let pw = PatternEncoder::new("a{x}b");
    let rec = record(Level::Info, "", "msg");
    assert_eq!(render(&pw, &rec), b"a{ERROR: unknown formatter `x`}b".to_vec());
}

#[test]
fn unexpected_arguments() {
    let pw = PatternEncoder::new("{l(x)}");
    assert!(!pw.error_free());
    let rec = record(Level::Info, "", "msg");
    assert_eq!(render(&pw, &rec), b"{ERROR: unexpected arguments}".to_vec());
}

#[test]
fn stray_closing_brace() {
    let pw = PatternEncoder::new("a}b");
    assert!(!pw.error_free());
    let rec = record(Level::Info, "", "msg");
    assert_eq!(render(&pw, &rec), b"a{ERROR: unexpected '}'}b".to_vec());
}

#[test]
fn long_formatter_names() {
    let pw = PatternEncoder::new("{level} {message} {target}");
    let rec = record(Level::Warn, "tgt", "hello");
    assert_eq!(render(&pw, &rec), b"WARN hello tgt");
}

#[test]
fn newline_formatter() {
    let pw = PatternEncoder::new("{m}{n}");
    let rec = record(Level::Info, "", "line");
    assert_eq!(render(&pw, &rec), b"line\n");
}

#[test]
fn width_without_precision() {
    let pw = PatternEncoder::new("{m:10}");
    let rec = record(Level::Info, "", "hi");
    assert_eq!(render(&pw, &rec), b"hi        ");
}

#[test]
fn group_precision_truncates() {
    let pw = PatternEncoder::new("{({l} {m}):5.7}");
    let rec = record(Level::Info, "", "hello");
    assert_eq!(render(&pw, &rec), b"INFO he");
}

#[test]
fn right_align_pads_truncated_content() {
    // Precision truncates the content before the pad is computed; the fill
    // itself is never truncated, so the output still reaches the width.
    let pw = PatternEncoder::new("{m:~>10.3}");
    let rec = record(Level::Info, "", "abcd");
    assert_eq!(render(&pw, &rec), b"~~~~~~~abc");
}

#[test]
fn nested_group_right_align() {
    let pw = PatternEncoder::new("{({l}-{m}):>10}");
    let rec = record(Level::Info, "", "ab");
    assert_eq!(render(&pw, &rec), b"   INFO-ab");
}

#[test]
fn line_number_rendering() {
    let pw = PatternEncoder::new("{L}");
    let mut rec = record(Level::Info, "", "msg");
    assert_eq!(render(&pw, &rec), b"132");
    rec.line = 0;
    assert_eq!(render(&pw, &rec), b"0");
    rec.line = 4294967295;
    assert_eq!(render(&pw, &rec), b"4294967295");
}

#[test]
fn deserializer_with_pattern() {
    let pw = PatternEncoderDeserializer.deserialize(Some("{m}"));
    let rec = record(Level::Info, "", "configured");
    assert_eq!(render(&pw, &rec), b"configured");
}

#[test]
fn deserializer_without_pattern() {
    let pw = PatternEncoderDeserializer.deserialize(None);
    assert!(pw.error_free());
    assert_eq!(pw.chunk_count(), 8);
    assert_eq!(pw.pattern_bytes(), b"{d} {l} {t} - {m}{n}");
}

#[test]
fn encode_uses_clock() {
    let pw = PatternEncoder::new("{m}");
    let rec = record(Level::Info, "", "now");
    let mut out = Vec::new();
    pw.encode(&rec, &mut out).unwrap();
    assert_eq!(out, b"now");
}

#[test]
fn precision_only() {
    let pw = PatternEncoder::new("{m:.3}");
    let rec = record(Level::Info, "", "abcdef");
    assert_eq!(render(&pw, &rec), b"abc");
}

#[test]
fn compile_twice_renders_identically() {
    let a = PatternEncoder::new("{d} {l} {t} - {m}{n}");
    let b = PatternEncoder::new("{d} {l} {t} - {m}{n}");
    assert!(a.error_free());
    assert!(b.error_free());
    let rec = record(Level::Info, "tgt", "msg");
    assert_eq!(render(&a, &rec), render(&b, &rec));
}

#[test]
fn malformed_parameter_spec() {
    let pw = PatternEncoder::new("{m:.}x");
    assert!(!pw.error_free());
    let rec = record(Level::Info, "", "msg");
    assert_eq!(render(&pw, &rec), b"{ERROR: invalid format parameters}x".to_vec());
}
