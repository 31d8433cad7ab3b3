//! Fixed byte strings of the pattern language (diagnostic messages, field
//! labels, defaults) and small helpers that append them to a byte buffer.

use vstd::prelude::*;

verus! {

/// `"{ERROR: "` — the opening of every rendered diagnostic.
pub open spec fn err_open() -> Seq<u8> {
    seq![123u8, 69u8, 82u8, 82u8, 79u8, 82u8, 58u8, 32u8]
}

/// `"unknown formatter `"` — completed by the name and a closing backquote.
pub open spec fn msg_unknown_prefix() -> Seq<u8> {
    seq![117u8, 110u8, 107u8, 110u8, 111u8, 119u8, 110u8, 32u8, 102u8, 111u8, 114u8, 109u8, 97u8, 116u8, 116u8, 101u8, 114u8, 32u8, 96u8]
}

/// `"unexpected arguments"` — a zero-argument formatter was given a sub-pattern.
pub open spec fn msg_unexpected_args() -> Seq<u8> {
    seq![117u8, 110u8, 101u8, 120u8, 112u8, 101u8, 99u8, 116u8, 101u8, 100u8, 32u8, 97u8, 114u8, 103u8, 117u8, 109u8, 101u8, 110u8, 116u8, 115u8]
}

/// `"unclosed '{'"` — the input ended inside a formatter invocation.
pub open spec fn msg_unclosed() -> Seq<u8> {
    seq![117u8, 110u8, 99u8, 108u8, 111u8, 115u8, 101u8, 100u8, 32u8, 39u8, 123u8, 39u8]
}

/// `"unexpected '}'"` — a closing brace with no opening brace.
pub open spec fn msg_stray_close() -> Seq<u8> {
    seq![117u8, 110u8, 101u8, 120u8, 112u8, 101u8, 99u8, 116u8, 101u8, 100u8, 32u8, 39u8, 125u8, 39u8]
}

/// `"invalid format parameters"` — a parameter spec that does not match the grammar.
pub open spec fn msg_bad_params() -> Seq<u8> {
    seq![105u8, 110u8, 118u8, 97u8, 108u8, 105u8, 100u8, 32u8, 102u8, 111u8, 114u8, 109u8, 97u8, 116u8, 32u8, 112u8, 97u8, 114u8, 97u8, 109u8, 101u8, 116u8, 101u8, 114u8, 115u8]
}

/// `"{ERROR: unexpected formatter}"` — embedded in a date format string when a
/// nested formatter invocation appears inside a date sub-pattern.
pub open spec fn err_unexpected_formatter() -> Seq<u8> {
    err_open() + seq![117u8, 110u8, 101u8, 120u8, 112u8, 101u8, 99u8, 116u8, 101u8, 100u8, 32u8, 102u8, 111u8, 114u8, 109u8, 97u8, 116u8, 116u8, 101u8, 114u8, 125u8]
}

/// `"<unnamed>"` — stands in for the name of a thread that has none.
pub open spec fn unnamed_thread() -> Seq<u8> {
    seq![60u8, 117u8, 110u8, 110u8, 97u8, 109u8, 101u8, 100u8, 62u8]
}

/// `"%+"` — the extended ISO 8601 timestamp, used when a date format is empty.
pub open spec fn default_date_format() -> Seq<u8> {
    seq![37u8, 43u8]
}

/// `"{d} {l} {t} - {m}{n}"` — the default pattern.
pub open spec fn default_pattern() -> Seq<u8> {
    seq![123u8, 100u8, 125u8, 32u8, 123u8, 108u8, 125u8, 32u8, 123u8, 116u8, 125u8, 32u8, 45u8, 32u8, 123u8, 109u8, 125u8, 123u8, 110u8, 125u8]
}

/// Appends `"{ERROR: "` to `out`.
pub fn push_err_open(out: &mut Vec<u8>)
    ensures
        final(out)@ == old(out)@ + err_open(),
{
    out.push(123u8);
    out.push(69u8);
    out.push(82u8);
    out.push(82u8);
    out.push(79u8);
    out.push(82u8);
    out.push(58u8);
    out.push(32u8);
    assert(out@ =~= old(out)@ + err_open());
}

/// Appends `"unknown formatter `"` to `out`.
pub fn push_msg_unknown_prefix(out: &mut Vec<u8>)
    ensures
        final(out)@ == old(out)@ + msg_unknown_prefix(),
{
    out.push(117u8);
    out.push(110u8);
    out.push(107u8);
    out.push(110u8);
    out.push(111u8);
    out.push(119u8);
    out.push(110u8);
    out.push(32u8);
    out.push(102u8);
    out.push(111u8);
    out.push(114u8);
    out.push(109u8);
    out.push(97u8);
    out.push(116u8);
    out.push(116u8);
    out.push(101u8);
    out.push(114u8);
    out.push(32u8);
    out.push(96u8);
    assert(out@ =~= old(out)@ + msg_unknown_prefix());
}

/// Appends `"unexpected arguments"` to `out`.
pub fn push_msg_unexpected_args(out: &mut Vec<u8>)
    ensures
        final(out)@ == old(out)@ + msg_unexpected_args(),
{
    out.push(117u8);
    out.push(110u8);
    out.push(101u8);
    out.push(120u8);
    out.push(112u8);
    out.push(101u8);
    out.push(99u8);
    out.push(116u8);
    out.push(101u8);
    out.push(100u8);
    out.push(32u8);
    out.push(97u8);
    out.push(114u8);
    out.push(103u8);
    out.push(117u8);
    out.push(109u8);
    out.push(101u8);
    out.push(110u8);
    out.push(116u8);
    out.push(115u8);
    assert(out@ =~= old(out)@ + msg_unexpected_args());
}

/// Appends `"unclosed '{'"` to `out`.
pub fn push_msg_unclosed(out: &mut Vec<u8>)
    ensures
        final(out)@ == old(out)@ + msg_unclosed(),
{
    out.push(117u8);
    out.push(110u8);
    out.push(99u8);
    out.push(108u8);
    out.push(111u8);
    out.push(115u8);
    out.push(101u8);
    out.push(100u8);
    out.push(32u8);
    out.push(39u8);
    out.push(123u8);
    out.push(39u8);
    assert(out@ =~= old(out)@ + msg_unclosed());
}

/// Appends `"unexpected '}'"` to `out`.
pub fn push_msg_stray_close(out: &mut Vec<u8>)
    ensures
        final(out)@ == old(out)@ + msg_stray_close(),
{
    out.push(117u8);
    out.push(110u8);
    out.push(101u8);
    out.push(120u8);
    out.push(112u8);
    out.push(101u8);
    out.push(99u8);
    out.push(116u8);
    out.push(101u8);
    out.push(100u8);
    out.push(32u8);
    out.push(39u8);
    out.push(125u8);
    out.push(39u8);
    assert(out@ =~= old(out)@ + msg_stray_close());
}

/// Appends `"invalid format parameters"` to `out`.
pub fn push_msg_bad_params(out: &mut Vec<u8>)
    ensures
        final(out)@ == old(out)@ + msg_bad_params(),
{
    out.push(105u8);
    out.push(110u8);
    out.push(118u8);
    out.push(97u8);
    out.push(108u8);
    out.push(105u8);
    out.push(100u8);
    out.push(32u8);
    out.push(102u8);
    out.push(111u8);
    out.push(114u8);
    out.push(109u8);
    out.push(97u8);
    out.push(116u8);
    out.push(32u8);
    out.push(112u8);
    out.push(97u8);
    out.push(114u8);
    out.push(97u8);
    out.push(109u8);
    out.push(101u8);
    out.push(116u8);
    out.push(101u8);
    out.push(114u8);
    out.push(115u8);
    assert(out@ =~= old(out)@ + msg_bad_params());
}

/// Appends `"{ERROR: unexpected formatter}"` to `out`.
pub fn push_err_unexpected_formatter(out: &mut Vec<u8>)
    ensures
        final(out)@ == old(out)@ + err_unexpected_formatter(),
{
    push_err_open(out);
    out.push(117u8);
    out.push(110u8);
    out.push(101u8);
    out.push(120u8);
    out.push(112u8);
    out.push(101u8);
    out.push(99u8);
    out.push(116u8);
    out.push(101u8);
    out.push(100u8);
    out.push(32u8);
    out.push(102u8);
    out.push(111u8);
    out.push(114u8);
    out.push(109u8);
    out.push(97u8);
    out.push(116u8);
    out.push(116u8);
    out.push(101u8);
    out.push(114u8);
    out.push(125u8);
    assert(out@ =~= old(out)@ + err_unexpected_formatter());
}

/// Appends `"<unnamed>"` to `out`.
pub fn push_unnamed_thread(out: &mut Vec<u8>)
    ensures
        final(out)@ == old(out)@ + unnamed_thread(),
{
    out.push(60u8);
    out.push(117u8);
    out.push(110u8);
    out.push(110u8);
    out.push(97u8);
    out.push(109u8);
    out.push(101u8);
    out.push(100u8);
    out.push(62u8);
    assert(out@ =~= old(out)@ + unnamed_thread());
}

/// Appends `"%+"` to `out`.
pub fn push_default_date_format(out: &mut Vec<u8>)
    ensures
        final(out)@ == old(out)@ + default_date_format(),
{
    out.push(37u8);
    out.push(43u8);
    assert(out@ =~= old(out)@ + default_date_format());
}

/// The default pattern `"{d} {l} {t} - {m}{n}"`, as bytes.
pub fn default_pattern_bytes() -> (r: Vec<u8>)
    ensures
        r@ == default_pattern(),
{
    let mut out: Vec<u8> = Vec::new();
    out.push(123u8);
    out.push(100u8);
    out.push(125u8);
    out.push(32u8);
    out.push(123u8);
    out.push(108u8);
    out.push(125u8);
    out.push(32u8);
    out.push(123u8);
    out.push(116u8);
    out.push(125u8);
    out.push(32u8);
    out.push(45u8);
    out.push(32u8);
    out.push(123u8);
    out.push(109u8);
    out.push(125u8);
    out.push(123u8);
    out.push(110u8);
    out.push(125u8);
    assert(out@ =~= default_pattern());
    out
}

/// Appends the whole of `s` to `out`.
pub fn append_slice(out: &mut Vec<u8>, s: &[u8])
    ensures
        final(out)@ == old(out)@ + s@,
{
    let mut i: usize = 0;
    while i < s.len()
        invariant
            i <= s@.len(),
            out@ == old(out)@ + s@.take(i as int),
        decreases s@.len() - i,
    {
        out.push(s[i]);
        assert(out@ =~= old(out)@ + s@.take(i + 1));
        i = i + 1;
    }
    assert(s@.take(s@.len() as int) =~= s@);
}

/// Appends the first `k` bytes of `s` to `out`.
pub fn append_slice_prefix(out: &mut Vec<u8>, s: &[u8], k: usize)
    requires
        k <= s@.len(),
    ensures
        final(out)@ == old(out)@ + s@.take(k as int),
{
    let mut i: usize = 0;
    while i < k
        invariant
            i <= k <= s@.len(),
            out@ == old(out)@ + s@.take(i as int),
        decreases k - i,
    {
        out.push(s[i]);
        assert(out@ =~= old(out)@ + s@.take(i + 1));
        i = i + 1;
    }
}

/// The decimal digits of `n`, most significant first.
pub open spec fn dec_digits(n: int) -> Seq<u8>
    decreases n,
{
    if n < 10 {
        seq![(48 + if n < 0 { 0 } else { n }) as u8]
    } else {
        dec_digits(n / 10).push((48 + n % 10) as u8)
    }
}

/// Appends the decimal rendering of `n` to `out`.
pub fn push_decimal_u32(out: &mut Vec<u8>, n: u32)
    ensures
        final(out)@ == old(out)@ + dec_digits(n as int),
    decreases n,
{
    if n < 10 {
        out.push(48 + n as u8);
        assert(out@ =~= old(out)@ + dec_digits(n as int));
    } else {
        push_decimal_u32(out, n / 10);
        out.push(48 + (n % 10) as u8);
        assert(out@ =~= old(out)@ + dec_digits(n as int));
    }
}

} // verus!
