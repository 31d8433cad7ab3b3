//! The library's stated laws, proved once over the model.

use vstd::prelude::*;

use crate::params::Parameters;
use crate::params::Alignment;
use crate::parse::PieceV;
use crate::parse::spec_parse;
use crate::parse::spec_argument;
use crate::parse::spec_name;
use crate::parse::spec_pieces;
use crate::parse::spec_params;
use crate::parse::spec_text;
use crate::parse::spec_piece;
use crate::parse::lemma_name_bounds;
use crate::parse::lemma_pieces_bounds;
use crate::parse::lemma_params_bounds;
use crate::parse::lemma_skip_no_brace;
use crate::chunk::spec_chunk_of;
use crate::chunk::spec_chunks_of;
use crate::chunk::spec_name_kind;
use crate::chunk::lemma_spec_chunks_of_index;
use crate::record::RecordV;
use crate::render::spec_render_upto;
use crate::render::spec_ok_upto;
use crate::writer::apply_params;
use crate::encoder::PatternEncoder;
use crate::encoder::compiled_chunks;
use crate::encoder::seq_error_free;

verus! {

/// A formatter invocation whose name resolves to nothing.
pub open spec fn is_unknown_argument(p: PieceV) -> bool {
    p matches PieceV::Argument { name, arg, params } && spec_name_kind(name) is Unknown
}

/// Compilation never fails and contains its errors: a pattern that parsed
/// with an unresolvable formatter name compiles to a non-empty chunk
/// sequence — one chunk per piece — holding at least one error chunk.
pub proof fn lemma_unknown_formatter_error(pattern: Seq<u8>, i: int)
    requires
        0 <= i < spec_parse(pattern).len(),
        is_unknown_argument(spec_parse(pattern)[i]),
    ensures
        compiled_chunks(pattern).len() == spec_parse(pattern).len(),
        compiled_chunks(pattern).len() > 0,
        !seq_error_free(compiled_chunks(pattern)),
{
    let ps = spec_parse(pattern);
    lemma_spec_chunks_of_index(ps);
    assert(spec_chunks_of(ps)[i] == spec_chunk_of(ps[i]));
    assert(spec_chunk_of(ps[i]) is Error);
    assert(!seq_error_free(spec_chunks_of(ps)));
}

/// Parse errors pass through compilation: a pattern that parsed with an
/// `Error` piece compiles to a non-empty chunk sequence holding an error
/// chunk at the same position.
pub proof fn lemma_error_piece_error_chunk(pattern: Seq<u8>, i: int)
    requires
        0 <= i < spec_parse(pattern).len(),
        spec_parse(pattern)[i] is Error,
    ensures
        compiled_chunks(pattern).len() == spec_parse(pattern).len(),
        compiled_chunks(pattern).len() > 0,
        compiled_chunks(pattern)[i] is Error,
        !seq_error_free(compiled_chunks(pattern)),
{
    let ps = spec_parse(pattern);
    lemma_spec_chunks_of_index(ps);
    assert(spec_chunks_of(ps)[i] == spec_chunk_of(ps[i]));
}

/// An unmatched opening delimiter is contained: when no `}` stands at or
/// after an opening `{`, the invocation starting there parses to a single
/// `Error` piece that covers the whole unterminated tail of the input.
pub proof fn lemma_unclosed_argument(s: Seq<u8>, pos: int)
    requires
        0 <= pos < s.len(),
        s[pos] == 123,
        forall|j: int| pos <= j < s.len() ==> s[j] != 125,
    ensures
        spec_argument(s, pos).0 is Error,
        spec_argument(s, pos).1 == s.len(),
{
    lemma_name_bounds(s, pos + 1, Seq::empty());
    let name = spec_name(s, pos + 1, Seq::empty());
    let p1 = pos + 1 + name.len();
    if p1 < s.len() && s[p1] == 40 {
        lemma_pieces_bounds(s, p1 + 1, true, Seq::empty());
        let (args, p2) = spec_pieces(s, p1 + 1, true, Seq::empty());
        if p2 < s.len() && s[p2] == 41 {
            lemma_close_is_error(s, p2 + 1, name, args);
        }
    } else {
        lemma_close_is_error(s, p1, name, Seq::empty());
    }
}

/// Helper for the unmatched-delimiter law: past the name and sub-pattern,
/// with no `}` left anywhere after `pos0 <= pos`, the tail of the
/// invocation is an `Error` piece ending at the end of the input.
proof fn lemma_close_is_error(s: Seq<u8>, pos: int, name: Seq<u8>, args: Seq<PieceV>)
    requires
        0 <= pos <= s.len(),
        forall|j: int| pos <= j < s.len() ==> s[j] != 125,
    ensures
        crate::parse::spec_arg_tail(s, pos, name, args).0 is Error,
        crate::parse::spec_arg_tail(s, pos, name, args).1 == s.len(),
{
    if 0 <= pos && pos < s.len() && s[pos] == 58 {
        lemma_params_bounds(s, pos + 1);
        let (params, p2) = spec_params(s, pos + 1);
        if p2 < s.len() {
            lemma_skip_no_brace(s, p2);
        }
    } else {
        if pos < s.len() {
            lemma_skip_no_brace(s, pos);
        }
    }
}

/// Whether the input from `pos` on holds an opening `{` that is not part
/// of a `{{` escape, reading left to right and skipping escaped pairs.
pub open spec fn has_unmatched_open(s: Seq<u8>, pos: int) -> bool
    decreases s.len() - pos,
{
    if pos < 0 || pos >= s.len() {
        false
    } else if s[pos] == 123 {
        if pos + 1 < s.len() && s[pos + 1] == 123 {
            has_unmatched_open(s, pos + 2)
        } else {
            true
        }
    } else {
        has_unmatched_open(s, pos + 1)
    }
}

/// With no `}` left, a text run starting at a non-structural byte stops at
/// the next unescaped `{`, which is still unmatched there.
proof fn lemma_text_stops_at_open(s: Seq<u8>, pos: int, acc: Seq<u8>)
    requires
        0 <= pos <= s.len(),
        forall|j: int| pos <= j < s.len() ==> s[j] != 125,
        has_unmatched_open(s, pos),
    ensures
        ({
            let e = spec_text(s, pos, false, acc).1;
            &&& pos <= e < s.len()
            &&& s[e] == 123
            &&& !(e + 1 < s.len() && s[e + 1] == 123)
            &&& has_unmatched_open(s, e)
        }),
    decreases s.len() - pos,
{
    let b = s[pos];
    if b == 123 {
        if pos + 1 < s.len() && s[pos + 1] == 123 {
            lemma_text_stops_at_open(s, pos + 2, acc.push(b));
        }
    } else {
        lemma_text_stops_at_open(s, pos + 1, acc.push(b));
    }
}

/// Parsing extends the accumulated pieces: the result starts with `acc`.
proof fn lemma_pieces_prefix(s: Seq<u8>, pos: int, in_arg: bool, acc: Seq<PieceV>)
    ensures
        ({
            let r = spec_pieces(s, pos, in_arg, acc).0;
            &&& r.len() >= acc.len()
            &&& forall|i: int| 0 <= i < acc.len() ==> r[i] == acc[i]
        }),
    decreases s.len() - pos, 2int,
{
    if 0 <= pos && pos < s.len() && !(in_arg && s[pos] == 41) {
        let (p, pos2) = spec_piece(s, pos, in_arg);
        let next = if pos2 <= pos || pos2 > s.len() {
            pos + 1
        } else {
            pos2
        };
        lemma_pieces_prefix(s, next, in_arg, acc.push(p));
    }
}

/// The unmatched-delimiter law at the top level: a pattern holding an
/// unescaped `{` and no `}` at all parses with an `Error` piece among its
/// pieces, wherever the `{` stands.
proof fn lemma_no_close_parse_error(s: Seq<u8>, pos: int, acc: Seq<PieceV>)
    requires
        0 <= pos <= s.len(),
        forall|j: int| pos <= j < s.len() ==> s[j] != 125,
        has_unmatched_open(s, pos),
    ensures
        exists|k: int|
            0 <= k < spec_pieces(s, pos, false, acc).0.len() && spec_pieces(
                s,
                pos,
                false,
                acc,
            ).0[k] is Error,
    decreases s.len() - pos,
{
    let b = s[pos];
    let (p, pos2) = spec_piece(s, pos, false);
    if b == 123 && !(pos + 1 < s.len() && s[pos + 1] == 123) {
        lemma_unclosed_argument(s, pos);
        assert(p is Error);
        let next = if pos2 <= pos || pos2 > s.len() {
            pos + 1
        } else {
            pos2
        };
        lemma_pieces_prefix(s, next, false, acc.push(p));
        assert(spec_pieces(s, pos, false, acc).0[acc.len() as int] is Error);
    } else {
        lemma_text_stops_at_open(s, pos, Seq::empty());
        let e = spec_text(s, pos, false, Seq::empty()).1;
        assert(pos2 == e);
        assert(e > pos);
        lemma_no_close_parse_error(s, e, acc.push(p));
    }
}

/// A pattern with an unmatched opening delimiter and no closing brace
/// compiles — compilation cannot fail — and its chunks hold an error chunk.
pub proof fn lemma_unmatched_open_error(pattern: Seq<u8>)
    requires
        forall|j: int| 0 <= j < pattern.len() ==> pattern[j] != 125,
        has_unmatched_open(pattern, 0),
    ensures
        !seq_error_free(compiled_chunks(pattern)),
{
    lemma_no_close_parse_error(pattern, 0, Seq::empty());
    let ps = spec_parse(pattern);
    let k = choose|k: int| 0 <= k < ps.len() && ps[k] is Error;
    lemma_error_piece_error_chunk(pattern, k);
}

/// With unbounded precision, the padded output is exactly the content when
/// it already reaches the width, and otherwise is padded to the width.
pub proof fn lemma_apply_params_width(inner: Seq<u8>, p: Parameters)
    requires
        p.precision is None,
    ensures
        apply_params(inner, p).len() == if inner.len() >= p.width {
            inner.len()
        } else {
            p.width as nat
        },
        inner.len() >= p.width ==> apply_params(inner, p) == inner,
{
    if inner.len() >= p.width {
        match p.align {
            Alignment::Left => {
                assert(apply_params(inner, p) =~= inner);
            },
            Alignment::Right => {
                assert(apply_params(inner, p) =~= inner);
            },
        }
    }
}

/// Width and precision interact as stated: precision bounds the content
/// alone, width is the minimum total length including fill, so a formatted
/// chunk renders exactly `max(width, min(precision, content length))` bytes.
pub proof fn lemma_apply_params_len(inner: Seq<u8>, p: Parameters, m: usize)
    requires
        p.precision == Some(m),
    ensures
        ({
            let c: int = if inner.len() <= m {
                inner.len() as int
            } else {
                m as int
            };
            apply_params(inner, p).len() == if c >= p.width as int {
                c
            } else {
                p.width as int
            }
        }),
{
}

/// The parser's accumulator only collects: parsing from `pos` appends the
/// same pieces whatever was accumulated before.
proof fn lemma_pieces_acc(s: Seq<u8>, pos: int, in_arg: bool, acc: Seq<PieceV>)
    ensures
        spec_pieces(s, pos, in_arg, acc).0 == acc + spec_pieces(s, pos, in_arg, Seq::empty()).0,
        spec_pieces(s, pos, in_arg, acc).1 == spec_pieces(s, pos, in_arg, Seq::empty()).1,
    decreases s.len() - pos,
{
    if pos < 0 || pos >= s.len() || (in_arg && s[pos] == 41) {
        assert(spec_pieces(s, pos, in_arg, acc).0 =~= acc + spec_pieces(
            s,
            pos,
            in_arg,
            Seq::empty(),
        ).0);
    } else {
        let (p, pos2) = spec_piece(s, pos, in_arg);
        let next = if pos2 <= pos || pos2 > s.len() {
            pos + 1
        } else {
            pos2
        };
        lemma_pieces_acc(s, next, in_arg, acc.push(p));
        lemma_pieces_acc(s, next, in_arg, Seq::empty().push(p));
        assert(acc.push(p) + spec_pieces(s, next, in_arg, Seq::empty()).0 =~= acc + (Seq::empty()
            .push(p) + spec_pieces(s, next, in_arg, Seq::empty()).0));
    }
}

/// The default pattern compiles without a single error chunk.
pub proof fn lemma_default_pattern_error_free()
    ensures
        seq_error_free(compiled_chunks(crate::bytes::default_pattern())),
{
    let s = crate::bytes::default_pattern();
    let e: Seq<u8> = Seq::empty();
    let ep: Seq<PieceV> = Seq::empty();
    let dp = crate::params::default_params();
    assert(spec_name(s, 2, e.push(100u8)) == e.push(100u8));
    let a0 = PieceV::Argument { name: e.push(100u8), arg: ep, params: dp };
    assert(spec_argument(s, 0) == (a0, 3int));
    assert(spec_text(s, 4, false, e.push(32u8)) == (e.push(32u8), 4int));
    assert(spec_text(s, 3, false, e) == (e.push(32u8), 4int));
    let t1 = PieceV::Text(e.push(32u8));
    assert(spec_name(s, 6, e.push(108u8)) == e.push(108u8));
    let a2 = PieceV::Argument { name: e.push(108u8), arg: ep, params: dp };
    assert(spec_argument(s, 4) == (a2, 7int));
    assert(spec_text(s, 8, false, e.push(32u8)) == (e.push(32u8), 8int));
    assert(spec_text(s, 7, false, e) == (e.push(32u8), 8int));
    let t3 = PieceV::Text(e.push(32u8));
    assert(spec_name(s, 10, e.push(116u8)) == e.push(116u8));
    let a4 = PieceV::Argument { name: e.push(116u8), arg: ep, params: dp };
    assert(spec_argument(s, 8) == (a4, 11int));
    assert(spec_text(s, 14, false, e.push(32u8).push(45u8).push(32u8)) == (
        e.push(32u8).push(45u8).push(32u8),
        14int,
    ));
    assert(spec_text(s, 13, false, e.push(32u8).push(45u8)) == (
        e.push(32u8).push(45u8).push(32u8),
        14int,
    ));
    assert(spec_text(s, 12, false, e.push(32u8)) == (e.push(32u8).push(45u8).push(32u8), 14int));
    assert(spec_text(s, 11, false, e) == (e.push(32u8).push(45u8).push(32u8), 14int));
    let t5 = PieceV::Text(e.push(32u8).push(45u8).push(32u8));
    assert(spec_name(s, 16, e.push(109u8)) == e.push(109u8));
    let a6 = PieceV::Argument { name: e.push(109u8), arg: ep, params: dp };
    assert(spec_argument(s, 14) == (a6, 17int));
    assert(spec_name(s, 19, e.push(110u8)) == e.push(110u8));
    let a7 = PieceV::Argument { name: e.push(110u8), arg: ep, params: dp };
    assert(spec_argument(s, 17) == (a7, 20int));
    assert(spec_piece(s, 0, false) == (a0, 3int));
    assert(spec_piece(s, 3, false) == (t1, 4int));
    assert(spec_piece(s, 4, false) == (a2, 7int));
    assert(spec_piece(s, 7, false) == (t3, 8int));
    assert(spec_piece(s, 8, false) == (a4, 11int));
    assert(spec_piece(s, 11, false) == (t5, 14int));
    assert(spec_piece(s, 14, false) == (a6, 17int));
    assert(spec_piece(s, 17, false) == (a7, 20int));
    assert(spec_pieces(s, 20, false, ep).0 =~= ep);
    lemma_pieces_acc(s, 3, false, ep.push(a0));
    lemma_pieces_acc(s, 4, false, ep.push(t1));
    lemma_pieces_acc(s, 7, false, ep.push(a2));
    lemma_pieces_acc(s, 8, false, ep.push(t3));
    lemma_pieces_acc(s, 11, false, ep.push(a4));
    lemma_pieces_acc(s, 14, false, ep.push(t5));
    lemma_pieces_acc(s, 17, false, ep.push(a6));
    lemma_pieces_acc(s, 20, false, ep.push(a7));
    assert(spec_pieces(s, 0, false, ep).0 =~= seq![a0] + spec_pieces(s, 3, false, ep).0);
    assert(spec_pieces(s, 3, false, ep).0 =~= seq![t1] + spec_pieces(s, 4, false, ep).0);
    assert(spec_pieces(s, 4, false, ep).0 =~= seq![a2] + spec_pieces(s, 7, false, ep).0);
    assert(spec_pieces(s, 7, false, ep).0 =~= seq![t3] + spec_pieces(s, 8, false, ep).0);
    assert(spec_pieces(s, 8, false, ep).0 =~= seq![a4] + spec_pieces(s, 11, false, ep).0);
    assert(spec_pieces(s, 11, false, ep).0 =~= seq![t5] + spec_pieces(s, 14, false, ep).0);
    assert(spec_pieces(s, 14, false, ep).0 =~= seq![a6] + spec_pieces(s, 17, false, ep).0);
    assert(spec_pieces(s, 17, false, ep).0 =~= seq![a7] + spec_pieces(s, 20, false, ep).0);
    let ps = spec_parse(s);
    assert(ps =~= seq![a0, t1, a2, t3, a4, t5, a6, a7]);
    lemma_spec_chunks_of_index(ps);
    let cs = compiled_chunks(s);
    assert forall|i: int| 0 <= i < cs.len() implies !(cs[i] is Error) by {
        assert(cs[i] == spec_chunk_of(ps[i]));
    }
}

/// Compilation is deterministic: two encoders built from the same pattern
/// render the same bytes, and fail on the same records, whatever the
/// record and timestamp.
pub proof fn lemma_compile_deterministic(
    e1: PatternEncoder,
    e2: PatternEncoder,
    pattern: Seq<u8>,
    rv: RecordV,
)
    requires
        e1.spec_chunks() == compiled_chunks(pattern),
        e2.spec_chunks() == compiled_chunks(pattern),
    ensures
        spec_render_upto(e1.spec_chunks(), rv, e1.spec_chunks().len() as int)
            == spec_render_upto(e2.spec_chunks(), rv, e2.spec_chunks().len() as int),
        spec_ok_upto(e1.spec_chunks(), rv, e1.spec_chunks().len() as int) == spec_ok_upto(
            e2.spec_chunks(),
            rv,
            e2.spec_chunks().len() as int,
        ),
{
}

} // verus!
