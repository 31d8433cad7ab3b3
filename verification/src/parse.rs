//! The pattern parser.
//!
//! A pattern is a run of literal text and formatter invocations:
//! `pattern = (text | argument)*`, where `argument = '{' name [ '(' pattern
//! ')' ] [ ':' param-spec ] '}'` and `param-spec = [fill]align? width?
//! ('.' precision)?`. The doubled braces `{{` and `}}` decode to single
//! literal braces inside a text run. The parser is total: malformed input
//! turns into `Error` pieces in place, never a failure.
//!
//! The grammar is defined once, as the `spec_*` functions over byte
//! sequences; the executable parser is proved to return exactly their value.

use vstd::prelude::*;

use crate::params::Alignment;
use crate::params::Parameters;
use crate::params::default_params;
use crate::bytes::msg_unclosed;
use crate::bytes::msg_stray_close;
use crate::bytes::msg_bad_params;
use crate::bytes::push_msg_unclosed;
use crate::bytes::push_msg_stray_close;
use crate::bytes::push_msg_bad_params;

verus! {

broadcast use vstd::seq::group_seq_axioms;

/// One parsed unit of a pattern: literal text, a formatter invocation with
/// its nested sub-pattern and parameters, or a localized parse error.
pub enum Piece {
    Text(Vec<u8>),
    Argument { name: Vec<u8>, arg: Vec<Piece>, params: Parameters },
    Error(Vec<u8>),
}

/// The mathematical shape of a [`Piece`], over byte sequences.
pub enum PieceV {
    Text(Seq<u8>),
    Argument { name: Seq<u8>, arg: Seq<PieceV>, params: Parameters },
    Error(Seq<u8>),
}

/// The model value of one piece.
pub open spec fn piece_view(p: Piece) -> PieceV
    decreases p,
{
    match p {
        Piece::Text(t) => PieceV::Text(t@),
        Piece::Argument { name, arg, params } => PieceV::Argument {
            name: name@,
            arg: pieces_view(arg@),
            params,
        },
        Piece::Error(m) => PieceV::Error(m@),
    }
}

/// The model values of a sequence of pieces.
pub open spec fn pieces_view(ps: Seq<Piece>) -> Seq<PieceV>
    decreases ps,
{
    if ps.len() == 0 {
        Seq::empty()
    } else {
        pieces_view(ps.drop_last()).push(piece_view(ps.last()))
    }
}

/// A size measure on pieces, used to bound recursion over the tree.
pub open spec fn piece_size(p: Piece) -> nat
    decreases p,
{
    match p {
        Piece::Text(_) => 1,
        Piece::Error(_) => 1,
        Piece::Argument { name: _, arg, params: _ } => 1 + pieces_size(arg@),
    }
}

/// The summed size of a sequence of pieces.
pub open spec fn pieces_size(ps: Seq<Piece>) -> nat
    decreases ps,
{
    if ps.len() == 0 {
        0
    } else {
        pieces_size(ps.drop_last()) + piece_size(ps.last())
    }
}

/// Every element weighs no more than the whole sequence.
pub proof fn lemma_pieces_size_index(ps: Seq<Piece>, i: int)
    requires
        0 <= i < ps.len(),
    ensures
        piece_size(ps[i]) <= pieces_size(ps),
    decreases ps.len(),
{
    if i == ps.len() - 1 {
        assert(ps.last() == ps[i]);
    } else {
        lemma_pieces_size_index(ps.drop_last(), i);
        assert(ps.drop_last()[i] == ps[i]);
    }
}

/// `pieces_view` is the pointwise image of `piece_view`.
pub proof fn lemma_pieces_view_index(ps: Seq<Piece>)
    ensures
        pieces_view(ps).len() == ps.len(),
        forall|i: int| 0 <= i < ps.len() ==> pieces_view(ps)[i] == piece_view(ps[i]),
    decreases ps.len(),
{
    if ps.len() > 0 {
        lemma_pieces_view_index(ps.drop_last());
    }
}

/// A decimal digit.
pub open spec fn is_digit(b: u8) -> bool {
    48 <= b <= 57
}

/// A byte that may appear in a formatter name (ASCII letters and digits).
pub open spec fn is_name_byte(b: u8) -> bool {
    (48 <= b <= 57) || (65 <= b <= 90) || (97 <= b <= 122)
}

/// Whether the byte at `pos` begins a non-empty text run: any byte that is
/// not structural, or a doubled (escaped) brace.
pub open spec fn is_text_start(s: Seq<u8>, pos: int, in_arg: bool) -> bool {
    let b = s[pos];
    if b == 123 || b == 125 {
        pos + 1 < s.len() && s[pos + 1] == b
    } else {
        !(in_arg && b == 41)
    }
}

/// Consumes a maximal text run starting at `pos`, decoding `{{` and `}}` to
/// single braces. Inside a parenthesized sub-pattern (`in_arg`), a `)` ends
/// the run. Returns the accumulated text and the position after the run.
pub open spec fn spec_text(s: Seq<u8>, pos: int, in_arg: bool, acc: Seq<u8>) -> (Seq<u8>, int)
    decreases s.len() - pos,
{
    if pos < 0 || pos >= s.len() {
        (acc, pos)
    } else {
        let b = s[pos];
        if b == 123 || b == 125 {
            if pos + 1 < s.len() && s[pos + 1] == b {
                spec_text(s, pos + 2, in_arg, acc.push(b))
            } else {
                (acc, pos)
            }
        } else if in_arg && b == 41 {
            (acc, pos)
        } else {
            spec_text(s, pos + 1, in_arg, acc.push(b))
        }
    }
}

/// Consumes a (possibly empty) formatter name starting at `pos`.
pub open spec fn spec_name(s: Seq<u8>, pos: int, acc: Seq<u8>) -> Seq<u8>
    decreases s.len() - pos,
{
    if pos < 0 || pos >= s.len() {
        acc
    } else if is_name_byte(s[pos]) {
        spec_name(s, pos + 1, acc.push(s[pos]))
    } else {
        acc
    }
}

/// Consumes a decimal digit run starting at `pos`, accumulating its value
/// and saturating at `usize::MAX`. Returns the value and the end position.
pub open spec fn spec_num(s: Seq<u8>, pos: int, acc: usize) -> (usize, int)
    decreases s.len() - pos,
{
    if pos < 0 || pos >= s.len() {
        (acc, pos)
    } else if is_digit(s[pos]) {
        let v = acc as int * 10 + (s[pos] - 48) as int;
        let a2: usize = if v > usize::MAX as int {
            usize::MAX
        } else {
            v as usize
        };
        spec_num(s, pos + 1, a2)
    } else {
        (acc, pos)
    }
}

/// Recognizes `[fill]align` at `pos`: a fill byte counts only when the next
/// byte is `<` or `>`; a lone `<` or `>` gets the default space fill.
pub open spec fn spec_fill_align(s: Seq<u8>, pos: int) -> (u8, Alignment, int) {
    if 0 <= pos && pos + 1 < s.len() && (s[pos + 1] == 60 || s[pos + 1] == 62) {
        (s[pos], if s[pos + 1] == 60 { Alignment::Left } else { Alignment::Right }, pos + 2)
    } else if 0 <= pos && pos < s.len() && (s[pos] == 60 || s[pos] == 62) {
        (32u8, if s[pos] == 60 { Alignment::Left } else { Alignment::Right }, pos + 1)
    } else {
        (32u8, Alignment::Left, pos)
    }
}

/// Recognizes `'.' digits` at `pos`; the dot counts only when at least one
/// digit follows, so a stray dot is left for the caller to reject.
pub open spec fn spec_precision(s: Seq<u8>, pos: int) -> (Option<usize>, int) {
    if 0 <= pos && pos + 1 < s.len() && s[pos] == 46 && is_digit(s[pos + 1]) {
        let (v, e) = spec_num(s, pos + 1, 0);
        (Some(v), e)
    } else {
        (None, pos)
    }
}

/// Parses a whole parameter spec `[fill]align? width? ('.' precision)?`.
pub open spec fn spec_params(s: Seq<u8>, pos: int) -> (Parameters, int) {
    let (fill, align, p1) = spec_fill_align(s, pos);
    let (width, p2) = spec_num(s, p1, 0);
    let (precision, p3) = spec_precision(s, p2);
    (Parameters { fill, align, width, precision }, p3)
}

/// The position just after the next `}` at or after `pos`, or the end of the
/// input when none is left.
pub open spec fn spec_skip_brace(s: Seq<u8>, pos: int) -> int
    decreases s.len() - pos,
{
    if pos < 0 || pos >= s.len() {
        s.len() as int
    } else if s[pos] == 125 {
        pos + 1
    } else {
        spec_skip_brace(s, pos + 1)
    }
}

/// Parses pieces from `pos` until the input ends — or, inside a
/// parenthesized sub-pattern, until an unconsumed `)`. Returns the pieces
/// appended to `acc` and the end position. The parser always moves forward;
/// the guard on `next` only keeps the measure visibly decreasing.
pub open spec fn spec_pieces(s: Seq<u8>, pos: int, in_arg: bool, acc: Seq<PieceV>) -> (
    Seq<PieceV>,
    int,
)
    decreases s.len() - pos, 2int,
{
    if pos < 0 || pos >= s.len() {
        (acc, pos)
    } else if in_arg && s[pos] == 41 {
        (acc, pos)
    } else {
        let (p, pos2) = spec_piece(s, pos, in_arg);
        let next = if pos2 <= pos || pos2 > s.len() {
            pos + 1
        } else {
            pos2
        };
        spec_pieces(s, next, in_arg, acc.push(p))
    }
}

/// Parses a single piece at `pos`: an argument at a structural `{`, an error
/// at a stray `}`, and a text run otherwise.
pub open spec fn spec_piece(s: Seq<u8>, pos: int, in_arg: bool) -> (PieceV, int)
    decreases s.len() - pos, 1int,
{
    if pos < 0 || pos >= s.len() {
        (PieceV::Error(Seq::empty()), pos)
    } else {
        let b = s[pos];
        if b == 123 && !(pos + 1 < s.len() && s[pos + 1] == 123) {
            spec_argument(s, pos)
        } else if b == 125 && !(pos + 1 < s.len() && s[pos + 1] == 125) {
            (PieceV::Error(msg_stray_close()), pos + 1)
        } else {
            let (t, e) = spec_text(s, pos, in_arg, Seq::empty());
            (PieceV::Text(t), e)
        }
    }
}

/// Parses one formatter invocation whose `{` stands at `pos`: the name, an
/// optional parenthesized sub-pattern, an optional parameter spec, and the
/// closing `}`. When the input ends first, the whole unterminated tail
/// becomes one `Error` piece.
pub open spec fn spec_argument(s: Seq<u8>, pos: int) -> (PieceV, int)
    decreases s.len() - pos, 0int,
{
    let name = spec_name(s, pos + 1, Seq::empty());
    let p1 = pos + 1 + name.len();
    if p1 < s.len() && s[p1] == 40 {
        let (args, p2) = spec_pieces(s, p1 + 1, true, Seq::empty());
        if p2 < s.len() && s[p2] == 41 {
            spec_arg_tail(s, p2 + 1, name, args)
        } else {
            (PieceV::Error(msg_unclosed()), s.len() as int)
        }
    } else {
        spec_arg_tail(s, p1, name, Seq::empty())
    }
}

/// After name and sub-pattern: an optional `':' param-spec`.
pub open spec fn spec_arg_tail(s: Seq<u8>, pos: int, name: Seq<u8>, args: Seq<PieceV>) -> (
    PieceV,
    int,
) {
    if 0 <= pos && pos < s.len() && s[pos] == 58 {
        let (params, p2) = spec_params(s, pos + 1);
        spec_arg_close(s, p2, name, args, params)
    } else {
        spec_arg_close(s, pos, name, args, default_params())
    }
}

/// The closing `}` of an invocation. A missing one at the end of input means
/// the invocation was unterminated; any other byte means the parameter spec
/// did not match the grammar, and parsing resumes after the next `}`.
pub open spec fn spec_arg_close(
    s: Seq<u8>,
    pos: int,
    name: Seq<u8>,
    args: Seq<PieceV>,
    params: Parameters,
) -> (PieceV, int) {
    if 0 <= pos && pos < s.len() && s[pos] == 125 {
        (PieceV::Argument { name, arg: args, params }, pos + 1)
    } else if pos >= s.len() {
        (PieceV::Error(msg_unclosed()), s.len() as int)
    } else {
        (PieceV::Error(msg_bad_params()), spec_skip_brace(s, pos))
    }
}

/// The name run stays within the input.
pub proof fn lemma_name_bounds(s: Seq<u8>, pos: int, acc: Seq<u8>)
    requires
        0 <= pos <= s.len(),
    ensures
        spec_name(s, pos, acc).len() >= acc.len(),
        pos + (spec_name(s, pos, acc).len() - acc.len()) <= s.len(),
    decreases s.len() - pos,
{
    if pos < s.len() && is_name_byte(s[pos]) {
        lemma_name_bounds(s, pos + 1, acc.push(s[pos]));
    }
}

/// The digit run never moves backwards nor past the end of the input.
pub proof fn lemma_num_bounds(s: Seq<u8>, pos: int, acc: usize)
    requires
        0 <= pos <= s.len(),
    ensures
        pos <= spec_num(s, pos, acc).1 <= s.len(),
    decreases s.len() - pos,
{
    if pos < s.len() && is_digit(s[pos]) {
        let v = acc as int * 10 + (s[pos] - 48) as int;
        let a2: usize = if v > usize::MAX as int {
            usize::MAX
        } else {
            v as usize
        };
        lemma_num_bounds(s, pos + 1, a2);
    }
}

/// The parameter spec never moves backwards nor past the end of the input.
pub proof fn lemma_params_bounds(s: Seq<u8>, pos: int)
    requires
        0 <= pos <= s.len(),
    ensures
        pos <= spec_params(s, pos).1 <= s.len(),
{
    let (fill, align, p1) = spec_fill_align(s, pos);
    assert(pos <= p1 <= s.len());
    lemma_num_bounds(s, p1, 0);
    let (width, p2) = spec_num(s, p1, 0);
    if 0 <= p2 && p2 + 1 < s.len() && s[p2] == 46 && is_digit(s[p2 + 1]) {
        lemma_num_bounds(s, p2 + 1, 0);
    }
}

/// With no closing brace left, the skip consumes everything.
pub proof fn lemma_skip_no_brace(s: Seq<u8>, pos: int)
    requires
        0 <= pos <= s.len(),
        forall|j: int| pos <= j < s.len() ==> s[j] != 125,
    ensures
        spec_skip_brace(s, pos) == s.len(),
    decreases s.len() - pos,
{
    if pos < s.len() {
        lemma_skip_no_brace(s, pos + 1);
    }
}

/// Piece-sequence parsing never moves backwards nor past the end.
pub proof fn lemma_pieces_bounds(s: Seq<u8>, pos: int, in_arg: bool, acc: Seq<PieceV>)
    requires
        0 <= pos <= s.len(),
    ensures
        pos <= spec_pieces(s, pos, in_arg, acc).1 <= s.len(),
    decreases s.len() - pos, 2int,
{
    if pos < s.len() && !(in_arg && s[pos] == 41) {
        let (p, pos2) = spec_piece(s, pos, in_arg);
        let next = if pos2 <= pos || pos2 > s.len() {
            pos + 1
        } else {
            pos2
        };
        lemma_pieces_bounds(s, next, in_arg, acc.push(p));
    }
}

/// The parse of a whole pattern: the piece sequence the pattern denotes.
pub open spec fn spec_parse(s: Seq<u8>) -> Seq<PieceV> {
    spec_pieces(s, 0, false, Seq::empty()).0
}

/// Executable text run; appends the decoded text to `out`.
fn text_run(s: &[u8], pos: usize, in_arg: bool, out: &mut Vec<u8>) -> (r: usize)
    requires
        pos <= s@.len(),
    ensures
        ({
            let (t, e) = spec_text(s@, pos as int, in_arg, old(out)@);
            &&& final(out)@ == t
            &&& r as int == e
            &&& pos <= r <= s@.len()
        }),
        pos < s@.len() && is_text_start(s@, pos as int, in_arg) ==> pos < r,
    decreases s@.len() - pos,
{
    if pos >= s.len() {
        return pos;
    }
    let b = s[pos];
    if b == 123 || b == 125 {
        if pos + 1 < s.len() && s[pos + 1] == b {
            out.push(b);
            text_run(s, pos + 2, in_arg, out)
        } else {
            pos
        }
    } else if in_arg && b == 41 {
        pos
    } else {
        out.push(b);
        text_run(s, pos + 1, in_arg, out)
    }
}

/// Executable name run; appends the name bytes to `out` and returns the
/// position after the run.
fn name_run(s: &[u8], pos: usize, out: &mut Vec<u8>) -> (r: usize)
    requires
        pos <= s@.len(),
    ensures
        final(out)@ == spec_name(s@, pos as int, old(out)@),
        r as int == pos + (final(out)@.len() - old(out)@.len()),
        pos <= r <= s@.len(),
    decreases s@.len() - pos,
{
    if pos >= s.len() {
        return pos;
    }
    let b = s[pos];
    if (48 <= b && b <= 57) || (65 <= b && b <= 90) || (97 <= b && b <= 122) {
        out.push(b);
        name_run(s, pos + 1, out)
    } else {
        pos
    }
}

/// Executable digit run with saturation at `usize::MAX`.
fn num_run(s: &[u8], pos: usize, acc: usize) -> (r: (usize, usize))
    requires
        pos <= s@.len(),
    ensures
        r.0 == spec_num(s@, pos as int, acc).0,
        r.1 as int == spec_num(s@, pos as int, acc).1,
        pos <= r.1 <= s@.len(),
    decreases s@.len() - pos,
{
    if pos >= s.len() {
        return (acc, pos);
    }
    let b = s[pos];
    if 48 <= b && b <= 57 {
        let d = (b - 48) as usize;
        let a2 = match acc.checked_mul(10) {
            Some(x) => match x.checked_add(d) {
                Some(y) => y,
                None => usize::MAX,
            },
            None => usize::MAX,
        };
        num_run(s, pos + 1, a2)
    } else {
        (acc, pos)
    }
}

/// Executable fill/alignment recognizer.
fn fill_align(s: &[u8], pos: usize) -> (r: (u8, Alignment, usize))
    requires
        pos <= s@.len(),
    ensures
        r.0 == spec_fill_align(s@, pos as int).0,
        r.1 == spec_fill_align(s@, pos as int).1,
        r.2 as int == spec_fill_align(s@, pos as int).2,
        pos <= r.2 <= s@.len(),
{
    if pos < s.len() && pos + 1 < s.len() && (s[pos + 1] == 60 || s[pos + 1] == 62) {
        let align = if s[pos + 1] == 60 {
            Alignment::Left
        } else {
            Alignment::Right
        };
        (s[pos], align, pos + 2)
    } else if pos < s.len() && (s[pos] == 60 || s[pos] == 62) {
        let align = if s[pos] == 60 {
            Alignment::Left
        } else {
            Alignment::Right
        };
        (32u8, align, pos + 1)
    } else {
        (32u8, Alignment::Left, pos)
    }
}

/// Executable precision recognizer.
fn precision_run(s: &[u8], pos: usize) -> (r: (Option<usize>, usize))
    requires
        pos <= s@.len(),
    ensures
        r.0 == spec_precision(s@, pos as int).0,
        r.1 as int == spec_precision(s@, pos as int).1,
        pos <= r.1 <= s@.len(),
{
    if pos < s.len() && pos + 1 < s.len() && s[pos] == 46 && 48 <= s[pos + 1] && s[pos + 1]
        <= 57 {
        let (v, e) = num_run(s, pos + 1, 0);
        (Some(v), e)
    } else {
        (None, pos)
    }
}

/// Executable parameter-spec parser.
fn params_run(s: &[u8], pos: usize) -> (r: (Parameters, usize))
    requires
        pos <= s@.len(),
    ensures
        r.0 == spec_params(s@, pos as int).0,
        r.1 as int == spec_params(s@, pos as int).1,
        pos <= r.1 <= s@.len(),
{
    let (fill, align, p1) = fill_align(s, pos);
    let (width, p2) = num_run(s, p1, 0);
    let (precision, p3) = precision_run(s, p2);
    (Parameters { fill, align, width, precision }, p3)
}

/// Executable skip past the next `}`.
fn skip_brace_run(s: &[u8], pos: usize) -> (r: usize)
    requires
        pos <= s@.len(),
    ensures
        r as int == spec_skip_brace(s@, pos as int),
        pos <= r <= s@.len(),
    decreases s@.len() - pos,
{
    if pos >= s.len() {
        return s.len();
    }
    if s[pos] == 125 {
        pos + 1
    } else {
        skip_brace_run(s, pos + 1)
    }
}

/// Executable piece parser at one position.
fn parse_piece_at(s: &[u8], pos: usize, in_arg: bool) -> (r: (Piece, usize))
    requires
        pos < s@.len(),
        !(in_arg && s@[pos as int] == 41),
    ensures
        piece_view(r.0) == spec_piece(s@, pos as int, in_arg).0,
        r.1 as int == spec_piece(s@, pos as int, in_arg).1,
        pos < r.1 <= s@.len(),
    decreases s@.len() - pos, 1int,
{
    let n: usize = s.len();
    let b = s[pos];
    if b == 123 && !(pos + 1 < s.len() && s[pos + 1] == 123) {
        parse_argument_at(s, pos)
    } else if b == 125 && !(pos + 1 < s.len() && s[pos + 1] == 125) {
        let mut msg: Vec<u8> = Vec::new();
        push_msg_stray_close(&mut msg);
        proof {
            assert(msg@ =~= msg_stray_close());
        }
        (Piece::Error(msg), pos + 1)
    } else {
        let mut text: Vec<u8> = Vec::new();
        let e = text_run(s, pos, in_arg, &mut text);
        (Piece::Text(text), e)
    }
}

/// Executable argument parser; `pos` stands on the opening `{`.
fn parse_argument_at(s: &[u8], pos: usize) -> (r: (Piece, usize))
    requires
        pos < s@.len(),
        s@[pos as int] == 123,
    ensures
        piece_view(r.0) == spec_argument(s@, pos as int).0,
        r.1 as int == spec_argument(s@, pos as int).1,
        pos < r.1 <= s@.len(),
    decreases s@.len() - pos, 0int,
{
    let n: usize = s.len();
    let mut name: Vec<u8> = Vec::new();
    let p1 = name_run(s, pos + 1, &mut name);
    if p1 < s.len() && s[p1] == 40 {
        let mut args: Vec<Piece> = Vec::new();
        proof {
            assert(pieces_view(Seq::<Piece>::empty()) =~= Seq::<PieceV>::empty());
        }
        let p2 = parse_pieces_at(s, p1 + 1, true, &mut args);
        if p2 < s.len() && s[p2] == 41 {
            parse_arg_tail(s, p2 + 1, name, args)
        } else {
            let mut msg: Vec<u8> = Vec::new();
            push_msg_unclosed(&mut msg);
            proof {
                assert(msg@ =~= msg_unclosed());
            }
            (Piece::Error(msg), s.len())
        }
    } else {
        parse_arg_tail(s, p1, name, Vec::new())
    }
}

/// Executable `':' param-spec` tail of an argument.
fn parse_arg_tail(s: &[u8], pos: usize, name: Vec<u8>, args: Vec<Piece>) -> (r: (Piece, usize))
    requires
        pos <= s@.len(),
    ensures
        piece_view(r.0) == spec_arg_tail(s@, pos as int, name@, pieces_view(args@)).0,
        r.1 as int == spec_arg_tail(s@, pos as int, name@, pieces_view(args@)).1,
        pos <= r.1 <= s@.len(),
{
    if pos < s.len() && s[pos] == 58 {
        let (params, p2) = params_run(s, pos + 1);
        parse_arg_close(s, p2, name, args, params)
    } else {
        parse_arg_close(s, pos, name, args, Parameters::new_default())
    }
}

/// Executable closing-brace step of an argument.
fn parse_arg_close(s: &[u8], pos: usize, name: Vec<u8>, args: Vec<Piece>, params: Parameters) -> (r:
    (Piece, usize))
    requires
        pos <= s@.len(),
    ensures
        piece_view(r.0) == spec_arg_close(s@, pos as int, name@, pieces_view(args@), params).0,
        r.1 as int == spec_arg_close(s@, pos as int, name@, pieces_view(args@), params).1,
        pos <= r.1 <= s@.len(),
{
    if pos < s.len() && s[pos] == 125 {
        (Piece::Argument { name, arg: args, params }, pos + 1)
    } else if pos >= s.len() {
        let mut msg: Vec<u8> = Vec::new();
        push_msg_unclosed(&mut msg);
        proof {
            assert(msg@ =~= msg_unclosed());
        }
        (Piece::Error(msg), s.len())
    } else {
        let mut msg: Vec<u8> = Vec::new();
        push_msg_bad_params(&mut msg);
        proof {
            assert(msg@ =~= msg_bad_params());
        }
        (Piece::Error(msg), skip_brace_run(s, pos))
    }
}

/// Executable piece-sequence parser; appends parsed pieces to `out`.
fn parse_pieces_at(s: &[u8], pos: usize, in_arg: bool, out: &mut Vec<Piece>) -> (r: usize)
    requires
        pos <= s@.len(),
    ensures
        ({
            let (ps, e) = spec_pieces(s@, pos as int, in_arg, pieces_view(old(out)@));
            &&& pieces_view(final(out)@) == ps
            &&& r as int == e
            &&& pos <= r <= s@.len()
        }),
    decreases s@.len() - pos, 2int,
{
    if pos >= s.len() {
        return pos;
    }
    if in_arg && s[pos] == 41 {
        return pos;
    }
    let (p, pos2) = parse_piece_at(s, pos, in_arg);
    let ghost pv = piece_view(p);
    let ghost before = out@;
    out.push(p);
    proof {
        assert(out@.drop_last() =~= before);
        assert(out@.last() == out@[out@.len() - 1]);
        assert(pieces_view(out@) == pieces_view(before).push(pv));
    }
    parse_pieces_at(s, pos2, in_arg, out)
}

/// Parses a whole pattern into its piece sequence.
pub fn parse_pattern(s: &[u8]) -> (r: Vec<Piece>)
    ensures
        pieces_view(r@) == spec_parse(s@),
{
    let mut out: Vec<Piece> = Vec::new();
    proof {
        assert(pieces_view(Seq::<Piece>::empty()) =~= Seq::<PieceV>::empty());
    }
    let _end: usize = parse_pieces_at(s, 0, false, &mut out);
    out
}

} // verus!
