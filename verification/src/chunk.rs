//! The chunk compiler.
//!
//! Each parsed [`Piece`] compiles to one [`Chunk`]: literal text passes
//! through, a formatter name resolves to its renderer, and anything
//! unresolvable — an unknown name, arguments handed to a zero-argument
//! formatter, a parse error — becomes an `Error` chunk in place, so one bad
//! construct never prevents the rest of the pattern from rendering.

use vstd::prelude::*;

use crate::params::Parameters;
use crate::parse::Piece;
use crate::parse::PieceV;
use crate::parse::piece_view;
use crate::parse::pieces_view;
use crate::parse::lemma_pieces_view_index;
use crate::parse::piece_size;
use crate::parse::pieces_size;
use crate::parse::lemma_pieces_size_index;
use crate::bytes::err_open;
use crate::bytes::err_unexpected_formatter;
use crate::bytes::msg_unknown_prefix;
use crate::bytes::msg_unexpected_args;
use crate::bytes::default_date_format;
use crate::bytes::push_err_open;
use crate::bytes::push_err_unexpected_formatter;
use crate::bytes::push_msg_unknown_prefix;
use crate::bytes::push_msg_unexpected_args;
use crate::bytes::push_default_date_format;
use crate::bytes::append_slice;

verus! {

broadcast use {vstd::seq::group_seq_axioms, vstd::std_specs::vec::group_vec_axioms};

/// A compiled renderer: one of the built-in fields, or a group of chunks
/// that is aligned and truncated as a single unit.
pub enum FormattedChunk {
    Time(Vec<u8>),
    Level,
    Message,
    Module,
    File,
    Line,
    Thread,
    Target,
    Newline,
    Group(Vec<Chunk>),
}

/// One compiled unit of a pattern: literal text, a renderer with its bound
/// parameters, or an inline diagnostic.
pub enum Chunk {
    Text(Vec<u8>),
    Formatted { chunk: FormattedChunk, params: Parameters },
    Error(Vec<u8>),
}

/// The mathematical shape of a [`FormattedChunk`].
pub enum FormattedChunkV {
    Time(Seq<u8>),
    Level,
    Message,
    Module,
    File,
    Line,
    Thread,
    Target,
    Newline,
    Group(Seq<ChunkV>),
}

/// The mathematical shape of a [`Chunk`].
pub enum ChunkV {
    Text(Seq<u8>),
    Formatted { chunk: FormattedChunkV, params: Parameters },
    Error(Seq<u8>),
}

/// The model value of one chunk.
pub open spec fn chunk_view(c: Chunk) -> ChunkV
    decreases c,
{
    match c {
        Chunk::Text(t) => ChunkV::Text(t@),
        Chunk::Formatted { chunk, params } => ChunkV::Formatted {
            chunk: fchunk_view(chunk),
            params,
        },
        Chunk::Error(m) => ChunkV::Error(m@),
    }
}

/// The model value of one renderer.
pub open spec fn fchunk_view(f: FormattedChunk) -> FormattedChunkV
    decreases f,
{
    match f {
        FormattedChunk::Time(t) => FormattedChunkV::Time(t@),
        FormattedChunk::Level => FormattedChunkV::Level,
        FormattedChunk::Message => FormattedChunkV::Message,
        FormattedChunk::Module => FormattedChunkV::Module,
        FormattedChunk::File => FormattedChunkV::File,
        FormattedChunk::Line => FormattedChunkV::Line,
        FormattedChunk::Thread => FormattedChunkV::Thread,
        FormattedChunk::Target => FormattedChunkV::Target,
        FormattedChunk::Newline => FormattedChunkV::Newline,
        FormattedChunk::Group(cs) => FormattedChunkV::Group(chunks_view(cs@)),
    }
}

/// The model values of a sequence of chunks.
pub open spec fn chunks_view(cs: Seq<Chunk>) -> Seq<ChunkV>
    decreases cs,
{
    if cs.len() == 0 {
        Seq::empty()
    } else {
        chunks_view(cs.drop_last()).push(chunk_view(cs.last()))
    }
}

/// `chunks_view` is the pointwise image of `chunk_view`.
pub proof fn lemma_chunks_view_index(cs: Seq<Chunk>)
    ensures
        chunks_view(cs).len() == cs.len(),
        forall|i: int| 0 <= i < cs.len() ==> chunks_view(cs)[i] == chunk_view(cs[i]),
    decreases cs.len(),
{
    if cs.len() > 0 {
        lemma_chunks_view_index(cs.drop_last());
    }
}

/// What a formatter name resolves to.
#[derive(Clone, Copy)]
pub enum NameKind {
    Date,
    Level,
    Message,
    Module,
    File,
    Line,
    Thread,
    Target,
    Newline,
    Group,
    Unknown,
}

/// `"date"`.
pub open spec fn kw_date() -> Seq<u8> {
    seq![100u8, 97u8, 116u8, 101u8]
}

/// `"level"`.
pub open spec fn kw_level() -> Seq<u8> {
    seq![108u8, 101u8, 118u8, 101u8, 108u8]
}

/// `"message"`.
pub open spec fn kw_message() -> Seq<u8> {
    seq![109u8, 101u8, 115u8, 115u8, 97u8, 103u8, 101u8]
}

/// `"module"`.
pub open spec fn kw_module() -> Seq<u8> {
    seq![109u8, 111u8, 100u8, 117u8, 108u8, 101u8]
}

/// `"file"`.
pub open spec fn kw_file() -> Seq<u8> {
    seq![102u8, 105u8, 108u8, 101u8]
}

/// `"line"`.
pub open spec fn kw_line() -> Seq<u8> {
    seq![108u8, 105u8, 110u8, 101u8]
}

/// `"thread"`.
pub open spec fn kw_thread() -> Seq<u8> {
    seq![116u8, 104u8, 114u8, 101u8, 97u8, 100u8]
}

/// `"target"`.
pub open spec fn kw_target() -> Seq<u8> {
    seq![116u8, 97u8, 114u8, 103u8, 101u8, 116u8]
}

/// Resolves a formatter name: the empty name is the anonymous group; the
/// single letters `d l m M f L T t n` and the full words `date level message
/// module file line thread target` name the built-in fields.
pub open spec fn spec_name_kind(n: Seq<u8>) -> NameKind {
    if n.len() == 0 {
        NameKind::Group
    } else if n.len() == 1 {
        if n[0] == 100 {
            NameKind::Date
        } else if n[0] == 108 {
            NameKind::Level
        } else if n[0] == 109 {
            NameKind::Message
        } else if n[0] == 77 {
            NameKind::Module
        } else if n[0] == 102 {
            NameKind::File
        } else if n[0] == 76 {
            NameKind::Line
        } else if n[0] == 84 {
            NameKind::Thread
        } else if n[0] == 116 {
            NameKind::Target
        } else if n[0] == 110 {
            NameKind::Newline
        } else {
            NameKind::Unknown
        }
    } else if n == kw_date() {
        NameKind::Date
    } else if n == kw_level() {
        NameKind::Level
    } else if n == kw_message() {
        NameKind::Message
    } else if n == kw_module() {
        NameKind::Module
    } else if n == kw_file() {
        NameKind::File
    } else if n == kw_line() {
        NameKind::Line
    } else if n == kw_thread() {
        NameKind::Thread
    } else if n == kw_target() {
        NameKind::Target
    } else {
        NameKind::Unknown
    }
}

/// The renderer of a zero-argument field kind.
pub open spec fn spec_zero_arg(k: NameKind) -> FormattedChunkV {
    match k {
        NameKind::Level => FormattedChunkV::Level,
        NameKind::Message => FormattedChunkV::Message,
        NameKind::Module => FormattedChunkV::Module,
        NameKind::File => FormattedChunkV::File,
        NameKind::Line => FormattedChunkV::Line,
        NameKind::Thread => FormattedChunkV::Thread,
        NameKind::Target => FormattedChunkV::Target,
        NameKind::Newline => FormattedChunkV::Newline,
        _ => arbitrary(),
    }
}

/// Folds the pieces of a date sub-pattern into one format string: literal
/// text passes through, and anything else is re-embedded as diagnostic text.
pub open spec fn spec_date_fold(args: Seq<PieceV>, i: int, acc: Seq<u8>) -> Seq<u8>
    decreases args.len() - i,
{
    if i < 0 || i >= args.len() {
        acc
    } else {
        let a2 = match args[i] {
            PieceV::Text(t) => acc + t,
            PieceV::Argument { .. } => acc + err_unexpected_formatter(),
            PieceV::Error(m) => acc + err_open() + m + seq![125u8],
        };
        spec_date_fold(args, i + 1, a2)
    }
}

/// The date format string of a date sub-pattern; empty means the default
/// extended timestamp format.
pub open spec fn spec_date_format(args: Seq<PieceV>) -> Seq<u8> {
    let f = spec_date_fold(args, 0, Seq::empty());
    if f.len() == 0 {
        default_date_format()
    } else {
        f
    }
}

/// The chunk one piece compiles to.
pub open spec fn spec_chunk_of(p: PieceV) -> ChunkV
    decreases p,
{
    match p {
        PieceV::Text(t) => ChunkV::Text(t),
        PieceV::Error(m) => ChunkV::Error(m),
        PieceV::Argument { name, arg, params } => {
            let k = spec_name_kind(name);
            if k is Date {
                ChunkV::Formatted { chunk: FormattedChunkV::Time(spec_date_format(arg)), params }
            } else if k is Group {
                ChunkV::Formatted { chunk: FormattedChunkV::Group(spec_chunks_of(arg)), params }
            } else if k is Unknown {
                ChunkV::Error(msg_unknown_prefix() + name + seq![96u8])
            } else if arg.len() != 0 {
                ChunkV::Error(msg_unexpected_args())
            } else {
                ChunkV::Formatted { chunk: spec_zero_arg(k), params }
            }
        },
    }
}

/// The chunks a piece sequence compiles to, one chunk per piece.
pub open spec fn spec_chunks_of(ps: Seq<PieceV>) -> Seq<ChunkV>
    decreases ps,
{
    if ps.len() == 0 {
        Seq::empty()
    } else {
        spec_chunks_of(ps.drop_last()).push(spec_chunk_of(ps.last()))
    }
}

/// `spec_chunks_of` is the pointwise image of `spec_chunk_of`.
pub proof fn lemma_spec_chunks_of_index(ps: Seq<PieceV>)
    ensures
        spec_chunks_of(ps).len() == ps.len(),
        forall|i: int| 0 <= i < ps.len() ==> spec_chunks_of(ps)[i] == spec_chunk_of(ps[i]),
    decreases ps.len(),
{
    if ps.len() > 0 {
        lemma_spec_chunks_of_index(ps.drop_last());
    }
}

/// Copies a byte vector.
fn copy_bytes(v: &Vec<u8>) -> (r: Vec<u8>)
    ensures
        r@ == v@,
{
    let mut r: Vec<u8> = Vec::new();
    let mut i: usize = 0;
    while i < v.len()
        invariant
            i <= v@.len(),
            r@ == v@.take(i as int),
        decreases v@.len() - i,
    {
        r.push(v[i]);
        assert(r@ =~= v@.take(i + 1));
        i = i + 1;
    }
    assert(v@.take(v@.len() as int) =~= v@);
    r
}

/// Executable name resolution.
fn name_kind(n: &Vec<u8>) -> (k: NameKind)
    ensures
        k == spec_name_kind(n@),
{
    let len = n.len();
    if len == 0 {
        NameKind::Group
    } else if len == 1 {
        let b = n[0];
        if b == 100 {
            NameKind::Date
        } else if b == 108 {
            NameKind::Level
        } else if b == 109 {
            NameKind::Message
        } else if b == 77 {
            NameKind::Module
        } else if b == 102 {
            NameKind::File
        } else if b == 76 {
            NameKind::Line
        } else if b == 84 {
            NameKind::Thread
        } else if b == 116 {
            NameKind::Target
        } else if b == 110 {
            NameKind::Newline
        } else {
            NameKind::Unknown
        }
    } else if len == 4 && n[0] == 100 && n[1] == 97 && n[2] == 116 && n[3] == 101 {
        proof {
            assert(n@ =~= kw_date());
        }
        NameKind::Date
    } else if len == 5 && n[0] == 108 && n[1] == 101 && n[2] == 118 && n[3] == 101 && n[4]
        == 108 {
        proof {
            assert(n@ =~= kw_level());
        }
        NameKind::Level
    } else if len == 7 && n[0] == 109 && n[1] == 101 && n[2] == 115 && n[3] == 115 && n[4] == 97
        && n[5] == 103 && n[6] == 101 {
        proof {
            assert(n@ =~= kw_message());
        }
        NameKind::Message
    } else if len == 6 && n[0] == 109 && n[1] == 111 && n[2] == 100 && n[3] == 117 && n[4] == 108
        && n[5] == 101 {
        proof {
            assert(n@ =~= kw_module());
        }
        NameKind::Module
    } else if len == 4 && n[0] == 102 && n[1] == 105 && n[2] == 108 && n[3] == 101 {
        proof {
            assert(n@ =~= kw_file());
        }
        NameKind::File
    } else if len == 4 && n[0] == 108 && n[1] == 105 && n[2] == 110 && n[3] == 101 {
        proof {
            assert(n@ =~= kw_line());
        }
        NameKind::Line
    } else if len == 6 && n[0] == 116 && n[1] == 104 && n[2] == 114 && n[3] == 101 && n[4] == 97
        && n[5] == 100 {
        proof {
            assert(n@ =~= kw_thread());
        }
        NameKind::Thread
    } else if len == 6 && n[0] == 116 && n[1] == 97 && n[2] == 114 && n[3] == 103 && n[4] == 101
        && n[5] == 116 {
        proof {
            assert(n@ =~= kw_target());
        }
        NameKind::Target
    } else {
        NameKind::Unknown
    }
}

/// Builds the date format string of a date sub-pattern.
fn date_format_of_args(arg: &Vec<Piece>) -> (r: Vec<u8>)
    ensures
        r@ == spec_date_format(pieces_view(arg@)),
{
    let ghost pv = pieces_view(arg@);
    proof {
        lemma_pieces_view_index(arg@);
    }
    let mut out: Vec<u8> = Vec::new();
    let mut i: usize = 0;
    while i < arg.len()
        invariant
            i <= arg@.len(),
            pv == pieces_view(arg@),
            pv.len() == arg@.len(),
            forall|j: int| 0 <= j < arg@.len() ==> pv[j] == piece_view(arg@[j]),
            spec_date_fold(pv, i as int, out@) == spec_date_fold(pv, 0, Seq::empty()),
        decreases arg@.len() - i,
    {
        let ghost out0 = out@;
        match &arg[i] {
            Piece::Text(t) => {
                append_slice(&mut out, t.as_slice());
                proof {
                    assert(pv[i as int] == piece_view(arg@[i as int]));
                    assert(spec_date_fold(pv, i as int, out0) == spec_date_fold(pv, i + 1, out@));
                }
            },
            Piece::Argument { .. } => {
                push_err_unexpected_formatter(&mut out);
                proof {
                    assert(pv[i as int] == piece_view(arg@[i as int]));
                    assert(spec_date_fold(pv, i as int, out0) == spec_date_fold(pv, i + 1, out@));
                }
            },
            Piece::Error(m) => {
                push_err_open(&mut out);
                append_slice(&mut out, m.as_slice());
                out.push(125u8);
                proof {
                    assert(pv[i as int] == piece_view(arg@[i as int]));
                    assert(out@ =~= out0 + err_open() + m@ + seq![125u8]);
                    assert(spec_date_fold(pv, i as int, out0) == spec_date_fold(pv, i + 1, out@));
                }
            },
        }
        i = i + 1;
    }
    if out.len() == 0 {
        push_default_date_format(&mut out);
        proof {
            assert(Seq::<u8>::empty() + default_date_format() =~= default_date_format());
        }
    }
    out
}

/// Mirrors the arity check of the zero-argument formatters: a non-empty
/// sub-pattern is an error, anything else keeps the given renderer.
fn no_args(arg: &Vec<Piece>, chunk: FormattedChunk, params: Parameters) -> (c: Chunk)
    ensures
        chunk_view(c) == (if arg@.len() == 0 {
            ChunkV::Formatted { chunk: fchunk_view(chunk), params }
        } else {
            ChunkV::Error(msg_unexpected_args())
        }),
{
    if arg.len() == 0 {
        Chunk::Formatted { chunk, params }
    } else {
        let mut msg: Vec<u8> = Vec::new();
        push_msg_unexpected_args(&mut msg);
        proof {
            assert(msg@ =~= msg_unexpected_args());
        }
        Chunk::Error(msg)
    }
}

/// Compiles one piece into its chunk.
pub fn chunk_of_piece(p: &Piece) -> (c: Chunk)
    ensures
        chunk_view(c) == spec_chunk_of(piece_view(*p)),
    decreases piece_size(*p),
{
    match p {
        Piece::Text(t) => Chunk::Text(copy_bytes(t)),
        Piece::Error(m) => Chunk::Error(copy_bytes(m)),
        Piece::Argument { name, arg, params } => {
            proof {
                lemma_pieces_view_index(arg@);
            }
            let k = name_kind(name);
            match k {
                NameKind::Date => {
                    let f = date_format_of_args(arg);
                    Chunk::Formatted { chunk: FormattedChunk::Time(f), params: *params }
                },
                NameKind::Group => {
                    let mut cs: Vec<Chunk> = Vec::new();
                    let mut i: usize = 0;
                    let ghost pv = pieces_view(arg@);
                    proof {
                        lemma_spec_chunks_of_index(pv);
                        assert(chunks_view(cs@) =~= spec_chunks_of(pv.take(0)));
                        assert(pieces_size(arg@) < piece_size(*p));
                    }
                    while i < arg.len()
                        invariant
                            i <= arg@.len(),
                            pv == pieces_view(arg@),
                            pv.len() == arg@.len(),
                            pieces_size(arg@) < piece_size(*p),
                            forall|j: int| 0 <= j < arg@.len() ==> pv[j] == piece_view(arg@[j]),
                            chunks_view(cs@) == spec_chunks_of(pv.take(i as int)),
                            cs@.len() == i,
                        decreases arg@.len() - i,
                    {
                        proof {
                            lemma_pieces_size_index(arg@, i as int);
                            assert(piece_size(arg@[i as int]) < piece_size(*p));
                        }
                        let c = chunk_of_piece(&arg[i]);
                        let ghost cv = chunk_view(c);
                        let ghost before = cs@;
                        cs.push(c);
                        proof {
                            assert(cs@.drop_last() =~= before);
                            assert(chunks_view(cs@) == chunks_view(before).push(cv));
                            assert(pv.take(i + 1).drop_last() =~= pv.take(i as int));
                            assert(pv.take(i + 1).last() == pv[i as int]);
                            assert(spec_chunks_of(pv.take(i + 1)) == spec_chunks_of(
                                pv.take(i as int),
                            ).push(spec_chunk_of(pv[i as int])));
                        }
                        i = i + 1;
                    }
                    proof {
                        assert(pv.take(arg@.len() as int) =~= pv);
                    }
                    Chunk::Formatted { chunk: FormattedChunk::Group(cs), params: *params }
                },
                NameKind::Unknown => {
                    let mut msg: Vec<u8> = Vec::new();
                    push_msg_unknown_prefix(&mut msg);
                    append_slice(&mut msg, name.as_slice());
                    msg.push(96u8);
                    proof {
                        assert(msg@ =~= msg_unknown_prefix() + name@ + seq![96u8]);
                    }
                    Chunk::Error(msg)
                },
                NameKind::Level => no_args(arg, FormattedChunk::Level, *params),
                NameKind::Message => no_args(arg, FormattedChunk::Message, *params),
                NameKind::Module => no_args(arg, FormattedChunk::Module, *params),
                NameKind::File => no_args(arg, FormattedChunk::File, *params),
                NameKind::Line => no_args(arg, FormattedChunk::Line, *params),
                NameKind::Thread => no_args(arg, FormattedChunk::Thread, *params),
                NameKind::Target => no_args(arg, FormattedChunk::Target, *params),
                NameKind::Newline => no_args(arg, FormattedChunk::Newline, *params),
            }
        },
    }
}

/// Compiles a parsed pattern into its chunk sequence, one chunk per piece.
pub fn compile_pieces(ps: &Vec<Piece>) -> (r: Vec<Chunk>)
    ensures
        chunks_view(r@) == spec_chunks_of(pieces_view(ps@)),
{
    let ghost pv = pieces_view(ps@);
    proof {
        lemma_pieces_view_index(ps@);
        lemma_spec_chunks_of_index(pv);
    }
    let mut cs: Vec<Chunk> = Vec::new();
    proof {
        assert(chunks_view(cs@) =~= spec_chunks_of(pv.take(0)));
    }
    let mut i: usize = 0;
    while i < ps.len()
        invariant
            i <= ps@.len(),
            pv == pieces_view(ps@),
            pv.len() == ps@.len(),
            forall|j: int| 0 <= j < ps@.len() ==> pv[j] == piece_view(ps@[j]),
            chunks_view(cs@) == spec_chunks_of(pv.take(i as int)),
            cs@.len() == i,
        decreases ps@.len() - i,
    {
        let c = chunk_of_piece(&ps[i]);
        let ghost cv = chunk_view(c);
        let ghost before = cs@;
        cs.push(c);
        proof {
            assert(cs@.drop_last() =~= before);
            assert(chunks_view(cs@) == chunks_view(before).push(cv));
            assert(pv.take(i + 1).drop_last() =~= pv.take(i as int));
            assert(pv.take(i + 1).last() == pv[i as int]);
            assert(spec_chunks_of(pv.take(i + 1)) == spec_chunks_of(pv.take(i as int)).push(
                spec_chunk_of(pv[i as int]),
            ));
        }
        i = i + 1;
    }
    proof {
        assert(pv.take(ps@.len() as int) =~= pv);
    }
    cs
}

} // verus!
