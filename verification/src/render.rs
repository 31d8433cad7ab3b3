//! The renderer: walks a compiled chunk tree against a record and appends
//! the formatted bytes to an output buffer.
//!
//! Rendering is total but for one failure: a date chunk whose format string
//! chrono rejects. Everything else — including every `Error` chunk, which
//! renders as `{ERROR: <message>}` — always succeeds. A failed render keeps
//! the output exact too: the chunks before the first failing one stand in
//! the buffer, and the failing chunk contributes nothing. The newline chunk
//! renders a single line feed on every platform.

use vstd::prelude::*;

use crate::chunk::Chunk;
use crate::chunk::ChunkV;
use crate::chunk::FormattedChunk;
use crate::chunk::FormattedChunkV;
use crate::chunk::chunk_view;
use crate::chunk::fchunk_view;
use crate::chunk::chunks_view;
use crate::chunk::lemma_chunks_view_index;
use crate::record::Record;
use crate::record::RecordV;
use crate::record::record_view;
use crate::record::level_label;
use crate::record::push_level_label;
use crate::bytes::err_open;
use crate::bytes::unnamed_thread;
use crate::bytes::dec_digits;
use crate::bytes::push_err_open;
use crate::bytes::push_unnamed_thread;
use crate::bytes::push_decimal_u32;
use crate::bytes::append_slice;
use crate::writer::apply_params;
use crate::writer::write_formatted;
use crate::time::utc_format_of;
use crate::time::utc_format;

verus! {

broadcast use {vstd::seq::group_seq_axioms, vstd::std_specs::vec::group_vec_axioms};

/// Rendering fails only when chrono rejects a date chunk's format string or
/// the render-time timestamp.
#[derive(Clone, Copy, PartialEq, Eq, Structural, Debug)]
pub enum EncodeError {
    InvalidTimeFormat,
}

/// A size measure on chunks, used to bound recursion over the tree.
pub open spec fn chunk_size(c: Chunk) -> nat
    decreases c,
{
    match c {
        Chunk::Text(_) => 1,
        Chunk::Error(_) => 1,
        Chunk::Formatted { chunk, params: _ } => 1 + fchunk_size(chunk),
    }
}

/// The size of one renderer.
pub open spec fn fchunk_size(f: FormattedChunk) -> nat
    decreases f,
{
    match f {
        FormattedChunk::Group(cs) => 1 + chunks_size(cs@),
        _ => 1,
    }
}

/// The summed size of a sequence of chunks.
pub open spec fn chunks_size(cs: Seq<Chunk>) -> nat
    decreases cs,
{
    if cs.len() == 0 {
        0
    } else {
        chunks_size(cs.drop_last()) + chunk_size(cs.last())
    }
}

/// Every element weighs no more than the whole sequence.
pub proof fn lemma_chunks_size_index(cs: Seq<Chunk>, i: int)
    requires
        0 <= i < cs.len(),
    ensures
        chunk_size(cs[i]) <= chunks_size(cs),
    decreases cs.len(),
{
    if i == cs.len() - 1 {
        assert(cs.last() == cs[i]);
    } else {
        lemma_chunks_size_index(cs.drop_last(), i);
        assert(cs.drop_last()[i] == cs[i]);
    }
}

/// The bytes one chunk renders to (meaningful when it renders at all).
pub open spec fn spec_render_chunk(c: ChunkV, rv: RecordV) -> Seq<u8>
    decreases c, 0int, 0int,
{
    match c {
        ChunkV::Text(t) => t,
        ChunkV::Error(m) => err_open() + m + seq![125u8],
        ChunkV::Formatted { chunk, params } => apply_params(spec_render_fchunk(chunk, rv), params),
    }
}

/// The bytes one renderer produces before width and precision apply.
pub open spec fn spec_render_fchunk(f: FormattedChunkV, rv: RecordV) -> Seq<u8>
    decreases f, 1int, 0int,
{
    match f {
        FormattedChunkV::Time(fmt) => match utc_format_of(rv.secs, rv.nanos, fmt) {
            Option::Some(b) => b,
            Option::None => Seq::empty(),
        },
        FormattedChunkV::Level => level_label(rv.level),
        FormattedChunkV::Message => rv.message,
        FormattedChunkV::Module => rv.module,
        FormattedChunkV::File => rv.file,
        FormattedChunkV::Line => dec_digits(rv.line as int),
        FormattedChunkV::Thread => match rv.thread {
            Option::Some(t) => t,
            Option::None => unnamed_thread(),
        },
        FormattedChunkV::Target => rv.target,
        FormattedChunkV::Newline => seq![10u8],
        FormattedChunkV::Group(cs) => spec_render_upto(cs, rv, cs.len() as int),
    }
}

/// The concatenated renderings of the first `i` chunks.
pub open spec fn spec_render_upto(cs: Seq<ChunkV>, rv: RecordV, i: int) -> Seq<u8>
    decreases cs, 2int, i,
{
    if i <= 0 || i > cs.len() {
        Seq::empty()
    } else {
        spec_render_upto(cs, rv, i - 1) + spec_render_chunk(cs[i - 1], rv)
    }
}

/// Whether one chunk renders without failure.
pub open spec fn spec_ok_chunk(c: ChunkV, rv: RecordV) -> bool
    decreases c, 0int, 0int,
{
    match c {
        ChunkV::Text(_) => true,
        ChunkV::Error(_) => true,
        ChunkV::Formatted { chunk, params: _ } => spec_ok_fchunk(chunk, rv),
    }
}

/// Whether one renderer succeeds: every date format in it is accepted.
pub open spec fn spec_ok_fchunk(f: FormattedChunkV, rv: RecordV) -> bool
    decreases f, 1int, 0int,
{
    match f {
        FormattedChunkV::Time(fmt) => utc_format_of(rv.secs, rv.nanos, fmt) is Some,
        FormattedChunkV::Group(cs) => spec_ok_upto(cs, rv, cs.len() as int),
        _ => true,
    }
}

/// Whether the first `i` chunks all render without failure.
pub open spec fn spec_ok_upto(cs: Seq<ChunkV>, rv: RecordV, i: int) -> bool
    decreases cs, 2int, i,
{
    if i <= 0 || i > cs.len() {
        true
    } else {
        spec_ok_upto(cs, rv, i - 1) && spec_ok_chunk(cs[i - 1], rv)
    }
}

/// Success of a run implies success of every shorter run.
pub proof fn lemma_ok_upto_prefix(cs: Seq<ChunkV>, rv: RecordV, i: int, n: int)
    requires
        0 <= i <= n <= cs.len(),
    ensures
        spec_ok_upto(cs, rv, n) ==> spec_ok_upto(cs, rv, i),
    decreases n,
{
    if i < n {
        lemma_ok_upto_prefix(cs, rv, i, n - 1);
    }
}

/// Renders one chunk, appending to `out`. Fails exactly when some date
/// format inside the chunk is rejected; on success the appended bytes are
/// exactly the chunk's rendering.
pub fn render_chunk(c: &Chunk, rec: &Record, secs: i64, nanos: u32, out: &mut Vec<u8>) -> (r:
    Result<(), EncodeError>)
    ensures
        r is Ok <==> spec_ok_chunk(chunk_view(*c), record_view(*rec, secs, nanos)),
        r is Ok ==> final(out)@ == old(out)@ + spec_render_chunk(
            chunk_view(*c),
            record_view(*rec, secs, nanos),
        ),
        r is Err ==> final(out)@ == old(out)@,
    decreases chunk_size(*c),
{
    match c {
        Chunk::Text(t) => {
            append_slice(out, t.as_slice());
            Ok(())
        },
        Chunk::Error(m) => {
            push_err_open(out);
            append_slice(out, m.as_slice());
            out.push(125u8);
            proof {
                assert(out@ =~= old(out)@ + (err_open() + m@ + seq![125u8]));
            }
            Ok(())
        },
        Chunk::Formatted { chunk, params } => {
            let mut inner: Vec<u8> = Vec::new();
            match render_fchunk(chunk, rec, secs, nanos, &mut inner) {
                Ok(()) => {
                    write_formatted(&inner, *params, out);
                    Ok(())
                },
                Err(e) => Err(e),
            }
        },
    }
}

/// Renders one formatter's content, appending to `out`.
pub fn render_fchunk(
    f: &FormattedChunk,
    rec: &Record,
    secs: i64,
    nanos: u32,
    out: &mut Vec<u8>,
) -> (r: Result<(), EncodeError>)
    ensures
        r is Ok <==> spec_ok_fchunk(fchunk_view(*f), record_view(*rec, secs, nanos)),
        r is Ok ==> final(out)@ == old(out)@ + spec_render_fchunk(
            fchunk_view(*f),
            record_view(*rec, secs, nanos),
        ),
        r is Err ==> (match fchunk_view(*f) {
            FormattedChunkV::Group(cs) => exists|k: int|
                #![auto]
                0 <= k < cs.len() && spec_ok_upto(cs, record_view(*rec, secs, nanos), k)
                    && !spec_ok_chunk(cs[k], record_view(*rec, secs, nanos)) && final(out)@
                    == old(out)@ + spec_render_upto(cs, record_view(*rec, secs, nanos), k),
            _ => final(out)@ == old(out)@,
        }),
    decreases fchunk_size(*f),
{
    match f {
        FormattedChunk::Time(fmt) => {
            match utc_format(secs, nanos, fmt.as_slice()) {
                Some(v) => {
                    append_slice(out, v.as_slice());
                    Ok(())
                },
                None => Err(EncodeError::InvalidTimeFormat),
            }
        },
        FormattedChunk::Level => {
            push_level_label(out, rec.level);
            Ok(())
        },
        FormattedChunk::Message => {
            append_slice(out, rec.message.as_slice());
            Ok(())
        },
        FormattedChunk::Module => {
            append_slice(out, rec.module.as_slice());
            Ok(())
        },
        FormattedChunk::File => {
            append_slice(out, rec.file.as_slice());
            Ok(())
        },
        FormattedChunk::Line => {
            push_decimal_u32(out, rec.line);
            Ok(())
        },
        FormattedChunk::Thread => {
            match &rec.thread {
                Some(t) => append_slice(out, t.as_slice()),
                None => push_unnamed_thread(out),
            }
            Ok(())
        },
        FormattedChunk::Target => {
            append_slice(out, rec.target.as_slice());
            Ok(())
        },
        FormattedChunk::Newline => {
            out.push(10u8);
            proof {
                assert(out@ =~= old(out)@ + seq![10u8]);
            }
            Ok(())
        },
        FormattedChunk::Group(cs) => {
            let ghost cv = chunks_view(cs@);
            let ghost rv = record_view(*rec, secs, nanos);
            let ghost base = out@;
            proof {
                lemma_chunks_view_index(cs@);
                assert(chunks_size(cs@) < fchunk_size(*f));
            }
            let mut i: usize = 0;
            while i < cs.len()
                invariant
                    i <= cs@.len(),
                    cv == chunks_view(cs@),
                    cv.len() == cs@.len(),
                    forall|j: int| 0 <= j < cs@.len() ==> cv[j] == chunk_view(cs@[j]),
                    chunks_size(cs@) < fchunk_size(*f),
                    fchunk_view(*f) == FormattedChunkV::Group(cv),
                    rv == record_view(*rec, secs, nanos),
                    base == old(out)@,
                    out@ == base + spec_render_upto(cv, rv, i as int),
                    spec_ok_upto(cv, rv, i as int),
                decreases cs@.len() - i,
            {
                proof {
                    lemma_chunks_size_index(cs@, i as int);
                }
                let ghost before = out@;
                match render_chunk(&cs[i], rec, secs, nanos, out) {
                    Ok(()) => {},
                    Err(e) => {
                        proof {
                            assert(!spec_ok_chunk(cv[i as int], rv));
                            if spec_ok_upto(cv, rv, cv.len() as int) {
                                lemma_ok_upto_prefix(cv, rv, i + 1, cv.len() as int);
                                assert(spec_ok_upto(cv, rv, i + 1));
                                assert(spec_ok_chunk(cv[i as int], rv));
                            }
                            assert(out@ == old(out)@ + spec_render_upto(cv, rv, i as int));
                        }
                        return Err(e);
                    },
                }
                proof {
                    assert(out@ == before + spec_render_chunk(cv[i as int], rv));
                    assert(spec_render_upto(cv, rv, i + 1) == spec_render_upto(cv, rv, i as int)
                        + spec_render_chunk(cv[i as int], rv));
                    assert(out@ =~= base + spec_render_upto(cv, rv, i + 1));
                }
                i = i + 1;
            }
            Ok(())
        },
    }
}

/// Renders a whole chunk sequence, appending to `out`. Fails exactly when
/// some date format in the sequence is rejected; on success the appended
/// bytes are the concatenated renderings.
pub fn render_chunks(cs: &Vec<Chunk>, rec: &Record, secs: i64, nanos: u32, out: &mut Vec<u8>) -> (r:
    Result<(), EncodeError>)
    ensures
        r is Ok <==> spec_ok_upto(
            chunks_view(cs@),
            record_view(*rec, secs, nanos),
            chunks_view(cs@).len() as int,
        ),
        r is Ok ==> final(out)@ == old(out)@ + spec_render_upto(
            chunks_view(cs@),
            record_view(*rec, secs, nanos),
            chunks_view(cs@).len() as int,
        ),
        r is Err ==> exists|k: int|
            #![auto]
            0 <= k < chunks_view(cs@).len() && spec_ok_upto(
                chunks_view(cs@),
                record_view(*rec, secs, nanos),
                k,
            ) && !spec_ok_chunk(chunks_view(cs@)[k], record_view(*rec, secs, nanos)) && final(out)@
                == old(out)@ + spec_render_upto(chunks_view(cs@), record_view(*rec, secs, nanos), k),
{
    let ghost cv = chunks_view(cs@);
    let ghost rv = record_view(*rec, secs, nanos);
    let ghost base = out@;
    proof {
        lemma_chunks_view_index(cs@);
    }
    let mut i: usize = 0;
    while i < cs.len()
        invariant
            i <= cs@.len(),
            cv == chunks_view(cs@),
            cv.len() == cs@.len(),
            forall|j: int| 0 <= j < cs@.len() ==> cv[j] == chunk_view(cs@[j]),
            rv == record_view(*rec, secs, nanos),
            base == old(out)@,
            out@ == base + spec_render_upto(cv, rv, i as int),
            spec_ok_upto(cv, rv, i as int),
        decreases cs@.len() - i,
    {
        let ghost before = out@;
        match render_chunk(&cs[i], rec, secs, nanos, out) {
            Ok(()) => {},
            Err(e) => {
                proof {
                    assert(!spec_ok_chunk(cv[i as int], rv));
                    if spec_ok_upto(cv, rv, cv.len() as int) {
                        lemma_ok_upto_prefix(cv, rv, i + 1, cv.len() as int);
                        assert(spec_ok_upto(cv, rv, i + 1));
                        assert(spec_ok_chunk(cv[i as int], rv));
                    }
                    assert(out@ == old(out)@ + spec_render_upto(cv, rv, i as int));
                }
                return Err(e);
            },
        }
        proof {
            assert(out@ == before + spec_render_chunk(cv[i as int], rv));
            assert(spec_render_upto(cv, rv, i + 1) == spec_render_upto(cv, rv, i as int)
                + spec_render_chunk(cv[i as int], rv));
            assert(out@ =~= base + spec_render_upto(cv, rv, i + 1));
        }
        i = i + 1;
    }
    Ok(())
}

} // verus!
