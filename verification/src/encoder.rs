//! The pattern encoder: a pattern string compiled once into a chunk tree,
//! rendered once per log event.

use vstd::prelude::*;
use vstd::slice::slice_to_vec;
use vstd::string::StringSliceAdditionalSpecFns;

use crate::chunk::Chunk;
use crate::chunk::ChunkV;
use crate::chunk::chunks_view;
use crate::chunk::spec_chunks_of;
use crate::chunk::lemma_chunks_view_index;
use crate::chunk::compile_pieces;
use crate::parse::spec_parse;
use crate::parse::parse_pattern;
use crate::record::Record;
use crate::record::record_view;
use crate::render::EncodeError;
use crate::render::spec_ok_upto;
use crate::render::spec_render_upto;
use crate::render::render_chunks;
use crate::bytes::default_pattern;
use crate::bytes::default_pattern_bytes;
use crate::time::now_utc;

verus! {

/// The chunk tree a pattern compiles to: its parse, compiled chunk by chunk.
pub open spec fn compiled_chunks(pattern: Seq<u8>) -> Seq<ChunkV> {
    spec_chunks_of(spec_parse(pattern))
}

/// No chunk of the sequence is an error chunk.
pub open spec fn seq_error_free(cs: Seq<ChunkV>) -> bool {
    forall|i: int| 0 <= i < cs.len() ==> !(cs[i] is Error)
}

/// An encoder configured by a pattern string: the compiled chunk tree and
/// the pattern it came from. Both are fixed at construction; rendering never
/// changes them, so one encoder serves any number of render calls.
pub struct PatternEncoder {
    chunks: Vec<Chunk>,
    pattern: Vec<u8>,
}

impl PatternEncoder {
    /// The compiled chunk tree, as model values.
    pub closed spec fn spec_chunks(&self) -> Seq<ChunkV> {
        chunks_view(self.chunks@)
    }

    /// The pattern the encoder was built from, as bytes.
    pub closed spec fn spec_pattern(&self) -> Seq<u8> {
        self.pattern@
    }

    /// Creates an encoder from pattern bytes.
    pub fn from_pattern_bytes(pattern: &[u8]) -> (r: PatternEncoder)
        ensures
            r.spec_chunks() == compiled_chunks(pattern@),
            r.spec_pattern() == pattern@,
    {
        let pieces = parse_pattern(pattern);
        let chunks = compile_pieces(&pieces);
        PatternEncoder { chunks, pattern: slice_to_vec(pattern) }
    }

    /// Creates an encoder from a pattern string. Construction always
    /// succeeds; malformed constructs become inline error chunks.
    pub fn new(pattern: &str) -> (r: PatternEncoder)
        ensures
            r.spec_chunks() == compiled_chunks(pattern.spec_bytes()),
            r.spec_pattern() == pattern.spec_bytes(),
    {
        let bytes: &[u8] = pattern.as_bytes();
        PatternEncoder::from_pattern_bytes(bytes)
    }

    /// Renders one record at the given UTC timestamp, appending to `out`.
    /// Fails exactly when chrono rejects a date chunk's format string; on
    /// success the appended bytes are the tree's rendering of the record.
    pub fn append_inner(&self, rec: &Record, secs: i64, nanos: u32, out: &mut Vec<u8>) -> (r:
        Result<(), EncodeError>)
        ensures
            r is Ok <==> spec_ok_upto(
                self.spec_chunks(),
                record_view(*rec, secs, nanos),
                self.spec_chunks().len() as int,
            ),
            r is Ok ==> final(out)@ == old(out)@ + spec_render_upto(
                self.spec_chunks(),
                record_view(*rec, secs, nanos),
                self.spec_chunks().len() as int,
            ),
            r is Err ==> exists|k: int|
                #![auto]
                0 <= k < self.spec_chunks().len() && spec_ok_upto(
                    self.spec_chunks(),
                    record_view(*rec, secs, nanos),
                    k,
                ) && !crate::render::spec_ok_chunk(
                    self.spec_chunks()[k],
                    record_view(*rec, secs, nanos),
                ) && final(out)@ == old(out)@ + spec_render_upto(
                    self.spec_chunks(),
                    record_view(*rec, secs, nanos),
                    k,
                ),
    {
        render_chunks(&self.chunks, rec, secs, nanos, out)
    }

    /// Renders one record at the current time, appending to `out`. Whatever
    /// instant the clock returns, the output is the tree's rendering of the
    /// record at that instant.
    pub fn encode(&self, rec: &Record, out: &mut Vec<u8>) -> (r: Result<(), EncodeError>)
        ensures
            r is Ok ==> exists|secs: i64, nanos: u32|
                final(out)@ == old(out)@ + spec_render_upto(
                    self.spec_chunks(),
                    record_view(*rec, secs, nanos),
                    self.spec_chunks().len() as int,
                ),
            r is Err ==> exists|secs: i64, nanos: u32|
                !spec_ok_upto(
                    self.spec_chunks(),
                    record_view(*rec, secs, nanos),
                    self.spec_chunks().len() as int,
                ),
    {
        let (secs, nanos) = now_utc();
        let r = self.append_inner(rec, secs, nanos, out);
        proof {
            if r is Ok {
                assert(exists|s: i64, n: u32|
                    out@ == old(out)@ + spec_render_upto(
                        self.spec_chunks(),
                        record_view(*rec, s, n),
                        self.spec_chunks().len() as int,
                    )) by {
                    assert(out@ == old(out)@ + spec_render_upto(
                        self.spec_chunks(),
                        record_view(*rec, secs, nanos),
                        self.spec_chunks().len() as int,
                    ));
                }
            } else {
                assert(exists|s: i64, n: u32|
                    !spec_ok_upto(
                        self.spec_chunks(),
                        record_view(*rec, s, n),
                        self.spec_chunks().len() as int,
                    )) by {
                    assert(!spec_ok_upto(
                        self.spec_chunks(),
                        record_view(*rec, secs, nanos),
                        self.spec_chunks().len() as int,
                    ));
                }
            }
        }
        r
    }

    /// True when no top-level chunk is an error chunk: the pattern compiled
    /// without a diagnostic.
    pub fn error_free(&self) -> (r: bool)
        ensures
            r == seq_error_free(self.spec_chunks()),
    {
        let ghost cv = self.spec_chunks();
        proof {
            lemma_chunks_view_index(self.chunks@);
        }
        let mut i: usize = 0;
        while i < self.chunks.len()
            invariant
                i <= self.chunks@.len(),
                cv == chunks_view(self.chunks@),
                cv == self.spec_chunks(),
                cv.len() == self.chunks@.len(),
                forall|j: int| 0 <= j < self.chunks@.len() ==> cv[j] == crate::chunk::chunk_view(
                    self.chunks@[j],
                ),
                forall|j: int| 0 <= j < i ==> !(cv[j] is Error),
            decreases self.chunks@.len() - i,
        {
            match &self.chunks[i] {
                Chunk::Error(_) => {
                    proof {
                        assert(cv[i as int] is Error);
                        assert(!seq_error_free(cv));
                    }
                    return false;
                },
                _ => {},
            }
            i = i + 1;
        }
        true
    }

    /// The pattern this encoder was built from.
    pub fn pattern_bytes(&self) -> (r: &Vec<u8>)
        ensures
            r@ == self.spec_pattern(),
    {
        &self.pattern
    }

    /// The number of top-level chunks in the compiled pattern.
    pub fn chunk_count(&self) -> (r: usize)
        ensures
            r == self.spec_chunks().len(),
    {
        proof {
            lemma_chunks_view_index(self.chunks@);
        }
        self.chunks.len()
    }
}

impl Default for PatternEncoder {
    /// The encoder of the default pattern `"{d} {l} {t} - {m}{n}"`.
    fn default() -> (r: PatternEncoder)
        ensures
            r.spec_chunks() == compiled_chunks(default_pattern()),
            r.spec_pattern() == default_pattern(),
    {
        let bytes = default_pattern_bytes();
        PatternEncoder::from_pattern_bytes(bytes.as_slice())
    }
}

/// Builds an encoder from the optional pattern string of a configuration
/// value; a missing pattern means the default pattern.
pub struct PatternEncoderDeserializer;

impl PatternEncoderDeserializer {
    /// The encoder a configuration with this optional pattern selects.
    pub fn deserialize(&self, pattern: Option<&str>) -> (r: PatternEncoder)
        ensures
            pattern matches Some(p) ==> r.spec_chunks() == compiled_chunks(p.spec_bytes())
                && r.spec_pattern() == p.spec_bytes(),
            pattern is None ==> r.spec_chunks() == compiled_chunks(default_pattern())
                && r.spec_pattern() == default_pattern(),
    {
        match pattern {
            Some(p) => PatternEncoder::new(p),
            None => PatternEncoder::default(),
        }
    }
}

} // verus!
