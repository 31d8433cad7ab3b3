//! The writer stack: adapters that bound and pad renderer output.
//!
//! Two adapters compose in a fixed order. The precision adapter stands
//! closest to the content: it keeps a remaining byte budget and truncates
//! the content — and only the content — to it; once the budget is spent it
//! silently swallows the rest, so truncation never looks like an output
//! failure. The alignment adapter stands closest to the final sink and sees
//! only precision-truncated bytes. Left alignment streams them straight
//! through and only defers the (width-bounded) trailing fill; right
//! alignment must buffer them, because its fill comes first, so its memory
//! cost is bounded by the precision. Width counts the truncated content,
//! saturating at zero, and the fill goes to the sink directly — it is never
//! charged against the precision budget.

use vstd::prelude::*;

use crate::params::Alignment;
use crate::params::Parameters;
use crate::bytes::append_slice;
use crate::bytes::append_slice_prefix;

verus! {

broadcast use vstd::seq::group_seq_axioms;

/// `s` truncated to the byte budget `p`; `None` is unbounded.
pub open spec fn clip(s: Seq<u8>, p: Option<usize>) -> Seq<u8> {
    match p {
        Option::None => s,
        Option::Some(m) => if s.len() <= m {
            s
        } else {
            s.take(m as int)
        },
    }
}

/// The budget left after an attempted write of `n` bytes.
pub open spec fn shrink(p: Option<usize>, n: int) -> Option<usize> {
    match p {
        Option::None => Option::None,
        Option::Some(m) => if n <= m {
            Option::Some((m - n) as usize)
        } else {
            Option::Some(0usize)
        },
    }
}

/// `n` copies of the byte `b`.
pub open spec fn repeat_byte(b: u8, n: int) -> Seq<u8> {
    Seq::new(
        if n < 0 {
            0nat
        } else {
            n as nat
        },
        |i: int| b,
    )
}

/// Saturating subtraction of `n` from the width counter `a`.
pub open spec fn sat_sub(a: usize, n: int) -> usize {
    if n >= a as int {
        0usize
    } else {
        (a as int - n) as usize
    }
}

/// The innermost adapter: a remaining byte budget over the wrapped sink.
pub struct PrecisionWriter {
    pub budget: Option<usize>,
}

impl PrecisionWriter {
    /// Writes `buf` into `sink`, truncated to the remaining budget; the
    /// whole attempted length counts as consumed, so truncation is never
    /// reported downstream as a failure.
    pub fn write(&mut self, buf: &[u8], sink: &mut Vec<u8>)
        ensures
            final(sink)@ == old(sink)@ + clip(buf@, old(self).budget),
            final(self).budget == shrink(old(self).budget, buf@.len() as int),
    {
        match self.budget {
            Option::None => {
                append_slice(sink, buf);
            },
            Option::Some(m) => {
                let k = if buf.len() < m {
                    buf.len()
                } else {
                    m
                };
                append_slice_prefix(sink, buf, k);
                self.budget = Some(m - k);
                proof {
                    assert(buf@.take(k as int) =~= clip(buf@, Option::Some(m)));
                }
            },
        }
    }
}

/// `n` copies of `b`, as a vector.
fn make_fill(b: u8, n: usize) -> (r: Vec<u8>)
    ensures
        r@ == repeat_byte(b, n as int),
{
    let mut r: Vec<u8> = Vec::new();
    let mut i: usize = 0;
    while i < n
        invariant
            i <= n,
            r@ == repeat_byte(b, i as int),
        decreases n - i,
    {
        r.push(b);
        assert(r@ =~= repeat_byte(b, i + 1));
        i = i + 1;
    }
    r
}

/// Left alignment: the (already precision-truncated) content streams
/// straight to the sink; the remaining width is padded with fill afterwards.
pub struct LeftAlignWriter {
    pub width: usize,
    pub fill: u8,
}

impl LeftAlignWriter {
    /// Forwards a write unchanged and counts it off the width.
    pub fn write(&mut self, buf: &[u8], sink: &mut Vec<u8>)
        ensures
            final(sink)@ == old(sink)@ + buf@,
            final(self).width == sat_sub(old(self).width, buf@.len() as int),
            final(self).fill == old(self).fill,
    {
        append_slice(sink, buf);
        if self.width > buf.len() {
            self.width = self.width - buf.len();
        } else {
            self.width = 0;
        }
    }

    /// Writes the remaining width of fill straight to the sink.
    pub fn finish(self, sink: &mut Vec<u8>)
        ensures
            final(sink)@ == old(sink)@ + repeat_byte(self.fill, self.width as int),
    {
        let fills = make_fill(self.fill, self.width);
        append_slice(sink, fills.as_slice());
    }
}

/// Right alignment: the (already precision-truncated) content is buffered,
/// because the fill must come first; the width counts down by bytes seen.
pub struct RightAlignWriter {
    pub width: usize,
    pub fill: u8,
    pub buf: Vec<u8>,
}

impl RightAlignWriter {
    /// Buffers a write unchanged and counts it off the width.
    pub fn write(&mut self, data: &[u8])
        ensures
            final(self).buf@ == old(self).buf@ + data@,
            final(self).width == sat_sub(old(self).width, data@.len() as int),
            final(self).fill == old(self).fill,
    {
        append_slice(&mut self.buf, data);
        if self.width > data.len() {
            self.width = self.width - data.len();
        } else {
            self.width = 0;
        }
    }

    /// Writes the remaining width of fill, then the whole buffered content,
    /// both straight to the sink in one flush.
    pub fn finish(self, sink: &mut Vec<u8>)
        ensures
            final(sink)@ == old(sink)@ + repeat_byte(self.fill, self.width as int) + self.buf@,
    {
        let fills = make_fill(self.fill, self.width);
        append_slice(sink, fills.as_slice());
        append_slice(sink, self.buf.as_slice());
    }
}

/// Fully-rendered content under the parameters: the content alone is
/// truncated to the precision; the pad is computed from the truncated
/// length up to the width and put on the chosen side; the fill is never
/// truncated. The output is exactly `max(width, min(precision, content))`
/// bytes long.
pub open spec fn apply_params(inner: Seq<u8>, p: Parameters) -> Seq<u8> {
    let c = clip(inner, p.precision);
    let pad = sat_sub(p.width, c.len() as int) as int;
    match p.align {
        Alignment::Left => c + repeat_byte(p.fill, pad),
        Alignment::Right => repeat_byte(p.fill, pad) + c,
    }
}

/// Appends `inner`, truncated and padded under `p`, to `sink`.
pub fn write_formatted(inner: &Vec<u8>, p: Parameters, sink: &mut Vec<u8>)
    ensures
        final(sink)@ == old(sink)@ + apply_params(inner@, p),
{
    let ghost s0 = sink@;
    let mut pw = PrecisionWriter { budget: p.precision };
    let mut content: Vec<u8> = Vec::new();
    pw.write(inner.as_slice(), &mut content);
    proof {
        assert(content@ =~= clip(inner@, p.precision));
    }
    match p.align {
        Alignment::Left => {
            let mut w = LeftAlignWriter { width: p.width, fill: p.fill };
            w.write(content.as_slice(), sink);
            w.finish(sink);
            proof {
                assert(sink@ =~= s0 + apply_params(inner@, p));
            }
        },
        Alignment::Right => {
            let mut w = RightAlignWriter { width: p.width, fill: p.fill, buf: Vec::new() };
            w.write(content.as_slice());
            w.finish(sink);
            proof {
                assert(Seq::<u8>::empty() + content@ =~= content@);
                assert(sink@ =~= s0 + apply_params(inner@, p));
            }
        },
    }
}

} // verus!
