//! The call-time context a render reads: severity, target, source location,
//! thread name and pre-formatted message, all as plain values.

use vstd::prelude::*;

verus! {

/// Log severities, most severe first.
#[derive(Clone, Copy, PartialEq, Eq, Structural, Debug)]
pub enum Level {
    Error,
    Warn,
    Info,
    Debug,
    Trace,
}

/// The label a severity renders as.
pub open spec fn level_label(l: Level) -> Seq<u8> {
    match l {
        Level::Error => seq![69u8, 82u8, 82u8, 79u8, 82u8],
        Level::Warn => seq![87u8, 65u8, 82u8, 78u8],
        Level::Info => seq![73u8, 78u8, 70u8, 79u8],
        Level::Debug => seq![68u8, 69u8, 66u8, 85u8, 71u8],
        Level::Trace => seq![84u8, 82u8, 65u8, 67u8, 69u8],
    }
}

/// Appends the severity label (`"ERROR"`, `"WARN"`, ...) to `out`.
pub fn push_level_label(out: &mut Vec<u8>, l: Level)
    ensures
        final(out)@ == old(out)@ + level_label(l),
{
    match l {
        Level::Error => {
            out.push(69u8);
            out.push(82u8);
            out.push(82u8);
            out.push(79u8);
            out.push(82u8);
        },
        Level::Warn => {
            out.push(87u8);
            out.push(65u8);
            out.push(82u8);
            out.push(78u8);
        },
        Level::Info => {
            out.push(73u8);
            out.push(78u8);
            out.push(70u8);
            out.push(79u8);
        },
        Level::Debug => {
            out.push(68u8);
            out.push(69u8);
            out.push(66u8);
            out.push(85u8);
            out.push(71u8);
        },
        Level::Trace => {
            out.push(84u8);
            out.push(82u8);
            out.push(65u8);
            out.push(67u8);
            out.push(69u8);
        },
    }
    assert(out@ =~= old(out)@ + level_label(l));
}

/// One log event's values: severity, target, source location, the current
/// thread's name (`None` when the thread has none), and the message bytes.
pub struct Record {
    pub level: Level,
    pub target: Vec<u8>,
    pub module: Vec<u8>,
    pub file: Vec<u8>,
    pub line: u32,
    pub thread: Option<Vec<u8>>,
    pub message: Vec<u8>,
}

/// The model of a record together with the render-time timestamp.
pub struct RecordV {
    pub level: Level,
    pub target: Seq<u8>,
    pub module: Seq<u8>,
    pub file: Seq<u8>,
    pub line: u32,
    pub thread: Option<Seq<u8>>,
    pub message: Seq<u8>,
    pub secs: i64,
    pub nanos: u32,
}

/// The model value of a record at a given timestamp.
pub open spec fn record_view(r: Record, secs: i64, nanos: u32) -> RecordV {
    RecordV {
        level: r.level,
        target: r.target@,
        module: r.module@,
        file: r.file@,
        line: r.line,
        thread: match r.thread {
            Option::Some(t) => Option::Some(t@),
            Option::None => Option::None,
        },
        message: r.message@,
        secs,
        nanos,
    }
}

} // verus!
