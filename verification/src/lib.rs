//! A pattern-based log line encoder.
//!
//! A pattern string such as `"{d} {l} {t} - {m}{n}"` is compiled once into a
//! tree of renderable chunks; each render call then walks that tree against a
//! log record and appends the formatted bytes to an output buffer. Malformed
//! patterns never fail compilation: every bad construct degrades to an inline
//! error chunk that renders as `{ERROR: <message>}` text.

pub mod bytes;
pub mod chunk;
pub mod encoder;
pub mod laws;
pub mod params;
pub mod parse;
pub mod record;
pub mod render;
pub mod time;
pub mod writer;

pub use params::Alignment;
pub use params::Parameters;
pub use record::Level;
pub use record::Record;
pub use render::EncodeError;
pub use encoder::PatternEncoder;
pub use encoder::PatternEncoderDeserializer;
