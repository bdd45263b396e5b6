//! Generation model for a `clap`-style derive: resolves the annotation
//! mini-language on struct fields and enum variants into one shared record per
//! entity, and from that record produces both a parser-definition tree and the
//! mirror-image decoder of matched values.

pub mod arg_enum;
pub mod ast;
pub mod attrs;
pub mod builder;
pub mod casing;
pub mod decode;
pub mod errors;
pub mod laws;
pub mod parse;
pub mod strutil;

pub use attrs::Ty;
pub use attrs::convert_with_custom_parse;
