//! Errors that carry a typed error code together with a chain of diagnostic context.
//!
//! An error starts at an origin (a static call-site descriptor, or the name of a foreign
//! error type it was converted from) and collects context frames as it propagates. Two
//! backends store that history: a full one that keeps every frame, and a compact one that
//! keeps a bounded summary (the first frame, the most useful later frame, and whether
//! anything in between was dropped) and never loses the most recent error code.

pub mod error;
pub mod error_code;
pub mod error_impl;

pub use error::Error;
pub use error::Representation;
pub use error_code::ErrorCode;
pub use error_code::ErrorCodeInfo;
pub use error_code::ErrorCodePrivate;
