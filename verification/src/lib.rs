//! Core logic of a command-line event-content fetcher.
//!
//! Given an event handle and an optional edition number, the surrounding
//! program resolves the concrete edition to operate on, fetches that
//! edition's metadata, downloads every map file it references, and writes
//! the results under a local directory tree. This crate holds the verified
//! part of that pipeline: the resolution decision, the selection of the
//! latest edition, the construction of request URLs and output paths, and
//! the fail-fast aggregation of concurrent download results. The network
//! and filesystem calls themselves live outside the crate and hand plain
//! values in and out.

use vstd::prelude::*;

pub mod collect;
mod digits;
pub mod error;
pub mod model;
pub mod paths;
pub mod resolve;
pub mod strutil;
pub mod urls;

verus! {

pub use digits::dec_rep;
pub use digits::digit_char;
pub use digits::int_dec_rep;
pub use digits::u64_dec_str;
pub use digits::i64_dec_str;

} // verus!
