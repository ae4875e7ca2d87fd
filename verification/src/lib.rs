//! A safe calling convention for a C toolkit of spacecraft geometry and ephemerides.
//!
//! The toolkit speaks in terminated character arrays, buffers with a separate
//! length, integers that stand for booleans and an error flag that it keeps for
//! itself. This crate is the layer between that convention and owned Rust values:
//!
//! - [`text`] turns owned text into what the toolkit reads, and what the toolkit
//!   wrote back into owned text;
//! - [`failure`] turns the toolkit's error flag into a `Result`;
//! - [`raw`] holds the adapters, one for each routine that it covers;
//! - [`neat`] holds the conveniences built on the adapters.
//!
//! The crate never enters the toolkit by itself. Every adapter takes the routine
//! it adapts as a function value, fixes in its contract what that value is called
//! with, and says what it makes of each reply.
use vstd::prelude::*;

pub mod failure;
pub mod neat;
pub mod raw;
pub mod text;

verus! {

/// Capacity, in bytes, of every buffer that is handed to the toolkit for text.
///
/// No text that comes back from the toolkit is longer than this.
pub const MAX_LEN_OUT: usize = 100;

} // verus!
