//! Verified core of the ASCM article bridge: the text handling, JSON
//! inspection, request building and reply interpretation that the web
//! service runs between its HTTP calls.

pub mod clock;
pub mod codec;
pub mod handler;
pub mod json;
pub mod pattern;
pub mod text;

use vstd::prelude::*;

verus! {

} // verus!
