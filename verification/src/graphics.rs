//! Decisions of the renderer.
use vstd::prelude::*;

pub mod atlas;
pub mod context;
pub mod glyphs;
pub mod laws;
pub mod palette;
pub mod rows;
pub mod version;

verus! {

} // verus!
