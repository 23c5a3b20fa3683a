//! A parametric point-cloud generator for an RGB cube, and the orientation
//! updater that spins the cube's pivot about the vertical axis.
use vstd::prelude::*;

pub mod grid;
pub mod rotation;

verus! {

} // verus!
