//! Materials that need no arithmetic of their own.

use vstd::prelude::*;

verus! {

/// The material of a surface that absorbs every ray: it scatters nothing.
#[derive(Debug, Default, Clone, Copy)]
pub struct DefaultMaterial;

} // verus!
