//! Small shared type names.

use vstd::prelude::*;

verus! {

/// A TCP port.
pub type Port = u16;

} // verus!
