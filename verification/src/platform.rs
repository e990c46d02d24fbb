//! The desktop platform whose conventions native shortcuts and clipboards follow.

use vstd::prelude::*;

verus! {

/// A supported desktop platform.
#[derive(Clone, Copy, Debug, PartialEq, Eq, Structural)]
pub enum NativePlatform {
    Linux,
    Macos,
}

} // verus!
