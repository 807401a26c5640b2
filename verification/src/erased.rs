//! The unit in which positions inside a block are counted.

use vstd::prelude::*;

verus! {

/// One byte of a block whose types have been forgotten.
///
/// A pointer to `Erased` advances by whole bytes, so the offsets that the
/// layout functions give can be added to it as they are. No value of this
/// type is ever made: it only stands behind such pointers.
pub struct Erased {
    raw: u8,
}

} // verus!
