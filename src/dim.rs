use vstd::prelude::*;

use crate::slot::RwSlot;

verus! {

/// A dimension size that several collections share.
///
/// Handles made by `clone` read and write one size, so a size set through
/// one of them is seen by every collection that holds another.
pub struct Dim(RwSlot<usize>);

impl Clone for Dim {
    /// A second handle to the same size.
    fn clone(&self) -> (r: Self) {
        Dim(self.0.shallow_clone())
    }
}

impl Dim {
    /// A size of `n`.
    pub fn new(n: usize) -> (r: Self) {
        Dim(RwSlot::new(n))
    }

    /// The current size (zero for a size that was never set).
    pub fn get(&self) -> (r: usize) {
        match self.0.get() {
            Some(n) => n,
            None => 0,
        }
    }

    /// Sets the size to `n`, for every holder of a handle.
    pub fn set(&self, n: usize) {
        let _ = self.0.insert(n);
    }
}

} // verus!
