use vstd::prelude::*;

use parking_lot::lock_api;
use std::sync::Arc;

verus! {

#[verifier::external_type_specification]
#[verifier::external_body]
pub struct ExRawRwLock(parking_lot::RawRwLock);

#[verifier::external_type_specification]
#[verifier::external_body]
#[verifier::reject_recursive_types(R)]
#[verifier::reject_recursive_types(T)]
pub struct ExRwLock<R, T: ?Sized>(lock_api::RwLock<R, T>);

/// Relies on `parking_lot::RwLock::new`: a fresh lock around `v`.
#[verifier::external_body]
fn lock_new<T>(v: Option<T>) -> parking_lot::RwLock<Option<T>> {
    parking_lot::RwLock::new(v)
}

/// Relies on `parking_lot::RwLock::read`: a copy of what the lock holds,
/// taken under a shared guard.
#[verifier::external_body]
fn lock_read_cloned<T: Clone>(l: &parking_lot::RwLock<Option<T>>) -> Option<T> {
    l.read().clone()
}

/// Relies on `parking_lot::RwLock::read`: whether the lock holds nothing,
/// looked at under a shared guard.
#[verifier::external_body]
fn lock_holds_none<T>(l: &parking_lot::RwLock<Option<T>>) -> bool {
    l.read().is_none()
}

/// Relies on `parking_lot::RwLock::write`: under the exclusive guard, the
/// held value is moved into `f`, and the first half of what `f` returns is
/// stored back; the second half is returned.
#[verifier::external_body]
fn lock_update<T, U, F: FnOnce(Option<T>) -> (Option<T>, U)>(
    l: &parking_lot::RwLock<Option<T>>,
    f: F,
) -> (r: U)
    requires
        forall|v: Option<T>| f.requires((v,)),
    ensures
        exists|v: Option<T>, n: Option<T>| f.ensures((v,), (n, r)),
{
    let mut g = l.write();
    let (n, r) = f(g.take());
    *g = n;
    r
}

/// Relies on `Arc::clone`: another handle to the same allocation (Verus
/// identifies an `Arc` with what it points to, as `Arc::new`'s
/// specification does).
#[verifier::external_body]
fn arc_clone<T>(a: &Arc<T>) -> (r: Arc<T>)
    ensures
        r == *a,
{
    Arc::clone(a)
}

/// Relies on `Arc::ptr_eq`: whether two handles point to one allocation.
#[verifier::external_body]
fn arc_same<T>(a: &Arc<T>, b: &Arc<T>) -> bool {
    Arc::ptr_eq(a, b)
}

/// A cell that any number of handles share, guarded by a reader/writer lock.
///
/// The cell may be empty: an emptied slot is read as `None`, and every
/// operation that needs a value reports `UninitializedAccess` there.
/// `shallow_clone` gives a new handle to the same cell, `deep_clone` a new
/// cell holding a copy of the current value.
///
/// What the cell holds at a given moment depends on every other holder of a
/// handle, so the operations below state what holds whatever they found in
/// it; the logic applied to that value is stated by the functions it is
/// handed to.
#[verifier::reject_recursive_types(T)]
pub struct RwSlot<T> {
    cell: Arc<parking_lot::RwLock<Option<T>>>,
}

impl<T> RwSlot<T> {
    /// A slot holding `x`.
    pub fn new(x: T) -> (r: Self) {
        RwSlot { cell: Arc::new(lock_new(Some(x))) }
    }

    /// An empty slot.
    pub fn none() -> (r: Self) {
        RwSlot { cell: Arc::new(lock_new(None)) }
    }

    /// Whether the slot is empty right now.
    pub fn is_none(&self) -> (r: bool) {
        lock_holds_none(&*self.cell)
    }

    /// Stores `data`, giving back what was there before.
    pub fn insert(&self, data: T) -> (r: Option<T>) {
        self.replace(Some(data))
    }

    /// Stores `v` (a value, or nothing), giving back what was there before.
    pub fn replace(&self, v: Option<T>) -> (r: Option<T>) {
        lock_update(&*self.cell, move |old: Option<T>| -> (p: (Option<T>, Option<T>)) { (v, old) })
    }

    /// Applies `f` to what the slot holds, under the write lock: the slot
    /// then holds the first half of `f`'s result, and the second half is
    /// returned. Whatever the slot held, the result is one that `f` can
    /// give.
    ///
    /// The lock is not reentrant: `f` must not read or write this same
    /// slot (through any handle), or the call never returns.
    pub fn update<U, F: FnOnce(Option<T>) -> (Option<T>, U)>(&self, f: F) -> (r: U)
        requires
            forall|v: Option<T>| f.requires((v,)),
        ensures
            exists|v: Option<T>, n: Option<T>| f.ensures((v,), (n, r)),
    {
        lock_update(&*self.cell, f)
    }

    /// Moves the value out, leaving the slot empty.
    pub fn extract(&self) -> (r: Option<T>) {
        self.replace(None)
    }

    /// Empties the slot, dropping its value.
    pub fn drop(&self) {
        let _ = self.extract();
    }

    /// A second handle to the same cell: a write through either is seen by
    /// both.
    pub fn shallow_clone(&self) -> (r: Self)
        ensures
            r == *self,
    {
        RwSlot { cell: arc_clone(&self.cell) }
    }

    /// Whether `self` and `other` are handles to one cell.
    pub fn same_cell(&self, other: &Self) -> (r: bool) {
        arc_same(&self.cell, &other.cell)
    }

    /// Exchanges the contents of two slots.
    ///
    /// Both cells are locked for writing, in the order `self`, `other`,
    /// while the values move; two handles to one cell leave it as it is.
    /// Two threads that swap the same pair in opposite orders can
    /// deadlock, as with any pair of locks taken in different orders.
    pub fn swap(&self, other: &Self) {
        if !self.same_cell(other) {
            let f = |mine: Option<T>| -> (p: (Option<T>, ())) { (other.replace(mine), ()) };
            self.update(f);
        }
    }
}

impl<T> Clone for RwSlot<T> {
    /// A second handle to the same cell, as `shallow_clone`.
    fn clone(&self) -> (r: Self)
        ensures
            r == *self,
    {
        self.shallow_clone()
    }
}

impl<T: Clone> RwSlot<T> {
    /// A copy of the current value, or `None` for an empty slot.
    pub fn get(&self) -> (r: Option<T>) {
        lock_read_cloned(&*self.cell)
    }

    /// A copy of the current value; `UninitializedAccess` for an empty slot.
    pub fn read_inner(&self) -> (r: Result<T, crate::error::AnnError>)
        ensures
            r matches Err(e) ==> e == crate::error::AnnError::UninitializedAccess,
    {
        match self.get() {
            Some(v) => Ok(v),
            None => Err(crate::error::AnnError::UninitializedAccess),
        }
    }

    /// A new, independent cell holding a copy of the current value (empty if
    /// this slot is empty). Later writes to either are not seen by the other.
    pub fn deep_clone(&self) -> (r: Self) {
        RwSlot { cell: Arc::new(lock_new(self.get())) }
    }
}

} // verus!
