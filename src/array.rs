use vstd::prelude::*;

use crate::error::AnnError;
use crate::selection::{
    select_info_elem_to_indices, selector_error, selector_indices, selector_valid, Selector,
};
use crate::slot::RwSlot;
use crate::values::ArrayValue;

verus! {

/// Whether `sels` is one valid selector per axis of `shape`.
pub open spec fn selection_valid(sels: Seq<Selector>, shape: Seq<usize>) -> bool {
    sels.len() == shape.len() && forall|k: int|
        0 <= k < sels.len() ==> #[trigger] selector_valid(sels[k], shape[k])
}

/// The positions that a valid selection keeps along each axis of `shape`.
pub open spec fn selection_indices(sels: Seq<Selector>, shape: Seq<usize>) -> Seq<Seq<usize>> {
    Seq::new(sels.len(), |k: int| selector_indices(sels[k], shape[k]))
}

/// Whether `sels[k]` is the first selector that is not valid for its axis.
pub open spec fn first_invalid(sels: Seq<Selector>, shape: Seq<usize>, k: int) -> bool {
    0 <= k < sels.len() && k < shape.len() && !selector_valid(sels[k], shape[k]) && forall|j: int|
        0 <= j < k ==> #[trigger] selector_valid(sels[j], shape[j])
}

/// The extent of each axis after the selection: the number of positions
/// kept along it.
pub open spec fn selected_shape(sels: Seq<Selector>, shape: Seq<usize>) -> Seq<usize> {
    Seq::new(sels.len(), |k: int| selector_indices(sels[k], shape[k]).len() as usize)
}

/// The errors that selecting from an array's slot can end in.
pub open spec fn selection_error(e: AnnError) -> bool {
    e is UninitializedAccess || e is SelectionArityMismatch || e is IndexOutOfBounds
        || e is SliceOutOfBounds || e is InvalidStep || e is ArrayOperation
}

/// Translates one selector per axis into the explicit positions kept along
/// each axis of an array of shape `shape`.
///
/// Fails with `SelectionArityMismatch` when the number of selectors is not
/// the number of axes, and otherwise with the error of the first selector
/// that is not valid for its axis.
pub fn selection_to_indices(sels: &Vec<Selector>, shape: &Vec<usize>) -> (r: Result<
    Vec<Vec<usize>>,
    AnnError,
>)
    ensures
        r is Ok <==> selection_valid(sels@, shape@),
        sels@.len() != shape@.len() ==> r == Err::<Vec<Vec<usize>>, AnnError>(
            AnnError::SelectionArityMismatch {
                expected_axes: shape@.len() as usize,
                given_axes: sels@.len() as usize,
            },
        ),
        r matches Ok(v) ==> v@.len() == sels@.len() && forall|k: int|
            0 <= k < v@.len() ==> (#[trigger] v@[k])@ == selector_indices(sels@[k], shape@[k]),
        r matches Err(e) ==> sels@.len() == shape@.len() ==> exists|k: int|
            #[trigger] first_invalid(sels@, shape@, k) && selector_error(sels@[k], shape@[k], e),
{
    if sels.len() != shape.len() {
        return Err(AnnError::SelectionArityMismatch {
            expected_axes: shape.len(),
            given_axes: sels.len(),
        });
    }
    let mut out: Vec<Vec<usize>> = Vec::new();
    let mut k: usize = 0;
    while k < sels.len()
        invariant
            sels@.len() == shape@.len(),
            k <= sels@.len(),
            out@.len() == k,
            forall|j: int| 0 <= j < k ==> #[trigger] selector_valid(sels@[j], shape@[j]),
            forall|j: int|
                0 <= j < k ==> (#[trigger] out@[j])@ == selector_indices(sels@[j], shape@[j]),
        decreases sels@.len() - k,
    {
        match select_info_elem_to_indices(&sels[k], shape[k]) {
            Ok(v) => {
                out.push(v);
            },
            Err(e) => {
                assert(first_invalid(sels@, shape@, k as int));
                return Err(e);
            },
        }
        k = k + 1;
    }
    Ok(out)
}

/// One array behind a shared slot.
///
/// Handles made by `clone` share the array; `deep_clone` makes an
/// independent copy.
#[verifier::reject_recursive_types(A)]
pub struct IMArrayElement<A>(pub RwSlot<A>);

impl<A> Clone for IMArrayElement<A> {
    /// A second handle to the same array: a write through either is seen
    /// by both.
    fn clone(&self) -> (r: Self)
        ensures
            r == *self,
    {
        IMArrayElement(self.0.shallow_clone())
    }
}

impl<A: ArrayValue + Clone> IMArrayElement<A> {
    /// An element holding `data`.
    pub fn new(data: A) -> (r: Self) {
        IMArrayElement(RwSlot::new(data))
    }

    /// The element type of the array.
    pub fn get_type(&self) -> (r: Result<String, AnnError>)
        ensures
            r matches Err(e) ==> e == AnnError::UninitializedAccess,
    {
        match self.0.read_inner() {
            Ok(d) => Ok(d.dtype_name()),
            Err(e) => Err(e),
        }
    }

    /// The shape of the array.
    pub fn get_shape(&self) -> (r: Result<Vec<usize>, AnnError>)
        ensures
            r matches Err(e) ==> e == AnnError::UninitializedAccess,
    {
        match self.0.read_inner() {
            Ok(d) => Ok(d.shape()),
            Err(e) => Err(e),
        }
    }

    /// A copy of the array.
    pub fn get_data(&self) -> (r: Result<A, AnnError>)
        ensures
            r matches Err(e) ==> e == AnnError::UninitializedAccess,
    {
        self.0.read_inner()
    }

    /// Stores `data`, whatever its shape; the slot holds a value afterwards.
    pub fn set_data(&self, data: A) -> (r: Result<(), AnnError>)
        ensures
            r is Ok,
    {
        let _ = self.0.insert(data);
        Ok(())
    }

    /// Replaces the array by its selection along each axis.
    ///
    /// The selectors are checked against the array's current shape; on any
    /// failure the array is left as it was.
    pub fn subset_inplace(&self, s: &Vec<Selector>) -> (r: Result<(), AnnError>)
        ensures
            r matches Err(e) ==> selection_error(e),
    {
        let f = |cur: Option<A>| -> (p: (Option<A>, Result<(), AnnError>))
            ensures
                (match p.1 {
                    Err(e) => selection_error(e),
                    Ok(_) => true,
                }),
            {
                match cur {
                    None => (None, Err(AnnError::UninitializedAccess)),
                    Some(d) => {
                        let shape = d.shape();
                        match selection_to_indices(s, &shape) {
                            Ok(idx) => match d.select(&idx) {
                                Some(n) => (Some(n), Ok(())),
                                None => (Some(d), Err(AnnError::ArrayOperation)),
                            },
                            Err(e) => (Some(d), Err(e)),
                        }
                    },
                }
            };
        self.0.update(f)
    }

    /// The selection of the array along each axis, as a new value; the
    /// array itself is left as it is.
    pub fn selected(&self, s: &Vec<Selector>) -> (r: Result<A, AnnError>)
        ensures
            r matches Err(e) ==> selection_error(e),
    {
        match self.0.read_inner() {
            Err(e) => Err(e),
            Ok(d) => {
                let shape = d.shape();
                match selection_to_indices(s, &shape) {
                    Ok(idx) => match d.select(&idx) {
                        Some(n) => Ok(n),
                        None => Err(AnnError::ArrayOperation),
                    },
                    Err(e) => Err(e),
                }
            },
        }
    }

    /// A new, independent element holding the selection of the array; the
    /// array itself is left as it is.
    pub fn subset(&self, s: &Vec<Selector>) -> (r: Result<Self, AnnError>)
        ensures
            r matches Err(e) ==> selection_error(e),
    {
        match self.selected(s) {
            Ok(d) => Ok(IMArrayElement::new(d)),
            Err(e) => Err(e),
        }
    }

    /// A new element holding a copy of the array, independent of this one.
    pub fn deep_clone(&self) -> (r: Result<Self, AnnError>)
        ensures
            r is Ok,
    {
        Ok(IMArrayElement(self.0.deep_clone()))
    }

    /// A copy of the array.
    pub fn deep_clone_content(&self) -> (r: Result<A, AnnError>)
        ensures
            r matches Err(e) ==> e == AnnError::UninitializedAccess,
    {
        self.0.read_inner()
    }
}

} // verus!
