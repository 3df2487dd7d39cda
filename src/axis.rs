use vstd::prelude::*;

use crate::array::{selection_error, IMArrayElement};
use crate::dim::Dim;
use crate::error::AnnError;
use crate::selection::{
    select_info_elem_to_indices, selector_error, selector_indices, selector_valid, Selector,
};
use crate::slot::RwSlot;
use crate::values::ArrayValue;

verus! {

/// The shape rule of an axis collection.
///
/// A row collection takes arrays of any rank whose first extent is the
/// first dimension (a per-row annotation may have further axes, such as
/// embedding coordinates); the other two kinds take two-dimensional arrays
/// only.
#[derive(Debug, Clone, Copy, PartialEq, Eq, Structural)]
pub enum Axis {
    /// The first extent is the first dimension.
    Row,
    /// The array is two-dimensional, of extents the first and the second
    /// dimension.
    RowColumn,
    /// The array is two-dimensional, both extents the first dimension.
    Pairwise,
}

/// Whether an array of shape `shape` may join a collection of kind `axis`
/// whose dimensions are `dim1` and `dim2`.
pub open spec fn shape_fits(axis: Axis, shape: Seq<usize>, dim1: usize, dim2: usize) -> bool {
    match axis {
        Axis::Row => shape.len() >= 1 && shape[0] == dim1,
        Axis::RowColumn => shape.len() == 2 && shape[0] == dim1 && shape[1] == dim2,
        Axis::Pairwise => shape.len() == 2 && shape[0] == dim1 && shape[1] == dim1,
    }
}

/// The shape that `axis` asks for, as reported in a `ShapeMismatch`.
pub open spec fn expected_shape(axis: Axis, dim1: usize, dim2: usize) -> Seq<usize> {
    match axis {
        Axis::Row => seq![dim1],
        Axis::RowColumn => seq![dim1, dim2],
        Axis::Pairwise => seq![dim1, dim1],
    }
}

/// Checks `shape` against the rule of `axis` for dimensions `dim1` and
/// `dim2`: `ShapeMismatch`, naming the expected and the given shape, unless
/// it fits.
pub fn check_shape(axis: Axis, shape: &Vec<usize>, dim1: usize, dim2: usize) -> (r: Result<
    (),
    AnnError,
>)
    ensures
        r is Ok <==> shape_fits(axis, shape@, dim1, dim2),
        r matches Err(e) ==> (e matches AnnError::ShapeMismatch { expected, actual } && expected@
            == expected_shape(axis, dim1, dim2) && actual@ == shape@),
{
    let fits = match axis {
        Axis::Row => shape.len() >= 1 && shape[0] == dim1,
        Axis::RowColumn => shape.len() == 2 && shape[0] == dim1 && shape[1] == dim2,
        Axis::Pairwise => shape.len() == 2 && shape[0] == dim1 && shape[1] == dim1,
    };
    if fits {
        Ok(())
    } else {
        let expected = match axis {
            Axis::Row => vec![dim1],
            Axis::RowColumn => vec![dim1, dim2],
            Axis::Pairwise => vec![dim1, dim1],
        };
        proof {
            assert(expected@ =~= expected_shape(axis, dim1, dim2));
        }
        Err(AnnError::ShapeMismatch { expected, actual: shape.clone() })
    }
}

/// The number of selectors that a collection with (`has_dim2`) or without
/// a second dimension needs.
pub open spec fn wanted_selectors(has_dim2: bool) -> usize {
    if has_dim2 {
        2
    } else {
        1
    }
}

/// Whether `s` selects validly along a first dimension of size `n1` and,
/// when there is one, a second of size `n2`.
pub open spec fn axis_subset_valid(s: Seq<Selector>, n1: usize, n2: Option<usize>) -> bool {
    s.len() >= wanted_selectors(n2 is Some) && selector_valid(s[0], n1) && (n2 matches Some(m)
        ==> selector_valid(s[1], m))
}

/// Plans the selection `s` of a collection whose dimensions have sizes
/// `n1` and (when there is a second one) `n2`: the new sizes.
///
/// `SelectionArityMismatch` when a dimension has no selector; otherwise
/// the first selector's error, then the second's.
pub fn plan_axis_subset(s: &Vec<Selector>, n1: usize, n2: Option<usize>) -> (r: Result<
    (usize, Option<usize>),
    AnnError,
>)
    ensures
        r is Ok <==> axis_subset_valid(s@, n1, n2),
        s@.len() < wanted_selectors(n2 is Some) ==> r == Err::<(usize, Option<usize>), AnnError>(
            AnnError::SelectionArityMismatch {
                expected_axes: wanted_selectors(n2 is Some),
                given_axes: s@.len() as usize,
            },
        ),
        s@.len() >= wanted_selectors(n2 is Some) && !selector_valid(s@[0], n1) ==> (r matches Err(
            e,
        ) && selector_error(s@[0], n1, e)),
        s@.len() >= wanted_selectors(n2 is Some) && selector_valid(s@[0], n1) && n2 is Some
            && !selector_valid(s@[1], n2->Some_0) ==> (r matches Err(e) && selector_error(
            s@[1],
            n2->Some_0,
            e,
        )),
        r matches Ok(p) ==> p.0 == selector_indices(s@[0], n1).len() && (p.1 is Some <==> n2 is Some)
            && (p.1 matches Some(x) ==> x == selector_indices(s@[1], n2->Some_0).len()),
{
    let wanted: usize = match n2 {
        Some(_) => 2,
        None => 1,
    };
    if s.len() < wanted {
        return Err(AnnError::SelectionArityMismatch { expected_axes: wanted, given_axes: s.len() });
    }
    let m1 = match select_info_elem_to_indices(&s[0], n1) {
        Err(e) => {
            return Err(e);
        },
        Ok(v) => v.len(),
    };
    match n2 {
        None => Ok((m1, None)),
        Some(m) => match select_info_elem_to_indices(&s[1], m) {
            Err(e) => Err(e),
            Ok(v) => Ok((m1, Some(v.len()))),
        },
    }
}

/// The text of each key of `entries`, in order.
pub open spec fn entry_keys<E>(entries: Seq<(String, E)>) -> Seq<Seq<char>> {
    entries.map_values(|p: (String, E)| p.0@)
}

/// Whether no key occurs twice.
pub open spec fn keys_unique(keys: Seq<Seq<char>>) -> bool {
    forall|i: int, j: int| 0 <= i < keys.len() && 0 <= j < keys.len() && i != j ==> keys[i] != keys[j]
}

/// Whether `after` is `before` with `key` taken out and every other key
/// kept.
pub open spec fn key_removed(before: Seq<Seq<char>>, after: Seq<Seq<char>>, key: Seq<char>) -> bool {
    !after.contains(key) && forall|k: Seq<char>| k != key ==> (after.contains(k) <==> before.contains(k))
}

/// Finds `key` among the keys of `entries`.
pub fn find_key<E>(entries: &Vec<(String, E)>, key: &str) -> (r: Option<usize>)
    ensures
        r matches Some(i) ==> i < entries@.len() && entry_keys(entries@)[i as int] == key@,
        r is None <==> !entry_keys(entries@).contains(key@),
{
    let k: String = key.to_owned();
    let mut i: usize = 0;
    while i < entries.len()
        invariant
            i <= entries@.len(),
            k@ == key@,
            forall|j: int| 0 <= j < i ==> entry_keys(entries@)[j] != key@,
        decreases entries@.len() - i,
    {
        if entries[i].0 == k {
            assert(entry_keys(entries@)[i as int] == key@);
            return Some(i);
        }
        i = i + 1;
    }
    proof {
        if entry_keys(entries@).contains(key@) {
            let j = choose|j: int| 0 <= j < entry_keys(entries@).len() && entry_keys(entries@)[j] == key@;
            assert(entry_keys(entries@)[j] != key@);
        }
    }
    None
}

/// The named arrays of one axis collection, with its shape rule and the
/// shared dimensions it is checked against. Keys are unique.
#[verifier::reject_recursive_types(A)]
pub struct InnerIMAxisArray<A> {
    axis: Axis,
    dim1: Dim,
    dim2: Option<Dim>,
    data: Vec<(String, IMArrayElement<A>)>,
}

impl<A> InnerIMAxisArray<A> {
    #[verifier::type_invariant]
    spec fn wf(self) -> bool {
        keys_unique(entry_keys(self.data@))
    }

    /// The keys, in the collection's order.
    pub closed spec fn keys_view(self) -> Seq<Seq<char>> {
        entry_keys(self.data@)
    }

    /// The arrays, in the collection's order (the `i`-th under the `i`-th
    /// key).
    pub closed spec fn elements(self) -> Seq<IMArrayElement<A>> {
        self.data@.map_values(|p: (String, IMArrayElement<A>)| p.1)
    }

    /// The shape rule.
    pub closed spec fn axis_view(self) -> Axis {
        self.axis
    }

    /// Whether the collection has a second dimension.
    pub closed spec fn has_dim2(self) -> bool {
        self.dim2 is Some
    }

    /// An empty collection of kind `axis` over the given dimensions.
    pub fn new(axis: Axis, dim1: Dim, dim2: Option<Dim>) -> (r: Self)
        ensures
            r.keys_view() == Seq::<Seq<char>>::empty(),
            r.axis_view() == axis,
            r.has_dim2() == dim2 is Some,
    {
        let r = InnerIMAxisArray { axis, dim1, dim2, data: Vec::new() };
        assert(r.keys_view() =~= Seq::<Seq<char>>::empty());
        r
    }

    /// A collection of kind `axis` holding `data`; `KeyAlreadyExists` when
    /// a key occurs twice in it.
    pub fn from_entries(
        axis: Axis,
        dim1: Dim,
        dim2: Option<Dim>,
        data: Vec<(String, IMArrayElement<A>)>,
    ) -> (r: Result<Self, AnnError>)
        ensures
            r is Ok <==> keys_unique(entry_keys(data@)),
            r matches Ok(c) ==> c.keys_view() == entry_keys(data@) && c.axis_view() == axis
                && c.has_dim2() == dim2 is Some,
            r matches Err(e) ==> e == AnnError::KeyAlreadyExists,
    {
        let mut i: usize = 0;
        while i < data.len()
            invariant
                i <= data@.len(),
                forall|a: int, b: int|
                    0 <= a < i && 0 <= b < data@.len() && a != b ==> entry_keys(data@)[a]
                        != entry_keys(data@)[b],
            decreases data@.len() - i,
        {
            let mut j: usize = 0;
            while j < data.len()
                invariant
                    i < data@.len(),
                    j <= data@.len(),
                    forall|a: int, b: int|
                        0 <= a < i && 0 <= b < data@.len() && a != b ==> entry_keys(data@)[a]
                            != entry_keys(data@)[b],
                    forall|b: int| 0 <= b < j && b != i ==> entry_keys(data@)[i as int]
                        != entry_keys(data@)[b],
                decreases data@.len() - j,
            {
                if j != i && data[i].0 == data[j].0 {
                    assert(entry_keys(data@)[i as int] == entry_keys(data@)[j as int]);
                    return Err(AnnError::KeyAlreadyExists);
                }
                j = j + 1;
            }
            i = i + 1;
        }
        Ok(InnerIMAxisArray { axis, dim1, dim2, data })
    }

    /// The shape rule.
    pub fn axis(&self) -> (r: Axis)
        ensures
            r == self.axis_view(),
    {
        self.axis
    }

    /// Handles to the shared dimensions.
    pub fn dimensions(&self) -> (r: (Dim, Option<Dim>))
        ensures
            r.1 is Some == self.has_dim2(),
    {
        let d2 = match &self.dim2 {
            Some(d) => Some(d.clone()),
            None => None,
        };
        (self.dim1.clone(), d2)
    }

    /// The number of arrays.
    pub fn len(&self) -> (r: usize)
        ensures
            r == self.keys_view().len(),
    {
        self.data.len()
    }

    /// The array at position `i` of the collection's order.
    pub fn element_at(&self, i: usize) -> (r: &IMArrayElement<A>)
        requires
            i < self.keys_view().len(),
    {
        &self.data[i].1
    }

    /// Calls `f` on each array in the collection's order, stopping at the
    /// first call that fails and returning its error: on success every
    /// call succeeded; on failure the calls before the failing one
    /// succeeded.
    pub fn for_each_element<F: Fn(&IMArrayElement<A>) -> Result<(), AnnError>>(&self, f: F) -> (r:
        Result<(), AnnError>)
        requires
            forall|e: &IMArrayElement<A>| f.requires((e,)),
        ensures
            r is Ok ==> forall|i: int|
                0 <= i < self.elements().len() ==> f.ensures(
                    (&#[trigger] self.elements()[i],),
                    Ok::<(), AnnError>(()),
                ),
            r matches Err(e) ==> exists|i: int|
                0 <= i < self.elements().len() && f.ensures(
                    (&#[trigger] self.elements()[i],),
                    Err::<(), AnnError>(e),
                ) && forall|j: int|
                    0 <= j < i ==> f.ensures(
                        (&#[trigger] self.elements()[j],),
                        Ok::<(), AnnError>(()),
                    ),
    {
        let mut i: usize = 0;
        while i < self.data.len()
            invariant
                i <= self.data@.len(),
                self.elements().len() == self.data@.len(),
                forall|e: &IMArrayElement<A>| f.requires((e,)),
                forall|j: int|
                    0 <= j < i ==> f.ensures((&#[trigger] self.elements()[j],), Ok::<(), AnnError>(())),
            decreases self.data@.len() - i,
        {
            let e = &self.data[i].1;
            assert(*e == self.elements()[i as int]);
            let res = f(e);
            assert(f.ensures((e,), res));
            match res {
                Ok(u) => {
                    assert(u == ());
                    assert(res == Ok::<(), AnnError>(()));
                    assert(f.ensures((&self.elements()[i as int],), Ok::<(), AnnError>(())));
                },
                Err(err) => {
                    assert(f.ensures((&self.elements()[i as int],), Err::<(), AnnError>(err)));
                    return Err(err);
                },
            }
            i = i + 1;
        }
        Ok(())
    }

    /// The keys, in the collection's order.
    pub fn keys(&self) -> (r: Vec<String>)
        ensures
            r@.map_values(|s: String| s@) == self.keys_view(),
    {
        let mut out: Vec<String> = Vec::new();
        let mut i: usize = 0;
        while i < self.data.len()
            invariant
                i <= self.data@.len(),
                out@.map_values(|s: String| s@) == entry_keys(self.data@).take(i as int),
            decreases self.data@.len() - i,
        {
            let ghost prev = out@;
            let key = self.data[i].0.clone();
            out.push(key);
            proof {
                assert(out@.map_values(|s: String| s@) =~= prev.map_values(|s: String| s@).push(
                    key@,
                ));
                assert(entry_keys(self.data@).take(i + 1) =~= entry_keys(self.data@).take(
                    i as int,
                ).push(entry_keys(self.data@)[i as int]));
            }
            i = i + 1;
        }
        assert(entry_keys(self.data@).take(i as int) =~= entry_keys(self.data@));
        out
    }

    /// Adds `element`, whose shape is `shape`, under `key`, the collection's
    /// dimensions being `dim1` and `dim2`.
    ///
    /// `KeyAlreadyExists` when the key is taken; otherwise `ShapeMismatch`
    /// unless the shape fits the collection's rule. On failure nothing
    /// changes; on success the key is appended.
    pub fn add_checked(
        &mut self,
        key: String,
        element: IMArrayElement<A>,
        shape: &Vec<usize>,
        dim1: usize,
        dim2: usize,
    ) -> (r: Result<(), AnnError>)
        ensures
            r is Ok <==> !old(self).keys_view().contains(key@) && shape_fits(
                old(self).axis_view(),
                shape@,
                dim1,
                dim2,
            ),
            old(self).keys_view().contains(key@) ==> r == Err::<(), AnnError>(
                AnnError::KeyAlreadyExists,
            ),
            !old(self).keys_view().contains(key@) && !shape_fits(
                old(self).axis_view(),
                shape@,
                dim1,
                dim2,
            ) ==> (r matches Err(e) && e is ShapeMismatch),
            r is Ok ==> final(self).keys_view() == old(self).keys_view().push(key@)
                && final(self).elements() == old(self).elements().push(element),
            r is Err ==> *final(self) == *old(self),
            final(self).axis_view() == old(self).axis_view(),
            final(self).has_dim2() == old(self).has_dim2(),
    {
        proof {
            use_type_invariant(&*self);
        }
        if find_key(&self.data, key.as_str()).is_some() {
            return Err(AnnError::KeyAlreadyExists);
        }
        match check_shape(self.axis, shape, dim1, dim2) {
            Err(e) => Err(e),
            Ok(()) => {
                let ghost before = self.data@;
                let mut data = Vec::new();
                std::mem::swap(&mut data, &mut self.data);
                let ghost el = element;
                data.push((key, element));
                proof {
                    assert(entry_keys(data@) =~= entry_keys(before).push(key@));
                    assert(data@.map_values(|p: (String, IMArrayElement<A>)| p.1) =~= before.map_values(
                        |p: (String, IMArrayElement<A>)| p.1,
                    ).push(el));
                    assert(keys_unique(entry_keys(data@))) by {
                        assert forall|i: int, j: int|
                            0 <= i < entry_keys(data@).len() && 0 <= j < entry_keys(data@).len()
                                && i != j implies entry_keys(data@)[i] != entry_keys(data@)[j] by {
                            if i == before.len() as int {
                                assert(entry_keys(before)[j] == entry_keys(data@)[j]);
                            } else if j == before.len() as int {
                                assert(entry_keys(before)[i] == entry_keys(data@)[i]);
                            }
                        }
                    }
                }
                self.data = data;
                Ok(())
            },
        }
    }
}

/// Copies of `entries`: the same keys, and second handles to the same
/// arrays.
fn copy_entries<A>(entries: &Vec<(String, IMArrayElement<A>)>) -> (r: Vec<(String, IMArrayElement<A>)>)
    ensures
        entry_keys(r@) == entry_keys(entries@),
{
    let mut out: Vec<(String, IMArrayElement<A>)> = Vec::new();
    let mut i: usize = 0;
    while i < entries.len()
        invariant
            i <= entries@.len(),
            entry_keys(out@) == entry_keys(entries@).take(i as int),
        decreases entries@.len() - i,
    {
        let ghost prev = out@;
        let k = entries[i].0.clone();
        let e = entries[i].1.clone();
        out.push((k, e));
        proof {
            assert(entry_keys(out@) =~= entry_keys(prev).push(entries@[i as int].0@));
            assert(entry_keys(entries@).take(i + 1) =~= entry_keys(entries@).take(i as int).push(
                entry_keys(entries@)[i as int],
            ));
        }
        i = i + 1;
    }
    assert(entry_keys(entries@).take(i as int) =~= entry_keys(entries@));
    out
}

impl<A> Clone for InnerIMAxisArray<A> {
    /// The same keys, dimensions and rule, with second handles to the same
    /// arrays.
    fn clone(&self) -> (r: Self) {
        proof {
            use_type_invariant(self);
        }
        let d2 = match &self.dim2 {
            Some(d) => Some(d.clone()),
            None => None,
        };
        InnerIMAxisArray {
            axis: self.axis,
            dim1: self.dim1.clone(),
            dim2: d2,
            data: copy_entries(&self.data),
        }
    }
}

impl<A: ArrayValue + Clone> InnerIMAxisArray<A> {
    /// A second handle to the array under `key`; `KeyNotFound` when there is
    /// none.
    pub fn get_key(&self, key: &str) -> (r: Result<IMArrayElement<A>, AnnError>)
        ensures
            r is Err <==> !self.keys_view().contains(key@),
            r matches Err(e) ==> e == AnnError::KeyNotFound,
            r matches Ok(e) ==> exists|i: int|
                0 <= i < self.keys_view().len() && self.keys_view()[i] == key@ && e
                    == #[trigger] self.elements()[i],
    {
        match find_key(&self.data, key) {
            Some(i) => {
                let e = self.data[i].1.clone();
                assert(e == self.elements()[i as int]);
                Ok(e)
            },
            None => Err(AnnError::KeyNotFound),
        }
    }

    /// Takes the array under `key` out of the collection; `KeyNotFound`,
    /// and nothing changed, when there is none.
    pub fn remove_key(&mut self, key: &str) -> (r: Result<IMArrayElement<A>, AnnError>)
        ensures
            r is Err <==> !old(self).keys_view().contains(key@),
            r matches Err(e) ==> e == AnnError::KeyNotFound,
            r is Err ==> *final(self) == *old(self),
            r is Ok ==> key_removed(old(self).keys_view(), final(self).keys_view(), key@)
                && final(self).keys_view().len() + 1 == old(self).keys_view().len(),
            r matches Ok(e) ==> exists|i: int|
                0 <= i < old(self).keys_view().len() && old(self).keys_view()[i] == key@ && e
                    == #[trigger] old(self).elements()[i] && final(self).keys_view()
                    == old(self).keys_view().remove(i) && final(self).elements() == old(
                    self,
                ).elements().remove(i),
            final(self).axis_view() == old(self).axis_view(),
            final(self).has_dim2() == old(self).has_dim2(),
    {
        proof {
            use_type_invariant(&*self);
        }
        match find_key(&self.data, key) {
            None => Err(AnnError::KeyNotFound),
            Some(i) => {
                let ghost before = self.data@;
                let mut data = Vec::new();
                std::mem::swap(&mut data, &mut self.data);
                let (_, element) = data.remove(i);
                proof {
                    let kb = entry_keys(before);
                    let ka = entry_keys(data@);
                    assert(ka =~= kb.remove(i as int));
                    assert(data@.map_values(|p: (String, IMArrayElement<A>)| p.1) =~= before.map_values(
                        |p: (String, IMArrayElement<A>)| p.1,
                    ).remove(i as int));
                    assert(element == before.map_values(|p: (String, IMArrayElement<A>)| p.1)[i as int]);
                    assert forall|j: int| 0 <= j < ka.len() implies ka[j] != key@ by {
                        if j < i {
                            assert(ka[j] == kb[j]);
                        } else {
                            assert(ka[j] == kb[j + 1]);
                        }
                    }
                    assert forall|k: Seq<char>| k != key@ implies (ka.contains(k) <==> kb.contains(
                        k,
                    )) by {
                        if ka.contains(k) {
                            let j = choose|j: int| 0 <= j < ka.len() && ka[j] == k;
                            if j < i {
                                assert(kb[j] == k);
                            } else {
                                assert(kb[j + 1] == k);
                            }
                        }
                        if kb.contains(k) {
                            let j = choose|j: int| 0 <= j < kb.len() && kb[j] == k;
                            assert(j != i);
                            if j < i {
                                assert(ka[j] == k);
                            } else {
                                assert(ka[j - 1] == k);
                            }
                        }
                    }
                    assert forall|a: int, b: int|
                        0 <= a < ka.len() && 0 <= b < ka.len() && a != b implies ka[a] != ka[b] by {
                        let a2 = if a < i { a } else { a + 1 };
                        let b2 = if b < i { b } else { b + 1 };
                        assert(ka[a] == kb[a2]);
                        assert(ka[b] == kb[b2]);
                    }
                }
                self.data = data;
                proof {
                    let ob = before.map_values(|p: (String, IMArrayElement<A>)| p.1);
                    assert(entry_keys(before)[i as int] == key@);
                    assert(element == ob[i as int]);
                    assert(self.elements() == ob.remove(i as int));
                    assert(self.keys_view() == entry_keys(before).remove(i as int));
                    assert(old(self).elements() == ob);
                    assert(old(self).keys_view()[i as int] == key@);
                    assert(element == old(self).elements()[i as int]);
                }
                Ok(element)
            },
        }
    }

    /// Puts `element` under the existing `key`, whatever its shape;
    /// `KeyNotFound`, and nothing changed, when there is no such key. The
    /// keys stay as they are.
    pub fn update_key(&mut self, key: &str, element: IMArrayElement<A>) -> (r: Result<
        (),
        AnnError,
    >)
        ensures
            r is Err <==> !old(self).keys_view().contains(key@),
            r matches Err(e) ==> e == AnnError::KeyNotFound,
            r is Err ==> *final(self) == *old(self),
            r is Ok ==> exists|i: int|
                0 <= i < old(self).keys_view().len() && #[trigger] old(self).keys_view()[i] == key@
                    && final(self).elements() == old(self).elements().update(i, element),
            final(self).keys_view() == old(self).keys_view(),
            final(self).axis_view() == old(self).axis_view(),
            final(self).has_dim2() == old(self).has_dim2(),
    {
        proof {
            use_type_invariant(&*self);
        }
        match find_key(&self.data, key) {
            None => Err(AnnError::KeyNotFound),
            Some(i) => {
                let ghost before = self.data@;
                let mut data = Vec::new();
                std::mem::swap(&mut data, &mut self.data);
                let k = data[i].0.clone();
                let ghost el = element;
                data.set(i, (k, element));
                proof {
                    assert(entry_keys(data@) =~= entry_keys(before));
                    assert(data@.map_values(|p: (String, IMArrayElement<A>)| p.1) =~= before.map_values(
                        |p: (String, IMArrayElement<A>)| p.1,
                    ).update(i as int, el));
                    assert(entry_keys(before)[i as int] == key@);
                }
                self.data = data;
                proof {
                    assert(old(self).keys_view()[i as int] == key@);
                    assert(old(self).elements() == before.map_values(
                        |p: (String, IMArrayElement<A>)| p.1,
                    ));
                    assert(self.elements() == old(self).elements().update(i as int, el));
                }
                Ok(())
            },
        }
    }

    /// Replaces every array by its selection `s`, all or none: each
    /// selection is made first, and the arrays are replaced only when every
    /// one succeeded. The dimensions are not touched.
    pub fn subset_arrays(&self, s: &Vec<Selector>) -> (r: Result<(), AnnError>)
        ensures
            r matches Err(e) ==> selection_error(e),
    {
        let mut picked: Vec<A> = Vec::new();
        let mut i: usize = 0;
        while i < self.data.len()
            invariant
                i <= self.data@.len(),
                picked@.len() == i,
            decreases self.data@.len() - i,
        {
            match self.data[i].1.selected(s) {
                Ok(v) => picked.push(v),
                Err(e) => {
                    return Err(e);
                },
            }
            i = i + 1;
        }
        let mut j: usize = 0;
        while j < self.data.len()
            invariant
                j <= self.data@.len(),
                picked@.len() == self.data@.len(),
            decreases self.data@.len() - j,
        {
            let v = picked[j].clone();
            let _ = self.data[j].1.set_data(v);
            j = j + 1;
        }
        Ok(())
    }

    /// The selections `s` of every array, as new independent elements under
    /// the same keys, in the same order.
    pub fn subset_entries(&self, s: &Vec<Selector>) -> (r: Result<
        Vec<(String, IMArrayElement<A>)>,
        AnnError,
    >)
        ensures
            r matches Ok(v) ==> entry_keys(v@) == self.keys_view(),
            r matches Err(e) ==> selection_error(e),
    {
        let mut out: Vec<(String, IMArrayElement<A>)> = Vec::new();
        let mut i: usize = 0;
        while i < self.data.len()
            invariant
                i <= self.data@.len(),
                entry_keys(out@) == entry_keys(self.data@).take(i as int),
            decreases self.data@.len() - i,
        {
            match self.data[i].1.subset(s) {
                Ok(e) => {
                    let ghost prev = out@;
                    let k = self.data[i].0.clone();
                    out.push((k, e));
                    proof {
                        assert(entry_keys(out@) =~= entry_keys(prev).push(self.data@[i as int].0@));
                        assert(entry_keys(self.data@).take(i + 1) =~= entry_keys(self.data@).take(
                            i as int,
                        ).push(entry_keys(self.data@)[i as int]));
                    }
                },
                Err(e) => {
                    return Err(e);
                },
            }
            i = i + 1;
        }
        assert(entry_keys(self.data@).take(i as int) =~= entry_keys(self.data@));
        Ok(out)
    }

    /// A collection of the same rule over new dimensions `dim1`, `dim2`,
    /// holding the selections `s` of every array under the same keys.
    pub fn subset_into(&self, s: &Vec<Selector>, dim1: Dim, dim2: Option<Dim>) -> (r: Result<
        Self,
        AnnError,
    >)
        ensures
            r matches Ok(c) ==> c.keys_view() == self.keys_view() && c.axis_view()
                == self.axis_view() && c.has_dim2() == dim2 is Some,
            r matches Err(e) ==> selection_error(e),
    {
        proof {
            use_type_invariant(self);
        }
        match self.subset_entries(s) {
            Err(e) => Err(e),
            Ok(data) => Ok(InnerIMAxisArray { axis: self.axis, dim1, dim2, data }),
        }
    }

    /// A copy whose arrays are independent copies, under the same keys,
    /// over the dimensions `dim1` and `dim2`.
    pub fn deep_copy(&self, dim1: Dim, dim2: Option<Dim>) -> (r: Self)
        ensures
            r.keys_view() == self.keys_view(),
            r.axis_view() == self.axis_view(),
            r.has_dim2() == dim2 is Some,
    {
        proof {
            use_type_invariant(self);
        }
        let mut out: Vec<(String, IMArrayElement<A>)> = Vec::new();
        let mut i: usize = 0;
        while i < self.data.len()
            invariant
                i <= self.data@.len(),
                entry_keys(out@) == entry_keys(self.data@).take(i as int),
            decreases self.data@.len() - i,
        {
            let ghost prev = out@;
            let k = self.data[i].0.clone();
            let e = IMArrayElement(self.data[i].1.0.deep_clone());
            out.push((k, e));
            proof {
                assert(entry_keys(out@) =~= entry_keys(prev).push(self.data@[i as int].0@));
                assert(entry_keys(self.data@).take(i + 1) =~= entry_keys(self.data@).take(
                    i as int,
                ).push(entry_keys(self.data@)[i as int]));
            }
            i = i + 1;
        }
        assert(entry_keys(self.data@).take(i as int) =~= entry_keys(self.data@));
        InnerIMAxisArray { axis: self.axis, dim1, dim2, data: out }
    }
}

/// Once a key has been removed from a collection, it is absent from it: a
/// lookup of it (`get_key`) and a second removal (`remove_key`) both fail
/// with `KeyNotFound`, as their contracts state for an absent key.
pub proof fn lemma_removed_key_is_absent(
    before: Seq<Seq<char>>,
    after: Seq<Seq<char>>,
    key: Seq<char>,
)
    requires
        key_removed(before, after, key),
    ensures
        !after.contains(key),
{
}

/// The errors that an operation on an axis collection can end in.
pub open spec fn axis_error(e: AnnError) -> bool {
    selection_error(e) || e is KeyAlreadyExists || e is KeyNotFound || e is ShapeMismatch
}

/// A named collection of arrays behind one shared slot, checked against a
/// shape rule and one or two shared dimensions.
///
/// Handles made by `clone` share the collection. The shape rule is checked
/// when an array is added; arrays already in the collection are not checked
/// again when a shared dimension changes.
#[verifier::reject_recursive_types(A)]
pub struct IMAxisArrays<A>(pub RwSlot<InnerIMAxisArray<A>>);

impl<A> Clone for IMAxisArrays<A> {
    /// A second handle to the same collection.
    fn clone(&self) -> (r: Self) {
        IMAxisArrays(self.0.shallow_clone())
    }
}

impl<A: ArrayValue + Clone> IMAxisArrays<A> {
    /// An empty collection of kind `axis` over the given dimensions.
    pub fn new(axis: Axis, dim1: Dim, dim2: Option<Dim>) -> (r: Self) {
        IMAxisArrays(RwSlot::new(InnerIMAxisArray::new(axis, dim1, dim2)))
    }

    /// A collection of kind `axis` holding `data` as it is (shapes are not
    /// checked); `KeyAlreadyExists` when a key occurs twice.
    pub fn new_from(
        axis: Axis,
        dim1: Dim,
        dim2: Option<Dim>,
        data: Vec<(String, IMArrayElement<A>)>,
    ) -> (r: Result<Self, AnnError>)
        ensures
            r is Ok <==> keys_unique(entry_keys(data@)),
            r matches Err(e) ==> e == AnnError::KeyAlreadyExists,
    {
        match InnerIMAxisArray::from_entries(axis, dim1, dim2, data) {
            Ok(inner) => Ok(IMAxisArrays(RwSlot::new(inner))),
            Err(e) => Err(e),
        }
    }

    /// A copy of the collection's current state (second handles to its
    /// arrays and dimensions).
    pub fn snapshot(&self) -> (r: Result<InnerIMAxisArray<A>, AnnError>)
        ensures
            r matches Err(e) ==> e == AnnError::UninitializedAccess,
    {
        self.0.read_inner()
    }

    /// Adds `element` under `key`: `KeyAlreadyExists` when the key is
    /// taken, otherwise `ShapeMismatch` unless the element's shape fits the
    /// collection's rule against the current dimensions (see `add_checked`).
    /// On failure nothing changes.
    pub fn add_array(&self, key: String, element: IMArrayElement<A>) -> (r: Result<(), AnnError>)
        ensures
            r matches Err(e) ==> e is UninitializedAccess || e is KeyAlreadyExists
                || e is ShapeMismatch,
    {
        let f = move |cur: Option<InnerIMAxisArray<A>>| -> (p: (
            Option<InnerIMAxisArray<A>>,
            Result<(), AnnError>,
        ))
            ensures
                (match p.1 {
                    Err(e) => e is UninitializedAccess || e is KeyAlreadyExists
                        || e is ShapeMismatch,
                    Ok(_) => true,
                }),
            {
                match cur {
                    None => (None, Err(AnnError::UninitializedAccess)),
                    Some(inner) => {
                        let mut inner = inner;
                        match element.get_shape() {
                            Err(e) => (Some(inner), Err(e)),
                            Ok(shape) => {
                                let (d1, d2) = inner.dimensions();
                                let n1 = d1.get();
                                let n2 = match d2 {
                                    Some(d) => d.get(),
                                    None => 0,
                                };
                                let r = inner.add_checked(key, element, &shape, n1, n2);
                                (Some(inner), r)
                            },
                        }
                    },
                }
            };
        self.0.update(f)
    }

    /// An independent copy of the array under `key`; `KeyNotFound` when
    /// there is none.
    pub fn get_array(&self, key: &str) -> (r: Result<IMArrayElement<A>, AnnError>)
        ensures
            r matches Err(e) ==> e is UninitializedAccess || e is KeyNotFound,
    {
        match self.get_array_shallow(key) {
            Ok(e) => Ok(IMArrayElement(e.0.deep_clone())),
            Err(e) => Err(e),
        }
    }

    /// A second handle to the array under `key`, through which changes are
    /// seen by the collection; `KeyNotFound` when there is none.
    pub fn get_array_shallow(&self, key: &str) -> (r: Result<IMArrayElement<A>, AnnError>)
        ensures
            r matches Err(e) ==> e is UninitializedAccess || e is KeyNotFound,
    {
        match self.0.read_inner() {
            Err(e) => Err(e),
            Ok(inner) => inner.get_key(key),
        }
    }

    /// Takes the array under `key` out of the collection; `KeyNotFound`
    /// when there is none.
    pub fn remove_array(&self, key: &str) -> (r: Result<IMArrayElement<A>, AnnError>)
        ensures
            r matches Err(e) ==> e is UninitializedAccess || e is KeyNotFound,
    {
        let f = move |cur: Option<InnerIMAxisArray<A>>| -> (p: (
            Option<InnerIMAxisArray<A>>,
            Result<IMArrayElement<A>, AnnError>,
        ))
            ensures
                (match p.1 {
                    Err(e) => e is UninitializedAccess || e is KeyNotFound,
                    Ok(_) => true,
                }),
            {
                match cur {
                    None => (None, Err(AnnError::UninitializedAccess)),
                    Some(inner) => {
                        let mut inner = inner;
                        let r = inner.remove_key(key);
                        (Some(inner), r)
                    },
                }
            };
        self.0.update(f)
    }

    /// Puts `new_element` under the existing `key`, without a shape check;
    /// `KeyNotFound` when there is no such key.
    pub fn update_array(&self, key: &str, new_element: IMArrayElement<A>) -> (r: Result<
        (),
        AnnError,
    >)
        ensures
            r matches Err(e) ==> e is UninitializedAccess || e is KeyNotFound,
    {
        let f = move |cur: Option<InnerIMAxisArray<A>>| -> (p: (
            Option<InnerIMAxisArray<A>>,
            Result<(), AnnError>,
        ))
            ensures
                (match p.1 {
                    Err(e) => e is UninitializedAccess || e is KeyNotFound,
                    Ok(_) => true,
                }),
            {
                match cur {
                    None => (None, Err(AnnError::UninitializedAccess)),
                    Some(inner) => {
                        let mut inner = inner;
                        let r = inner.update_key(key, new_element);
                        (Some(inner), r)
                    },
                }
            };
        self.0.update(f)
    }

    /// The number of arrays.
    pub fn len(&self) -> (r: Result<usize, AnnError>)
        ensures
            r matches Err(e) ==> e == AnnError::UninitializedAccess,
    {
        match self.0.read_inner() {
            Err(e) => Err(e),
            Ok(inner) => Ok(inner.len()),
        }
    }

    /// Whether the collection holds no array.
    pub fn is_empty(&self) -> (r: Result<bool, AnnError>)
        ensures
            r matches Err(e) ==> e == AnnError::UninitializedAccess,
    {
        match self.len() {
            Err(e) => Err(e),
            Ok(n) => Ok(n == 0),
        }
    }

    /// The keys.
    pub fn keys(&self) -> (r: Result<Vec<String>, AnnError>)
        ensures
            r matches Err(e) ==> e == AnnError::UninitializedAccess,
    {
        match self.0.read_inner() {
            Err(e) => Err(e),
            Ok(inner) => Ok(inner.keys()),
        }
    }

    /// The shape rule.
    pub fn axis(&self) -> (r: Result<Axis, AnnError>)
        ensures
            r matches Err(e) ==> e == AnnError::UninitializedAccess,
    {
        match self.0.read_inner() {
            Err(e) => Err(e),
            Ok(inner) => Ok(inner.axis()),
        }
    }

    /// Handles to the shared dimensions.
    pub fn dimensions(&self) -> (r: Result<(Dim, Option<Dim>), AnnError>)
        ensures
            r matches Err(e) ==> e == AnnError::UninitializedAccess,
    {
        match self.0.read_inner() {
            Err(e) => Err(e),
            Ok(inner) => Ok(inner.dimensions()),
        }
    }

    /// Replaces every array by its selection `s` (all or none), without
    /// touching the shared dimensions. Used where the caller resizes the
    /// dimensions itself, once, for every collection that shares them.
    pub fn subset_arrays_inplace(&self, s: &Vec<Selector>) -> (r: Result<(), AnnError>)
        ensures
            r matches Err(e) ==> selection_error(e),
    {
        match self.0.read_inner() {
            Err(e) => Err(e),
            Ok(inner) => inner.subset_arrays(s),
        }
    }

    /// Selects `s` in place: the new sizes of the dimensions are planned
    /// by `plan_axis_subset` against the current sizes, every array is
    /// replaced by its selection (all or none), and then the shared
    /// dimensions are set to the planned sizes, which every other
    /// collection holding them sees.
    ///
    /// A failed plan or a failed selection changes nothing.
    pub fn subset_inplace(&self, s: &Vec<Selector>) -> (r: Result<(), AnnError>)
        ensures
            r matches Err(e) ==> selection_error(e),
    {
        let inner = match self.0.read_inner() {
            Err(e) => {
                return Err(e);
            },
            Ok(inner) => inner,
        };
        let (d1, d2) = inner.dimensions();
        let n2 = match &d2 {
            Some(d) => Some(d.get()),
            None => None,
        };
        let (m1, m2) = match plan_axis_subset(s, d1.get(), n2) {
            Err(e) => {
                return Err(e);
            },
            Ok(p) => p,
        };
        match inner.subset_arrays(s) {
            Err(e) => Err(e),
            Ok(()) => {
                d1.set(m1);
                match (&d2, m2) {
                    (Some(d), Some(m)) => d.set(m),
                    _ => {},
                }
                Ok(())
            },
        }
    }

    /// A new collection of the same rule over new dimensions of the sizes
    /// that `plan_axis_subset` gives, holding the selections of every
    /// array; this one and its dimensions are left as they are.
    pub fn subset(&self, s: &Vec<Selector>) -> (r: Result<Self, AnnError>)
        ensures
            r matches Err(e) ==> selection_error(e),
    {
        let inner = match self.0.read_inner() {
            Err(e) => {
                return Err(e);
            },
            Ok(inner) => inner,
        };
        let (d1, d2) = inner.dimensions();
        let n2 = match &d2 {
            Some(d) => Some(d.get()),
            None => None,
        };
        let (m1, m2) = match plan_axis_subset(s, d1.get(), n2) {
            Err(e) => {
                return Err(e);
            },
            Ok(p) => p,
        };
        let new_d2 = match m2 {
            Some(m) => Some(Dim::new(m)),
            None => None,
        };
        match inner.subset_into(s, Dim::new(m1), new_d2) {
            Err(e) => Err(e),
            Ok(c) => Ok(IMAxisArrays(RwSlot::new(c))),
        }
    }

    /// A new collection of the same rule over the given dimensions (which
    /// the caller sizes to the selection and may share with other
    /// collections), holding the selections `s` of every array; this one is
    /// left as it is.
    pub fn subset_with_dims(&self, s: &Vec<Selector>, dim1: Dim, dim2: Option<Dim>) -> (r: Result<
        Self,
        AnnError,
    >)
        ensures
            r matches Err(e) ==> selection_error(e),
    {
        match self.0.read_inner() {
            Err(e) => Err(e),
            Ok(inner) => match inner.subset_into(s, dim1, dim2) {
                Err(e) => Err(e),
                Ok(c) => Ok(IMAxisArrays(RwSlot::new(c))),
            },
        }
    }

    /// Applies `f` to a handle of every array, in the collection's order,
    /// stopping at the first failure, which is returned (see
    /// `InnerIMAxisArray::for_each_element`).
    pub fn map<F: Fn(&IMArrayElement<A>) -> Result<(), AnnError>>(&self, f: F) -> (r: Result<
        (),
        AnnError,
    >)
        requires
            forall|e: &IMArrayElement<A>| f.requires((e,)),
        ensures
            r matches Err(e) ==> e == AnnError::UninitializedAccess || exists|a: &IMArrayElement<A>|
                f.ensures((a,), Err::<(), AnnError>(e)),
    {
        match self.0.read_inner() {
            Err(e) => Err(e),
            Ok(inner) => inner.for_each_element(f),
        }
    }

    /// A new collection whose arrays are independent copies, over new
    /// dimensions of the current sizes.
    pub fn deep_clone(&self) -> (r: Result<Self, AnnError>)
        ensures
            r matches Err(e) ==> e == AnnError::UninitializedAccess,
    {
        match self.0.read_inner() {
            Err(e) => Err(e),
            Ok(inner) => {
                let (d1, d2) = inner.dimensions();
                let n1 = Dim::new(d1.get());
                let n2 = match d2 {
                    Some(d) => Some(Dim::new(d.get())),
                    None => None,
                };
                Ok(IMAxisArrays(RwSlot::new(inner.deep_copy(n1, n2))))
            },
        }
    }

    /// A new collection whose arrays are independent copies, over the
    /// dimensions `dim1` and `dim2`.
    pub fn deep_clone_with_dims(&self, dim1: Dim, dim2: Option<Dim>) -> (r: Result<
        Self,
        AnnError,
    >)
        ensures
            r matches Err(e) ==> e == AnnError::UninitializedAccess,
    {
        match self.0.read_inner() {
            Err(e) => Err(e),
            Ok(inner) => Ok(IMAxisArrays(RwSlot::new(inner.deep_copy(dim1, dim2)))),
        }
    }
}

} // verus!
