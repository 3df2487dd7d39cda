use vstd::prelude::*;

use crate::axis::{entry_keys, find_key, key_removed, keys_unique};
use crate::error::AnnError;
use crate::slot::RwSlot;

verus! {

/// One unstructured value behind a shared slot.
#[verifier::reject_recursive_types(V)]
pub struct Element<V>(pub RwSlot<V>);

impl<V> Clone for Element<V> {
    /// A second handle to the same value.
    fn clone(&self) -> (r: Self) {
        Element(self.0.shallow_clone())
    }
}

impl<V: Clone> Element<V> {
    /// An element holding `data`.
    pub fn new(data: V) -> (r: Self) {
        Element(RwSlot::new(data))
    }

    /// A copy of the value.
    pub fn get_data(&self) -> (r: Result<V, AnnError>)
        ensures
            r matches Err(e) ==> e == AnnError::UninitializedAccess,
    {
        self.0.read_inner()
    }

    /// Stores `data`; the slot holds a value afterwards.
    pub fn set_data(&self, data: V) -> (r: Result<(), AnnError>)
        ensures
            r is Ok,
    {
        let _ = self.0.insert(data);
        Ok(())
    }

    /// A new element holding a copy of the value, independent of this one.
    pub fn deep_clone(&self) -> (r: Result<Self, AnnError>)
        ensures
            r is Ok,
    {
        Ok(Element(self.0.deep_clone()))
    }
}

/// Named unstructured values, keys unique, with no shape rule.
#[verifier::reject_recursive_types(V)]
pub struct InnerElementCollection<V> {
    data: Vec<(String, Element<V>)>,
}

impl<V> InnerElementCollection<V> {
    #[verifier::type_invariant]
    spec fn wf(self) -> bool {
        keys_unique(entry_keys(self.data@))
    }

    /// The keys, in the collection's order.
    pub closed spec fn keys_view(self) -> Seq<Seq<char>> {
        entry_keys(self.data@)
    }

    /// An empty collection.
    pub fn new() -> (r: Self)
        ensures
            r.keys_view() == Seq::<Seq<char>>::empty(),
    {
        let r = InnerElementCollection { data: Vec::new() };
        assert(r.keys_view() =~= Seq::<Seq<char>>::empty());
        r
    }

    /// Adds `element` under `key`; `KeyAlreadyExists`, and nothing changed,
    /// when the key is taken.
    pub fn add_entry(&mut self, key: String, element: Element<V>) -> (r: Result<(), AnnError>)
        ensures
            r is Ok <==> !old(self).keys_view().contains(key@),
            r matches Err(e) ==> e == AnnError::KeyAlreadyExists,
            r is Ok ==> final(self).keys_view() == old(self).keys_view().push(key@),
            r is Err ==> *final(self) == *old(self),
    {
        proof {
            use_type_invariant(&*self);
        }
        if find_key(&self.data, key.as_str()).is_some() {
            return Err(AnnError::KeyAlreadyExists);
        }
        let ghost before = self.data@;
        let mut data = Vec::new();
        std::mem::swap(&mut data, &mut self.data);
        data.push((key, element));
        proof {
            assert(entry_keys(data@) =~= entry_keys(before).push(key@));
            assert forall|i: int, j: int|
                0 <= i < entry_keys(data@).len() && 0 <= j < entry_keys(data@).len() && i
                    != j implies entry_keys(data@)[i] != entry_keys(data@)[j] by {
                if i == before.len() as int {
                    assert(entry_keys(before)[j] == entry_keys(data@)[j]);
                } else if j == before.len() as int {
                    assert(entry_keys(before)[i] == entry_keys(data@)[i]);
                }
            }
        }
        self.data = data;
        Ok(())
    }

    /// Takes the value under `key` out; `KeyNotFound`, and nothing changed,
    /// when there is none.
    pub fn remove_entry(&mut self, key: &str) -> (r: Result<Element<V>, AnnError>)
        ensures
            r is Err <==> !old(self).keys_view().contains(key@),
            r matches Err(e) ==> e == AnnError::KeyNotFound,
            r is Err ==> *final(self) == *old(self),
            r is Ok ==> key_removed(old(self).keys_view(), final(self).keys_view(), key@),
    {
        proof {
            use_type_invariant(&*self);
        }
        match find_key(&self.data, key) {
            None => Err(AnnError::KeyNotFound),
            Some(i) => {
                let ghost before = self.data@;
                let mut data = Vec::new();
                std::mem::swap(&mut data, &mut self.data);
                let (_, element) = data.remove(i);
                proof {
                    let kb = entry_keys(before);
                    let ka = entry_keys(data@);
                    assert(ka =~= kb.remove(i as int));
                    assert forall|j: int| 0 <= j < ka.len() implies ka[j] != key@ by {
                        if j < i {
                            assert(ka[j] == kb[j]);
                        } else {
                            assert(ka[j] == kb[j + 1]);
                        }
                    }
                    assert forall|k: Seq<char>| k != key@ implies (ka.contains(k) <==> kb.contains(
                        k,
                    )) by {
                        if ka.contains(k) {
                            let j = choose|j: int| 0 <= j < ka.len() && ka[j] == k;
                            if j < i {
                                assert(kb[j] == k);
                            } else {
                                assert(kb[j + 1] == k);
                            }
                        }
                        if kb.contains(k) {
                            let j = choose|j: int| 0 <= j < kb.len() && kb[j] == k;
                            assert(j != i);
                            if j < i {
                                assert(ka[j] == k);
                            } else {
                                assert(ka[j - 1] == k);
                            }
                        }
                    }
                    assert forall|a: int, b: int|
                        0 <= a < ka.len() && 0 <= b < ka.len() && a != b implies ka[a] != ka[b] by {
                        let a2 = if a < i { a } else { a + 1 };
                        let b2 = if b < i { b } else { b + 1 };
                        assert(ka[a] == kb[a2]);
                        assert(ka[b] == kb[b2]);
                    }
                }
                self.data = data;
                Ok(element)
            },
        }
    }

    /// A second handle to the value under `key`; `KeyNotFound` when there
    /// is none.
    pub fn get_entry(&self, key: &str) -> (r: Result<Element<V>, AnnError>)
        ensures
            r is Err <==> !self.keys_view().contains(key@),
            r matches Err(e) ==> e == AnnError::KeyNotFound,
    {
        match find_key(&self.data, key) {
            Some(i) => Ok(self.data[i].1.clone()),
            None => Err(AnnError::KeyNotFound),
        }
    }
}

impl<V> Clone for InnerElementCollection<V> {
    /// The same keys, with second handles to the same values.
    fn clone(&self) -> (r: Self) {
        proof {
            use_type_invariant(self);
        }
        let mut out: Vec<(String, Element<V>)> = Vec::new();
        let mut i: usize = 0;
        while i < self.data.len()
            invariant
                i <= self.data@.len(),
                entry_keys(out@) == entry_keys(self.data@).take(i as int),
            decreases self.data@.len() - i,
        {
            let ghost prev = out@;
            let k = self.data[i].0.clone();
            let e = self.data[i].1.clone();
            out.push((k, e));
            proof {
                assert(entry_keys(out@) =~= entry_keys(prev).push(self.data@[i as int].0@));
                assert(entry_keys(self.data@).take(i + 1) =~= entry_keys(self.data@).take(
                    i as int,
                ).push(entry_keys(self.data@)[i as int]));
            }
            i = i + 1;
        }
        assert(entry_keys(self.data@).take(i as int) =~= entry_keys(self.data@));
        InnerElementCollection { data: out }
    }
}

impl<V: Clone> InnerElementCollection<V> {
    /// A copy whose values are independent copies, under the same keys.
    pub fn deep_copy(&self) -> (r: Self)
        ensures
            r.keys_view() == self.keys_view(),
    {
        proof {
            use_type_invariant(self);
        }
        let mut out: Vec<(String, Element<V>)> = Vec::new();
        let mut i: usize = 0;
        while i < self.data.len()
            invariant
                i <= self.data@.len(),
                entry_keys(out@) == entry_keys(self.data@).take(i as int),
            decreases self.data@.len() - i,
        {
            let ghost prev = out@;
            let k = self.data[i].0.clone();
            let e = Element(self.data[i].1.0.deep_clone());
            out.push((k, e));
            proof {
                assert(entry_keys(out@) =~= entry_keys(prev).push(self.data@[i as int].0@));
                assert(entry_keys(self.data@).take(i + 1) =~= entry_keys(self.data@).take(
                    i as int,
                ).push(entry_keys(self.data@)[i as int]));
            }
            i = i + 1;
        }
        assert(entry_keys(self.data@).take(i as int) =~= entry_keys(self.data@));
        InnerElementCollection { data: out }
    }
}

/// Named unstructured values behind one shared slot.
#[verifier::reject_recursive_types(V)]
pub struct IMElementCollection<V>(pub RwSlot<InnerElementCollection<V>>);

impl<V> Clone for IMElementCollection<V> {
    /// A second handle to the same collection.
    fn clone(&self) -> (r: Self) {
        IMElementCollection(self.0.shallow_clone())
    }
}

impl<V: Clone> IMElementCollection<V> {
    /// An empty collection.
    pub fn new_empty() -> (r: Self) {
        IMElementCollection(RwSlot::new(InnerElementCollection::new()))
    }

    /// Adds `element` under `key`; `KeyAlreadyExists` when the key is
    /// taken.
    pub fn add_data(&self, key: String, element: Element<V>) -> (r: Result<(), AnnError>)
        ensures
            r matches Err(e) ==> e is UninitializedAccess || e is KeyAlreadyExists,
    {
        let f = move |cur: Option<InnerElementCollection<V>>| -> (p: (
            Option<InnerElementCollection<V>>,
            Result<(), AnnError>,
        ))
            ensures
                (match p.1 {
                    Err(e) => e is UninitializedAccess || e is KeyAlreadyExists,
                    Ok(_) => true,
                }),
            {
                match cur {
                    None => (None, Err(AnnError::UninitializedAccess)),
                    Some(inner) => {
                        let mut inner = inner;
                        let r = inner.add_entry(key, element);
                        (Some(inner), r)
                    },
                }
            };
        self.0.update(f)
    }

    /// Takes the value under `key` out; `KeyNotFound` when there is none.
    pub fn remove_data(&self, key: &str) -> (r: Result<Element<V>, AnnError>)
        ensures
            r matches Err(e) ==> e is UninitializedAccess || e is KeyNotFound,
    {
        let f = move |cur: Option<InnerElementCollection<V>>| -> (p: (
            Option<InnerElementCollection<V>>,
            Result<Element<V>, AnnError>,
        ))
            ensures
                (match p.1 {
                    Err(e) => e is UninitializedAccess || e is KeyNotFound,
                    Ok(_) => true,
                }),
            {
                match cur {
                    None => (None, Err(AnnError::UninitializedAccess)),
                    Some(inner) => {
                        let mut inner = inner;
                        let r = inner.remove_entry(key);
                        (Some(inner), r)
                    },
                }
            };
        self.0.update(f)
    }

    /// A second handle to the value under `key`; `KeyNotFound` when there
    /// is none.
    pub fn get_data(&self, key: &str) -> (r: Result<Element<V>, AnnError>)
        ensures
            r matches Err(e) ==> e is UninitializedAccess || e is KeyNotFound,
    {
        match self.0.read_inner() {
            Err(e) => Err(e),
            Ok(inner) => inner.get_entry(key),
        }
    }

    /// An independent copy of the value under `key`; `KeyNotFound` when
    /// there is none.
    pub fn get_data_deep(&self, key: &str) -> (r: Result<Element<V>, AnnError>)
        ensures
            r matches Err(e) ==> e is UninitializedAccess || e is KeyNotFound,
    {
        match self.get_data(key) {
            Err(e) => Err(e),
            Ok(e) => Ok(Element(e.0.deep_clone())),
        }
    }

    /// A new collection whose values are independent copies.
    pub fn deep_clone(&self) -> (r: Result<Self, AnnError>)
        ensures
            r matches Err(e) ==> e == AnnError::UninitializedAccess,
    {
        match self.0.read_inner() {
            Err(e) => Err(e),
            Ok(inner) => Ok(IMElementCollection(RwSlot::new(inner.deep_copy()))),
        }
    }
}

} // verus!
