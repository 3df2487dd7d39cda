use vstd::prelude::*;

use crate::error::AnnError;
use crate::selection::{
    all_below, select_info_elem_to_indices, selector_error, selector_indices, selector_valid,
    Selector,
};
use crate::slot::RwSlot;
use crate::axis::key_removed;
use crate::values::{names_with, TableValue};

verus! {

/// A table together with its row labels, kept as one unit.
///
/// The type's invariant: the table's height, the recorded `height` and the
/// number of labels are equal. Labels are not required to be unique:
/// repeated labels are kept as given, and a selection that repeats a row
/// repeats its label.
#[verifier::reject_recursive_types(D)]
pub struct InnerIMDataFrame<D: TableValue> {
    df: D,
    index: Vec<String>,
    height: usize,
}

/// The labels at `rows`, in that order.
pub open spec fn labels_at(labels: Seq<String>, rows: Seq<usize>) -> Seq<String> {
    Seq::new(rows.len(), |i: int| labels[rows[i] as int])
}

impl<D: TableValue> InnerIMDataFrame<D> {
    #[verifier::type_invariant]
    spec fn wf(self) -> bool {
        self.height == self.index@.len() && self.height == self.df.spec_height()
    }

    /// The table.
    pub closed spec fn table(self) -> D {
        self.df
    }

    /// The row labels.
    pub closed spec fn labels(self) -> Seq<String> {
        self.index@
    }

    /// The table's height.
    pub closed spec fn rows(self) -> nat {
        self.height as nat
    }

    /// The number of rows is the number of labels and the table's height.
    pub fn height(&self) -> (r: usize)
        ensures
            r == self.rows(),
            r == self.labels().len(),
            r == self.table().spec_height(),
    {
        proof {
            use_type_invariant(self);
        }
        self.height
    }

    /// Pairs `df` with `index`; refused with `HeightMismatch` unless the
    /// table's height equals the number of labels.
    pub fn try_new(df: D, index: Vec<String>) -> (r: Result<Self, AnnError>)
        ensures
            r is Ok <==> df.spec_height() == index@.len(),
            r matches Ok(t) ==> t.table() == df && t.labels() == index@ && t.rows()
                == index@.len(),
            r matches Err(e) ==> e == (AnnError::HeightMismatch {
                table: df.spec_height() as usize,
                index: index@.len() as usize,
            }),
    {
        let height = df.height();
        if height != index.len() {
            return Err(AnnError::HeightMismatch { table: height, index: index.len() });
        }
        Ok(InnerIMDataFrame { df, index, height })
    }

    /// The table.
    pub fn data(&self) -> (r: &D)
        ensures
            *r == self.table(),
    {
        &self.df
    }

    /// The row labels.
    pub fn index(&self) -> (r: &Vec<String>)
        ensures
            r@ == self.labels(),
    {
        &self.index
    }

    /// Puts `df` in the place of the table; refused with `HeightMismatch`,
    /// and nothing changed, unless its height is the current one.
    pub fn replace_table(&mut self, df: D) -> (r: Result<(), AnnError>)
        ensures
            r is Ok <==> df.spec_height() == old(self).rows(),
            r is Ok ==> final(self).table() == df && final(self).labels() == old(self).labels()
                && final(self).rows() == old(self).rows(),
            r matches Err(e) ==> *final(self) == *old(self) && e == (AnnError::HeightMismatch {
                table: df.spec_height() as usize,
                index: old(self).rows() as usize,
            }),
    {
        proof {
            use_type_invariant(&*self);
        }
        let height = df.height();
        if height != self.height {
            return Err(AnnError::HeightMismatch { table: height, index: self.height });
        }
        self.df = df;
        Ok(())
    }

    /// Puts `index` in the place of the labels; refused with
    /// `HeightMismatch`, and nothing changed, unless it has one label per
    /// row.
    pub fn replace_index(&mut self, index: Vec<String>) -> (r: Result<(), AnnError>)
        ensures
            r is Ok <==> index@.len() == old(self).rows(),
            r is Ok ==> final(self).table() == old(self).table() && final(self).labels() == index@
                && final(self).rows() == old(self).rows(),
            r matches Err(e) ==> *final(self) == *old(self) && e == (AnnError::HeightMismatch {
                table: old(self).rows() as usize,
                index: index@.len() as usize,
            }),
    {
        proof {
            use_type_invariant(&*self);
        }
        if index.len() != self.height {
            return Err(AnnError::HeightMismatch { table: self.height, index: index.len() });
        }
        self.index = index;
        Ok(())
    }

    /// Puts `df` and `index` in the place of the pair; refused with
    /// `HeightMismatch`, and nothing changed, unless the table's height
    /// equals the number of new labels.
    pub fn replace_both(&mut self, df: D, index: Vec<String>) -> (r: Result<(), AnnError>)
        ensures
            r is Ok <==> df.spec_height() == index@.len(),
            r is Ok ==> final(self).table() == df && final(self).labels() == index@
                && final(self).rows() == index@.len(),
            r matches Err(e) ==> *final(self) == *old(self) && e == (AnnError::HeightMismatch {
                table: df.spec_height() as usize,
                index: index@.len() as usize,
            }),
    {
        let height = df.height();
        if height != index.len() {
            return Err(AnnError::HeightMismatch { table: height, index: index.len() });
        }
        *self = InnerIMDataFrame { df, index, height };
        Ok(())
    }

    /// Whether a column of `len` entries fits beside the table: refused with
    /// `HeightMismatch` unless `len` is the table's height.
    pub fn check_column_len(&self, len: usize) -> (r: Result<(), AnnError>)
        ensures
            r is Ok <==> len == self.rows(),
            r matches Err(e) ==> e == (AnnError::HeightMismatch {
                table: self.rows() as usize,
                index: len,
            }),
    {
        proof {
            use_type_invariant(self);
        }
        if len != self.height {
            return Err(AnnError::HeightMismatch { table: self.height, index: len });
        }
        Ok(())
    }

    /// The labels at `rows`, in that order.
    pub fn take_labels(&self, rows: &Vec<usize>) -> (r: Vec<String>)
        requires
            all_below(rows@, self.rows() as usize),
        ensures
            r@ == labels_at(self.labels(), rows@),
    {
        proof {
            use_type_invariant(self);
        }
        let mut out: Vec<String> = Vec::new();
        let mut i: usize = 0;
        while i < rows.len()
            invariant
                i <= rows@.len(),
                all_below(rows@, self.index@.len() as usize),
                out@ == labels_at(self.index@, rows@.take(i as int)),
            decreases rows@.len() - i,
        {
            let l = self.index[rows[i]].clone();
            out.push(l);
            i = i + 1;
            assert(out@ =~= labels_at(self.index@, rows@.take(i as int)));
        }
        assert(rows@.take(i as int) =~= rows@);
        out
    }

    /// The pair made of `taken`, the table's rows at `rows`, and the labels
    /// at `rows`; refused with `HeightMismatch` unless `taken` has one row
    /// per position.
    pub fn subset_rows(&self, rows: &Vec<usize>, taken: D) -> (r: Result<Self, AnnError>)
        requires
            all_below(rows@, self.rows() as usize),
        ensures
            r is Ok <==> taken.spec_height() == rows@.len(),
            r matches Ok(t) ==> t.table() == taken && t.labels() == labels_at(
                self.labels(),
                rows@,
            ) && t.rows() == rows@.len(),
            r matches Err(e) ==> e == (AnnError::HeightMismatch {
                table: taken.spec_height() as usize,
                index: rows@.len() as usize,
            }),
    {
        let labels = self.take_labels(rows);
        InnerIMDataFrame::try_new(taken, labels)
    }
}

impl<D: TableValue + Clone> InnerIMDataFrame<D> {
    /// Adds `column` to the table (or replaces the column of its name).
    ///
    /// A column whose length is the table's height is taken: the table's
    /// column names become `names_with(old names, column name)`, and the
    /// labels and the height stay. Any other length is refused with
    /// `HeightMismatch`, and nothing changes.
    pub fn attach_column(self, column: D::Column) -> (r: (Self, Result<(), AnnError>))
        ensures
            D::spec_column_len(&column) != self.rows() ==> r.0 == self && r.1 == Err::<
                (),
                AnnError,
            >(
                AnnError::HeightMismatch {
                    table: self.rows() as usize,
                    index: D::spec_column_len(&column) as usize,
                },
            ),
            D::spec_column_len(&column) == self.rows() ==> r.1 is Ok && r.0.table().spec_columns()
                == names_with(self.table().spec_columns(), D::spec_column_name(&column))
                && r.0.labels() == self.labels() && r.0.rows() == self.rows(),
    {
        proof {
            use_type_invariant(&self);
        }
        let len = D::column_len(&column);
        if len != self.height {
            let h = self.height;
            return (self, Err(AnnError::HeightMismatch { table: h, index: len }));
        }
        let InnerIMDataFrame { df, index, height } = self;
        let mut df = df;
        let ok = df.with_column(column);
        assert(ok);
        (InnerIMDataFrame { df, index, height }, Ok(()))
    }

    /// Removes the column `column_name`.
    ///
    /// `ColumnNotFound` when there is none; `HeightMismatch` when it is the
    /// only column of a table with rows (a table without columns has no
    /// rows to pair with the labels). Otherwise the column is gone, every
    /// other column stays, and the labels and the height stay. On failure
    /// nothing changes.
    pub fn remove_column(self, column_name: &str) -> (r: (Self, Result<(), AnnError>))
        ensures
            !self.table().spec_columns().contains(column_name@) ==> r.0 == self && r.1
                == Err::<(), AnnError>(AnnError::ColumnNotFound),
            self.table().spec_columns().contains(column_name@) && self.table().spec_columns().len()
                == 1 && self.rows() > 0 ==> r.0 == self && r.1 == Err::<(), AnnError>(
                AnnError::HeightMismatch { table: 0, index: self.rows() as usize },
            ),
            r.1 is Ok <==> self.table().spec_columns().contains(column_name@) && (
            self.table().spec_columns().len() > 1 || self.rows() == 0),
            r.1 is Ok ==> key_removed(
                self.table().spec_columns(),
                r.0.table().spec_columns(),
                column_name@,
            ) && r.0.labels() == self.labels() && r.0.rows() == self.rows(),
    {
        proof {
            use_type_invariant(&self);
        }
        if self.df.column(column_name).is_none() {
            return (self, Err(AnnError::ColumnNotFound));
        }
        if self.df.width() == 1 && self.height > 0 {
            let h = self.height;
            return (self, Err(AnnError::HeightMismatch { table: 0, index: h }));
        }
        proof {
            assert(self.table().spec_columns().len() > 0);
        }
        let InnerIMDataFrame { df, index, height } = self;
        let mut df = df;
        let ok = df.drop_column(column_name);
        assert(ok);
        (InnerIMDataFrame { df, index, height }, Ok(()))
    }

    /// Puts `column` in the place of the column `column_name`:
    /// `HeightMismatch` when its length is not the table's height (checked
    /// first), `ColumnNotFound` when there is no such column,
    /// `TableOperation` when the table refuses, `HeightMismatch` when the
    /// table's height would change. On any failure nothing changes; on
    /// success the labels and the height stay as they were.
    pub fn set_column(&mut self, column_name: &str, column: D::Column) -> (r: Result<(), AnnError>)
        ensures
            D::spec_column_len(&column) != old(self).rows() ==> r == Err::<(), AnnError>(
                AnnError::HeightMismatch {
                    table: old(self).rows() as usize,
                    index: D::spec_column_len(&column) as usize,
                },
            ),
            D::spec_column_len(&column) == old(self).rows() && !old(self).table().spec_columns().contains(
                column_name@,
            ) ==> r == Err::<(), AnnError>(AnnError::ColumnNotFound),
            r is Err ==> *final(self) == *old(self),
            r is Ok ==> final(self).labels() == old(self).labels() && final(self).rows()
                == old(self).rows(),
            r matches Err(e) ==> e is HeightMismatch || e is ColumnNotFound || e is TableOperation,
    {
        let len = D::column_len(&column);
        match self.check_column_len(len) {
            Err(e) => Err(e),
            Ok(()) => {
                if self.data().column(column_name).is_none() {
                    return Err(AnnError::ColumnNotFound);
                }
                let mut df = self.data().clone();
                if df.replace_column(column_name, column) {
                    self.replace_table(df)
                } else {
                    Err(AnnError::TableOperation)
                }
            },
        }
    }

    /// The pair restricted to the rows that `s` selects, in its order.
    ///
    /// The selector is checked against the number of rows, with its own
    /// error when it is not valid. On success the labels are those at the
    /// selected positions; `TableOperation` when the table refuses the
    /// rows, `HeightMismatch` when it gives a table of another height.
    pub fn subset_by(&self, s: &Selector) -> (r: Result<Self, AnnError>)
        ensures
            !selector_valid(*s, self.rows() as usize) ==> (r matches Err(e) && selector_error(
                *s,
                self.rows() as usize,
                e,
            )),
            r matches Ok(t) ==> selector_valid(*s, self.rows() as usize) && t.labels()
                == labels_at(self.labels(), selector_indices(*s, self.rows() as usize)) && t.rows()
                == selector_indices(*s, self.rows() as usize).len(),
            r matches Err(e) ==> frame_error(e),
    {
        match select_info_elem_to_indices(s, self.height()) {
            Err(e) => Err(e),
            Ok(rows) => match self.data().take_rows(&rows) {
                None => Err(AnnError::TableOperation),
                Some(t) => self.subset_rows(&rows, t),
            },
        }
    }
}

impl<D: TableValue + Clone> Clone for InnerIMDataFrame<D> {
    /// A copy of the pair.
    fn clone(&self) -> (r: Self) {
        proof {
            use_type_invariant(self);
        }
        InnerIMDataFrame { df: self.df.duplicate(), index: self.index.clone(), height: self.height }
    }
}

/// The errors that a change of a table element can end in.
pub open spec fn frame_error(e: AnnError) -> bool {
    e is UninitializedAccess || e is HeightMismatch || e is ColumnNotFound || e is TableOperation
        || e is IndexOutOfBounds || e is SliceOutOfBounds || e is InvalidStep
}

/// A table and its row labels behind one shared slot.
///
/// Every change is checked and committed as one unit under the slot's
/// write lock, so a reader never sees a table whose height differs from
/// the number of labels.
#[verifier::reject_recursive_types(D)]
pub struct IMDataFrameElement<D: TableValue>(pub RwSlot<InnerIMDataFrame<D>>);

impl<D: TableValue> Clone for IMDataFrameElement<D> {
    /// A second handle to the same pair: a write through either is seen by
    /// both.
    fn clone(&self) -> (r: Self) {
        IMDataFrameElement(self.0.shallow_clone())
    }
}

impl<D: TableValue + Clone> IMDataFrameElement<D> {
    /// Pairs `df` with `index`; `HeightMismatch` unless the table's height
    /// is the number of labels.
    pub fn new(df: D, index: Vec<String>) -> (r: Result<Self, AnnError>)
        ensures
            r matches Err(e) ==> e is HeightMismatch,
    {
        match InnerIMDataFrame::try_new(df, index) {
            Ok(inner) => Ok(IMDataFrameElement(RwSlot::new(inner))),
            Err(e) => Err(e),
        }
    }

    /// A one-column table made from `labels`, paired with them.
    pub fn from_labels(labels: Vec<String>) -> (r: Self) {
        let df = D::from_labels(&labels);
        match InnerIMDataFrame::try_new(df, labels) {
            Ok(inner) => IMDataFrameElement(RwSlot::new(inner)),
            Err(_) => {
                proof {
                    assert(false);
                }
                IMDataFrameElement(RwSlot::none())
            },
        }
    }

    /// A copy of the pair.
    pub fn get_inner(&self) -> (r: Result<InnerIMDataFrame<D>, AnnError>)
        ensures
            r matches Err(e) ==> e == AnnError::UninitializedAccess,
    {
        self.0.read_inner()
    }

    /// A copy of the table.
    pub fn get_data(&self) -> (r: Result<D, AnnError>)
        ensures
            r matches Err(e) ==> e == AnnError::UninitializedAccess,
    {
        match self.0.read_inner() {
            Ok(inner) => Ok(inner.data().clone()),
            Err(e) => Err(e),
        }
    }

    /// A copy of the row labels.
    pub fn get_index(&self) -> (r: Result<Vec<String>, AnnError>)
        ensures
            r matches Err(e) ==> e == AnnError::UninitializedAccess,
    {
        match self.0.read_inner() {
            Ok(inner) => Ok(inner.index().clone()),
            Err(e) => Err(e),
        }
    }

    /// The number of rows.
    pub fn get_height(&self) -> (r: Result<usize, AnnError>)
        ensures
            r matches Err(e) ==> e == AnnError::UninitializedAccess,
    {
        match self.0.read_inner() {
            Ok(inner) => Ok(inner.height()),
            Err(e) => Err(e),
        }
    }

    /// Replaces table and labels together; `HeightMismatch`, and nothing
    /// changed, unless the new table's height is the number of new labels.
    pub fn set_both(&self, df: D, index: Vec<String>) -> (r: Result<(), AnnError>)
        ensures
            r matches Err(e) ==> e is UninitializedAccess || e is HeightMismatch,
    {
        let f = move |cur: Option<InnerIMDataFrame<D>>| -> (p: (
            Option<InnerIMDataFrame<D>>,
            Result<(), AnnError>,
        ))
            ensures
                (match p.1 {
                    Err(e) => e is UninitializedAccess || e is HeightMismatch,
                    Ok(_) => true,
                }),
            {
                match cur {
                    None => (None, Err(AnnError::UninitializedAccess)),
                    Some(inner) => {
                        let mut inner = inner;
                        let r = inner.replace_both(df, index);
                        (Some(inner), r)
                    },
                }
            };
        self.0.update(f)
    }

    /// Replaces the table; `HeightMismatch`, and nothing changed, unless its
    /// height is the current one.
    pub fn set_data(&self, df: D) -> (r: Result<(), AnnError>)
        ensures
            r matches Err(e) ==> e is UninitializedAccess || e is HeightMismatch,
    {
        let f = move |cur: Option<InnerIMDataFrame<D>>| -> (p: (
            Option<InnerIMDataFrame<D>>,
            Result<(), AnnError>,
        ))
            ensures
                (match p.1 {
                    Err(e) => e is UninitializedAccess || e is HeightMismatch,
                    Ok(_) => true,
                }),
            {
                match cur {
                    None => (None, Err(AnnError::UninitializedAccess)),
                    Some(inner) => {
                        let mut inner = inner;
                        let r = inner.replace_table(df);
                        (Some(inner), r)
                    },
                }
            };
        self.0.update(f)
    }

    /// Replaces the labels; `HeightMismatch`, and nothing changed, unless
    /// there is one per row.
    pub fn set_index(&self, index: Vec<String>) -> (r: Result<(), AnnError>)
        ensures
            r matches Err(e) ==> e is UninitializedAccess || e is HeightMismatch,
    {
        let f = move |cur: Option<InnerIMDataFrame<D>>| -> (p: (
            Option<InnerIMDataFrame<D>>,
            Result<(), AnnError>,
        ))
            ensures
                (match p.1 {
                    Err(e) => e is UninitializedAccess || e is HeightMismatch,
                    Ok(_) => true,
                }),
            {
                match cur {
                    None => (None, Err(AnnError::UninitializedAccess)),
                    Some(inner) => {
                        let mut inner = inner;
                        let r = inner.replace_index(index);
                        (Some(inner), r)
                    },
                }
            };
        self.0.update(f)
    }

    /// Adds `column` to the table (or replaces the column of its name); see
    /// `InnerIMDataFrame::attach_column`. A column whose length is not the
    /// table's height is refused with `HeightMismatch`, and the pair is
    /// left as it was.
    pub fn attach_column_to_df(&self, column: D::Column) -> (r: Result<(), AnnError>)
        ensures
            r matches Err(e) ==> frame_error(e),
    {
        let f = move |cur: Option<InnerIMDataFrame<D>>| -> (p: (
            Option<InnerIMDataFrame<D>>,
            Result<(), AnnError>,
        ))
            ensures
                (match p.1 {
                    Err(e) => frame_error(e),
                    Ok(_) => true,
                }),
            {
                match cur {
                    None => (None, Err(AnnError::UninitializedAccess)),
                    Some(inner) => {
                        let (inner, r) = inner.attach_column(column);
                        (Some(inner), r)
                    },
                }
            };
        self.0.update(f)
    }

    /// Removes the column `name` (see `InnerIMDataFrame::remove_column`):
    /// `ColumnNotFound` when there is none, `HeightMismatch` when it is the
    /// only column of a table with rows. On any failure the pair is left as
    /// it was.
    pub fn remove_column_from_df(&self, column_name: &str) -> (r: Result<(), AnnError>)
        ensures
            r matches Err(e) ==> frame_error(e),
    {
        let f = move |cur: Option<InnerIMDataFrame<D>>| -> (p: (
            Option<InnerIMDataFrame<D>>,
            Result<(), AnnError>,
        ))
            ensures
                (match p.1 {
                    Err(e) => frame_error(e),
                    Ok(_) => true,
                }),
            {
                match cur {
                    None => (None, Err(AnnError::UninitializedAccess)),
                    Some(inner) => {
                        let (inner, r) = inner.remove_column(column_name);
                        (Some(inner), r)
                    },
                }
            };
        self.0.update(f)
    }

    /// A copy of the column `name`; `ColumnNotFound` when there is none.
    pub fn get_column_from_df(&self, column_name: &str) -> (r: Result<D::Column, AnnError>)
        ensures
            r matches Err(e) ==> e is UninitializedAccess || e is ColumnNotFound,
    {
        match self.0.read_inner() {
            Err(e) => Err(e),
            Ok(inner) => match inner.data().column(column_name) {
                Some(c) => Ok(c),
                None => Err(AnnError::ColumnNotFound),
            },
        }
    }

    /// Puts `column` in the place of the column `name`: `HeightMismatch`
    /// when its length is not the table's height, `ColumnNotFound` when
    /// there is no such column. On any failure the pair is left as it was.
    pub fn set_column_in_df(&self, column_name: &str, column: D::Column) -> (r: Result<
        (),
        AnnError,
    >)
        ensures
            r matches Err(e) ==> frame_error(e),
    {
        let f = move |cur: Option<InnerIMDataFrame<D>>| -> (p: (
            Option<InnerIMDataFrame<D>>,
            Result<(), AnnError>,
        ))
            ensures
                (match p.1 {
                    Err(e) => frame_error(e),
                    Ok(_) => true,
                }),
            {
                match cur {
                    None => (None, Err(AnnError::UninitializedAccess)),
                    Some(inner) => {
                        let mut inner = inner;
                        let r = inner.set_column(column_name, column);
                        (Some(inner), r)
                    },
                }
            };
        self.0.update(f)
    }

    /// A new element holding a copy of the pair, independent of this one.
    pub fn deep_clone(&self) -> (r: Result<Self, AnnError>)
        ensures
            r is Ok,
    {
        Ok(IMDataFrameElement(self.0.deep_clone()))
    }

    /// Keeps the rows that `s` selects, in its order, in the table and in
    /// the labels alike, committed as one unit. The selector is checked
    /// against the current number of labels; on any failure the pair is
    /// left as it was.
    pub fn subset_inplace(&self, s: &Selector) -> (r: Result<(), AnnError>)
        ensures
            r matches Err(e) ==> frame_error(e),
    {
        let f = |cur: Option<InnerIMDataFrame<D>>| -> (p: (
            Option<InnerIMDataFrame<D>>,
            Result<(), AnnError>,
        ))
            ensures
                (match p.1 {
                    Err(e) => frame_error(e),
                    Ok(_) => true,
                }),
            {
                match cur {
                    None => (None, Err(AnnError::UninitializedAccess)),
                    Some(inner) => match inner.subset_by(s) {
                        Ok(n) => (Some(n), Ok(())),
                        Err(e) => (Some(inner), Err(e)),
                    },
                }
            };
        self.0.update(f)
    }

    /// A new, independent element holding the rows that `s` selects, in
    /// its order, with their labels; this one is left as it is.
    pub fn subset(&self, s: &Selector) -> (r: Result<Self, AnnError>)
        ensures
            r matches Err(e) ==> frame_error(e),
    {
        match self.0.read_inner() {
            Err(e) => Err(e),
            Ok(inner) => match inner.subset_by(s) {
                Ok(n) => Ok(IMDataFrameElement(RwSlot::new(n))),
                Err(e) => Err(e),
            },
        }
    }
}

} // verus!
