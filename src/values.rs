use vstd::prelude::*;

verus! {

/// Whether `names` is `existing` with `name` added at the end, unless it is
/// already there (then the names stay as they are).
pub open spec fn names_with(existing: Seq<Seq<char>>, name: Seq<char>) -> Seq<Seq<char>> {
    if existing.contains(name) {
        existing
    } else {
        existing.push(name)
    }
}

/// After a column is added under `name`, the table has a column `name`,
/// and every column it had before.
pub proof fn lemma_names_with_contains(existing: Seq<Seq<char>>, name: Seq<char>)
    ensures
        names_with(existing, name).contains(name),
        forall|k: Seq<char>| existing.contains(k) ==> names_with(existing, name).contains(k),
{
    if !existing.contains(name) {
        let s = existing.push(name);
        assert(s[existing.len() as int] == name);
        assert forall|k: Seq<char>| existing.contains(k) implies s.contains(k) by {
            let i = choose|i: int| 0 <= i < existing.len() && existing[i] == k;
            assert(s[i] == k);
        }
    }
}

/// An n-dimensional array value (dense or sparse) as the container sees it.
///
/// The container never looks inside an array: it asks for the shape, the
/// element type and sub-selections. Of a selection nothing is promised, so
/// the container checks shapes it is told rather than shapes it expects.
pub trait ArrayValue: Sized {
    /// The extent of each axis.
    spec fn spec_shape(&self) -> Seq<usize>;

    /// The extent of each axis.
    fn shape(&self) -> (r: Vec<usize>)
        ensures
            r@ == self.spec_shape(),
    ;

    /// The name of the element type.
    fn dtype_name(&self) -> String;

    /// The sub-array that keeps, along axis `k`, the positions
    /// `indices[k]`, in that order; `None` when the array refuses the
    /// selection. The container only passes one list per axis, each
    /// position below the extent that `shape` reported.
    fn select(&self, indices: &Vec<Vec<usize>>) -> Option<Self>;
}

/// A table of named, equally long columns, as the container sees it.
pub trait TableValue: Sized {
    /// One column of the table.
    type Column;

    /// The number of rows.
    spec fn spec_height(&self) -> nat;

    /// The column names, in order.
    spec fn spec_columns(&self) -> Seq<Seq<char>>;

    /// The name of a column.
    spec fn spec_column_name(column: &Self::Column) -> Seq<char>;

    /// The number of entries of a column.
    spec fn spec_column_len(column: &Self::Column) -> nat;

    /// The number of rows.
    fn height(&self) -> (r: usize)
        ensures
            r == self.spec_height(),
    ;

    /// A copy of the table, of the same height and column names.
    fn duplicate(&self) -> (r: Self)
        ensures
            r.spec_height() == self.spec_height(),
            r.spec_columns() == self.spec_columns(),
    ;

    /// The number of columns.
    fn width(&self) -> (r: usize)
        ensures
            r == self.spec_columns().len(),
    ;

    /// A table of one column named `index` that holds `labels`.
    fn from_labels(labels: &Vec<String>) -> (r: Self)
        ensures
            r.spec_height() == labels@.len(),
    ;

    /// The number of entries in `column`.
    fn column_len(column: &Self::Column) -> (r: usize)
        ensures
            r == Self::spec_column_len(column),
    ;

    /// Adds `column`, or replaces the column of the same name; `false` when
    /// the table refuses it. A column as long as the table is taken.
    fn with_column(&mut self, column: Self::Column) -> (r: bool)
        ensures
            Self::spec_column_len(&column) == old(self).spec_height() ==> r
                && final(self).spec_height() == old(self).spec_height() && final(self).spec_columns() == names_with(
                old(self).spec_columns(),
                Self::spec_column_name(&column),
            ),
    ;

    /// Removes the column `name`; `false` when there is none. The height
    /// stays as it was.
    fn drop_column(&mut self, name: &str) -> (r: bool)
        ensures
            r == old(self).spec_columns().contains(name@),
            r ==> final(self).spec_height() == old(self).spec_height() && !final(self).spec_columns().contains(name@) && forall|k: Seq<char>|
                k != name@ ==> (final(self).spec_columns().contains(k) <==> old(self).spec_columns().contains(k)),
    ;

    /// A copy of the column `name`, if there is one.
    fn column(&self, name: &str) -> (r: Option<Self::Column>)
        ensures
            r is Some <==> self.spec_columns().contains(name@),
    ;

    /// Puts `column` in the place of the column `name`; `false` when there
    /// is no such column or the table refuses it.
    fn replace_column(&mut self, name: &str, column: Self::Column) -> bool;

    /// The rows at `rows`, in that order (each below `height`); `None` when
    /// the table refuses.
    fn take_rows(&self, rows: &Vec<usize>) -> Option<Self>;
}

} // verus!
