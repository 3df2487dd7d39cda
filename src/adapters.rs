use vstd::prelude::*;

use anndata::data::SelectInfoElem;
use anndata::{ArrayData, HasShape, Selectable};
use polars::frame::DataFrame;
use polars::prelude::{Column, IdxCa, NamedFrom};

use crate::values::{names_with, ArrayValue, TableValue};

verus! {

#[verifier::external_type_specification]
#[verifier::external_body]
pub struct ExArrayData(anndata::ArrayData);

#[verifier::external_type_specification]
#[verifier::external_body]
pub struct ExDataFrame(polars::frame::DataFrame);

#[verifier::external_type_specification]
#[verifier::external_body]
pub struct ExColumn(polars::prelude::Column);

// polars' error type appears in the signatures of `Column`'s operator
// impls, which Verus reads when it meets `Column`.
#[verifier::external_type_specification]
#[verifier::external_body]
pub struct ExPolarsError(polars::prelude::PolarsError);

/// The extent of each axis of an anndata array.
pub uninterp spec fn shape_of(a: ArrayData) -> Seq<usize>;

/// Whether an anndata array is its table variant.
pub uninterp spec fn is_table_array(a: ArrayData) -> bool;

/// The number of rows of a polars table.
pub uninterp spec fn frame_height_of(df: DataFrame) -> nat;

/// The column names of a polars table, in order.
pub uninterp spec fn frame_columns_of(df: DataFrame) -> Seq<Seq<char>>;

/// The name of a polars column.
pub uninterp spec fn column_name_of(c: Column) -> Seq<char>;

/// The number of entries of a polars column.
pub uninterp spec fn column_len_of(c: Column) -> nat;

/// Relies on anndata's `HasShape::shape` for `ArrayData`: the extent of
/// each axis.
#[verifier::external_body]
fn anndata_shape(a: &ArrayData) -> (r: Vec<usize>)
    ensures
        r@ == shape_of(*a),
{
    HasShape::shape(a).as_ref().to_vec()
}

/// Relies on the variants of anndata's `ArrayData`: whether `a` is the
/// `DataFrame` variant.
#[verifier::external_body]
fn anndata_is_table(a: &ArrayData) -> (r: bool)
    ensures
        r == is_table_array(*a),
{
    matches!(a, ArrayData::DataFrame(_))
}

/// Relies on anndata's `Element::data_type` for `ArrayData`, as text.
#[verifier::external_body]
fn anndata_dtype(a: &ArrayData) -> String {
    anndata::data::Element::data_type(a).to_string()
}

/// Whether the positions in `s` are pairwise distinct.
pub open spec fn distinct_positions(s: Seq<usize>) -> bool {
    forall|i: int, j: int| 0 <= i < s.len() && 0 <= j < s.len() && i != j ==> s[i] != s[j]
}

/// Whether `indices` holds one list per axis of `shape`, each position
/// below its axis's extent.
pub open spec fn positions_fit(indices: Seq<Vec<usize>>, shape: Seq<usize>) -> bool {
    indices.len() == shape.len() && forall|k: int, i: int|
        0 <= k < indices.len() && 0 <= i < indices[k]@.len() ==> #[trigger] indices[k]@[i]
            < shape[k]
}

/// Relies on anndata's `Selectable::select` for `ArrayData`, given one
/// explicit position list per axis: the sub-array at those positions.
/// Out-of-bounds positions, a list count other than the number of axes,
/// and, for the table variant, repeated column positions make it panic;
/// the table variant also narrows row positions to 32 bits. Those inputs
/// are left out.
#[verifier::external_body]
fn anndata_select(a: &ArrayData, indices: &Vec<Vec<usize>>) -> ArrayData
    requires
        positions_fit(indices@, shape_of(*a)),
        is_table_array(*a) ==> indices@.len() == 2 && distinct_positions(indices@[1]@)
            && forall|i: int| 0 <= i < indices@[0]@.len() ==> indices@[0]@[i] <= u32::MAX,
{
    let sel: Vec<SelectInfoElem> = indices.iter().map(|v| SelectInfoElem::Index(v.clone())).collect();
    Selectable::select(a, sel.as_slice())
}

/// Checks that `indices` holds one list per axis of `shape`, each position
/// below its axis's extent.
fn check_positions(indices: &Vec<Vec<usize>>, shape: &Vec<usize>) -> (r: bool)
    ensures
        r == positions_fit(indices@, shape@),
{
    if indices.len() != shape.len() {
        return false;
    }
    let mut k: usize = 0;
    while k < indices.len()
        invariant
            indices@.len() == shape@.len(),
            k <= indices@.len(),
            forall|a: int, i: int|
                0 <= a < k && 0 <= i < indices@[a]@.len() ==> #[trigger] indices@[a]@[i]
                    < shape@[a],
        decreases indices@.len() - k,
    {
        let mut i: usize = 0;
        while i < indices[k].len()
            invariant
                indices@.len() == shape@.len(),
                k < indices@.len(),
                i <= indices@[k as int]@.len(),
                forall|a: int, j: int|
                    0 <= a < k && 0 <= j < indices@[a]@.len() ==> #[trigger] indices@[a]@[j]
                        < shape@[a],
                forall|j: int| 0 <= j < i ==> indices@[k as int]@[j] < shape@[k as int],
            decreases indices@[k as int]@.len() - i,
        {
            if indices[k][i] >= shape[k] {
                assert(!positions_fit(indices@, shape@)) by {
                    assert(indices@[k as int]@[i as int] >= shape@[k as int]);
                }
                return false;
            }
            i = i + 1;
        }
        k = k + 1;
    }
    true
}

/// Checks that the positions in `s` are pairwise distinct.
fn check_distinct(s: &Vec<usize>) -> (r: bool)
    ensures
        r == distinct_positions(s@),
{
    let mut i: usize = 0;
    while i < s.len()
        invariant
            i <= s@.len(),
            forall|a: int, b: int| 0 <= a < i && 0 <= b < s@.len() && a != b ==> s@[a] != s@[b],
        decreases s@.len() - i,
    {
        let mut j: usize = 0;
        while j < s.len()
            invariant
                i < s@.len(),
                j <= s@.len(),
                forall|a: int, b: int| 0 <= a < i && 0 <= b < s@.len() && a != b ==> s@[a] != s@[b],
                forall|b: int| 0 <= b < j && b != i ==> s@[i as int] != s@[b],
            decreases s@.len() - j,
        {
            if j != i && s[i] == s[j] {
                return false;
            }
            j = j + 1;
        }
        i = i + 1;
    }
    true
}

/// The positions of `s` as 32-bit row indices, or `None` when one does not
/// fit.
fn to_row_indices(s: &Vec<usize>) -> (r: Option<Vec<u32>>)
    ensures
        r is Some <==> forall|i: int| 0 <= i < s@.len() ==> s@[i] <= u32::MAX,
        r matches Some(v) ==> v@.len() == s@.len() && forall|i: int|
            0 <= i < s@.len() ==> v@[i] as usize == s@[i],
{
    let mut out: Vec<u32> = Vec::new();
    let mut i: usize = 0;
    while i < s.len()
        invariant
            i <= s@.len(),
            out@.len() == i,
            forall|j: int| 0 <= j < i ==> s@[j] <= u32::MAX && out@[j] as usize == s@[j],
        decreases s@.len() - i,
    {
        if s[i] > 4294967295usize {
            return None;
        }
        out.push(s[i] as u32);
        i = i + 1;
    }
    Some(out)
}

impl ArrayValue for ArrayData {
    open spec fn spec_shape(&self) -> Seq<usize> {
        shape_of(*self)
    }

    fn shape(&self) -> Vec<usize> {
        anndata_shape(self)
    }

    fn dtype_name(&self) -> String {
        anndata_dtype(self)
    }

    fn select(&self, indices: &Vec<Vec<usize>>) -> Option<Self> {
        let shape = anndata_shape(self);
        if !check_positions(indices, &shape) {
            return None;
        }
        if anndata_is_table(self) {
            if indices.len() != 2 || !check_distinct(&indices[1]) || to_row_indices(
                &indices[0],
            ).is_none() {
                return None;
            }
        }
        Some(anndata_select(self, indices))
    }
}

/// Relies on polars' `DataFrame::height`: the number of rows.
#[verifier::external_body]
fn polars_height(df: &DataFrame) -> (r: usize)
    ensures
        r == frame_height_of(*df),
{
    df.height()
}

/// Relies on polars' `DataFrame::clone`: a copy with the same height and
/// the same columns.
#[verifier::external_body]
fn polars_clone(df: &DataFrame) -> (r: DataFrame)
    ensures
        frame_height_of(r) == frame_height_of(*df),
        frame_columns_of(r) == frame_columns_of(*df),
{
    df.clone()
}

/// Relies on polars' `DataFrame::width`: the number of columns.
#[verifier::external_body]
fn polars_width(df: &DataFrame) -> (r: usize)
    ensures
        r == frame_columns_of(*df).len(),
{
    df.width()
}

/// Relies on polars' `DataFrame::new`: a table of one column `name`
/// holding `labels`. One column has no duplicate name and no length to
/// disagree with, so polars accepts it, and the table's height is the
/// column's length.
#[verifier::external_body]
fn polars_from_labels(name: &str, labels: &Vec<String>) -> (r: Option<DataFrame>)
    ensures
        r is Some,
        r matches Some(df) ==> frame_height_of(df) == labels@.len(),
{
    DataFrame::new(vec![Column::new(name.into(), labels.as_slice())]).ok()
}

/// Relies on polars' `Column::len`: the number of entries.
#[verifier::external_body]
fn polars_column_len(c: &Column) -> (r: usize)
    ensures
        r == column_len_of(*c),
{
    c.len()
}

/// Relies on polars' `DataFrame::with_column`: a column as long as the
/// table replaces the column of its name, or is appended; the height stays.
/// `false` when polars refuses.
#[verifier::external_body]
fn polars_with_column(df: &mut DataFrame, c: Column) -> (r: bool)
    ensures
        column_len_of(c) == frame_height_of(*old(df)) ==> r && frame_height_of(*final(df))
            == frame_height_of(*old(df)) && frame_columns_of(*final(df)) == names_with(
            frame_columns_of(*old(df)),
            column_name_of(c),
        ),
{
    df.with_column(c).is_ok()
}

/// Relies on polars' `DataFrame::drop_in_place`: removes the column
/// `name`, keeping the height; `false` when there is none. Column names of
/// a polars table are unique.
#[verifier::external_body]
fn polars_drop_column(df: &mut DataFrame, name: &str) -> (r: bool)
    ensures
        r == frame_columns_of(*old(df)).contains(name@),
        r ==> frame_height_of(*final(df)) == frame_height_of(*old(df)) && !frame_columns_of(
            *final(df),
        ).contains(name@) && forall|k: Seq<char>|
            k != name@ ==> (frame_columns_of(*final(df)).contains(k) <==> frame_columns_of(
                *old(df),
            ).contains(k)),
{
    df.drop_in_place(name).is_ok()
}

/// Relies on polars' `DataFrame::column`: a copy of the column `name`, if
/// there is one.
#[verifier::external_body]
fn polars_column(df: &DataFrame, name: &str) -> (r: Option<Column>)
    ensures
        r is Some <==> frame_columns_of(*df).contains(name@),
{
    df.column(name).ok().cloned()
}

/// Relies on polars' `DataFrame::replace`: puts `c` in the place of the
/// column `name`; `false` when polars refuses.
#[verifier::external_body]
fn polars_replace_column(df: &mut DataFrame, name: &str, c: Column) -> bool {
    df.replace(name, c.take_materialized_series()).is_ok()
}

/// Relies on polars' `DataFrame::take`: the rows at `rows`, in that order;
/// `None` when polars refuses (a row out of bounds among them).
#[verifier::external_body]
fn polars_take(df: &DataFrame, rows: &Vec<u32>) -> Option<DataFrame> {
    df.take(&IdxCa::new("idx".into(), rows.as_slice())).ok()
}

impl TableValue for DataFrame {
    type Column = Column;

    open spec fn spec_height(&self) -> nat {
        frame_height_of(*self)
    }

    open spec fn spec_columns(&self) -> Seq<Seq<char>> {
        frame_columns_of(*self)
    }

    open spec fn spec_column_name(column: &Column) -> Seq<char> {
        column_name_of(*column)
    }

    open spec fn spec_column_len(column: &Column) -> nat {
        column_len_of(*column)
    }

    fn height(&self) -> usize {
        polars_height(self)
    }

    fn duplicate(&self) -> Self {
        polars_clone(self)
    }

    fn width(&self) -> usize {
        polars_width(self)
    }

    fn from_labels(labels: &Vec<String>) -> Self {
        polars_from_labels("index", labels).unwrap()
    }

    fn column_len(column: &Column) -> usize {
        polars_column_len(column)
    }

    fn with_column(&mut self, column: Column) -> bool {
        polars_with_column(self, column)
    }

    fn drop_column(&mut self, name: &str) -> bool {
        polars_drop_column(self, name)
    }

    fn column(&self, name: &str) -> Option<Column> {
        polars_column(self, name)
    }

    fn replace_column(&mut self, name: &str, column: Column) -> bool {
        polars_replace_column(self, name, column)
    }

    fn take_rows(&self, rows: &Vec<usize>) -> Option<Self> {
        match to_row_indices(rows) {
            Some(idx) => polars_take(self, &idx),
            None => None,
        }
    }
}

} // verus!
