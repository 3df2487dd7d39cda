use vstd::prelude::*;

use crate::array::{selection_error, IMArrayElement};
use crate::axis::{check_shape, expected_shape, shape_fits, Axis, IMAxisArrays};
use crate::dim::Dim;
use crate::element::IMElementCollection;
use crate::error::AnnError;
use crate::frame::{IMDataFrameElement, InnerIMDataFrame};
use crate::slot::RwSlot;
use crate::selection::{select_info_elem_to_indices, selector_error, selector_indices, selector_valid, Selector};
use crate::values::{ArrayValue, TableValue};

verus! {

/// Whether `selection` is one valid selector for the rows (of which there
/// are `n_obs`) and one for the columns (of which there are `n_vars`).
pub open spec fn subset_valid(selection: Seq<Selector>, n_obs: usize, n_vars: usize) -> bool {
    selection.len() == 2 && selector_valid(selection[0], n_obs) && selector_valid(
        selection[1],
        n_vars,
    )
}

/// Checks a whole-object selection against the current sizes and gives the
/// row and column positions it keeps.
///
/// `SelectionArityMismatch` unless there are exactly two selectors; then
/// the row selector's error, if any, and then the column selector's.
pub fn plan_subset(selection: &Vec<Selector>, n_obs: usize, n_vars: usize) -> (r: Result<
    (Vec<usize>, Vec<usize>),
    AnnError,
>)
    ensures
        r is Ok <==> subset_valid(selection@, n_obs, n_vars),
        selection@.len() != 2 ==> r == Err::<(Vec<usize>, Vec<usize>), AnnError>(
            AnnError::SelectionArityMismatch { expected_axes: 2, given_axes: selection@.len() as usize },
        ),
        r matches Ok(p) ==> p.0@ == selector_indices(selection@[0], n_obs) && p.1@
            == selector_indices(selection@[1], n_vars),
        r matches Err(e) ==> selection@.len() == 2 ==> (if !selector_valid(selection@[0], n_obs) {
            selector_error(selection@[0], n_obs, e)
        } else {
            selector_error(selection@[1], n_vars, e)
        }),
{
    if selection.len() != 2 {
        return Err(AnnError::SelectionArityMismatch { expected_axes: 2, given_axes: selection.len() });
    }
    let rows = match select_info_elem_to_indices(&selection[0], n_obs) {
        Ok(v) => v,
        Err(e) => {
            return Err(e);
        },
    };
    let cols = match select_info_elem_to_indices(&selection[1], n_vars) {
        Ok(v) => v,
        Err(e) => {
            return Err(e);
        },
    };
    Ok((rows, cols))
}

/// The errors that building or subsetting an annotated matrix can end in.
pub open spec fn annotated_error(e: AnnError) -> bool {
    selection_error(e) || e is HeightMismatch || e is ShapeMismatch || e is TableOperation
        || e is ColumnNotFound
}

/// An annotated matrix: a main matrix with row and column metadata tables,
/// four axis collections (row and column annotations, row and column
/// pairwise relations), layers of the main matrix's shape, and an
/// unstructured bag.
///
/// The row and column counts are shared dimensions: the row collections and
/// the layers hold handles to them. Accessors hand out second handles, so a
/// change made through what they return is a change of this object.
#[verifier::reject_recursive_types(A)]
#[verifier::reject_recursive_types(D)]
#[verifier::reject_recursive_types(V)]
pub struct IMAnnData<A, D: TableValue, V> {
    n_obs: Dim,
    n_vars: Dim,
    x: IMArrayElement<A>,
    obs: IMDataFrameElement<D>,
    obsm: IMAxisArrays<A>,
    obsp: IMAxisArrays<A>,
    var: IMDataFrameElement<D>,
    varm: IMAxisArrays<A>,
    varp: IMAxisArrays<A>,
    uns: IMElementCollection<V>,
    layers: IMAxisArrays<A>,
}

impl<A: ArrayValue + Clone, D: TableValue + Clone, V: Clone> IMAnnData<A, D, V> {
    /// Assembles an object from a main matrix and the row and column
    /// metadata, with empty collections.
    ///
    /// `ShapeMismatch` unless the matrix is two-dimensional with one row per
    /// row label and one column per column label.
    pub fn new(x: IMArrayElement<A>, obs: IMDataFrameElement<D>, var: IMDataFrameElement<D>) -> (r:
        Result<Self, AnnError>)
        ensures
            r matches Err(e) ==> e is UninitializedAccess || e is ShapeMismatch,
    {
        let n_obs = match obs.get_height() {
            Ok(n) => n,
            Err(e) => {
                return Err(e);
            },
        };
        let n_vars = match var.get_height() {
            Ok(n) => n,
            Err(e) => {
                return Err(e);
            },
        };
        let x_shape = match x.get_shape() {
            Ok(s) => s,
            Err(e) => {
                return Err(e);
            },
        };
        match check_shape(Axis::RowColumn, &x_shape, n_obs, n_vars) {
            Err(e) => {
                return Err(e);
            },
            Ok(()) => {},
        }
        Ok(IMAnnData::assemble(Dim::new(n_obs), Dim::new(n_vars), x, obs, var))
    }

    /// The object over the given shared dimensions, with empty collections.
    fn assemble(
        n_obs: Dim,
        n_vars: Dim,
        x: IMArrayElement<A>,
        obs: IMDataFrameElement<D>,
        var: IMDataFrameElement<D>,
    ) -> (r: Self) {
        IMAnnData {
            obsm: IMAxisArrays::new(Axis::Row, n_obs.clone(), None),
            obsp: IMAxisArrays::new(Axis::Pairwise, n_obs.clone(), None),
            varm: IMAxisArrays::new(Axis::Row, n_vars.clone(), None),
            varp: IMAxisArrays::new(Axis::Pairwise, n_vars.clone(), None),
            uns: IMElementCollection::new_empty(),
            layers: IMAxisArrays::new(Axis::RowColumn, n_obs.clone(), Some(n_vars.clone())),
            n_obs,
            n_vars,
            x,
            obs,
            var,
        }
    }

    /// An object from a matrix and its row and column labels, with
    /// one-column metadata tables made from the labels.
    ///
    /// Succeeds exactly when the matrix is two-dimensional with one row per
    /// row label and one column per column label; otherwise
    /// `ShapeMismatch`, naming the expected and the actual shape.
    pub fn new_basic(matrix: A, obs_names: Vec<String>, var_names: Vec<String>) -> (r: Result<
        Self,
        AnnError,
    >)
        ensures
            r is Ok <==> shape_fits(
                Axis::RowColumn,
                matrix.spec_shape(),
                obs_names@.len() as usize,
                var_names@.len() as usize,
            ),
            r matches Err(e) ==> (e matches AnnError::ShapeMismatch { expected, actual }
                && expected@ == expected_shape(
                Axis::RowColumn,
                obs_names@.len() as usize,
                var_names@.len() as usize,
            ) && actual@ == matrix.spec_shape()),
    {
        let s = matrix.shape();
        let n_obs = obs_names.len();
        let n_vars = var_names.len();
        match check_shape(Axis::RowColumn, &s, n_obs, n_vars) {
            Err(e) => {
                return Err(e);
            },
            Ok(()) => {},
        }
        let obs = IMDataFrameElement::from_labels(obs_names);
        let var = IMDataFrameElement::from_labels(var_names);
        Ok(IMAnnData::assemble(Dim::new(n_obs), Dim::new(n_vars), IMArrayElement::new(matrix), obs, var))
    }

    /// An object from a matrix, its row and column labels, and the
    /// metadata tables to pair with them.
    ///
    /// Succeeds exactly when the matrix is two-dimensional with one row per
    /// row label and one column per column label, and each table has one
    /// row per label. The shape is checked first (`ShapeMismatch`), then
    /// the row table, then the column table (`HeightMismatch`).
    pub fn new_extended(
        matrix: A,
        obs_names: Vec<String>,
        var_names: Vec<String>,
        obs_df: D,
        var_df: D,
    ) -> (r: Result<Self, AnnError>)
        ensures
            r is Ok <==> shape_fits(
                Axis::RowColumn,
                matrix.spec_shape(),
                obs_names@.len() as usize,
                var_names@.len() as usize,
            ) && obs_df.spec_height() == obs_names@.len() && var_df.spec_height()
                == var_names@.len(),
            !shape_fits(
                Axis::RowColumn,
                matrix.spec_shape(),
                obs_names@.len() as usize,
                var_names@.len() as usize,
            ) ==> (r matches Err(e) && e is ShapeMismatch),
            shape_fits(
                Axis::RowColumn,
                matrix.spec_shape(),
                obs_names@.len() as usize,
                var_names@.len() as usize,
            ) && obs_df.spec_height() != obs_names@.len() ==> (r matches Err(e) && e == (
            AnnError::HeightMismatch {
                table: obs_df.spec_height() as usize,
                index: obs_names@.len() as usize,
            })),
    {
        let s = matrix.shape();
        let n_obs = obs_names.len();
        let n_vars = var_names.len();
        match check_shape(Axis::RowColumn, &s, n_obs, n_vars) {
            Err(e) => {
                return Err(e);
            },
            Ok(()) => {},
        }
        let obs = match InnerIMDataFrame::try_new(obs_df, obs_names) {
            Ok(t) => IMDataFrameElement(RwSlot::new(t)),
            Err(e) => {
                return Err(e);
            },
        };
        let var = match InnerIMDataFrame::try_new(var_df, var_names) {
            Ok(t) => IMDataFrameElement(RwSlot::new(t)),
            Err(e) => {
                return Err(e);
            },
        };
        Ok(IMAnnData::assemble(Dim::new(n_obs), Dim::new(n_vars), IMArrayElement::new(matrix), obs, var))
    }

    /// The number of rows (observations).
    pub fn n_obs(&self) -> (r: usize) {
        self.n_obs.get()
    }

    /// The number of columns (variables).
    pub fn n_vars(&self) -> (r: usize) {
        self.n_vars.get()
    }

    /// The row labels.
    pub fn obs_names(&self) -> (r: Result<Vec<String>, AnnError>)
        ensures
            r matches Err(e) ==> e == AnnError::UninitializedAccess,
    {
        self.obs.get_index()
    }

    /// The column labels.
    pub fn var_names(&self) -> (r: Result<Vec<String>, AnnError>)
        ensures
            r matches Err(e) ==> e == AnnError::UninitializedAccess,
    {
        self.var.get_index()
    }

    /// A second handle to the main matrix.
    pub fn x(&self) -> (r: IMArrayElement<A>) {
        self.x.clone()
    }

    /// A second handle to the row metadata.
    pub fn obs(&self) -> (r: IMDataFrameElement<D>) {
        self.obs.clone()
    }

    /// A second handle to the column metadata.
    pub fn var(&self) -> (r: IMDataFrameElement<D>) {
        self.var.clone()
    }

    /// A second handle to the row annotations.
    pub fn obsm(&self) -> (r: IMAxisArrays<A>) {
        self.obsm.clone()
    }

    /// A second handle to the row pairwise relations.
    pub fn obsp(&self) -> (r: IMAxisArrays<A>) {
        self.obsp.clone()
    }

    /// A second handle to the column annotations.
    pub fn varm(&self) -> (r: IMAxisArrays<A>) {
        self.varm.clone()
    }

    /// A second handle to the column pairwise relations.
    pub fn varp(&self) -> (r: IMAxisArrays<A>) {
        self.varp.clone()
    }

    /// A second handle to the unstructured bag.
    pub fn uns(&self) -> (r: IMElementCollection<V>) {
        self.uns.clone()
    }

    /// A second handle to the layers.
    pub fn layers(&self) -> (r: IMAxisArrays<A>) {
        self.layers.clone()
    }

    /// Adds a layer: `KeyAlreadyExists` when the name is taken,
    /// `ShapeMismatch` unless it has the main matrix's shape.
    pub fn add_layer(&mut self, name: String, data: IMArrayElement<A>) -> (r: Result<(), AnnError>)
        ensures
            r matches Err(e) ==> e is UninitializedAccess || e is KeyAlreadyExists
                || e is ShapeMismatch,
    {
        self.layers.add_array(name, data)
    }

    /// An independent copy of the layer `name`; `KeyNotFound` when there is
    /// none.
    pub fn get_layer(&self, name: &str) -> (r: Result<IMArrayElement<A>, AnnError>)
        ensures
            r matches Err(e) ==> e is UninitializedAccess || e is KeyNotFound,
    {
        self.layers.get_array(name)
    }

    /// A second handle to the layer `name`; `KeyNotFound` when there is
    /// none.
    pub fn get_layer_shallow(&self, name: &str) -> (r: Result<IMArrayElement<A>, AnnError>)
        ensures
            r matches Err(e) ==> e is UninitializedAccess || e is KeyNotFound,
    {
        self.layers.get_array_shallow(name)
    }

    /// Takes the layer `name` out; `KeyNotFound` when there is none.
    pub fn remove_layer(&mut self, name: &str) -> (r: Result<IMArrayElement<A>, AnnError>)
        ensures
            r matches Err(e) ==> e is UninitializedAccess || e is KeyNotFound,
    {
        self.layers.remove_array(name)
    }

    /// Puts `data` in the place of the layer `name`; `KeyNotFound` when
    /// there is none.
    pub fn update_array(&mut self, name: &str, data: IMArrayElement<A>) -> (r: Result<
        (),
        AnnError,
    >)
        ensures
            r matches Err(e) ==> e is UninitializedAccess || e is KeyNotFound,
    {
        self.layers.update_array(name, data)
    }

    /// Keeps, in place, the rows and columns that `selection` (a row
    /// selector and a column selector) selects, in every component.
    ///
    /// The selection is checked against the current row and column counts
    /// first; a failure there changes nothing. Then the main matrix, the
    /// metadata, the layers, the row and column annotations and the
    /// pairwise relations are subset one after the other, each from the same
    /// explicit positions, and last the shared counts are set once to the
    /// new sizes. The components are separate slots changed in turn: a
    /// failure after the first step leaves the object partly subset, and a
    /// concurrent reader may see some components subset and others not.
    /// `subset` builds a new object instead and has neither limitation.
    pub fn subset_inplace(&mut self, selection: &Vec<Selector>) -> (r: Result<(), AnnError>)
        ensures
            selection@.len() != 2 ==> (r matches Err(e) && e == (AnnError::SelectionArityMismatch {
                expected_axes: 2,
                given_axes: selection@.len() as usize,
            })),
            r matches Err(e) ==> annotated_error(e),
    {
        let (rows, cols) = match plan_subset(selection, self.n_obs.get(), self.n_vars.get()) {
            Ok(p) => p,
            Err(e) => {
                return Err(e);
            },
        };
        let n_rows = rows.len();
        let n_cols = cols.len();
        let row_sel = Selector::Index(rows);
        let col_sel = Selector::Index(cols);
        let both = vec![row_sel.clone(), col_sel.clone()];
        match self.x.subset_inplace(&both) {
            Err(e) => {
                return Err(e);
            },
            Ok(()) => {},
        }
        match self.obs.subset_inplace(&row_sel) {
            Err(e) => {
                return Err(e);
            },
            Ok(()) => {},
        }
        match self.var.subset_inplace(&col_sel) {
            Err(e) => {
                return Err(e);
            },
            Ok(()) => {},
        }
        match self.layers.subset_arrays_inplace(&both) {
            Err(e) => {
                return Err(e);
            },
            Ok(()) => {},
        }
        match self.obsm.subset_arrays_inplace(&vec![row_sel.clone(), Selector::full()]) {
            Err(e) => {
                return Err(e);
            },
            Ok(()) => {},
        }
        match self.obsp.subset_arrays_inplace(&vec![row_sel.clone(), row_sel]) {
            Err(e) => {
                return Err(e);
            },
            Ok(()) => {},
        }
        match self.varm.subset_arrays_inplace(&vec![col_sel.clone(), Selector::full()]) {
            Err(e) => {
                return Err(e);
            },
            Ok(()) => {},
        }
        match self.varp.subset_arrays_inplace(&vec![col_sel.clone(), col_sel]) {
            Err(e) => {
                return Err(e);
            },
            Ok(()) => {},
        }
        self.n_obs.set(n_rows);
        self.n_vars.set(n_cols);
        Ok(())
    }

    /// A new object holding the rows and columns that `selection` (a row
    /// selector and a column selector) selects, in every component, over
    /// new shared counts; the unstructured bag is shared with this object,
    /// which is otherwise left as it is.
    pub fn subset(&self, selection: &Vec<Selector>) -> (r: Result<Self, AnnError>)
        ensures
            selection@.len() != 2 ==> (r matches Err(e) && e == (AnnError::SelectionArityMismatch {
                expected_axes: 2,
                given_axes: selection@.len() as usize,
            })),
            r matches Err(e) ==> annotated_error(e),
    {
        let (rows, cols) = match plan_subset(selection, self.n_obs.get(), self.n_vars.get()) {
            Ok(p) => p,
            Err(e) => {
                return Err(e);
            },
        };
        let n_rows = rows.len();
        let n_cols = cols.len();
        let row_sel = Selector::Index(rows);
        let col_sel = Selector::Index(cols);
        let both = vec![row_sel.clone(), col_sel.clone()];
        let obs = match self.obs.subset(&row_sel) {
            Ok(t) => t,
            Err(e) => {
                return Err(e);
            },
        };
        let var = match self.var.subset(&col_sel) {
            Ok(t) => t,
            Err(e) => {
                return Err(e);
            },
        };
        let n_obs = Dim::new(n_rows);
        let n_vars = Dim::new(n_cols);
        let layers = match self.layers.subset_with_dims(&both, n_obs.clone(), Some(n_vars.clone())) {
            Ok(c) => c,
            Err(e) => {
                return Err(e);
            },
        };
        let obsm = match self.obsm.subset_with_dims(
            &vec![row_sel.clone(), Selector::full()],
            n_obs.clone(),
            None,
        ) {
            Ok(c) => c,
            Err(e) => {
                return Err(e);
            },
        };
        let obsp = match self.obsp.subset_with_dims(
            &vec![row_sel.clone(), row_sel],
            n_obs.clone(),
            None,
        ) {
            Ok(c) => c,
            Err(e) => {
                return Err(e);
            },
        };
        let varm = match self.varm.subset_with_dims(
            &vec![col_sel.clone(), Selector::full()],
            n_vars.clone(),
            None,
        ) {
            Ok(c) => c,
            Err(e) => {
                return Err(e);
            },
        };
        let varp = match self.varp.subset_with_dims(
            &vec![col_sel.clone(), col_sel],
            n_vars.clone(),
            None,
        ) {
            Ok(c) => c,
            Err(e) => {
                return Err(e);
            },
        };
        let x = match self.x.subset(&both) {
            Ok(a) => a,
            Err(e) => {
                return Err(e);
            },
        };
        Ok(IMAnnData {
            n_obs,
            n_vars,
            x,
            obs,
            obsm,
            obsp,
            var,
            varm,
            varp,
            uns: self.uns.clone(),
            layers,
        })
    }

    /// An independent copy: every component is copied, over new shared
    /// counts of the current sizes.
    pub fn deep_clone(&self) -> (r: Result<Self, AnnError>)
        ensures
            r matches Err(e) ==> e == AnnError::UninitializedAccess,
    {
        let n_obs = Dim::new(self.n_obs.get());
        let n_vars = Dim::new(self.n_vars.get());
        let x = IMArrayElement(self.x.0.deep_clone());
        let obs = match self.obs.deep_clone() {
            Ok(t) => t,
            Err(e) => {
                return Err(e);
            },
        };
        let var = match self.var.deep_clone() {
            Ok(t) => t,
            Err(e) => {
                return Err(e);
            },
        };
        let uns = match self.uns.deep_clone() {
            Ok(u) => u,
            Err(e) => {
                return Err(e);
            },
        };
        let layers = match self.layers.deep_clone_with_dims(n_obs.clone(), Some(n_vars.clone())) {
            Ok(c) => c,
            Err(e) => {
                return Err(e);
            },
        };
        let obsm = match self.obsm.deep_clone_with_dims(n_obs.clone(), None) {
            Ok(c) => c,
            Err(e) => {
                return Err(e);
            },
        };
        let obsp = match self.obsp.deep_clone_with_dims(n_obs.clone(), None) {
            Ok(c) => c,
            Err(e) => {
                return Err(e);
            },
        };
        let varm = match self.varm.deep_clone_with_dims(n_vars.clone(), None) {
            Ok(c) => c,
            Err(e) => {
                return Err(e);
            },
        };
        let varp = match self.varp.deep_clone_with_dims(n_vars.clone(), None) {
            Ok(c) => c,
            Err(e) => {
                return Err(e);
            },
        };
        Ok(IMAnnData { n_obs, n_vars, x, obs, obsm, obsp, var, varm, varp, uns, layers })
    }
}

} // verus!
