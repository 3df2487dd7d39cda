use anndata_memory::annotated::plan_subset;
use anndata_memory::axis::{check_shape, plan_axis_subset};
use anndata_memory::{
    select_info_elem_to_indices, AnnError, ArrayValue, Axis, Dim, Element, IMAnnData,
    IMArrayElement, IMAxisArrays, IMDataFrameElement, IMElementCollection, InnerIMDataFrame,
    Selector, TableValue,
};
use anndata::data::DynArray;
use anndata::ArrayData;
use ndarray::{ArrayD, IxDyn};
use polars::frame::DataFrame;
use polars::prelude::{Column, NamedFrom};

fn dense(shape: &[usize], values: Vec<f64>) -> ArrayData {
    ArrayData::Array(DynArray::from(ArrayD::from_shape_vec(IxDyn(shape), values).unwrap()))
}

fn zeros(shape: &[usize]) -> ArrayData {
    dense(shape, vec![0.0; shape.iter().product()])
}

fn dense_matrix(rows: usize, cols: usize, entries: &[(usize, usize, f64)]) -> ArrayData {
    let mut values = vec![0.0; rows * cols];
    for &(r, c, v) in entries {
        values[r * cols + c] = v;
    }
    dense(&[rows, cols], values)
}

fn values(a: &ArrayData) -> Vec<f64> {
    let d: ArrayD<f64> = a.clone().try_into().unwrap();
    d.iter().cloned().collect()
}

fn shape_of(a: &ArrayData) -> Vec<usize> {
    ArrayValue::shape(a)
}

fn strings(c: &Column) -> Vec<String> {
    c.str().unwrap().into_no_null_iter().map(|s| s.to_string()).collect()
}

type Ad = IMAnnData<ArrayData, DataFrame, String>;

fn frame_of(labels: &Vec<String>) -> DataFrame {
    DataFrame::from_labels(labels)
}

fn names(prefix: &str, n: usize) -> Vec<String> {
    (1..=n).map(|i| format!("{}{}", prefix, i)).collect()
}

fn create_test_data() -> (ArrayData, Vec<String>, Vec<String>) {
    let matrix = dense_matrix(3, 3, &[(0, 0, 1.0), (1, 2, 2.0), (2, 1, 3.0), (2, 2, 4.0)]);
    let obs_names = vec!["obs1".to_string(), "obs2".to_string(), "obs3".to_string()];
    let var_names = vec!["var1".to_string(), "var2".to_string(), "var3".to_string()];
    (matrix, obs_names, var_names)
}

fn text_column(name: &str, n: usize) -> Column {
    Column::new(name.into(), names("v", n))
}

#[test]
fn table_element_accepts_exactly_matching_heights() {
    let frame = frame_of(&names("obs", 3));
    assert!(IMDataFrameElement::new(frame.clone(), names("obs", 3)).is_ok());
    assert_eq!(
        IMDataFrameElement::new(frame.clone(), names("obs", 2)).err(),
        Some(AnnError::HeightMismatch { table: 3, index: 2 })
    );
    let empty = DataFrame::empty();
    assert_eq!(
        IMDataFrameElement::new(empty, names("obs", 2)).err(),
        Some(AnnError::HeightMismatch { table: 0, index: 2 })
    );
    assert!(InnerIMDataFrame::try_new(frame.clone(), names("obs", 3)).is_ok());
    assert_eq!(
        InnerIMDataFrame::try_new(frame, names("obs", 4)).err(),
        Some(AnnError::HeightMismatch { table: 3, index: 4 })
    );
}

#[test]
fn axis_add_checks_shape_against_dims() {
    let n = Dim::new(3);
    let m = Dim::new(2);
    let rows: IMAxisArrays<ArrayData> = IMAxisArrays::new(Axis::Row, n.clone(), None);
    assert!(rows.add_array("a".to_string(), IMArrayElement::new(zeros(&[3, 5]))).is_ok());
    assert!(rows.add_array("b".to_string(), IMArrayElement::new(zeros(&[3]))).is_ok());
    assert_eq!(
        rows.add_array("c".to_string(), IMArrayElement::new(zeros(&[2, 5]))),
        Err(AnnError::ShapeMismatch { expected: vec![3], actual: vec![2, 5] })
    );
    assert_eq!(
        rows.add_array("a".to_string(), IMArrayElement::new(zeros(&[3, 5]))),
        Err(AnnError::KeyAlreadyExists)
    );
    assert_eq!(rows.len().unwrap(), 2);

    let grid: IMAxisArrays<ArrayData> = IMAxisArrays::new(Axis::RowColumn, n.clone(), Some(m.clone()));
    assert!(grid.add_array("g".to_string(), IMArrayElement::new(zeros(&[3, 2]))).is_ok());
    assert_eq!(
        grid.add_array("h".to_string(), IMArrayElement::new(zeros(&[2, 3]))),
        Err(AnnError::ShapeMismatch { expected: vec![3, 2], actual: vec![2, 3] })
    );
    assert_eq!(
        grid.add_array("i".to_string(), IMArrayElement::new(zeros(&[3, 2, 1]))),
        Err(AnnError::ShapeMismatch { expected: vec![3, 2], actual: vec![3, 2, 1] })
    );

    let pairs: IMAxisArrays<ArrayData> = IMAxisArrays::new(Axis::Pairwise, n.clone(), None);
    assert!(pairs.add_array("p".to_string(), IMArrayElement::new(zeros(&[3, 3]))).is_ok());
    assert_eq!(
        pairs.add_array("q".to_string(), IMArrayElement::new(zeros(&[3, 2]))),
        Err(AnnError::ShapeMismatch { expected: vec![3, 3], actual: vec![3, 2] })
    );

    n.set(2);
    assert!(pairs.add_array("r".to_string(), IMArrayElement::new(zeros(&[2, 2]))).is_ok());
    assert!(pairs.add_array("s".to_string(), IMArrayElement::new(zeros(&[3, 3]))).is_err());
}

#[test]
fn shape_rule_values() {
    assert_eq!(check_shape(Axis::Row, &vec![4, 1], 4, 0), Ok(()));
    assert_eq!(
        check_shape(Axis::Row, &vec![], 4, 0),
        Err(AnnError::ShapeMismatch { expected: vec![4], actual: vec![] })
    );
    assert_eq!(check_shape(Axis::Pairwise, &vec![2, 2], 2, 9), Ok(()));
    assert_eq!(check_shape(Axis::RowColumn, &vec![2, 9], 2, 9), Ok(()));
}

#[test]
fn deep_copy_is_isolated_and_shallow_copy_is_shared() {
    let (matrix, obs_names, var_names) = create_test_data();
    let mut adata = Ad::new_basic(matrix.clone(), obs_names, var_names).unwrap();
    adata.add_layer("raw".to_string(), IMArrayElement::new(matrix.clone())).unwrap();

    let deep = adata.get_layer("raw").unwrap();
    let shallow = adata.get_layer_shallow("raw").unwrap();
    let replaced = dense_matrix(3, 3, &[(1, 1, 9.0)]);
    adata.get_layer_shallow("raw").unwrap().set_data(replaced.clone()).unwrap();

    assert_eq!(deep.get_data().unwrap(), matrix);
    assert_eq!(shallow.get_data().unwrap(), replaced);
    assert_eq!(adata.get_layer("raw").unwrap().get_data().unwrap(), replaced);

    shallow.set_data(matrix.clone()).unwrap();
    assert_eq!(adata.get_layer("raw").unwrap().get_data().unwrap(), matrix);
}

#[test]
fn selector_translation_values() {
    assert_eq!(select_info_elem_to_indices(&Selector::Index(vec![2, 0, 1]), 3), Ok(vec![2, 0, 1]));
    assert_eq!(
        select_info_elem_to_indices(&Selector::Slice { start: 1, end: None, step: 1 }, 5),
        Ok(vec![1, 2, 3, 4])
    );
    assert_eq!(
        select_info_elem_to_indices(&Selector::Slice { start: 0, end: Some(0), step: 1 }, 5),
        Ok(vec![])
    );
    assert_eq!(
        select_info_elem_to_indices(&Selector::Slice { start: 0, end: Some(5), step: 2 }, 5),
        Ok(vec![0, 2, 4])
    );
    assert_eq!(
        select_info_elem_to_indices(&Selector::Slice { start: 1, end: Some(4), step: 2 }, 5),
        Ok(vec![1, 3])
    );
    assert_eq!(select_info_elem_to_indices(&Selector::Index(vec![1, 1]), 2), Ok(vec![1, 1]));
    assert_eq!(
        select_info_elem_to_indices(&Selector::Index(vec![0, 3, 7]), 3),
        Err(AnnError::IndexOutOfBounds { index: 3, bound: 3 })
    );
    assert_eq!(
        select_info_elem_to_indices(&Selector::Slice { start: 0, end: Some(6), step: 1 }, 5),
        Err(AnnError::SliceOutOfBounds { start: 0, end: 6, bound: 5 })
    );
    assert_eq!(
        select_info_elem_to_indices(&Selector::Slice { start: 5, end: None, step: 1 }, 5),
        Err(AnnError::SliceOutOfBounds { start: 5, end: 5, bound: 5 })
    );
    assert_eq!(
        select_info_elem_to_indices(&Selector::Slice { start: 0, end: None, step: 0 }, 5),
        Err(AnnError::InvalidStep { step: 0 })
    );
    assert_eq!(select_info_elem_to_indices(&Selector::full(), 2), Ok(vec![0, 1]));
}

#[test]
fn plan_subset_values() {
    let sel = vec![Selector::Index(vec![0, 2]), Selector::Slice { start: 1, end: None, step: 1 }];
    assert_eq!(plan_subset(&sel, 3, 3), Ok((vec![0, 2], vec![1, 2])));
    assert_eq!(
        plan_subset(&vec![Selector::full()], 3, 3),
        Err(AnnError::SelectionArityMismatch { expected_axes: 2, given_axes: 1 })
    );
    assert_eq!(
        plan_subset(&vec![Selector::full(), Selector::Index(vec![3])], 3, 3),
        Err(AnnError::IndexOutOfBounds { index: 3, bound: 3 })
    );
}

fn annotated_with_raw_layer() -> Ad {
    let matrix = dense_matrix(
        3,
        3,
        &[(0, 0, 1.0), (0, 1, 2.0), (0, 2, 3.0), (1, 0, 4.0), (1, 1, 5.0), (1, 2, 6.0), (2, 0, 7.0), (2, 1, 8.0), (2, 2, 9.0)],
    );
    let mut adata = Ad::new_basic(matrix.clone(), names("obs", 3), names("var", 3)).unwrap();
    let raw = dense(&[3, 3], values(&matrix).iter().map(|v| v * 10.0).collect());
    adata.add_layer("raw".to_string(), IMArrayElement::new(raw)).unwrap();
    adata
}

#[test]
fn subset_builds_new_object_and_keeps_original() {
    let adata = annotated_with_raw_layer();
    let sel = vec![Selector::Index(vec![0, 2]), Selector::Index(vec![1, 2])];
    let sub = adata.subset(&sel).unwrap();

    assert_eq!(sub.n_obs(), 2);
    assert_eq!(sub.n_vars(), 2);
    assert_eq!(sub.obs_names().unwrap(), vec!["obs1".to_string(), "obs3".to_string()]);
    assert_eq!(sub.var_names().unwrap(), vec!["var2".to_string(), "var3".to_string()]);
    let raw = sub.get_layer("raw").unwrap().get_data().unwrap();
    assert_eq!(shape_of(&raw), vec![2, 2]);
    assert_eq!(values(&raw), vec![20.0, 30.0, 80.0, 90.0]);
    assert_eq!(values(&sub.x().get_data().unwrap()), vec![2.0, 3.0, 8.0, 9.0]);
    assert_eq!(sub.layers().dimensions().unwrap().0.get(), 2);

    assert_eq!(adata.n_obs(), 3);
    assert_eq!(adata.n_vars(), 3);
    assert_eq!(adata.obs_names().unwrap(), names("obs", 3));
    assert_eq!(adata.get_layer("raw").unwrap().get_shape().unwrap(), vec![3, 3]);
    assert_eq!(adata.x().get_shape().unwrap(), vec![3, 3]);
}

#[test]
fn subset_inplace_resizes_every_component() {
    let mut adata = annotated_with_raw_layer();
    adata.obsm().add_array("pca".to_string(), IMArrayElement::new(zeros(&[3, 4]))).unwrap();
    adata.obsp().add_array("dist".to_string(), IMArrayElement::new(zeros(&[3, 3]))).unwrap();
    adata.varm().add_array("load".to_string(), IMArrayElement::new(zeros(&[3, 2]))).unwrap();
    let sel = vec![Selector::Index(vec![2, 0]), Selector::Slice { start: 1, end: None, step: 1 }];
    adata.subset_inplace(&sel).unwrap();

    assert_eq!(adata.n_obs(), 2);
    assert_eq!(adata.n_vars(), 2);
    assert_eq!(adata.obs_names().unwrap(), vec!["obs3".to_string(), "obs1".to_string()]);
    assert_eq!(adata.var_names().unwrap(), vec!["var2".to_string(), "var3".to_string()]);
    assert_eq!(values(&adata.x().get_data().unwrap()), vec![8.0, 9.0, 2.0, 3.0]);
    assert_eq!(adata.get_layer("raw").unwrap().get_shape().unwrap(), vec![2, 2]);
    assert_eq!(adata.obsm().get_array("pca").unwrap().get_shape().unwrap(), vec![2, 4]);
    assert_eq!(adata.obsp().get_array("dist").unwrap().get_shape().unwrap(), vec![2, 2]);
    assert_eq!(adata.varm().get_array("load").unwrap().get_shape().unwrap(), vec![2, 2]);
    assert_eq!(adata.obsm().dimensions().unwrap().0.get(), 2);
    assert!(adata
        .add_layer("next".to_string(), IMArrayElement::new(zeros(&[2, 2])))
        .is_ok());
}

#[test]
fn subset_refuses_bad_selection_without_change() {
    let mut adata = annotated_with_raw_layer();
    assert_eq!(
        adata.subset_inplace(&vec![Selector::Index(vec![0])]).err(),
        Some(AnnError::SelectionArityMismatch { expected_axes: 2, given_axes: 1 })
    );
    assert_eq!(
        adata.subset_inplace(&vec![Selector::Index(vec![0, 3]), Selector::full()]).err(),
        Some(AnnError::IndexOutOfBounds { index: 3, bound: 3 })
    );
    assert_eq!(
        adata.subset(&vec![Selector::full(), Selector::Slice { start: 0, end: Some(4), step: 1 }]).err(),
        Some(AnnError::SliceOutOfBounds { start: 0, end: 4, bound: 3 })
    );
    assert_eq!(adata.n_obs(), 3);
    assert_eq!(adata.x().get_shape().unwrap(), vec![3, 3]);
}

#[test]
fn removed_layer_is_gone() {
    let mut adata = annotated_with_raw_layer();
    assert!(adata.remove_layer("raw").is_ok());
    assert_eq!(adata.get_layer("raw").err(), Some(AnnError::KeyNotFound));
    assert_eq!(adata.get_layer_shallow("raw").err(), Some(AnnError::KeyNotFound));
    assert_eq!(adata.remove_layer("raw").err(), Some(AnnError::KeyNotFound));
    assert_eq!(adata.layers().len().unwrap(), 0);
    assert!(adata.layers().is_empty().unwrap());
}

#[test]
fn update_layer_needs_existing_key() {
    let mut adata = annotated_with_raw_layer();
    let zero = zeros(&[3, 3]);
    assert_eq!(adata.update_array("missing", IMArrayElement::new(zero.clone())), Err(AnnError::KeyNotFound));
    assert_eq!(adata.update_array("raw", IMArrayElement::new(zero.clone())), Ok(()));
    assert_eq!(adata.get_layer("raw").unwrap().get_data().unwrap(), zero);
    assert_eq!(adata.layers().keys().unwrap(), vec!["raw".to_string()]);
}

#[test]
fn attach_column_of_wrong_length_changes_nothing() {
    let obs = IMDataFrameElement::new(frame_of(&names("obs", 3)), names("obs", 3)).unwrap();
    let before = obs.get_data().unwrap();
    let before_names = strings(&before.get_columns()[0]);
    assert_eq!(
        obs.attach_column_to_df(text_column("score", 2)),
        Err(AnnError::HeightMismatch { table: 3, index: 2 })
    );
    assert_eq!(obs.get_data().unwrap().width(), before.width());
    assert_eq!(strings(&obs.get_data().unwrap().get_columns()[0]), before_names);
    assert_eq!(obs.get_index().unwrap(), names("obs", 3));

    assert_eq!(obs.attach_column_to_df(text_column("score", 3)), Ok(()));
    assert_eq!(strings(&obs.get_column_from_df("score").unwrap()), names("v", 3));
    assert_eq!(obs.get_data().unwrap().width(), 2);
}

#[test]
fn table_element_column_operations() {
    let obs = IMDataFrameElement::new(frame_of(&names("obs", 3)), names("obs", 3)).unwrap();
    assert_eq!(obs.get_column_from_df("nope").err(), Some(AnnError::ColumnNotFound));
    assert_eq!(obs.remove_column_from_df("nope"), Err(AnnError::ColumnNotFound));
    assert_eq!(obs.set_column_in_df("nope", text_column("x", 3)), Err(AnnError::ColumnNotFound));
    assert_eq!(
        obs.set_column_in_df("index", text_column("x", 4)),
        Err(AnnError::HeightMismatch { table: 3, index: 4 })
    );
    assert_eq!(obs.set_column_in_df("index", text_column("x", 3)), Ok(()));
    assert_eq!(strings(&obs.get_column_from_df("index").unwrap()), names("v", 3));
    assert_eq!(
        obs.remove_column_from_df("index"),
        Err(AnnError::HeightMismatch { table: 0, index: 3 })
    );
    assert_eq!(obs.get_height(), Ok(3));
    obs.attach_column_to_df(text_column("extra", 3)).unwrap();
    assert_eq!(obs.remove_column_from_df("index"), Ok(()));
    assert_eq!(obs.get_data().unwrap().width(), 1);
}

#[test]
fn table_element_replacements() {
    let obs = IMDataFrameElement::new(frame_of(&names("obs", 3)), names("obs", 3)).unwrap();
    assert_eq!(obs.set_index(names("o", 2)), Err(AnnError::HeightMismatch { table: 3, index: 2 }));
    assert_eq!(obs.set_index(names("o", 3)), Ok(()));
    assert_eq!(obs.get_index().unwrap(), names("o", 3));
    assert_eq!(
        obs.set_data(frame_of(&names("a", 4))),
        Err(AnnError::HeightMismatch { table: 4, index: 3 })
    );
    assert_eq!(obs.set_data(frame_of(&names("a", 3))), Ok(()));
    assert_eq!(
        obs.set_both(frame_of(&names("b", 2)), names("b", 3)),
        Err(AnnError::HeightMismatch { table: 2, index: 3 })
    );
    assert_eq!(obs.set_both(frame_of(&names("b", 2)), names("b", 2)), Ok(()));
    assert_eq!(obs.get_height(), Ok(2));
}

#[test]
fn table_element_subset_keeps_rows_and_labels_together() {
    let obs = IMDataFrameElement::new(frame_of(&names("obs", 3)), names("obs", 3)).unwrap();
    let sub = obs.subset(&Selector::Index(vec![2, 0, 2])).unwrap();
    assert_eq!(sub.get_index().unwrap(), vec!["obs3".to_string(), "obs1".to_string(), "obs3".to_string()]);
    assert_eq!(strings(&sub.get_data().unwrap().get_columns()[0]), sub.get_index().unwrap());
    assert_eq!(obs.get_height(), Ok(3));
    assert_eq!(obs.subset(&Selector::Index(vec![3])).err(), Some(AnnError::IndexOutOfBounds { index: 3, bound: 3 }));
    obs.subset_inplace(&Selector::Slice { start: 1, end: None, step: 1 }).unwrap();
    assert_eq!(obs.get_index().unwrap(), vec!["obs2".to_string(), "obs3".to_string()]);
    assert_eq!(obs.get_data().unwrap().height(), 2);
}

#[test]
fn constructors_refuse_mismatched_shapes() {
    let (matrix, obs_names, _) = create_test_data();
    assert_eq!(
        Ad::new_basic(matrix.clone(), obs_names.clone(), names("var", 2)).err(),
        Some(AnnError::ShapeMismatch { expected: vec![3, 2], actual: vec![3, 3] })
    );
    assert_eq!(
        Ad::new_extended(
            matrix.clone(),
            obs_names.clone(),
            names("var", 3),
            frame_of(&names("x", 2)),
            frame_of(&names("y", 3)),
        )
        .err(),
        Some(AnnError::HeightMismatch { table: 2, index: 3 })
    );
    let ok = Ad::new_extended(
        matrix.clone(),
        obs_names.clone(),
        names("var", 3),
        frame_of(&names("x", 3)),
        frame_of(&names("y", 3)),
    )
    .unwrap();
    assert_eq!(ok.obs_names().unwrap(), obs_names);
    let x = IMArrayElement::new(zeros(&[2, 3]));
    let obs = IMDataFrameElement::new(frame_of(&names("o", 3)), names("o", 3)).unwrap();
    let var = IMDataFrameElement::new(frame_of(&names("v", 3)), names("v", 3)).unwrap();
    assert_eq!(
        Ad::new(x, obs, var).err(),
        Some(AnnError::ShapeMismatch { expected: vec![3, 3], actual: vec![2, 3] })
    );
}

#[test]
fn empty_array_slot_reports_uninitialized() {
    let x = IMArrayElement::new(zeros(&[2, 2]));
    let alias = x.clone();
    x.0.drop();
    assert_eq!(alias.get_shape(), Err(AnnError::UninitializedAccess));
    assert_eq!(alias.get_type(), Err(AnnError::UninitializedAccess));
    assert_eq!(alias.subset(&vec![Selector::full(), Selector::full()]).err(), Some(AnnError::UninitializedAccess));
    x.set_data(zeros(&[1, 1])).unwrap();
    assert!(alias.get_type().is_ok());
}

#[test]
fn array_subset_values() {
    let m = dense_matrix(2, 3, &[(0, 0, 1.0), (0, 2, 3.0), (1, 1, 5.0)]);
    let x = IMArrayElement::new(m.clone());
    let sub = x.subset(&vec![Selector::Index(vec![1, 0]), Selector::Index(vec![2, 1])]).unwrap();
    assert_eq!(values(&sub.get_data().unwrap()), vec![0.0, 5.0, 3.0, 0.0]);
    assert_eq!(
        x.subset(&vec![Selector::full()]).err(),
        Some(AnnError::SelectionArityMismatch { expected_axes: 2, given_axes: 1 })
    );
    assert_eq!(x.get_data().unwrap(), m);
    x.subset_inplace(&vec![Selector::Index(vec![1]), Selector::full()]).unwrap();
    assert_eq!(x.get_shape().unwrap(), vec![1, 3]);
    assert_eq!(values(&x.deep_clone_content().unwrap()), vec![0.0, 5.0, 0.0]);
}

#[test]
fn axis_collection_subset_moves_shared_dims() {
    let n = Dim::new(3);
    let a: IMAxisArrays<ArrayData> = IMAxisArrays::new(Axis::Row, n.clone(), None);
    let b: IMAxisArrays<ArrayData> = IMAxisArrays::new(Axis::Pairwise, n.clone(), None);
    a.add_array("a".to_string(), IMArrayElement::new(zeros(&[3, 2]))).unwrap();
    let copy = a.subset(&vec![Selector::Index(vec![0]), Selector::full()]).unwrap();
    assert_eq!(copy.dimensions().unwrap().0.get(), 1);
    assert_eq!(n.get(), 3);
    a.subset_inplace(&vec![Selector::Index(vec![0, 1]), Selector::full()]).unwrap();
    assert_eq!(n.get(), 2);
    assert_eq!(b.dimensions().unwrap().0.get(), 2);
    assert_eq!(a.get_array("a").unwrap().get_shape().unwrap(), vec![2, 2]);
    assert_eq!(
        a.subset_inplace(&vec![]),
        Err(AnnError::SelectionArityMismatch { expected_axes: 1, given_axes: 0 })
    );
    let visited = std::cell::Cell::new(0);
    a.map(|_e| {
        visited.set(visited.get() + 1);
        Ok(())
    })
    .unwrap();
    assert_eq!(visited.get(), 1);
}

#[test]
fn axis_collection_from_entries_needs_unique_keys() {
    let n = Dim::new(1);
    let e = IMArrayElement::new(zeros(&[1]));
    let dup = vec![("k".to_string(), e.clone()), ("k".to_string(), e.clone())];
    assert_eq!(IMAxisArrays::new_from(Axis::Row, n.clone(), None, dup).err(), Some(AnnError::KeyAlreadyExists));
    let ok = vec![("k".to_string(), e.clone()), ("l".to_string(), e)];
    assert_eq!(IMAxisArrays::new_from(Axis::Row, n, None, ok).unwrap().len().unwrap(), 2);
}

#[test]
fn unstructured_collection_keys() {
    let uns: IMElementCollection<String> = IMElementCollection::new_empty();
    assert_eq!(uns.add_data("k".to_string(), Element::new("v".to_string())), Ok(()));
    assert_eq!(uns.add_data("k".to_string(), Element::new("w".to_string())), Err(AnnError::KeyAlreadyExists));
    let shallow = uns.get_data("k").unwrap();
    let deep = uns.get_data_deep("k").unwrap();
    shallow.set_data("changed".to_string()).unwrap();
    assert_eq!(uns.get_data("k").unwrap().get_data().unwrap(), "changed".to_string());
    assert_eq!(deep.get_data().unwrap(), "v".to_string());
    assert!(uns.remove_data("k").is_ok());
    assert_eq!(uns.remove_data("k").err(), Some(AnnError::KeyNotFound));
    assert_eq!(uns.get_data("k").err(), Some(AnnError::KeyNotFound));
}

#[test]
fn deep_clone_of_object_is_independent() {
    let adata = annotated_with_raw_layer();
    let copy = adata.deep_clone().unwrap();
    adata.get_layer_shallow("raw").unwrap().set_data(zeros(&[3, 3])).unwrap();
    assert_eq!(values(&copy.get_layer("raw").unwrap().get_data().unwrap())[0], 10.0);
    let mut copy = copy;
    copy.subset_inplace(&vec![Selector::Index(vec![0]), Selector::full()]).unwrap();
    assert_eq!(copy.n_obs(), 1);
    assert_eq!(adata.n_obs(), 3);
}

#[test]
fn plan_axis_subset_values() {
    let two = vec![Selector::Index(vec![0, 2]), Selector::Slice { start: 1, end: None, step: 1 }];
    assert_eq!(plan_axis_subset(&two, 3, Some(4)), Ok((2, Some(3))));
    assert_eq!(plan_axis_subset(&two, 3, None), Ok((2, None)));
    assert_eq!(
        plan_axis_subset(&vec![Selector::full()], 3, Some(4)),
        Err(AnnError::SelectionArityMismatch { expected_axes: 2, given_axes: 1 })
    );
    assert_eq!(
        plan_axis_subset(&vec![], 3, None),
        Err(AnnError::SelectionArityMismatch { expected_axes: 1, given_axes: 0 })
    );
    assert_eq!(
        plan_axis_subset(&vec![Selector::Index(vec![3])], 3, None),
        Err(AnnError::IndexOutOfBounds { index: 3, bound: 3 })
    );
    assert_eq!(
        plan_axis_subset(&vec![Selector::full(), Selector::Index(vec![4])], 3, Some(4)),
        Err(AnnError::IndexOutOfBounds { index: 4, bound: 4 })
    );
}

#[test]
fn failed_add_keeps_stored_arrays_and_remove_returns_them() {
    let n = Dim::new(2);
    let rows: IMAxisArrays<ArrayData> = IMAxisArrays::new(Axis::Row, n, None);
    let first = dense_matrix(2, 1, &[(0, 0, 7.0)]);
    rows.add_array("a".to_string(), IMArrayElement::new(first.clone())).unwrap();
    rows.add_array("b".to_string(), IMArrayElement::new(zeros(&[2]))).unwrap();
    assert_eq!(
        rows.add_array("a".to_string(), IMArrayElement::new(zeros(&[2, 1]))),
        Err(AnnError::KeyAlreadyExists)
    );
    assert_eq!(rows.get_array("a").unwrap().get_data().unwrap(), first);
    let removed = rows.remove_array("a").unwrap();
    assert_eq!(removed.get_data().unwrap(), first);
    assert_eq!(rows.keys().unwrap(), vec!["b".to_string()]);
    assert_eq!(rows.remove_array("a").err(), Some(AnnError::KeyNotFound));
    assert_eq!(rows.get_array("b").unwrap().get_shape().unwrap(), vec![2]);
}

#[test]
fn map_stops_at_first_error() {
    let n = Dim::new(1);
    let rows: IMAxisArrays<ArrayData> = IMAxisArrays::new(Axis::Row, n, None);
    for k in ["x", "y", "z"] {
        rows.add_array(k.to_string(), IMArrayElement::new(zeros(&[1]))).unwrap();
    }
    let calls = std::cell::Cell::new(0);
    let r = rows.map(|_e| {
        calls.set(calls.get() + 1);
        if calls.get() == 2 {
            Err(AnnError::ArrayOperation)
        } else {
            Ok(())
        }
    });
    assert_eq!(r, Err(AnnError::ArrayOperation));
    assert_eq!(calls.get(), 2);
}
