use anndata::{data::DynCsrMatrix, ArrayData, Data};
use anndata_memory::{AnnError, ArrayValue, Axis, IMAnnData, IMArrayElement, IMDataFrameElement, Selector};
use nalgebra_sparse::{CooMatrix, CsrMatrix};
use polars::frame::DataFrame;
use polars::prelude::{Column, NamedFrom};

type Real = IMAnnData<ArrayData, DataFrame, Data>;

fn create_test_data() -> (ArrayData, Vec<String>, Vec<String>) {
    let nrows = 3;
    let ncols = 3;

    let mut coo_matrix = CooMatrix::new(nrows, ncols);

    coo_matrix.push(0, 0, 1.0);
    coo_matrix.push(1, 2, 2.0);
    coo_matrix.push(2, 1, 3.0);
    coo_matrix.push(2, 2, 4.0);

    let csr_matrix: CsrMatrix<f64> = CsrMatrix::from(&coo_matrix);

    let matrix = DynCsrMatrix::from(csr_matrix);
    let obs_names = vec!["obs1".to_string(), "obs2".to_string(), "obs3".to_string()];
    let var_names = vec!["var1".to_string(), "var2".to_string(), "var3".to_string()];
    (ArrayData::CsrMatrix(matrix), obs_names, var_names)
}

#[test]
fn test_new_basic() {
    let (matrix, obs_names, var_names) = create_test_data();
    let adata = Real::new_basic(matrix, obs_names, var_names).unwrap();

    assert_eq!(adata.n_obs(), 3);
    assert_eq!(adata.n_vars(), 3);
}

#[test]
fn test_getters() {
    let (matrix, obs_names, var_names) = create_test_data();
    let adata = Real::new_basic(matrix, obs_names, var_names).unwrap();

    assert_eq!(adata.n_obs(), 3);
    assert_eq!(adata.n_vars(), 3);

    let x = adata.x();
    let shape = x.get_shape().unwrap();
    assert_eq!(vec![shape[0], shape[1]], vec![3, 3]);

    let obs = adata.obs();
    assert_eq!(obs.get_data().unwrap().height(), 3);

    let var = adata.var();
    assert_eq!(var.get_data().unwrap().height(), 3);
}

#[test]
fn test_add_and_get_layer() {
    let (matrix, obs_names, var_names) = create_test_data();
    let mut adata = Real::new_basic(matrix.clone(), obs_names, var_names).unwrap();

    let layer_name = "test_layer".to_string();
    let layer_data = IMArrayElement::new(matrix);

    adata.add_layer(layer_name.clone(), layer_data).unwrap();

    let retrieved_layer = adata.get_layer(&layer_name).unwrap();
    let shape = retrieved_layer.get_shape().unwrap();
    assert_eq!(vec![shape[0], shape[1]], vec![3, 3]);
}

#[test]
fn test_remove_layer() {
    let (matrix, obs_names, var_names) = create_test_data();
    let mut adata = Real::new_basic(matrix.clone(), obs_names, var_names).unwrap();

    let layer_name = "test_layer".to_string();
    let layer_data = IMArrayElement::new(matrix);

    adata.add_layer(layer_name.clone(), layer_data).unwrap();
    let removed_layer = adata.remove_layer(&layer_name).unwrap();

    let shape = removed_layer.get_shape().unwrap();
    assert_eq!(vec![shape[0], shape[1]], vec![3, 3]);

    assert!(adata.get_layer(&layer_name).is_err());
}

#[test]
fn test_obsm_varm() {
    let (matrix, obs_names, var_names) = create_test_data();
    let adata = Real::new_basic(matrix, obs_names, var_names).unwrap();

    let obsm = adata.obsm();
    assert_eq!(obsm.axis().unwrap(), Axis::Row);
    assert_eq!(obsm.dimensions().unwrap().0.get(), 3);

    let varm = adata.varm();
    assert_eq!(varm.axis().unwrap(), Axis::Row);
    assert_eq!(varm.dimensions().unwrap().0.get(), 3);
}

#[test]
fn test_obsp_varp() {
    let (matrix, obs_names, var_names) = create_test_data();
    let adata = Real::new_basic(matrix, obs_names, var_names).unwrap();

    let obsp = adata.obsp();
    assert_eq!(obsp.axis().unwrap(), Axis::Pairwise);
    assert_eq!(obsp.dimensions().unwrap().0.get(), 3);

    let varp = adata.varp();
    assert_eq!(varp.axis().unwrap(), Axis::Pairwise);
    assert_eq!(varp.dimensions().unwrap().0.get(), 3);
}

#[test]
fn test_uns() {
    let (matrix, obs_names, var_names) = create_test_data();
    let adata = Real::new_basic(matrix, obs_names, var_names).unwrap();

    let uns = adata.uns();
    assert!(uns.get_data("test_key").is_err());
}

#[test]
fn sparse_subset_with_anndata_and_polars() {
    let (matrix, obs_names, var_names) = create_test_data();
    let mut adata = Real::new_basic(matrix.clone(), obs_names, var_names).unwrap();
    adata.add_layer("raw".to_string(), IMArrayElement::new(matrix)).unwrap();
    let sel = vec![Selector::Index(vec![0, 2]), Selector::Index(vec![1, 2])];
    let sub = adata.subset(&sel).unwrap();
    assert_eq!(sub.n_obs(), 2);
    assert_eq!(sub.n_vars(), 2);
    assert_eq!(sub.obs_names().unwrap(), vec!["obs1".to_string(), "obs3".to_string()]);
    assert_eq!(sub.var_names().unwrap(), vec!["var2".to_string(), "var3".to_string()]);
    assert_eq!(sub.get_layer("raw").unwrap().get_shape().unwrap(), vec![2, 2]);
    assert_eq!(sub.obs().get_data().unwrap().height(), 2);
    let expected = {
        let mut coo = CooMatrix::new(2, 2);
        coo.push(1, 0, 3.0);
        coo.push(1, 1, 4.0);
        ArrayData::CsrMatrix(DynCsrMatrix::from(CsrMatrix::from(&coo)))
    };
    assert_eq!(sub.get_layer("raw").unwrap().get_data().unwrap(), expected);
    assert_eq!(adata.n_obs(), 3);
    assert_eq!(adata.get_layer("raw").unwrap().get_shape().unwrap(), vec![3, 3]);

    adata.subset_inplace(&vec![Selector::Slice { start: 1, end: None, step: 1 }, Selector::full()]).unwrap();
    assert_eq!(adata.n_obs(), 2);
    assert_eq!(adata.x().get_shape().unwrap(), vec![2, 3]);
    assert_eq!(adata.obs().get_data().unwrap().height(), 2);
    assert_eq!(adata.obs_names().unwrap(), vec!["obs2".to_string(), "obs3".to_string()]);
}

#[test]
fn polars_table_element_checks_heights() {
    let labels = vec!["a".to_string(), "b".to_string(), "c".to_string()];
    let obs: IMDataFrameElement<DataFrame> = IMDataFrameElement::from_labels(labels.clone());
    let short = Column::new("score".into(), &[1i64, 2]);
    assert_eq!(obs.attach_column_to_df(short), Err(AnnError::HeightMismatch { table: 3, index: 2 }));
    assert_eq!(obs.get_data().unwrap().width(), 1);
    let good = Column::new("score".into(), &[1i64, 2, 3]);
    assert_eq!(obs.attach_column_to_df(good), Ok(()));
    assert_eq!(obs.get_data().unwrap().width(), 2);
    assert_eq!(obs.get_column_from_df("score").unwrap().len(), 3);
    assert_eq!(obs.get_column_from_df("missing").err(), Some(AnnError::ColumnNotFound));
    assert_eq!(obs.remove_column_from_df("missing"), Err(AnnError::ColumnNotFound));
    assert_eq!(obs.remove_column_from_df("score"), Ok(()));
    let sub = obs.subset(&Selector::Index(vec![2, 0])).unwrap();
    assert_eq!(sub.get_index().unwrap(), vec!["c".to_string(), "a".to_string()]);
    assert_eq!(sub.get_data().unwrap().height(), 2);
    let mismatch = DataFrame::new(vec![Column::new("x".into(), &[1i64, 2])]).unwrap();
    assert_eq!(
        IMDataFrameElement::new(mismatch, labels).err(),
        Some(AnnError::HeightMismatch { table: 2, index: 3 })
    );
}

#[test]
fn anndata_array_select_refuses_misfit_positions() {
    let (matrix, _, _) = create_test_data();
    assert!(matrix.select(&vec![vec![0, 1]]).is_none());
    assert!(matrix.select(&vec![vec![3], vec![0]]).is_none());
    let picked = matrix.select(&vec![vec![2, 2], vec![1]]).unwrap();
    assert_eq!(ArrayValue::shape(&picked), vec![2, 1]);
    assert_eq!(matrix.dtype_name().is_empty(), false);
}
