// An in-memory annotated matrix: a main matrix with row and column
// metadata, axis-aligned collections of arrays kept consistent with shared
// row and column counts, and an unstructured bag, all behind shared,
// lock-guarded slots.

pub mod adapters;
pub mod annotated;
pub mod array;
pub mod axis;
pub mod dim;
pub mod element;
pub mod error;
pub mod frame;
pub mod selection;
pub mod slot;
pub mod values;

pub use annotated::IMAnnData;
pub use array::IMArrayElement;
pub use axis::{Axis, IMAxisArrays, InnerIMAxisArray};
pub use dim::Dim;
pub use element::{Element, IMElementCollection};
pub use error::AnnError;
pub use frame::{IMDataFrameElement, InnerIMDataFrame};
pub use selection::{select_info_elem_to_indices, Selector};
pub use slot::RwSlot;
pub use values::{ArrayValue, TableValue};
