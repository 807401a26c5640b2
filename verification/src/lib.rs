//! Thin handles for values made of a fixed-size head and a variable-length tail.
//!
//! A composite value `{ length, head, tail[length] }` is described by one
//! combined memory layout and reached through a single handle. The handle
//! comes in three ownership modes (unique, shared, atomically shared), each
//! of which converts to and from its general-purpose counterpart without
//! copying the value.

pub mod arc;
pub mod borrow;
pub mod boxed;
pub mod data;
pub mod erased;
pub mod layout;
pub mod rc;
pub mod slice;

pub use crate::arc::ThinArc;
pub use crate::borrow::{ThinRef, ThinRefMut};
pub use crate::boxed::{BuildError, ThinBox};
pub use crate::data::{thin_layout, InProgress, ThinData};
pub use crate::erased::Erased;
pub use crate::layout::{repr_c_3, Layout, LayoutErr};
pub use crate::rc::ThinRc;
pub use crate::slice::ThinSlice;
