//! Viewer-side decoding of column-family rows from an embedded key-value
//! store: a fixed catalog of binary layouts, one total decoder per layout,
//! and an iteration layer that renders raw (key, value) byte pairs as
//! display strings.

use vstd::prelude::*;

pub mod catalog;
pub mod decode;
pub mod rows;
pub mod text;

verus! {

} // verus!
