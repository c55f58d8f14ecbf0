//! Conversions from plain values into cell values.

use crate::params::{CellView, MatrixCellValue};
use vstd::prelude::*;
use vstd::std_specs::convert::FromSpecImpl;
use vstd::string::*;

verus! {

/// A static text becomes a tag.
impl From<&'static str> for MatrixCellValue {
    fn from(s: &'static str) -> (cell: Self)
        ensures
            cell@ == CellView::Tag(s@),
    {
        MatrixCellValue::Tag(String::from_str(s))
    }
}

impl FromSpecImpl<&'static str> for MatrixCellValue {
    /// The tag owns a fresh string, which no specification can name:
    /// what the conversion gives is stated over the view instead.
    open spec fn obeys_from_spec() -> bool {
        false
    }

    open spec fn from_spec(s: &'static str) -> Self {
        arbitrary()
    }
}

/// An owned text becomes a string cell.
impl From<String> for MatrixCellValue {
    fn from(s: String) -> (cell: Self) {
        MatrixCellValue::String(s)
    }
}

impl FromSpecImpl<String> for MatrixCellValue {
    open spec fn obeys_from_spec() -> bool {
        true
    }

    open spec fn from_spec(s: String) -> Self {
        MatrixCellValue::String(s)
    }
}

impl From<i64> for MatrixCellValue {
    fn from(i: i64) -> (cell: Self) {
        MatrixCellValue::Int(i)
    }
}

impl FromSpecImpl<i64> for MatrixCellValue {
    open spec fn obeys_from_spec() -> bool {
        true
    }

    open spec fn from_spec(i: i64) -> Self {
        MatrixCellValue::Int(i)
    }
}

impl From<i32> for MatrixCellValue {
    fn from(i: i32) -> (cell: Self) {
        MatrixCellValue::Int(i as i64)
    }
}

impl FromSpecImpl<i32> for MatrixCellValue {
    open spec fn obeys_from_spec() -> bool {
        true
    }

    open spec fn from_spec(i: i32) -> Self {
        MatrixCellValue::Int(i as i64)
    }
}

impl From<u64> for MatrixCellValue {
    fn from(u: u64) -> (cell: Self) {
        MatrixCellValue::Unsigned(u)
    }
}

impl FromSpecImpl<u64> for MatrixCellValue {
    open spec fn obeys_from_spec() -> bool {
        true
    }

    open spec fn from_spec(u: u64) -> Self {
        MatrixCellValue::Unsigned(u)
    }
}

impl From<u32> for MatrixCellValue {
    fn from(u: u32) -> (cell: Self) {
        MatrixCellValue::Unsigned(u as u64)
    }
}

impl FromSpecImpl<u32> for MatrixCellValue {
    open spec fn obeys_from_spec() -> bool {
        true
    }

    open spec fn from_spec(u: u32) -> Self {
        MatrixCellValue::Unsigned(u as u64)
    }
}

impl From<bool> for MatrixCellValue {
    fn from(b: bool) -> (cell: Self) {
        MatrixCellValue::Bool(b)
    }
}

impl FromSpecImpl<bool> for MatrixCellValue {
    open spec fn obeys_from_spec() -> bool {
        true
    }

    open spec fn from_spec(b: bool) -> Self {
        MatrixCellValue::Bool(b)
    }
}

} // verus!
