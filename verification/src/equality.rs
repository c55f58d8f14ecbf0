//! Equality of cell values: two cells are equal when they are of the
//! same variant and hold the same payload.

use crate::params::MatrixCellValue;
use vstd::prelude::*;
use vstd::std_specs::cmp::PartialEqSpecImpl;

verus! {

impl PartialEq for MatrixCellValue {
    fn eq(&self, other: &Self) -> (equal: bool) {
        match (self, other) {
            (MatrixCellValue::Tag(a), MatrixCellValue::Tag(b)) => a.eq(b),
            (MatrixCellValue::String(a), MatrixCellValue::String(b)) => a.eq(b),
            (MatrixCellValue::Int(a), MatrixCellValue::Int(b)) => *a == *b,
            (MatrixCellValue::Unsigned(a), MatrixCellValue::Unsigned(b)) => *a == *b,
            (MatrixCellValue::Bool(a), MatrixCellValue::Bool(b)) => *a == *b,
            _ => false,
        }
    }
}

impl PartialEqSpecImpl for MatrixCellValue {
    open spec fn obeys_eq_spec() -> bool {
        true
    }

    open spec fn eq_spec(&self, other: &Self) -> bool {
        self@ == other@
    }
}

} // verus!
