use vstd::prelude::*;
use crate::assembler::label_table::LabelTable;

verus! {

/// Names given a value by `.define`, and their values.
pub type ConstantTable = LabelTable<i32>;

} // verus!
