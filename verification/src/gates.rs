//! Boolean logic-gate demonstration: the standard two-input gates and
//! truth-table generation over them.

pub mod gate;
pub mod truth_table;
