//! Column indices of the main execution trace that the GKR input layer reads.
//!
//! The trace is laid out as: system columns (8), decoder columns (24), stack columns (19),
//! range checker columns (2), chiplets columns (18).

use vstd::prelude::*;

verus! {

/// Index of the first column of the decoder's operation bits.
pub const DECODER_OP_BITS_OFFSET: usize = 9;

/// Index of the first column of the decoder's user operation helpers.
pub const DECODER_USER_OP_HELPERS_OFFSET: usize = 18;

/// Index of the range checker's multiplicity column.
pub const M_COL_IDX: usize = 51;

/// Index of the range checker's value column.
pub const V_COL_IDX: usize = 52;

/// Index of the first chiplets column.
pub const CHIPLETS_OFFSET: usize = 53;

/// Index of the memory chiplet's column of the lower 16 bits of the delta.
pub const MEMORY_D0_COL_IDX: usize = 65;

/// Index of the memory chiplet's column of the upper 16 bits of the delta.
pub const MEMORY_D1_COL_IDX: usize = 66;

/// Number of columns of the main trace.
pub const TRACE_WIDTH: usize = 71;

} // verus!
