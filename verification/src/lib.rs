//! A small verified search library: linear and binary search over ascending
//! lists of comparable items, unified behind one entry point that is told
//! which answer the caller wants (presence only, or the index of the first
//! match) and whether the data is already known to be sorted.

pub mod arith;
pub mod list_search;
pub mod order;
pub mod sorting;
pub mod vec_search;
