//! The copy-on-write overlay: the bookkeeping that decides where a path
//! lives (upper or lower layer), whiteouts, and which mounts may be touched.
use vstd::prelude::*;

pub mod inode_manager;
pub mod listing;
pub mod mount;
pub mod ops;
pub mod path_resolver;
pub mod types;
pub mod whiteout;

verus! {

} // verus!
