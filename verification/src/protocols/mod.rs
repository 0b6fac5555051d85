//! The bootloader protocols this crate speaks.

pub mod frames;
pub mod paging;
pub mod run;
pub mod stk500v1;
pub mod stk500v2;
