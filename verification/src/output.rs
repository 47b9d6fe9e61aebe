//! Rules for writing trees out.

pub mod dump;
pub mod dump_ops;
