//! The relational store as the coordinator sees it: the statements it
//! issues, the answers it gets, and an in-memory store that obeys them.

pub mod validity;
pub mod memory;
pub mod protocol;
pub mod rows;
pub mod semantics;
pub mod tables;
