//! Commands offered to the user interface.

pub mod backend;
