//! The typed fronts of the host bridge.

pub mod text;
pub mod ui;
