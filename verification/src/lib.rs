//! Python environment diagnostics: the decisions, parsing and report layout
//! of the `pythoninfo` command, stated and proved over plain values.
pub mod args;
pub mod commands;
pub mod laws;
pub mod lookup;
pub mod outputs;
pub mod queries;
pub mod render;
pub mod report;
pub mod styles;
pub mod text;
