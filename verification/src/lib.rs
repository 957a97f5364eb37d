//! Verified core of the `pueue` task queue client and daemon: the rules that
//! decide which finished tasks `clean` removes, and the rules that decide which
//! status-table columns are shown, what each cell says and how wide the
//! truncated columns may grow.
pub mod widths;
pub mod text;
pub mod truncate;
pub mod time;
pub mod task;
pub mod state;
pub mod clean;
pub mod settings;
pub mod table_builder;
pub mod cells;
pub mod comfy;
pub mod render;
