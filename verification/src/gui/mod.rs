pub mod error;
pub mod global_frequency;
pub mod list;
pub mod project;
pub mod relative_frequency;
pub mod save_dialog;
pub mod state;
