//! Decision logic of a system monitor: navigation pages, the application
//! state machine, dashboard layout rules, process-list maintenance and the
//! text shown for frequencies and sizes.

pub mod nav;
pub mod frequency;
pub mod settings;
pub mod search;
pub mod history;
pub mod content;
pub mod monitor;
pub mod dashboard;
pub mod view;
pub mod text;
pub mod cli;
