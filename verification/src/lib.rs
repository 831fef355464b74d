//! Verified core of the jotmate terminal UI: screen rows, list navigation,
//! settings state and its mutations, keyboard handling, layout arithmetic
//! and the view models that the renderer draws.

pub mod rows;
pub mod navigation;
pub mod screen;
pub mod sync_state;
pub mod text;
pub mod dates;
pub mod app;
pub mod builders;
pub mod selection;
pub mod mutations;
pub mod report;
pub mod sync_flow;
pub mod update_flow;
pub mod input;
pub mod laws;
pub mod key_laws;
pub mod layout;
pub mod view;
pub mod screens;
pub mod progress;
pub mod screen_layouts;
pub mod persistence;
pub mod events;
