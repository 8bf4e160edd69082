//! Decision logic of a desktop shell: clipboard paste, accessibility status,
//! privacy-settings deep links, overlay passthrough, the hold-to-record hotkey
//! and the single-instance guard.
//!
//! Nothing here touches the operating system. Each command is a small state
//! machine: a function returns the next step, the caller performs the outside
//! work that the step names, and hands the outcome to the function that
//! follows.

pub mod accessibility;
pub mod hotkey;
pub mod paste;
pub mod platform;
pub mod process;
pub mod settings;
pub mod text;
pub mod window;
