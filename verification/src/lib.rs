//! Layout switching for a two-monitor desktop.
//!
//! The crate decides; it performs no input or output. A caller hands it the
//! displays that are connected and the preferences that were saved, and gets
//! back the directives to apply, the text to show the user and the
//! preferences to save.

pub mod descriptor;
pub mod error;
pub mod layout;
pub mod menu;
pub mod mode;
pub mod paths;
pub mod pipeline;
pub mod reconcile;
pub mod request;
pub mod selector;
pub mod setup;
pub mod store;
pub mod text;
pub mod viewer;
