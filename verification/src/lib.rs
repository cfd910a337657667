//! A declarative description of the collaboration panel: a tree of styled
//! elements, built from plain values, that a UI toolkit lays out and paints.

pub mod element;
pub mod panel;
pub mod style;

pub use crate::panel::{collab_panel, CollabPanelElement};
