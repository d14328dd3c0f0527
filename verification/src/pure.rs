//! Widgets for the stateless widget tree of the host toolkit.

pub mod date_picker;
