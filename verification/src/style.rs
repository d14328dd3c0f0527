//! Style types of the widgets, one module per widget.

pub mod time_picker;
