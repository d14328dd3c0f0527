//! Supplemental widgets for a retained-mode GUI toolkit: the pieces of a
//! date picker and a time picker that can be stated and checked exactly.
//!
//! The host toolkit works in floating-point units; here every colour channel
//! and every length is kept in whole thousandths of the host unit, so that
//! the style values and the overlay placement are plain integers with exact
//! contracts. The thin shell that implements the host toolkit's widget and
//! renderer traits converts these values at the boundary.

pub mod pure;
pub mod style;
