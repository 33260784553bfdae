//! Layout rules for the labelled axes of a plot widget.
//!
//! The library holds the decision logic of an axis widget: which side of the
//! plot rectangle receives the title and the tick labels, how much screen
//! space an axis reserves, how a tick value is turned into a label string,
//! and which tick labels are drawn at a given on-screen tick spacing.
//! Screen-space measurement and drawing are left to the embedding GUI code,
//! which feeds this library plain values.

pub mod format;
pub mod hints;
pub mod layout;
pub mod placement;
