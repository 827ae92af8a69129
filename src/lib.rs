//! Lightweight progress indicators rendered as Unicode glyphs, and compact
//! formatting of magnitudes with binary or SI prefixes.
//!
//! Nothing here performs I/O: callers own the indicator state and the output
//! device, and ask for glyphs when they redraw.

pub mod bar;
pub mod braille;
pub mod prefix;
pub mod spinner;

pub use spinner::{Counter16, Counter256, Snake, Spinner, Spinner4, Spinner8};
