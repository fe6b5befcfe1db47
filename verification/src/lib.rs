//! Cycling the active color scheme of a terminal configuration.
//!
//! A configuration document declares color schemes as named anchors and
//! selects one of them on a single reference line. This library lists the
//! anchors in the order in which they are declared, finds the reference line,
//! picks the anchor that follows the active one (the first follows the last),
//! and rewrites that one line. It also says where the configuration file is
//! looked for. Reading and writing the file is left to the caller.

pub mod error;
pub mod text;
pub mod catalog;
pub mod cycler;
pub mod document;
pub mod laws;
pub mod locate;
