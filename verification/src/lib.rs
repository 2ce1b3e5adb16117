//! Decision rules of two lints over a type-checked program, stated on plain
//! values and proved with Verus.
//!
//! A host (a compiler plugin walking the typed syntax tree) describes each
//! node it visits with the records of this crate and receives the diagnostic
//! to report, if any. Nothing here reads the host's own data structures.

pub mod call_site;
pub mod diagnostic;
pub mod filter_flat_map;
pub mod owned_to_owned;
pub mod paths;
pub mod span;
pub mod types;
