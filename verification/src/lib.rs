//! A hierarchical code-complexity engine.
//!
//! The library walks an already-parsed syntax tree, opens a *space* (file,
//! function, class, closure) for each space-introducing construct, classifies
//! every node of a dozen grammars as a decision point or not, and folds the
//! per-space statistics bottom-up into sum/average/min/max summaries whose
//! value is independent of the order in which spaces are visited.

pub mod builder;
pub mod classify;
pub mod langs;
pub mod stats;
pub mod tree;
