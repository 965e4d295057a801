//! A persistent tree over a document's bracket/text structure.
//!
//! Leaves are plain-text spans and single bracket tokens, internal nodes are
//! matched bracket pairs or ordered sibling lists.  Every node carries the
//! span length it covers; lengths are fixed at construction and never
//! recomputed.  Malformed input (an unmatched closing bracket) is a
//! first-class leaf, not a failure.
//!
//! There is no leaf for an unmatched *opening* bracket: the external parser
//! is expected to hold such a bracket back, as an incomplete pair, until its
//! match appears, so it never reaches the tree.

pub mod merge;
pub mod model;
pub mod node;
pub mod sticky_scroll;
