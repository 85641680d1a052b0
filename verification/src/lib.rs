//! A declarative widget-composition core for a retained-mode UI tree.
//!
//! Components are pure functions from a [`context::Context`] (identity, key,
//! inherited properties, child slots) to a [`node::Node`] tree. The crate
//! covers the composition and slot-forwarding protocol itself: how named and
//! listed child slots are unpacked, how property sets are derived for
//! forwarded children, and how the new subtree preserves identity, ordering
//! and ownership. Interpreting the produced tree (layout math, focus
//! traversal, painting) is the job of an external driver and is out of scope.

pub mod component;
pub mod context;
pub mod error;
pub mod node;
pub mod props;
