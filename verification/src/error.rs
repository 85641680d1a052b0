//! Composition-time errors.
//!
//! Composition is deterministic and pure, so neither error is recoverable at
//! runtime: the only correct response is to fix how the caller constructs its
//! context. A failed composition aborts production of that subtree.

use vstd::prelude::*;

verus! {

/// A fatal tree-construction error.
#[derive(Debug)]
pub enum ComposeError {
    /// A declared named slot is absent from the supplied context; `name` is
    /// the name of the missing slot.
    MissingSlot { name: String },
    /// Two siblings handed to a key-checking build share a key; `key` is a
    /// key that occurs more than once.
    DuplicateKey { key: String },
}

impl ComposeError {
    /// A short description of the error, for an external driver to report.
    pub fn describe(&self) -> (message: String)
        ensures
            self matches ComposeError::MissingSlot { name } ==> message@ == "missing named slot: "@
                + name@,
            self matches ComposeError::DuplicateKey { key } ==> message@ == "duplicate sibling key: "@
                + key@,
    {
        match self {
            ComposeError::MissingSlot { name } => {
                String::from_str("missing named slot: ").concat(name.as_str())
            },
            ComposeError::DuplicateKey { key } => {
                String::from_str("duplicate sibling key: ").concat(key.as_str())
            },
        }
    }
}

} // verus!
