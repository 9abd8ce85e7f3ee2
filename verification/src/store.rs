//! What the store reports when a statement fails.

use vstd::prelude::*;

verus! {

/// A failure of the store, as far as the handlers tell one from another:
/// the database refused the statement, with or without a code, or anything
/// else went wrong.
#[derive(Debug, Clone, PartialEq, Eq)]
pub enum StoreError {
    Database { code: Option<String> },
    Other,
}

impl StoreError {
    /// Whether the database refused the statement with the code `code`.
    pub open spec fn has_code(self, code: Seq<char>) -> bool {
        match self {
            StoreError::Database { code: Some(found) } => found@ == code,
            _ => false,
        }
    }
}

} // verus!
