//! The failures that the core reports to its caller.

use vstd::prelude::*;

verus! {

/// Why an operation of the core failed.
#[derive(Clone, Copy, Debug, PartialEq, Eq)]
pub enum IssuerError {
    /// A text that should hold a field element is no decimal integer.
    MalformedFieldValue,
}

} // verus!
