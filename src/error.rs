use vstd::prelude::*;

verus! {

/// Errors that stop a run before any candidate is scanned.
#[derive(Clone, Copy, Debug, PartialEq, Eq, Structural)]
pub enum InitError {
    /// The wordlist holds no usable entry once blank lines and comments are dropped.
    EmptyWordlist,
    /// No upstream resolver answered the health probe in time.
    NoUsableResolver,
}

} // verus!
