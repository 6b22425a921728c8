//! The failures of serialization.

use vstd::prelude::*;

verus! {

/// Why serialization failed.
#[derive(Debug, PartialEq, Eq)]
pub enum Error {
    /// The caller broke the encoder's protocol; the text says how.
    Custom(String),
    /// The renderer gave up. Its own account of the failure is not kept.
    Emit,
    /// The rendered bytes are not valid UTF-8.
    FromUtf8,
}

} // verus!
