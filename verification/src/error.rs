//! Failures that travel through a response stream.

use vstd::prelude::*;

verus! {

/// Why a turn failed.
#[derive(Debug, PartialEq, Eq)]
pub enum CodexErr {
    /// The stream broke off or could not be decoded; the text says why.
    Stream(String),
    /// The other side did not answer in time.
    Timeout,
    /// The turn was interrupted.
    Interrupted,
}

pub type Result<T> = core::result::Result<T, CodexErr>;

} // verus!
