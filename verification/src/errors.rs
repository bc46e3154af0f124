use vstd::prelude::*;

verus! {

/// Failure of a GPIO operation.
///
/// Two kinds cover the whole library: the operating system refused a file
/// or event-notification call, or an attribute file held text outside its
/// recognized set.  A poll timeout is not an error; `poll` reports it as
/// `Ok(None)`.
#[derive(Debug)]
pub enum GpioError {
    /// An OS call failed; carries the errno it reported
    /// (0 when a write made no progress and no code applies).
    Os(i32),
    /// An attribute file held unrecognized text; carries that text
    /// for diagnostics.
    Unexpected(String),
}

} // verus!
