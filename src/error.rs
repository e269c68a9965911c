use vstd::prelude::*;

verus! {

/// The two fatal failures of the bridge.
#[derive(Debug, Clone, Copy, PartialEq, Eq, Structural)]
pub enum BridgeError {
    /// The host string holds an embedded terminator (zero) byte, so no
    /// terminator-delimited buffer can be formed from it.
    InvalidHostString,
    /// The runtime's decode primitive signalled failure.
    RuntimeDecodeFailure,
}

} // verus!
