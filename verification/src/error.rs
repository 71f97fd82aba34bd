//! Failures reported by the decoders and the device protocol.

use vstd::prelude::*;

verus! {

/// Why an operation on a sensor or on its data did not succeed.
#[derive(Clone, Copy, Debug, PartialEq, Eq, Structural)]
pub enum Error {
    /// The operation needs an active connection and there is none.
    NotConnected,
    /// The peripheral does not expose the sensor's service.
    UnsupportedDevice,
    /// A payload has the wrong length or holds an undefined enumerated value.
    MalformedInput,
    /// A text characteristic is not valid UTF-8.
    EncodingError,
    /// The transport reported a failure of its own.
    TransportError,
}

} // verus!
