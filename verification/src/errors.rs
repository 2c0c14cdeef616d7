use vstd::prelude::*;

verus! {

/// Failures the protocol layer reports. Every component surfaces errors to
/// its caller rather than retrying internally; none of these leaves a
/// partial result behind.
#[derive(Debug, PartialEq, Eq)]
pub enum ProtocolError {
    /// The transport rejected a send or a receive.
    TransportError,
    /// No matching reply arrived within the wait budget of one exchange.
    Timeout,
    /// A received frame was too short to carry a header byte.
    MalformedPacket,
    /// A telemetry payload for this session had the wrong length.
    MalformedSample,
    /// A requested logging variable is absent from the device directory.
    VariableNotFound(String),
    /// A handshake acknowledgement did not arrive in time.
    SetupRejected,
    /// The directory walk aborted on a timeout or a malformed reply.
    TocResolutionFailed,
}

} // verus!
