use vstd::prelude::*;

verus! {

/// What can go wrong on the link itself. Each of these ends the connection.
#[derive(Debug, Clone, Copy, PartialEq, Eq, Structural)]
pub enum ProtocolError {
    /// The peer stopped in the middle of a frame.
    ShortRead,
    /// A frame could not be written.
    WriteFailed,
    /// A frame's body is not a message.
    BadJson,
    /// A text is not in the link's base-64 dialect.
    BadBase64,
    /// A radar payload does not have eleven bytes.
    BadRadarLength,
}

} // verus!
