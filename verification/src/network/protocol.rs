//! Messages of the streaming socket.

use vstd::prelude::*;

verus! {

/// What a message carries.
#[derive(Debug, Clone, Copy, PartialEq, Eq, Structural)]
pub enum MessageType {
    Spectrum,
    Waveform,
    VuMeter,
    SystemStatus,
    Control,
}

/// A message with the time at which it was made, in milliseconds since the
/// Unix epoch.
#[derive(Debug)]
pub struct ProtocolMessage {
    pub timestamp: u64,
    pub message_type: MessageType,
    pub data: Vec<u8>,
}

impl ProtocolMessage {
    /// A message of `message_type` that carries `data`, made at `timestamp`.
    pub fn new(message_type: MessageType, data: Vec<u8>, timestamp: u64) -> (message: Self)
        ensures
            message.timestamp == timestamp,
            message.message_type == message_type,
            message.data == data,
    {
        ProtocolMessage { timestamp, message_type, data }
    }
}

} // verus!
