//! Device lists and the streaming socket, as far as the core keeps state for them.

pub mod discovery;
pub mod output_manager;
pub mod protocol;
pub mod websocket;

pub use discovery::DeviceCapabilities;
pub use output_manager::{OutputDevice, OutputManager};
pub use protocol::{MessageType, ProtocolMessage};
pub use websocket::{WebSocketMessage, WebSocketServer};
