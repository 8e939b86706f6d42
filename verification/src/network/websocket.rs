//! The state of the streaming socket server.

use crate::error::VortexError;
use crate::network::protocol::ProtocolMessage;
use vstd::prelude::*;

verus! {

pub type WebSocketMessage = ProtocolMessage;

/// Port and running flag of the server. The socket itself belongs to the host.
pub struct WebSocketServer {
    port: u16,
    running: bool,
}

impl WebSocketServer {
    pub closed spec fn spec_port(&self) -> u16 {
        self.port
    }

    pub closed spec fn spec_running(&self) -> bool {
        self.running
    }

    /// A server for `port` that is not running.
    pub fn new(port: u16) -> (server: Self)
        ensures
            server.spec_port() == port,
            !server.spec_running(),
    {
        WebSocketServer { port, running: false }
    }

    pub fn port(&self) -> (port: u16)
        ensures
            port == self.spec_port(),
    {
        self.port
    }

    /// Marks the server as running, whether or not it was.
    pub fn start(&mut self) -> (r: Result<(), VortexError>)
        ensures
            r is Ok,
            final(self).spec_running(),
            final(self).spec_port() == old(self).spec_port(),
    {
        self.running = true;
        Ok(())
    }

    /// Marks the server as stopped, whether or not it was running.
    pub fn stop(&mut self) -> (r: Result<(), VortexError>)
        ensures
            r is Ok,
            !final(self).spec_running(),
            final(self).spec_port() == old(self).spec_port(),
    {
        self.running = false;
        Ok(())
    }

    /// Hands `message` to every client. The core holds no clients: the call
    /// succeeds and changes nothing.
    pub fn broadcast(&self, message: &WebSocketMessage) -> (r: Result<(), VortexError>)
        ensures
            r is Ok,
    {
        Ok(())
    }

    pub fn is_running(&self) -> (running: bool)
        ensures
            running == self.spec_running(),
    {
        self.running
    }
}

} // verus!
