use vstd::prelude::*;

pub mod client;
pub mod server;

verus! {

/// A request sent to a running bridge over the local IPC socket.
#[derive(Debug, Clone, Copy, PartialEq, Eq, Structural)]
pub enum IPCCommand {
    Show,
    Hide,
    Toggle,
}

/// Path of the Unix socket on which the running bridge listens.
pub const IPC_SOCKET_PATH: &'static str = "/tmp/vrchat_chat_bridge.sock";

} // verus!
