use vstd::prelude::*;

use crate::ipc::IPCCommand;

verus! {

/// Accepts requests from other invocations of the program on the IPC socket.
pub struct IPCServer;

/// What happened on one client connection since the last step.
#[derive(Debug, Clone, Copy, PartialEq, Eq, Structural)]
pub enum ClientEvent {
    /// A line arrived and holds this command.
    Received(IPCCommand),
    /// A line arrived that does not hold a command.
    Malformed,
    /// Reading the next line failed.
    ReadFailed,
    /// The client closed the connection.
    EndOfStream,
    /// The last command could not be handed on to the window.
    ForwardFailed,
}

/// Why a client connection ended in an error.
#[derive(Debug, Clone, Copy, PartialEq, Eq, Structural)]
pub enum ClientError {
    Read,
    Parse,
    Forward,
}

/// What the server does next on a client connection.
#[derive(Debug, Clone, Copy, PartialEq, Eq, Structural)]
pub enum ClientAction {
    /// Hand this command on to the window, then read the next line.
    Forward(IPCCommand),
    /// Close the connection; nothing went wrong.
    Finish,
    /// Close the connection and report the error.
    Fail(ClientError),
}

/// The server's answer to each event on a connection.
pub open spec fn client_action_for(event: ClientEvent) -> ClientAction {
    match event {
        ClientEvent::Received(cmd) => ClientAction::Forward(cmd),
        ClientEvent::Malformed => ClientAction::Fail(ClientError::Parse),
        ClientEvent::ReadFailed => ClientAction::Fail(ClientError::Read),
        ClientEvent::EndOfStream => ClientAction::Finish,
        ClientEvent::ForwardFailed => ClientAction::Fail(ClientError::Forward),
    }
}

impl IPCServer {
    /// Decides the next step on a client connection: every command that arrives is
    /// forwarded in order, the end of the stream closes the connection cleanly, and the
    /// first failure (an unreadable line, a line that holds no command, or a command that
    /// cannot be handed on) closes it with that error.
    pub fn on_client_event(event: ClientEvent) -> (a: ClientAction)
        ensures
            a == client_action_for(event),
    {
        match event {
            ClientEvent::Received(cmd) => ClientAction::Forward(cmd),
            ClientEvent::Malformed => ClientAction::Fail(ClientError::Parse),
            ClientEvent::ReadFailed => ClientAction::Fail(ClientError::Read),
            ClientEvent::EndOfStream => ClientAction::Finish,
            ClientEvent::ForwardFailed => ClientAction::Fail(ClientError::Forward),
        }
    }
}

/// A connection stays open exactly while commands arrive: only a received command is
/// answered by anything but closing it, and that answer forwards the very command.
pub proof fn lemma_only_commands_keep_connection(event: ClientEvent)
    ensures
        (client_action_for(event) is Forward) <==> (event is Received),
        event matches ClientEvent::Received(cmd) ==> client_action_for(event)
            == ClientAction::Forward(cmd),
{
}

/// What a connection whose events are `events` does, step by step: the commands it
/// forwards in order, and the action that ended it (`None` while it is still open).
pub open spec fn connection_run(events: Seq<ClientEvent>) -> (Seq<IPCCommand>, Option<ClientAction>)
    decreases events.len(),
{
    if events.len() == 0 {
        (Seq::empty(), None)
    } else {
        match client_action_for(events[0]) {
            ClientAction::Forward(cmd) => {
                let rest = connection_run(events.drop_first());
                (seq![cmd] + rest.0, rest.1)
            },
            end => (Seq::empty(), Some(end)),
        }
    }
}

/// On one connection whose first `k` events are received commands and whose next event,
/// if any, is not: exactly those `k` commands are forwarded, in the order they arrived;
/// the connection then ends with the answer to that next event, and it ends cleanly
/// exactly when that event is the end of the stream.
pub proof fn lemma_connection_forwards_until_first_failure(events: Seq<ClientEvent>, k: int)
    requires
        0 <= k <= events.len(),
        forall|i: int| 0 <= i < k ==> #[trigger] events[i] is Received,
        k < events.len() ==> !(events[k] is Received),
    ensures
        connection_run(events).0 == events.take(k).map_values(|e: ClientEvent| e->0),
        k < events.len() ==> connection_run(events).1 == Some(client_action_for(events[k])),
        k == events.len() ==> connection_run(events).1 is None,
        (connection_run(events).1 == Some(ClientAction::Finish)) <==> (k < events.len()
            && events[k] is EndOfStream),
    decreases k,
{
    if k == 0 {
        assert(events.take(0).map_values(|e: ClientEvent| e->0) =~= Seq::<IPCCommand>::empty());
    } else {
        let rest = events.drop_first();
        assert forall|i: int| 0 <= i < k - 1 implies #[trigger] rest[i] is Received by {
            assert(rest[i] == events[i + 1]);
        }
        assert(events[0] is Received);
        lemma_connection_forwards_until_first_failure(rest, k - 1);
        assert(events.take(k).map_values(|e: ClientEvent| e->0) =~= seq![events[0]->0]
            + rest.take(k - 1).map_values(|e: ClientEvent| e->0));
    }
}

} // verus!
