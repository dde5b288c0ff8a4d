use vrchat_chat_bridge::ipc::client::{IPCClient, REQUEST_TERMINATOR};
use vrchat_chat_bridge::ipc::server::{ClientAction, ClientError, ClientEvent, IPCServer};
use vrchat_chat_bridge::ipc::{IPCCommand, IPC_SOCKET_PATH};

#[test]
fn socket_path() {
    assert_eq!(IPC_SOCKET_PATH, "/tmp/vrchat_chat_bridge.sock");
}

#[test]
fn request_is_json_then_newline() {
    let bytes = IPCClient::frame_request("{\"type\":\"toggle\"}");
    assert_eq!(bytes, b"{\"type\":\"toggle\"}\n".to_vec());
    assert_eq!(REQUEST_TERMINATOR, b'\n');
}

#[test]
fn empty_request_is_one_newline() {
    assert_eq!(IPCClient::frame_request(""), vec![b'\n']);
}

#[test]
fn request_keeps_utf8_bytes() {
    let bytes = IPCClient::frame_request("é");
    assert_eq!(bytes, vec![0xc3, 0xa9, b'\n']);
}

#[test]
fn received_commands_are_forwarded() {
    for cmd in [IPCCommand::Show, IPCCommand::Hide, IPCCommand::Toggle] {
        assert_eq!(IPCServer::on_client_event(ClientEvent::Received(cmd)), ClientAction::Forward(cmd));
    }
}

#[test]
fn end_of_stream_finishes() {
    assert_eq!(IPCServer::on_client_event(ClientEvent::EndOfStream), ClientAction::Finish);
}

#[test]
fn failures_close_with_their_error() {
    assert_eq!(IPCServer::on_client_event(ClientEvent::Malformed), ClientAction::Fail(ClientError::Parse));
    assert_eq!(IPCServer::on_client_event(ClientEvent::ReadFailed), ClientAction::Fail(ClientError::Read));
    assert_eq!(
        IPCServer::on_client_event(ClientEvent::ForwardFailed),
        ClientAction::Fail(ClientError::Forward)
    );
}

#[test]
fn request_is_a_single_line() {
    let bytes = IPCClient::frame_request("{\"type\":\"hide\"}");
    assert_eq!(bytes.iter().filter(|b| **b == b'\n').count(), 1);
    assert_eq!(*bytes.last().unwrap(), b'\n');
    assert_eq!(std::str::from_utf8(&bytes[..bytes.len() - 1]).unwrap(), "{\"type\":\"hide\"}");
}

#[test]
fn connection_forwards_commands_until_first_failure() {
    let events = [
        ClientEvent::Received(IPCCommand::Show),
        ClientEvent::Received(IPCCommand::Toggle),
        ClientEvent::Malformed,
        ClientEvent::Received(IPCCommand::Hide),
    ];
    let mut forwarded = Vec::new();
    let mut end = None;
    for event in events {
        match IPCServer::on_client_event(event) {
            ClientAction::Forward(cmd) => forwarded.push(cmd),
            other => {
                end = Some(other);
                break;
            }
        }
    }
    assert_eq!(forwarded, vec![IPCCommand::Show, IPCCommand::Toggle]);
    assert_eq!(end, Some(ClientAction::Fail(ClientError::Parse)));
}
