//! The decisions of the client and of its thread, one by one, and the laws
//! that relate them, on concrete values.

use ethos_client::error::connect_error;
use ethos_client::{join_step, JoinAction, DROP_WAIT_MICROS};
use ethos_client::{
    ClientStep, ClientThread, ConnectionError, CtoTMessage, Error, EthosClient, EthosClientStatus,
    EthosClientUpdate, IoErrorKind, ServerRead, StreamStep, ThreadStep,
};

type Client = EthosClient<u32, u64, u8>;
type Thread = ClientThread<u32, u64, u8>;

const MAX: usize = 64;

fn pair() -> (Client, Thread) {
    Client::new(MAX)
}

fn drain(client: &mut Client) -> Vec<EthosClientUpdate<u8>> {
    client.update_vec().iter().map(|u| match u {
        EthosClientUpdate::Error(e) => EthosClientUpdate::Error(copy_error(e)),
        EthosClientUpdate::StatusChanged(s) => EthosClientUpdate::StatusChanged(*s),
    }).collect()
}

fn copy_error(e: &Error<u8>) -> Error<u8> {
    match e {
        Error::ClientDisconnected => Error::ClientDisconnected,
        Error::InvalidConnectionString => Error::InvalidConnectionString,
        Error::ClientAlreadyConnected => Error::ClientAlreadyConnected,
        Error::SendClientMessageFailed => Error::SendClientMessageFailed,
        Error::ServerDown => Error::ServerDown,
        Error::UnhandledIOError(k) => Error::UnhandledIOError(*k),
        Error::ClientMessageTooLarge => Error::ClientMessageTooLarge,
        Error::ClientMessagePackError(c) => Error::ClientMessagePackError(*c),
        Error::ClientMessageSendError(k) => Error::ClientMessageSendError(*k),
        Error::ServerMessageReadError(k) => Error::ServerMessageReadError(*k),
        Error::ServerMessageFromBytesError(c) => Error::ServerMessageFromBytesError(*c),
        Error::ClientChannelDown => Error::ClientChannelDown,
    }
}

/// A client and its thread, connected.
fn connected() -> (Client, Thread) {
    let (mut client, mut thread) = pair();
    client.connect("127.0.0.1:9000".to_string()).unwrap();
    assert_eq!(client.status(), EthosClientStatus::Connecting);
    assert_eq!(thread.execute_step(), ThreadStep::Connect("127.0.0.1:9000".to_string()));
    thread.handle_connection(Ok(()));
    assert_eq!(thread.status(), EthosClientStatus::Connected);
    assert_eq!(drain(&mut client), vec![EthosClientUpdate::StatusChanged(EthosClientStatus::Connected)]);
    assert_eq!(client.status(), EthosClientStatus::Connected);
    (client, thread)
}

#[test]
fn connection_failures_are_classified() {
    assert_eq!(connect_error::<u8>(IoErrorKind::InvalidInput), Error::InvalidConnectionString);
    for kind in [
        IoErrorKind::NotFound,
        IoErrorKind::PermissionDenied,
        IoErrorKind::ConnectionRefused,
        IoErrorKind::ConnectionReset,
        IoErrorKind::HostUnreachable,
        IoErrorKind::NetworkUnreachable,
        IoErrorKind::ConnectionAborted,
        IoErrorKind::NotConnected,
    ] {
        assert_eq!(connect_error::<u8>(kind), Error::ServerDown);
    }
    assert_eq!(connect_error::<u8>(IoErrorKind::TimedOut), Error::UnhandledIOError(IoErrorKind::TimedOut));
    assert_eq!(connect_error::<u8>(IoErrorKind::WouldBlock), Error::UnhandledIOError(IoErrorKind::WouldBlock));
}

#[test]
fn failed_setup_lets_the_client_connect_again() {
    let (mut client, mut thread) = pair();
    client.connect("127.0.0.1:9000".to_string()).unwrap();
    assert_eq!(thread.execute_step(), ThreadStep::Connect("127.0.0.1:9000".to_string()));
    thread.handle_connection(Err(ConnectionError::Setup(IoErrorKind::Unsupported)));
    assert_eq!(thread.status(), EthosClientStatus::Disconnected);
    assert_eq!(client.update(), Some(EthosClientUpdate::Error(Error::UnhandledIOError(IoErrorKind::Unsupported))));
    assert_eq!(client.status(), EthosClientStatus::Disconnected);
    assert_eq!(client.connect("127.0.0.1:9000".to_string()), Ok(()));
}

#[test]
fn connecting_client_refuses_a_second_connect() {
    let (mut client, _thread) = pair();
    client.connect("a:1".to_string()).unwrap();
    assert_eq!(client.connect("a:1".to_string()), Err(Error::ClientAlreadyConnected));
    assert_eq!(client.status(), EthosClientStatus::Connecting);
}

#[test]
fn update_errors_that_end_the_connection() {
    let (mut client, _thread) = connected();
    assert_eq!(client.handle_update_error(Error::ClientMessageTooLarge), Some(EthosClientUpdate::Error(Error::ClientMessageTooLarge)));
    assert_eq!(client.status(), EthosClientStatus::Connected);
    assert_eq!(client.handle_update_error(Error::ServerMessageReadError(IoErrorKind::BrokenPipe)), Some(EthosClientUpdate::Error(Error::ServerMessageReadError(IoErrorKind::BrokenPipe))));
    assert_eq!(client.status(), EthosClientStatus::Connected);
    // A connected client is disconnected only when told so.
    assert_eq!(client.handle_update_error(Error::ClientDisconnected), Some(EthosClientUpdate::Error(Error::ClientDisconnected)));
    assert_eq!(client.status(), EthosClientStatus::Connected);
    client.handle_update_error(Error::UnhandledIOError(IoErrorKind::Other));
    assert_eq!(client.status(), EthosClientStatus::Connected);
    // A connecting client learns that no connection came about.
    client.handle_update_status_changed(EthosClientStatus::Connecting);
    client.handle_update_error(Error::UnhandledIOError(IoErrorKind::Other));
    assert_eq!(client.status(), EthosClientStatus::Disconnected);
    client.handle_update_error(Error::ServerDown);
    assert_eq!(client.status(), EthosClientStatus::Disconnected);
    assert_eq!(client.handle_update_status_changed(EthosClientStatus::Disconnecting), Some(EthosClientUpdate::StatusChanged(EthosClientStatus::Disconnecting)));
    assert_eq!(client.status(), EthosClientStatus::Disconnecting);
}

#[test]
fn update_vec_follows_every_update_in_order() {
    let (mut client, mut thread) = connected();
    client.send(100).unwrap();
    client.close().unwrap();
    assert_eq!(thread.handle_client_message(), ClientStep::Send(100));
    assert!(!thread.handle_client_message_send(MAX + 1));
    assert_eq!(thread.handle_client_message(), ClientStep::Next);
    assert_eq!(thread.handle_client_message(), ClientStep::Done);
    thread.handle_stream_shutdown(Ok(()));
    assert_eq!(thread.execute_step(), ThreadStep::Continue);
    assert_eq!(
        drain(&mut client),
        vec![
            EthosClientUpdate::Error(Error::ClientMessageTooLarge),
            EthosClientUpdate::StatusChanged(EthosClientStatus::Disconnecting),
            EthosClientUpdate::StatusChanged(EthosClientStatus::Disconnected),
        ]
    );
    assert_eq!(client.status(), EthosClientStatus::Disconnected);
    assert!(client.update_vec().is_empty());
}

#[test]
fn message_within_the_limit_is_packed_and_written() {
    let (mut client, mut thread) = connected();
    assert!(thread.handle_client_message_send(MAX));
    assert_eq!(thread.handle_client_message_pack(Ok(MAX + 2)), Some(MAX + 2));
    thread.handle_client_message_write(Ok(()));
    assert_eq!(client.update(), None);
}

#[test]
fn packing_and_writing_failures_are_reported() {
    let (mut client, mut thread) = connected();
    assert_eq!(thread.handle_client_message_pack(Err(7)), None);
    thread.handle_client_message_write(Err(IoErrorKind::BrokenPipe));
    assert_eq!(client.update(), Some(EthosClientUpdate::Error(Error::ClientMessagePackError(7))));
    assert_eq!(client.update(), Some(EthosClientUpdate::Error(Error::ClientMessageSendError(IoErrorKind::BrokenPipe))));
    assert_eq!(client.status(), EthosClientStatus::Connected);
    assert_eq!(thread.status(), EthosClientStatus::Connected);
}

#[test]
fn second_connection_request_is_refused_by_a_connected_thread() {
    let (mut client, mut thread) = connected();
    assert_eq!(thread.handle_client_command(Some(CtoTMessage::OpenConnection("b:2".to_string()))), ClientStep::Next);
    assert_eq!(client.update(), Some(EthosClientUpdate::Error(Error::ClientAlreadyConnected)));
    assert_eq!(client.status(), EthosClientStatus::Connected);
}

#[test]
fn framing_reads_a_size_then_a_body() {
    let (mut client, mut thread) = connected();
    assert_eq!(thread.next_server_read(), ServerRead::Size);
    thread.handle_server_message_size(Err(IoErrorKind::WouldBlock));
    assert_eq!(thread.next_server_read(), ServerRead::Size);
    thread.handle_server_message_size(Ok(12));
    assert_eq!(thread.next_server_read(), ServerRead::Message(12));
    thread.handle_server_message_size(Ok(99));
    assert_eq!(thread.next_server_read(), ServerRead::Message(12));
    thread.handle_server_message_read(Err(IoErrorKind::WouldBlock));
    assert_eq!(thread.next_server_read(), ServerRead::Message(12));
    thread.handle_server_message_read(Ok(Ok(5)));
    assert_eq!(thread.next_server_read(), ServerRead::Size);
    assert_eq!(client.message(), Ok(Some(5)));
    assert_eq!(client.message(), Ok(None));
    assert_eq!(client.update(), None);
}

#[test]
fn failed_body_read_closes_the_connection() {
    let (mut client, mut thread) = connected();
    thread.handle_server_message_size(Ok(12));
    thread.handle_server_message_read(Err(IoErrorKind::ConnectionReset));
    assert_eq!(thread.status(), EthosClientStatus::Disconnecting);
    thread.handle_stream_shutdown(Err(IoErrorKind::NotConnected));
    assert_eq!(thread.execute_step(), ThreadStep::Continue);
    assert_eq!(
        drain(&mut client),
        vec![
            EthosClientUpdate::Error(Error::ServerMessageReadError(IoErrorKind::ConnectionReset)),
            EthosClientUpdate::StatusChanged(EthosClientStatus::Disconnecting),
            EthosClientUpdate::Error(Error::UnhandledIOError(IoErrorKind::NotConnected)),
            EthosClientUpdate::StatusChanged(EthosClientStatus::Disconnected),
        ]
    );
    assert_eq!(client.status(), EthosClientStatus::Disconnected);
    assert_eq!(thread.status(), EthosClientStatus::Disconnected);
}

#[test]
fn idle_thread_refuses_other_commands() {
    let (mut client, mut thread) = pair();
    assert_eq!(thread.handle_idle_command(Some(CtoTMessage::SendMessage(3))), ThreadStep::Continue);
    assert_eq!(thread.handle_idle_command(Some(CtoTMessage::CloseConnection)), ThreadStep::Continue);
    assert_eq!(client.update(), Some(EthosClientUpdate::Error(Error::ClientDisconnected)));
    assert_eq!(client.update(), Some(EthosClientUpdate::Error(Error::ClientDisconnected)));
    assert_eq!(client.status(), EthosClientStatus::Disconnected);
}

#[test]
fn end_request_ends_an_idle_thread() {
    let (mut client, mut thread) = pair();
    assert!(client.end_client());
    assert_eq!(thread.execute_step(), ThreadStep::Exit);
    assert_eq!(client.update(), Some(EthosClientUpdate::StatusChanged(EthosClientStatus::Ended)));
    assert_eq!(client.status(), EthosClientStatus::Ended);
}

#[test]
fn end_request_ends_a_connected_thread() {
    let (mut client, mut thread) = connected();
    assert!(client.end_client());
    assert_eq!(thread.handle_client_message(), ClientStep::Done);
    assert_eq!(thread.status(), EthosClientStatus::Ended);
    thread.handle_stream_shutdown(Ok(()));
    assert_eq!(thread.execute_step(), ThreadStep::Exit);
    assert_eq!(client.update(), Some(EthosClientUpdate::StatusChanged(EthosClientStatus::Ended)));
    assert_eq!(client.status(), EthosClientStatus::Ended);
}

#[test]
fn idle_thread_ends_when_the_client_is_gone() {
    let (client, mut thread) = pair();
    drop(client);
    assert_eq!(thread.execute_step(), ThreadStep::Exit);
    assert_eq!(thread.status(), EthosClientStatus::Ended);
}

#[test]
fn thread_ends_when_its_updates_cannot_be_delivered() {
    let (client, mut thread) = pair();
    drop(client);
    thread.handle_connection(Ok(()));
    assert_eq!(thread.status(), EthosClientStatus::Ended);
}

#[test]
fn client_without_thread_reports_its_channel_down() {
    let (mut client, thread) = pair();
    drop(thread);
    assert_eq!(client.connect("a:1".to_string()), Err(Error::ClientChannelDown));
    assert_eq!(client.status(), EthosClientStatus::Disconnected);
    assert!(!client.end_client());
    assert_eq!(client.update(), None);
}

#[test]
fn connected_client_without_thread_fails_to_send() {
    let (mut client, thread) = connected();
    drop(thread);
    assert_eq!(client.send(1), Err(Error::SendClientMessageFailed));
    assert_eq!(client.close(), Err(Error::SendClientMessageFailed));
    assert_eq!(client.status(), EthosClientStatus::Connected);
}

#[test]
fn disconnected_client_refuses_to_receive_messages() {
    let (mut client, _thread) = pair();
    assert_eq!(client.message_vec().err(), Some(Error::ClientDisconnected));
    assert_eq!(client.message(), Err(Error::ClientDisconnected));
}

#[test]
fn client_status_mirrors_thread_status() {
    let (mut client, mut thread) = pair();
    client.connect("127.0.0.1:9000".to_string()).unwrap();
    assert_eq!(thread.execute_step(), ThreadStep::Connect("127.0.0.1:9000".to_string()));
    thread.handle_connection(Ok(()));
    drain(&mut client);
    assert_eq!(client.status(), thread.status());

    thread.handle_server_message_size(Ok(4));
    thread.handle_server_message_read(Ok(Err(1)));
    drain(&mut client);
    assert_eq!(client.status(), thread.status());

    client.close().unwrap();
    assert_eq!(thread.handle_client_message(), ClientStep::Next);
    drain(&mut client);
    assert_eq!(client.status(), EthosClientStatus::Disconnecting);
    assert_eq!(client.status(), thread.status());

    thread.handle_stream_shutdown(Err(IoErrorKind::NotConnected));
    drain(&mut client);
    assert_eq!(client.status(), EthosClientStatus::Disconnecting);
    assert_eq!(client.status(), thread.status());

    assert_eq!(thread.execute_step(), ThreadStep::Continue);
    drain(&mut client);
    assert_eq!(client.status(), thread.status());
    assert_eq!(client.status(), EthosClientStatus::Disconnected);
}

#[test]
fn handle_update_hands_back_what_was_received() {
    let (mut client, _thread) = connected();
    assert_eq!(client.handle_update(None), None);
    assert_eq!(client.status(), EthosClientStatus::Connected);
    assert_eq!(
        client.handle_update(Some(EthosClientUpdate::Error(Error::ServerDown))),
        Some(EthosClientUpdate::Error(Error::ServerDown))
    );
    assert_eq!(client.status(), EthosClientStatus::Connected);
    assert_eq!(
        client.handle_update(Some(EthosClientUpdate::StatusChanged(EthosClientStatus::Disconnected))),
        Some(EthosClientUpdate::StatusChanged(EthosClientStatus::Disconnected))
    );
    assert_eq!(client.status(), EthosClientStatus::Disconnected);
}

#[test]
fn connection_is_served_while_connected_and_kept_after_errors() {
    let (mut client, mut thread) = connected();
    assert_eq!(thread.stream_step(), StreamStep::Serve);
    assert!(!thread.handle_client_message_send(MAX + 1));
    assert_eq!(thread.handle_client_message_pack(Err(2)), None);
    thread.handle_client_message_write(Err(IoErrorKind::TimedOut));
    thread.handle_server_message_size(Ok(3));
    thread.handle_server_message_read(Ok(Err(4)));
    assert_eq!(thread.status(), EthosClientStatus::Connected);
    assert_eq!(thread.stream_step(), StreamStep::Serve);
    assert_eq!(drain(&mut client).len(), 4);
    assert_eq!(client.status(), EthosClientStatus::Connected);
    client.close().unwrap();
    assert_eq!(thread.handle_client_message(), ClientStep::Next);
    assert_eq!(thread.stream_step(), StreamStep::Shutdown);
}

#[test]
fn thread_without_client_stays_ended() {
    let (client, mut thread) = connected();
    drop(client);
    thread.handle_server_message_size(Err(IoErrorKind::ConnectionReset));
    assert_eq!(thread.status(), EthosClientStatus::Ended);
    assert_eq!(thread.stream_step(), StreamStep::Shutdown);
    thread.handle_stream_shutdown(Ok(()));
    assert_eq!(thread.execute_step(), ThreadStep::Exit);
}

#[test]
fn a_client_going_away_waits_a_while_for_its_thread() {
    assert_eq!(join_step(true, 0), JoinAction::Join);
    assert_eq!(join_step(true, DROP_WAIT_MICROS + 1), JoinAction::Join);
    assert_eq!(join_step(false, DROP_WAIT_MICROS), JoinAction::Poll);
    assert_eq!(join_step(false, DROP_WAIT_MICROS + 1), JoinAction::GiveUp);
}

#[test]
fn update_vec_takes_every_waiting_update() {
    let (mut client, mut thread) = pair();
    client.connect("x".to_string()).unwrap();
    assert_eq!(thread.execute_step(), ThreadStep::Connect("x".to_string()));
    thread.handle_connection(Ok(()));
    for _ in 0..3 {
        assert!(!thread.handle_client_message_send(MAX + 1));
    }
    assert_eq!(client.update_vec().len(), 4);
    assert!(client.update_vec().is_empty());
    assert_eq!(client.update(), None);
}
