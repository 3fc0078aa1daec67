use vstd::prelude::*;

use crate::error::{Error, IoErrorKind};
use crate::message::{
    status_after_update, status_after_updates, CtoTMessage, EthosClientUpdate, StoCMessage,
};
use crate::status::EthosClientStatus;
use crate::thread::{
    announced_in_order, body_read_step, client_command_step, connection_update, idle_step,
    last_announced, main_step, shutdown_step, size_read_step, ClientStep, ConnectionError, ThreadState, ThreadStep,
};

verus! {

/// The status that a client reaches from `status` through the updates of a
/// thread from position `from` on.
pub open spec fn status_after_updates_from<C, S, E>(
    status: EthosClientStatus,
    thread: ThreadState<C, S, E>,
    from: int,
) -> EthosClientStatus {
    status_after_updates(status, thread.updates.subrange(from, thread.updates.len() as int))
}

/// After every connection attempt the client learns whether it is connected:
/// a client that receives the update of a successful attempt is `Connected`;
/// a connecting client that receives the update of a failed attempt is
/// `Disconnected`, and so may connect again.
pub proof fn connection_attempt_settles_client<E>(
    status: EthosClientStatus,
    outcome: Result<(), ConnectionError>,
)
    ensures
        outcome is Ok ==> status_after_update(status, connection_update::<E>(outcome))
            == EthosClientStatus::Connected,
        outcome is Err && (status == EthosClientStatus::Connecting || status
            == EthosClientStatus::Disconnected) ==> status_after_update(
            status,
            connection_update::<E>(outcome),
        ) == EthosClientStatus::Disconnected,
{
}

/// The client takes on every status that the thread announces; it becomes
/// `Connected` only when the thread announces it, and a connected client
/// stops being connected only when the thread announces another status.
pub proof fn client_connects_only_when_told<E>(
    status: EthosClientStatus,
    update: EthosClientUpdate<E>,
    announced: EthosClientStatus,
)
    ensures
        status_after_update(status, EthosClientUpdate::<E>::StatusChanged(announced)) == announced,
        status != EthosClientStatus::Connected && status_after_update(status, update)
            == EthosClientStatus::Connected ==> update == EthosClientUpdate::<E>::StatusChanged(
            EthosClientStatus::Connected,
        ),
        status == EthosClientStatus::Connected && status_after_update(status, update)
            != EthosClientStatus::Connected ==> update is StatusChanged,
{
}

/// A thread whose connection stopped (it is connected, connecting or
/// disconnecting) becomes `Disconnected` at its next round, unless the client
/// is gone, and the last word that the client receives from it is
/// `Disconnected`: whatever the client had received before, it ends
/// `Disconnected`.
pub proof fn stopped_connection_disconnects_client<C, S, E>(
    before: ThreadState<C, S, E>,
    after: ThreadState<C, S, E>,
    step: ThreadStep,
    client_status: EthosClientStatus,
    from: int,
)
    requires
        before.status != EthosClientStatus::Ended,
        before.status != EthosClientStatus::Disconnected,
        main_step(before, after, step),
        0 <= from <= before.updates.len(),
    ensures
        step == ThreadStep::Continue,
        after.status == if after.update_refusals > before.update_refusals {
            EthosClientStatus::Ended
        } else {
            EthosClientStatus::Disconnected
        },
        status_after_updates_from(client_status, after, from) == EthosClientStatus::Disconnected,
{
    let received = after.updates.subrange(from, after.updates.len() as int);
    assert(received.last() == EthosClientUpdate::<E>::StatusChanged(EthosClientStatus::Disconnected));
}

/// A close request that a connected thread takes up makes it `Disconnecting`
/// and then, at its next round, `Disconnected` (unless the client is gone);
/// it announces both, and a client that receives them, whatever its status,
/// ends `Disconnected`.
pub proof fn close_request_disconnects<C, S, E>(
    connected: ThreadState<C, S, E>,
    closing: ThreadState<C, S, E>,
    closed: ThreadState<C, S, E>,
    client_step: ClientStep<C>,
    step: ThreadStep,
    client_status: EthosClientStatus,
)
    requires
        connected.status == EthosClientStatus::Connected,
        client_command_step(connected, Some(CtoTMessage::<C>::CloseConnection), closing, client_step),
        closing.status != EthosClientStatus::Ended,
        main_step(closing, closed, step),
    ensures
        closed.updates == connected.updates + seq![
            EthosClientUpdate::<E>::StatusChanged(EthosClientStatus::Disconnecting),
            EthosClientUpdate::<E>::StatusChanged(EthosClientStatus::Disconnected),
        ],
        closed.status == if closed.update_refusals > connected.update_refusals {
            EthosClientStatus::Ended
        } else {
            EthosClientStatus::Disconnected
        },
        status_after_updates_from(client_status, closed, connected.updates.len() as int)
            == EthosClientStatus::Disconnected,
{
    stopped_connection_disconnects_client(closing, closed, step, client_status, connected.updates.len() as int);
}

/// A connection that the server drops is noticed when the thread reads the
/// size of the next message: the thread reports the read error and closes the
/// connection, shuts it down (reporting a failure of that too) and, at its
/// next round, becomes `Disconnected` unless the client is gone. A client that
/// receives all of it, whatever its status, ends `Disconnected`.
pub proof fn lost_connection_disconnects_client<C, S, E>(
    connected: ThreadState<C, S, E>,
    kind: IoErrorKind,
    closing: ThreadState<C, S, E>,
    shutdown: Result<(), IoErrorKind>,
    shut: ThreadState<C, S, E>,
    closed: ThreadState<C, S, E>,
    step: ThreadStep,
    client_status: EthosClientStatus,
)
    requires
        connected.status == EthosClientStatus::Connected,
        connected.incoming_size is None,
        kind != IoErrorKind::WouldBlock,
        size_read_step(connected, Err(kind), closing),
        closing.status != EthosClientStatus::Ended,
        shutdown_step(closing, shutdown, shut),
        shut.status != EthosClientStatus::Ended,
        main_step(shut, closed, step),
    ensures
        closed.updates[connected.updates.len() as int] == EthosClientUpdate::<E>::Error(
            Error::ServerMessageReadError(kind),
        ),
        closed.updates[connected.updates.len() + 1int] == EthosClientUpdate::<E>::StatusChanged(
            EthosClientStatus::Disconnecting,
        ),
        closed.status == if closed.update_refusals > connected.update_refusals {
            EthosClientStatus::Ended
        } else {
            EthosClientStatus::Disconnected
        },
        status_after_updates_from(client_status, closed, connected.updates.len() as int)
            == EthosClientStatus::Disconnected,
{
    assert(closing.status == EthosClientStatus::Disconnecting);
    assert(shut.status == EthosClientStatus::Disconnecting);
    stopped_connection_disconnects_client(shut, closed, step, client_status, connected.updates.len() as int);
}

/// Announcements in order never announce `Connecting`, and nothing follows
/// the announcement of `Ended`: it is the thread's last word.
pub proof fn announcements_end_for_good<E>(updates: Seq<EthosClientUpdate<E>>, ended: int)
    requires
        announced_in_order(updates),
    ensures
        forall|i: int|
            0 <= i < updates.len() ==> updates[i] != EthosClientUpdate::<E>::StatusChanged(
                EthosClientStatus::Connecting,
            ),
        0 <= ended < updates.len() && updates[ended] == EthosClientUpdate::<E>::StatusChanged(
            EthosClientStatus::Ended,
        ) ==> ended == updates.len() - 1 && last_announced(updates) == EthosClientStatus::Ended,
    decreases updates.len(),
{
    if updates.len() > 0 {
        let rest = updates.drop_last();
        announcements_end_for_good(rest, ended);
        assert forall|i: int| 0 <= i < updates.len() implies updates[i]
            != EthosClientUpdate::<E>::StatusChanged(EthosClientStatus::Connecting) by {
            if i < rest.len() {
                assert(updates[i] == rest[i]);
            }
        }
        if 0 <= ended < rest.len() && updates[ended] == EthosClientUpdate::<E>::StatusChanged(
            EthosClientStatus::Ended,
        ) {
            assert(rest[ended] == updates[ended]);
            assert(last_announced(rest) == EthosClientStatus::Ended);
        }
    }
}

/// A thread without connection waits for its client: it connects to exactly
/// the string that the client sent, ends only when the client asked for it
/// (`EndClient`) or is gone, and, once the client is gone, does nothing but
/// end.
pub proof fn idle_thread_waits_for_its_client<C, S, E>(
    before: ThreadState<C, S, E>,
    after: ThreadState<C, S, E>,
    step: ThreadStep,
)
    requires
        before.status == EthosClientStatus::Disconnected,
        main_step(before, after, step),
    ensures
        step == ThreadStep::Exit ==> after.client_gone || after.commands == before.commands.push(
            CtoTMessage::<C>::EndClient,
        ),
        after.client_gone ==> step == ThreadStep::Exit && after.commands == before.commands,
        step matches ThreadStep::Connect(connect_string) ==> after.commands == before.commands.push(
            CtoTMessage::<C>::OpenConnection(connect_string),
        ) && !after.client_gone,
{
    let command = choose|command: Option<CtoTMessage<C>>|
        idle_step(#[trigger] before.waiting_for(command), command, after, step);
    assert(idle_step(before.waiting_for(command), command, after, step));
}

/// Reading the size of a server message, when no body is awaited, awaits a
/// body of exactly that size and tells the client nothing; a read that would
/// block changes nothing; any other failure is reported as that read error
/// and closes the connection (the thread is `Disconnecting`, unless the
/// client is gone).
pub proof fn size_read_awaits_that_size<C, S, E>(
    before: ThreadState<C, S, E>,
    read: Result<usize, IoErrorKind>,
    after: ThreadState<C, S, E>,
)
    requires
        before.incoming_size is None,
        size_read_step(before, read, after),
    ensures
        read matches Ok(size) ==> after.incoming_size == Some(size) && after.updates == before.updates
            && after.status == before.status && after.messages == before.messages,
        read == Err::<usize, IoErrorKind>(IoErrorKind::WouldBlock) ==> after == before,
        read is Err && read->Err_0 != IoErrorKind::WouldBlock ==> {
            &&& after.incoming_size is None
            &&& after.updates == before.updates + seq![
                EthosClientUpdate::<E>::Error(Error::ServerMessageReadError(read->Err_0)),
                EthosClientUpdate::<E>::StatusChanged(EthosClientStatus::Disconnecting),
            ]
            &&& after.status == if after.update_refusals > before.update_refusals {
                EthosClientStatus::Ended
            } else {
                EthosClientStatus::Disconnecting
            }
        },
{
}

/// Reading the body of a server message: a decoded message goes to the client
/// and the next size is awaited; a read that would block changes nothing; any
/// other failure (the server closed the connection, say) is reported as that
/// read error and closes the connection (the thread is `Disconnecting`,
/// unless the client is gone).
pub proof fn failed_body_read_closes_connection<C, S, E>(
    before: ThreadState<C, S, E>,
    read: Result<Result<S, E>, IoErrorKind>,
    after: ThreadState<C, S, E>,
)
    requires
        body_read_step(before, read, after),
    ensures
        read matches Ok(Ok(message)) ==> after.incoming_size is None && after.messages
            == before.messages.push(StoCMessage::Message(message)) && after.updates == before.updates,
        read == Err::<Result<S, E>, IoErrorKind>(IoErrorKind::WouldBlock) ==> after == before,
        read is Err && read->Err_0 != IoErrorKind::WouldBlock ==> {
            &&& after.updates == before.updates + seq![
                EthosClientUpdate::<E>::Error(Error::ServerMessageReadError(read->Err_0)),
                EthosClientUpdate::<E>::StatusChanged(EthosClientStatus::Disconnecting),
            ]
            &&& after.status == if after.update_refusals > before.update_refusals {
                EthosClientStatus::Ended
            } else {
                EthosClientStatus::Disconnecting
            }
            &&& after.messages == before.messages
        },
{
}

} // verus!
