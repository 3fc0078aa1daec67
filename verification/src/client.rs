use vstd::prelude::*;

use crate::channel::{
    after_receiving, answers_until_empty, channel_send, channel_try_recv, open_channel,
    LoggedReceiver, LoggedSender,
};
use crate::error::{ends_connection, Error};
use crate::message::{
    status_after_update, status_after_updates, CtoTMessage, EthosClientUpdate, StoCMessage,
};
use crate::status::EthosClientStatus;
use crate::thread::{client_in_step, ClientThread};

verus! {

broadcast use {crate::channel::values_of_push, crate::channel::received_values};

/// Reservation size for elements of `update_vec`.
const UPDATE_VEC_RESERVE: usize = 100;

/// Reservation size for elements of `message_vec`.
const MESSAGE_VEC_RESERVE: usize = 100;

/// Longest wait, in microseconds, for the thread of a client that goes away
/// to end.
pub const DROP_WAIT_MICROS: u64 = 100_000;

/// What a client that goes away, and asked its thread to end, does next.
#[derive(Debug, PartialEq, Eq, Clone, Copy, Structural)]
pub enum JoinAction {
    /// The thread has finished: join it.
    Join,
    /// Look again whether the thread has finished.
    Poll,
    /// The thread took too long: leave it.
    GiveUp,
}

/// Decides on the thread of a client that goes away, given whether it has
/// finished and how long the client has waited for it (in microseconds): a
/// finished thread is joined; the client waits at most `DROP_WAIT_MICROS`.
pub fn join_step(finished: bool, waited_micros: u64) -> (action: JoinAction)
    ensures
        action == if finished {
            JoinAction::Join
        } else if waited_micros > DROP_WAIT_MICROS {
            JoinAction::GiveUp
        } else {
            JoinAction::Poll
        },
{
    if finished {
        JoinAction::Join
    } else if waited_micros > DROP_WAIT_MICROS {
        JoinAction::GiveUp
    } else {
        JoinAction::Poll
    }
}

/// Thread communication channels of an `EthosClient`.
#[verifier::reject_recursive_types(C)]
#[verifier::reject_recursive_types(S)]
#[verifier::reject_recursive_types(E)]
struct EthosClientChannel<C, S, E> {
    /// Sender of messages to the thread.
    sdr_ctot: LoggedSender<CtoTMessage<C>>,
    /// Receiver of updates from the thread.
    rcv_ttoc: LoggedReceiver<EthosClientUpdate<E>>,
    /// Receiver of messages from the server.
    rcv_stoc: LoggedReceiver<StoCMessage<S>>,
}

/// Client that communicates with an ethos server through a communication
/// thread. `C` is the type of a message for the server, `S` that of a message
/// from the server, `E` the error type of the message codec.
///
/// The client never waits: `connect`, `close` and `send` hand a command to the
/// thread, whose answers come back as `EthosClientUpdate` through `update` and
/// `update_vec`, and whose messages from the server come back through
/// `message` and `message_vec`.
#[verifier::reject_recursive_types(C)]
#[verifier::reject_recursive_types(S)]
#[verifier::reject_recursive_types(E)]
pub struct EthosClient<C, S, E> {
    /// Thread communication channels.
    channels: EthosClientChannel<C, S, E>,
    /// Status of the client.
    status: EthosClientStatus,
    /// Updates gathered by the last call of `update_vec`.
    update_vec: Vec<EthosClientUpdate<E>>,
    /// Server messages gathered by the last call of `message_vec`.
    message_vec: Vec<S>,
}

/// What can be known of an `EthosClient`.
pub struct ClientState<C, S, E> {
    /// The status of the client.
    pub status: EthosClientStatus,
    /// The labels of its channels: the one for commands, the one for updates
    /// and the one for server messages.
    pub channels: (int, int, int),
    /// Every command handed to the thread's channel, in order.
    pub commands: Seq<CtoTMessage<C>>,
    /// How many of those commands the channel refused (the thread was gone).
    pub command_refusals: nat,
    /// Every answer of the thread's update channel, in order (`None`:
    /// nothing waited).
    pub update_answers: Seq<Option<EthosClientUpdate<E>>>,
    /// Every update taken from the thread's update channel, in order.
    pub received_updates: Seq<EthosClientUpdate<E>>,
    /// Every answer of the thread's message channel, in order (`None`:
    /// nothing waited).
    pub message_answers: Seq<Option<StoCMessage<S>>>,
    /// Every server message taken from the thread's message channel, in order.
    pub received_messages: Seq<StoCMessage<S>>,
    /// The updates gathered by the last call of `update_vec`.
    pub updates: Seq<EthosClientUpdate<E>>,
    /// The server messages gathered by the last call of `message_vec`.
    pub messages: Seq<S>,
}

impl<C, S, E> View for EthosClient<C, S, E> {
    type V = ClientState<C, S, E>;

    closed spec fn view(&self) -> ClientState<C, S, E> {
        ClientState {
            status: self.status,
            channels: (
                self.channels.sdr_ctot@.label,
                self.channels.rcv_ttoc@.label,
                self.channels.rcv_stoc@.label,
            ),
            commands: self.channels.sdr_ctot@.sent,
            command_refusals: self.channels.sdr_ctot@.refusals,
            received_updates: self.channels.rcv_ttoc@.received,
            update_answers: self.channels.rcv_ttoc@.answers,
            received_messages: self.channels.rcv_stoc@.received,
            message_answers: self.channels.rcv_stoc@.answers,
            updates: self.update_vec@,
            messages: self.message_vec@,
        }
    }
}

/// The client went from `before` to `after` by handing `command` to the
/// thread's channel: the channel refused it (the thread is gone) or not, and
/// refuses every command after its first refusal. Nothing else changes but
/// for the status.
pub open spec fn hands_command<C, S, E>(
    before: ClientState<C, S, E>,
    after: ClientState<C, S, E>,
    command: CtoTMessage<C>,
) -> bool {
    &&& after.channels == before.channels
    &&& after.commands == before.commands.push(command)
    &&& before.command_refusals <= after.command_refusals <= before.command_refusals + 1
    &&& (before.command_refusals > 0 ==> after.command_refusals > before.command_refusals)
    &&& after.update_answers == before.update_answers
    &&& after.received_updates == before.received_updates
    &&& after.message_answers == before.message_answers
    &&& after.received_messages == before.received_messages
    &&& after.updates == before.updates
    &&& after.messages == before.messages
}

/// The channel to the thread refused a command between `before` and `after`.
pub open spec fn command_refused<C, S, E>(before: ClientState<C, S, E>, after: ClientState<C, S, E>) -> bool {
    after.command_refusals > before.command_refusals
}

/// The client that `update` leaves when its update channel gave `answer`.
pub open spec fn after_update<C, S, E>(
    client: ClientState<C, S, E>,
    answer: Option<EthosClientUpdate<E>>,
) -> ClientState<C, S, E> {
    ClientState {
        status: match answer {
            Some(update) => status_after_update(client.status, update),
            None => client.status,
        },
        update_answers: client.update_answers.push(answer),
        received_updates: after_receiving(client.received_updates, answer),
        ..client
    }
}

/// The client that calls of `update` leave, one after the other, when the
/// update channel gave `answers`.
pub open spec fn after_updates<C, S, E>(
    client: ClientState<C, S, E>,
    answers: Seq<Option<EthosClientUpdate<E>>>,
) -> ClientState<C, S, E>
    decreases answers.len(),
{
    if answers.len() == 0 {
        client
    } else {
        after_update(after_updates(client, answers.drop_last()), answers.last())
    }
}

/// Calling `update` until it answers `None`, when the channel gives
/// `updates` and then nothing, leaves the client with the status that follows
/// those updates in turn, and with them received in order: what `update_vec`
/// does in one call.
pub proof fn updates_one_at_a_time<C, S, E>(
    client: ClientState<C, S, E>,
    updates: Seq<EthosClientUpdate<E>>,
)
    ensures
        after_updates(client, answers_until_empty(updates)) == (ClientState {
            status: status_after_updates(client.status, updates),
            update_answers: client.update_answers + answers_until_empty(updates),
            received_updates: client.received_updates + updates,
            ..client
        }),
{
    let taken = updates.map_values(|update: EthosClientUpdate<E>| Some(update));
    updates_taken_one_at_a_time(client, updates);
    assert(answers_until_empty(updates).drop_last() == taken);
    assert(client.update_answers + taken.push(None) =~= client.update_answers + answers_until_empty(
        updates,
    ));
}

/// Calls of `update` that each take one of `updates`.
proof fn updates_taken_one_at_a_time<C, S, E>(
    client: ClientState<C, S, E>,
    updates: Seq<EthosClientUpdate<E>>,
)
    ensures
        after_updates(client, updates.map_values(|update: EthosClientUpdate<E>| Some(update))) == (
        ClientState {
            status: status_after_updates(client.status, updates),
            update_answers: client.update_answers + updates.map_values(
                |update: EthosClientUpdate<E>| Some(update),
            ),
            received_updates: client.received_updates + updates,
            ..client
        }),
    decreases updates.len(),
{
    let taken = updates.map_values(|update: EthosClientUpdate<E>| Some(update));
    if updates.len() == 0 {
        assert(client.update_answers + taken =~= client.update_answers);
        assert(client.received_updates + updates =~= client.received_updates);
    } else {
        let rest = updates.drop_last();
        updates_taken_one_at_a_time(client, rest);
        let rest_taken = rest.map_values(|update: EthosClientUpdate<E>| Some(update));
        assert(taken.drop_last() =~= rest_taken);
        assert(client.update_answers + rest_taken.push(Some(updates.last())) =~= client.update_answers
            + taken);
        assert(client.received_updates + rest.push(updates.last()) =~= client.received_updates
            + updates);
        assert(rest.push(updates.last()) =~= updates);
    }
}

/// The server messages `messages`, as they come through the message channel.
pub open spec fn as_received<S>(messages: Seq<S>) -> Seq<StoCMessage<S>> {
    messages.map_values(|message: S| StoCMessage::Message(message))
}

impl<C, S, E> EthosClient<C, S, E> {
    /// Create a new `Disconnected` client together with its communication
    /// thread, which sends client messages of at most `max_client_message_size`
    /// bytes. The thread is to be run by the caller.
    pub fn new(max_client_message_size: usize) -> (pair: (EthosClient<C, S, E>, ClientThread<C, S, E>))
        ensures
            pair.0@.status == EthosClientStatus::Disconnected,
            pair.0@.commands == Seq::<CtoTMessage<C>>::empty(),
            pair.0@.command_refusals == 0,
            pair.0@.update_answers == Seq::<Option<EthosClientUpdate<E>>>::empty(),
            pair.0@.received_updates == Seq::<EthosClientUpdate<E>>::empty(),
            pair.0@.message_answers == Seq::<Option<StoCMessage<S>>>::empty(),
            pair.0@.received_messages == Seq::<StoCMessage<S>>::empty(),
            pair.0@.updates == Seq::<EthosClientUpdate<E>>::empty(),
            pair.0@.messages == Seq::<S>::empty(),
            pair.0@.channels == pair.1@.channels,
            pair.1@.status == EthosClientStatus::Disconnected,
            pair.1@.incoming_size is None,
            pair.1@.max_message_size == max_client_message_size,
            pair.1@.commands == Seq::<CtoTMessage<C>>::empty(),
            pair.1@.updates == Seq::<EthosClientUpdate<E>>::empty(),
            pair.1@.update_refusals == 0,
            pair.1@.messages == Seq::<StoCMessage<S>>::empty(),
            pair.1@.message_refusals == 0,
            client_in_step(pair.1@),
    {
        let mut update_vec: Vec<EthosClientUpdate<E>> = Vec::new();
        let mut message_vec: Vec<S> = Vec::new();
        update_vec.reserve(UPDATE_VEC_RESERVE);
        message_vec.reserve(MESSAGE_VEC_RESERVE);

        let (sdr_ctot, rcv_ctot) = open_channel::<CtoTMessage<C>>();
        let (sdr_ttoc, rcv_ttoc) = open_channel::<EthosClientUpdate<E>>();
        let (sdr_stoc, rcv_stoc) = open_channel::<StoCMessage<S>>();
        let channels = EthosClientChannel { sdr_ctot, rcv_ttoc, rcv_stoc };

        let thread = ClientThread::new(rcv_ctot, sdr_ttoc, sdr_stoc, max_client_message_size);
        let client = EthosClient {
            channels,
            status: EthosClientStatus::Disconnected,
            update_vec,
            message_vec,
        };
        (client, thread)
    }

    /// Hand a command to the thread; `false` when the thread is gone.
    fn send_command(&mut self, command: CtoTMessage<C>) -> (accepted: bool)
        ensures
            hands_command(old(self)@, final(self)@, command),
            accepted == !command_refused(old(self)@, final(self)@),
            final(self)@.status == old(self)@.status,
    {
        channel_send(&mut self.channels.sdr_ctot, command)
    }

    /// Connect the client to a server via a connection string `host:port`.
    ///
    /// Only a disconnected client connects: it becomes `Connecting` and asks
    /// its thread to open the connection, whose outcome comes back as an
    /// `EthosClientUpdate`. A client that is not disconnected answers
    /// `ClientAlreadyConnected`; a client whose thread is gone answers
    /// `ClientChannelDown` and stays disconnected.
    pub fn connect(&mut self, connect_string: String) -> (r: Result<(), Error<E>>)
        ensures
            old(self)@.status == EthosClientStatus::Disconnected ==> {
                &&& hands_command(old(self)@, final(self)@, CtoTMessage::OpenConnection(connect_string))
                &&& r == if command_refused(old(self)@, final(self)@) {
                    Err::<(), Error<E>>(Error::ClientChannelDown)
                } else {
                    Ok(())
                }
                &&& final(self)@.status == if command_refused(old(self)@, final(self)@) {
                    EthosClientStatus::Disconnected
                } else {
                    EthosClientStatus::Connecting
                }
            },
            old(self)@.status != EthosClientStatus::Disconnected ==> {
                &&& r == Err::<(), Error<E>>(Error::ClientAlreadyConnected)
                &&& final(self)@ == old(self)@
            },
    {
        match self.status {
            EthosClientStatus::Disconnected => {
                self.status = EthosClientStatus::Connecting;
                if self.send_command(CtoTMessage::OpenConnection(connect_string)) {
                    Ok(())
                } else {
                    self.status = EthosClientStatus::Disconnected;
                    Err(Error::ClientChannelDown)
                }
            },
            _ => Err(Error::ClientAlreadyConnected),
        }
    }

    /// Close the connection to the server.
    ///
    /// Only a connected client closes: it asks its thread to close, whose
    /// outcome comes back as an `EthosClientUpdate`, and answers
    /// `SendClientMessageFailed` if its thread is gone. Any other client
    /// answers `ClientDisconnected`. The status does not change.
    pub fn close(&mut self) -> (r: Result<(), Error<E>>)
        ensures
            old(self)@.status == EthosClientStatus::Connected ==> {
                &&& hands_command(old(self)@, final(self)@, CtoTMessage::CloseConnection)
                &&& r == if command_refused(old(self)@, final(self)@) {
                    Err::<(), Error<E>>(Error::SendClientMessageFailed)
                } else {
                    Ok(())
                }
                &&& final(self)@.status == old(self)@.status
            },
            old(self)@.status != EthosClientStatus::Connected ==> {
                &&& r == Err::<(), Error<E>>(Error::ClientDisconnected)
                &&& final(self)@ == old(self)@
            },
    {
        match self.status {
            EthosClientStatus::Connected => {
                if self.send_command(CtoTMessage::CloseConnection) {
                    Ok(())
                } else {
                    Err(Error::SendClientMessageFailed)
                }
            },
            _ => Err(Error::ClientDisconnected),
        }
    }

    /// Receive all waiting updates from the thread, in order, in a vector:
    /// updates are taken until the channel has none; the updates of the
    /// previous call are dropped. The status of the client follows each of
    /// them in turn.
    pub fn update_vec(&mut self) -> (r: &Vec<EthosClientUpdate<E>>)
        ensures
            r@ == final(self)@.updates,
            final(self)@ == (ClientState {
                updates: r@,
                ..after_updates(old(self)@, answers_until_empty(r@))
            }),
            final(self)@.update_answers == old(self)@.update_answers + answers_until_empty(r@),
            final(self)@.received_updates == old(self)@.received_updates + r@,
            final(self)@.status == status_after_updates(old(self)@.status, r@),
            final(self)@.channels == old(self)@.channels,
            final(self)@.commands == old(self)@.commands,
            final(self)@.command_refusals == old(self)@.command_refusals,
            final(self)@.message_answers == old(self)@.message_answers,
            final(self)@.received_messages == old(self)@.received_messages,
            final(self)@.messages == old(self)@.messages,
    {
        self.update_vec.clear();
        loop
            invariant_except_break
                self@.update_answers == old(self)@.update_answers + self.update_vec@.map_values(
                    |update: EthosClientUpdate<E>| Some(update),
                ),
            invariant
                self@.status == status_after_updates(old(self)@.status, self.update_vec@),
                self@.received_updates == old(self)@.received_updates + self.update_vec@,
                self@.channels == old(self)@.channels,
                self@.commands == old(self)@.commands,
                self@.command_refusals == old(self)@.command_refusals,
                self@.message_answers == old(self)@.message_answers,
                self@.received_messages == old(self)@.received_messages,
                self.message_vec@ == old(self)@.messages,
            ensures
                self@.update_answers == old(self)@.update_answers + answers_until_empty(
                    self.update_vec@,
                ),
            decreases usize::MAX - self.update_vec.len(),
        {
            let ghost before = self.update_vec@;
            let ghost received = self@.received_updates;
            let ghost answers = self@.update_answers;
            match self.update() {
                Some(update) => {
                    self.update_vec.push(update);
                    assert(self.update_vec@.drop_last() == before);
                    assert(received.push(update) =~= old(self)@.received_updates + self.update_vec@);
                    assert(answers.push(Some(update)) =~= old(self)@.update_answers
                        + self.update_vec@.map_values(|update: EthosClientUpdate<E>| Some(update)));
                },
                None => {
                    assert(answers.push(None) =~= old(self)@.update_answers + answers_until_empty(
                        self.update_vec@,
                    ));
                    break;
                },
            }
        }
        proof {
            updates_one_at_a_time(old(self)@, self.update_vec@);
        }
        &self.update_vec
    }

    /// Receive one update from the thread, if one waits, as `handle_update`
    /// says. The status of the client follows it. Whether an update waits is
    /// up to the thread.
    pub fn update(&mut self) -> (r: Option<EthosClientUpdate<E>>)
        ensures
            final(self)@ == after_update(old(self)@, r),
            final(self)@.update_answers == old(self)@.update_answers.push(r),
            final(self)@.received_updates == after_receiving(old(self)@.received_updates, r),
            r is None ==> final(self)@.status == old(self)@.status,
            r matches Some(update) ==> final(self)@.status == status_after_update(old(self)@.status, update),
            final(self)@.channels == old(self)@.channels,
            final(self)@.commands == old(self)@.commands,
            final(self)@.command_refusals == old(self)@.command_refusals,
            final(self)@.message_answers == old(self)@.message_answers,
            final(self)@.received_messages == old(self)@.received_messages,
            final(self)@.updates == old(self)@.updates,
            final(self)@.messages == old(self)@.messages,
    {
        let received = channel_try_recv(&mut self.channels.rcv_ttoc);
        self.handle_update(received)
    }

    /// Take up what the thread's update channel gave (`None`: nothing waits,
    /// or the thread is gone): an update is handed back, and the status of the
    /// client follows it.
    pub fn handle_update(&mut self, received: Option<EthosClientUpdate<E>>) -> (r: Option<EthosClientUpdate<E>>)
        ensures
            r == received,
            r is None ==> final(self)@ == old(self)@,
            r matches Some(update) ==> final(self)@ == (ClientState {
                status: status_after_update(old(self)@.status, update),
                ..old(self)@
            }),
    {
        match received {
            Some(EthosClientUpdate::Error(err)) => self.handle_update_error(err),
            Some(EthosClientUpdate::StatusChanged(status)) => self.handle_update_status_changed(status),
            None => None,
        }
    }

    /// Handle an error update: a connecting client that learns that no
    /// connection came about (`ends_connection`) is `Disconnected`, so that it
    /// can connect again; any other client keeps its status, since it is
    /// disconnected only when told so.
    pub fn handle_update_error(&mut self, err: Error<E>) -> (r: Option<EthosClientUpdate<E>>)
        ensures
            final(self)@ == (ClientState {
                status: if ends_connection(err) && old(self)@.status == EthosClientStatus::Connecting {
                    EthosClientStatus::Disconnected
                } else {
                    old(self)@.status
                },
                ..old(self)@
            }),
            r == Some(EthosClientUpdate::Error(err)),
    {
        match &err {
            Error::ClientDisconnected
            | Error::InvalidConnectionString
            | Error::UnhandledIOError(_)
            | Error::ServerDown => {
                match self.status {
                    EthosClientStatus::Connecting => {
                        self.status = EthosClientStatus::Disconnected;
                    },
                    _ => {},
                }
            },
            _ => {},
        }
        Some(EthosClientUpdate::Error(err))
    }

    /// Handle a status change update: the client takes on the new status.
    pub fn handle_update_status_changed(&mut self, new_status: EthosClientStatus) -> (r: Option<
        EthosClientUpdate<E>,
    >)
        ensures
            final(self)@ == (ClientState { status: new_status, ..old(self)@ }),
            r == Some(EthosClientUpdate::<E>::StatusChanged(new_status)),
    {
        self.status = new_status;
        Some(EthosClientUpdate::StatusChanged(new_status))
    }

    /// Send a message to the server.
    ///
    /// Only a connected client sends: it hands the message to its thread and
    /// answers `SendClientMessageFailed` if its thread is gone. Any other
    /// client answers `ClientDisconnected`. The status does not change.
    pub fn send(&mut self, message: C) -> (r: Result<(), Error<E>>)
        ensures
            old(self)@.status == EthosClientStatus::Connected ==> {
                &&& hands_command(old(self)@, final(self)@, CtoTMessage::SendMessage(message))
                &&& r == if command_refused(old(self)@, final(self)@) {
                    Err::<(), Error<E>>(Error::SendClientMessageFailed)
                } else {
                    Ok(())
                }
                &&& final(self)@.status == old(self)@.status
            },
            old(self)@.status != EthosClientStatus::Connected ==> {
                &&& r == Err::<(), Error<E>>(Error::ClientDisconnected)
                &&& final(self)@ == old(self)@
            },
    {
        match self.status {
            EthosClientStatus::Connected => {
                if self.send_command(CtoTMessage::SendMessage(message)) {
                    Ok(())
                } else {
                    Err(Error::SendClientMessageFailed)
                }
            },
            _ => Err(Error::ClientDisconnected),
        }
    }

    /// Receive all waiting server messages, in order, in a vector: messages
    /// are taken until the channel has none; the messages of the previous
    /// call are dropped. Only a connected client
    /// receives; any other answers `ClientDisconnected` and takes nothing.
    pub fn message_vec(&mut self) -> (r: Result<&Vec<S>, Error<E>>)
        ensures
            old(self)@.status == EthosClientStatus::Connected ==> {
                &&& r matches Ok(messages)
                &&& messages@ == final(self)@.messages
                &&& final(self)@.message_answers == old(self)@.message_answers + answers_until_empty(
                    as_received(messages@),
                )
                &&& final(self)@.received_messages == old(self)@.received_messages + as_received(
                    messages@,
                )
                &&& final(self)@.update_answers == old(self)@.update_answers
                &&& final(self)@.status == old(self)@.status
                &&& final(self)@.channels == old(self)@.channels
                &&& final(self)@.commands == old(self)@.commands
                &&& final(self)@.command_refusals == old(self)@.command_refusals
                &&& final(self)@.received_updates == old(self)@.received_updates
                &&& final(self)@.updates == old(self)@.updates
            },
            old(self)@.status != EthosClientStatus::Connected ==> {
                &&& r matches Err(err) && err == Error::<E>::ClientDisconnected
                &&& final(self)@ == old(self)@
            },
    {
        match self.status {
            EthosClientStatus::Connected => {
                self.message_vec.clear();
                loop
                    invariant_except_break
                        self@.message_answers == old(self)@.message_answers + as_received(
                            self.message_vec@,
                        ).map_values(|message: StoCMessage<S>| Some(message)),
                    invariant
                        self@.received_messages == old(self)@.received_messages + as_received(
                            self.message_vec@,
                        ),
                        self@.status == old(self)@.status,
                        self@.channels == old(self)@.channels,
                        self@.commands == old(self)@.commands,
                        self@.command_refusals == old(self)@.command_refusals,
                        self@.update_answers == old(self)@.update_answers,
                        self@.received_updates == old(self)@.received_updates,
                        self.update_vec@ == old(self)@.updates,
                    ensures
                        self@.message_answers == old(self)@.message_answers + answers_until_empty(
                            as_received(self.message_vec@),
                        ),
                    decreases usize::MAX - self.message_vec.len(),
                {
                    let ghost before = self.message_vec@;
                    let ghost received = self@.received_messages;
                    let ghost answers = self@.message_answers;
                    match channel_try_recv(&mut self.channels.rcv_stoc) {
                        Some(StoCMessage::Message(server_message)) => {
                            self.message_vec.push(server_message);
                            assert(as_received(self.message_vec@) =~= as_received(before).push(
                                StoCMessage::Message(server_message),
                            ));
                            assert(received.push(StoCMessage::Message(server_message))
                                =~= old(self)@.received_messages + as_received(self.message_vec@));
                            assert(answers.push(Some(StoCMessage::Message(server_message)))
                                =~= old(self)@.message_answers + as_received(self.message_vec@).map_values(
                                |message: StoCMessage<S>| Some(message),
                            ));
                        },
                        None => {
                            assert(answers.push(None) =~= old(self)@.message_answers + answers_until_empty(
                                as_received(self.message_vec@),
                            ));
                            break;
                        },
                    }
                }
                Ok(&self.message_vec)
            },
            _ => Err(Error::ClientDisconnected),
        }
    }

    /// Receive one server message, if one waits. Only a connected client
    /// receives; any other answers `ClientDisconnected` and takes nothing.
    pub fn message(&mut self) -> (r: Result<Option<S>, Error<E>>)
        ensures
            r is Ok <==> old(self)@.status == EthosClientStatus::Connected,
            r matches Err(err) ==> err == Error::<E>::ClientDisconnected && final(self)@ == old(self)@,
            r matches Ok(None) ==> final(self)@ == (ClientState {
                message_answers: old(self)@.message_answers.push(None),
                ..old(self)@
            }),
            r matches Ok(Some(message)) ==> final(self)@ == (ClientState {
                message_answers: old(self)@.message_answers.push(Some(StoCMessage::Message(message))),
                received_messages: old(self)@.received_messages.push(StoCMessage::Message(message)),
                ..old(self)@
            }),
    {
        match self.status {
            EthosClientStatus::Connected => {
                match channel_try_recv(&mut self.channels.rcv_stoc) {
                    Some(StoCMessage::Message(server_message)) => Ok(Some(server_message)),
                    None => Ok(None),
                }
            },
            _ => Err(Error::ClientDisconnected),
        }
    }

    /// Get the current status of the client.
    pub fn status(&self) -> (status: EthosClientStatus)
        ensures
            status == self@.status,
    {
        self.status
    }

    /// Ask the thread to end, as a client does when it goes away; `false` when
    /// the thread is already gone.
    pub fn end_client(&mut self) -> (sent: bool)
        ensures
            hands_command(old(self)@, final(self)@, CtoTMessage::EndClient),
            sent == !command_refused(old(self)@, final(self)@),
            final(self)@.status == old(self)@.status,
    {
        self.send_command(CtoTMessage::EndClient)
    }
}

} // verus!
