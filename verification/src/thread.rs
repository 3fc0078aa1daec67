use vstd::prelude::*;

use crate::channel::{
    after_receiving, channel_recv, channel_send, channel_try_recv, LoggedReceiver, LoggedSender,
};
use crate::error::{connect_error, connect_failure, Error, IoErrorKind};
use crate::message::{
    status_after_update, status_after_updates, status_after_updates_push, CtoTMessage,
    EthosClientUpdate, StoCMessage,
};
use crate::status::EthosClientStatus;

verus! {

broadcast use {crate::channel::values_of_push, crate::channel::received_values};

/// How an attempt to open a connection failed.
#[derive(Debug, PartialEq, Eq, Clone, Copy, Structural)]
pub enum ConnectionError {
    /// The connection could not be opened.
    Connect(IoErrorKind),
    /// The connection opened, but could not be made non-blocking and without delay.
    Setup(IoErrorKind),
}

/// What the communication loop does after a step of the thread that has no connection.
#[derive(Debug, PartialEq, Eq)]
pub enum ThreadStep {
    /// Open a connection with this connection string, and hand the outcome to
    /// `ClientThread::handle_connection`.
    Connect(String),
    /// Take the next step.
    Continue,
    /// The thread has ended.
    Exit,
}

/// What the communication loop does after the thread took up a command of the
/// client while connected.
#[derive(Debug, PartialEq, Eq)]
pub enum ClientStep<C> {
    /// Hand the declared size of this message to
    /// `ClientThread::handle_client_message_send`.
    Send(C),
    /// Take up the next command.
    Next,
    /// No command waits, or the thread ends: turn to the server.
    Done,
}

/// What the communication loop does with an open connection.
#[derive(Debug, PartialEq, Eq, Clone, Copy, Structural)]
pub enum StreamStep {
    /// Serve it: the commands of the client, then the server.
    Serve,
    /// Shut it down and hand the outcome to `ClientThread::handle_stream_shutdown`.
    Shutdown,
}

/// What the thread reads next from the server.
#[derive(Debug, PartialEq, Eq, Clone, Copy, Structural)]
pub enum ServerRead {
    /// The size of the next message.
    Size,
    /// The body of the next message, of this many bytes.
    Message(usize),
}

/// Thread communication channels of a `ClientThread`.
#[verifier::reject_recursive_types(C)]
#[verifier::reject_recursive_types(S)]
#[verifier::reject_recursive_types(E)]
pub(crate) struct ClientThreadChannel<C, S, E> {
    rcv_ctot: LoggedReceiver<CtoTMessage<C>>,
    sdr_ttoc: LoggedSender<EthosClientUpdate<E>>,
    sdr_stoc: LoggedSender<StoCMessage<S>>,
}

/// The decisions of the communication thread of a client: what it makes of the
/// commands of the client, of the outcome of a connection attempt, and of what
/// it reads from the server. The input/output itself is done by its caller.
#[verifier::reject_recursive_types(C)]
#[verifier::reject_recursive_types(S)]
#[verifier::reject_recursive_types(E)]
pub struct ClientThread<C, S, E> {
    channels: ClientThreadChannel<C, S, E>,
    status: EthosClientStatus,
    inc_size: Option<usize>,
    max_message_size: usize,
}

/// What can be known of a `ClientThread`.
pub struct ThreadState<C, S, E> {
    /// The status of the thread.
    pub status: EthosClientStatus,
    /// The labels of its channels: the one for commands, the one for updates
    /// and the one for server messages.
    pub channels: (int, int, int),
    /// The size of the server message whose body is awaited, if its size was read.
    pub incoming_size: Option<usize>,
    /// The largest size of a client message that is sent to the server.
    pub max_message_size: usize,
    /// Every command taken from the client's channel, in order.
    pub commands: Seq<CtoTMessage<C>>,
    /// The client's channel hung up: the client is gone, and no command can
    /// come any more.
    pub client_gone: bool,
    /// Every update handed to the client's update channel, in order.
    pub updates: Seq<EthosClientUpdate<E>>,
    /// How many of those updates the channel refused (the client was gone).
    pub update_refusals: nat,
    /// Every server message handed to the client's message channel, in order.
    pub messages: Seq<StoCMessage<S>>,
    /// How many of those messages the channel refused (the client was gone).
    pub message_refusals: nat,
}

impl<C, S, E> View for ClientThread<C, S, E> {
    type V = ThreadState<C, S, E>;

    closed spec fn view(&self) -> ThreadState<C, S, E> {
        ThreadState {
            status: self.status,
            channels: (
                self.channels.rcv_ctot@.label,
                self.channels.sdr_ttoc@.label,
                self.channels.sdr_stoc@.label,
            ),
            incoming_size: self.inc_size,
            max_message_size: self.max_message_size,
            commands: self.channels.rcv_ctot@.received,
            client_gone: self.channels.rcv_ctot@.hung_up,
            updates: self.channels.sdr_ttoc@.sent,
            update_refusals: self.channels.sdr_ttoc@.refusals,
            messages: self.channels.sdr_stoc@.sent,
            message_refusals: self.channels.sdr_stoc@.refusals,
        }
    }
}

impl<C, S, E> ThreadState<C, S, E> {
    /// The same thread after taking `command` (if any) from the client's
    /// channel without waiting.
    pub open spec fn taking(self, command: Option<CtoTMessage<C>>) -> Self {
        ThreadState { commands: after_receiving(self.commands, command), ..self }
    }

    /// The same thread after waiting for a command of the client: `command`
    /// came, or (`None`) the client is gone.
    pub open spec fn waiting_for(self, command: Option<CtoTMessage<C>>) -> Self {
        ThreadState {
            commands: after_receiving(self.commands, command),
            client_gone: command is None,
            ..self
        }
    }
}

/// The thread went from `before` to `after` by handing `sent` to the client's
/// update channel, meaning to take on the status `intended`: it takes it on
/// unless the channel refused an update (the client is gone), in which case
/// it has ended. A channel refuses every update after its first refusal.
/// Nothing else changes, but for what waits from the server.
pub open spec fn hands_updates<C, S, E>(
    before: ThreadState<C, S, E>,
    after: ThreadState<C, S, E>,
    sent: Seq<EthosClientUpdate<E>>,
    intended: EthosClientStatus,
) -> bool {
    &&& after.channels == before.channels
    &&& after.updates == before.updates + sent
    &&& before.update_refusals <= after.update_refusals <= before.update_refusals + sent.len()
    &&& (before.update_refusals > 0 && sent.len() > 0 ==> after.update_refusals
        > before.update_refusals)
    &&& after.status == if after.update_refusals > before.update_refusals {
        EthosClientStatus::Ended
    } else {
        intended
    }
    &&& after.messages == before.messages
    &&& after.message_refusals == before.message_refusals
    &&& after.commands == before.commands
    &&& after.client_gone == before.client_gone
    &&& after.max_message_size == before.max_message_size
}

/// The status of a client that received every update of `thread`, in order.
pub open spec fn client_status_of<C, S, E>(thread: ThreadState<C, S, E>) -> EthosClientStatus {
    status_after_updates(EthosClientStatus::Disconnected, thread.updates)
}

/// A client that received every update of `thread` has the thread's status.
pub open spec fn client_in_step<C, S, E>(thread: ThreadState<C, S, E>) -> bool {
    client_status_of(thread) == thread.status
}

/// The status that `updates` last announced (`Disconnected` before any).
pub open spec fn last_announced<E>(updates: Seq<EthosClientUpdate<E>>) -> EthosClientStatus
    decreases updates.len(),
{
    if updates.len() == 0 {
        EthosClientStatus::Disconnected
    } else {
        match updates.last() {
            EthosClientUpdate::StatusChanged(status) => status,
            EthosClientUpdate::Error(_) => last_announced(updates.drop_last()),
        }
    }
}

/// The order in which a thread announces its statuses: from `Disconnected`
/// it connects or ends; from `Connected` it goes on to `Disconnecting` or
/// ends; from `Disconnecting` it goes on to `Disconnecting` again, to
/// `Disconnected` or ends. `Connecting` is never announced, and nothing
/// follows `Ended`.
pub open spec fn may_follow(last: EthosClientStatus, next: EthosClientStatus) -> bool {
    match last {
        EthosClientStatus::Disconnected => next == EthosClientStatus::Connected || next
            == EthosClientStatus::Ended,
        EthosClientStatus::Connected => next == EthosClientStatus::Disconnecting || next
            == EthosClientStatus::Ended,
        EthosClientStatus::Disconnecting => next == EthosClientStatus::Disconnecting || next
            == EthosClientStatus::Disconnected || next == EthosClientStatus::Ended,
        _ => false,
    }
}

/// Every status that `updates` announces may follow the one announced before
/// it, and nothing at all follows `Ended`.
pub open spec fn announced_in_order<E>(updates: Seq<EthosClientUpdate<E>>) -> bool
    decreases updates.len(),
{
    updates.len() == 0 || {
        &&& announced_in_order(updates.drop_last())
        &&& last_announced(updates.drop_last()) != EthosClientStatus::Ended
        &&& match updates.last() {
            EthosClientUpdate::StatusChanged(status) => may_follow(
                last_announced(updates.drop_last()),
                status,
            ),
            EthosClientUpdate::Error(_) => true,
        }
    }
}

/// A thread whose announcements came in order, that has not announced its
/// end, and whose status is the one it last announced, or `Ended` without
/// having announced it yet.
pub open spec fn announcing<C, S, E>(thread: ThreadState<C, S, E>) -> bool {
    &&& announced_in_order(thread.updates)
    &&& last_announced(thread.updates) != EthosClientStatus::Ended
    &&& last_announced(thread.updates) != EthosClientStatus::Connecting
    &&& (thread.status == EthosClientStatus::Ended || last_announced(thread.updates) == thread.status)
}

/// One more update keeps the announcements in order when the end was not
/// announced yet and its status (if it announces one) may follow the last one.
pub proof fn announcements_push<E>(updates: Seq<EthosClientUpdate<E>>, update: EthosClientUpdate<E>)
    ensures
        last_announced(updates.push(update)) == match update {
            EthosClientUpdate::StatusChanged(status) => status,
            EthosClientUpdate::Error(_) => last_announced(updates),
        },
        announced_in_order(updates.push(update)) == (announced_in_order(updates) && last_announced(
            updates,
        ) != EthosClientStatus::Ended && match update {
            EthosClientUpdate::StatusChanged(status) => may_follow(last_announced(updates), status),
            EthosClientUpdate::Error(_) => true,
        }),
{
    assert(updates.push(update).drop_last() == updates);
}

/// The update that reports the outcome of a connection attempt.
pub open spec fn connection_update<E>(outcome: Result<(), ConnectionError>) -> EthosClientUpdate<E> {
    match outcome {
        Ok(_) => EthosClientUpdate::StatusChanged(EthosClientStatus::Connected),
        Err(ConnectionError::Connect(kind)) => EthosClientUpdate::Error(connect_failure(kind)),
        Err(ConnectionError::Setup(kind)) => EthosClientUpdate::Error(Error::UnhandledIOError(kind)),
    }
}

/// Handing `s1` and then `s2` to the update channel is handing `s1 + s2`.
pub proof fn hands_updates_in_turn<C, S, E>(
    a: ThreadState<C, S, E>,
    b: ThreadState<C, S, E>,
    c: ThreadState<C, S, E>,
    s1: Seq<EthosClientUpdate<E>>,
    s2: Seq<EthosClientUpdate<E>>,
    first: EthosClientStatus,
    second: EthosClientStatus,
)
    requires
        hands_updates(a, b, s1, first),
        hands_updates(b, c, s2, second),
        s2.len() > 0,
    ensures
        hands_updates(a, c, s1 + s2, second),
{
    assert(a.updates + s1 + s2 =~= a.updates + (s1 + s2));
}

impl<C, S, E> ClientThread<C, S, E> {
    /// Create a new `ClientThread` from channels.
    pub(crate) fn new(
        rcv_ctot: LoggedReceiver<CtoTMessage<C>>,
        sdr_ttoc: LoggedSender<EthosClientUpdate<E>>,
        sdr_stoc: LoggedSender<StoCMessage<S>>,
        max_message_size: usize,
    ) -> (thread: Self)
        requires
            rcv_ctot@.answers == Seq::<Option<CtoTMessage<C>>>::empty(),
            !rcv_ctot@.hung_up,
            sdr_ttoc@.sent == Seq::<EthosClientUpdate<E>>::empty(),
            sdr_ttoc@.refusals == 0,
            sdr_stoc@.sent == Seq::<StoCMessage<S>>::empty(),
            sdr_stoc@.refusals == 0,
        ensures
            thread@.channels == (rcv_ctot@.label, sdr_ttoc@.label, sdr_stoc@.label),
            thread@.status == EthosClientStatus::Disconnected,
            thread@.incoming_size is None,
            thread@.max_message_size == max_message_size,
            thread@.commands == Seq::<CtoTMessage<C>>::empty(),
            !thread@.client_gone,
            thread@.updates == Seq::<EthosClientUpdate<E>>::empty(),
            thread@.update_refusals == 0,
            thread@.messages == Seq::<StoCMessage<S>>::empty(),
            thread@.message_refusals == 0,
            client_in_step(thread@),
            announcing(thread@),
    {
        ClientThread {
            channels: ClientThreadChannel { rcv_ctot, sdr_ttoc, sdr_stoc },
            status: EthosClientStatus::Disconnected,
            inc_size: None,
            max_message_size,
        }
    }

    /// Current status of the thread.
    pub fn status(&self) -> (status: EthosClientStatus)
        ensures
            status == self@.status,
    {
        self.status
    }

    /// Take on the outcome of handing something to the client: the thread
    /// ends when the client is gone.
    fn after_send(&mut self, accepted: bool)
        ensures
            final(self)@ == (ThreadState {
                status: if accepted {
                    old(self)@.status
                } else {
                    EthosClientStatus::Ended
                },
                ..old(self)@
            }),
    {
        if !accepted {
            self.status = EthosClientStatus::Ended;
        }
    }

    /// Send an update to the client. If the client is gone, the thread ends.
    fn send_update(&mut self, update: EthosClientUpdate<E>)
        ensures
            hands_updates(old(self)@, final(self)@, seq![update], old(self)@.status),
            final(self)@.incoming_size == old(self)@.incoming_size,
            client_status_of(final(self)@) == status_after_update(client_status_of(old(self)@), update),
            last_announced(final(self)@.updates) == match update {
                EthosClientUpdate::StatusChanged(status) => status,
                EthosClientUpdate::Error(_) => last_announced(old(self)@.updates),
            },
            announced_in_order(final(self)@.updates) == (announced_in_order(old(self)@.updates) && last_announced(
                old(self)@.updates,
            ) != EthosClientStatus::Ended && match update {
                EthosClientUpdate::StatusChanged(status) => may_follow(last_announced(old(self)@.updates), status),
                EthosClientUpdate::Error(_) => true,
            }),
    {
        proof {
            announcements_push(self@.updates, update);
            status_after_updates_push(EthosClientStatus::Disconnected, self@.updates, update);
            assert(self@.updates.push(update) =~= self@.updates + seq![update]);
        }
        let accepted = channel_send(&mut self.channels.sdr_ttoc, update);
        self.after_send(accepted);
    }

    /// Send a server message to the client. If the client is gone, the thread ends.
    fn send_server_message_to_client(&mut self, message: S)
        ensures
            forwards(old(self)@, final(self)@, message),
            final(self)@.incoming_size == old(self)@.incoming_size,
            announcing(old(self)@) ==> announcing(final(self)@),
    {
        let accepted = channel_send(&mut self.channels.sdr_stoc, StoCMessage::Message(message));
        self.after_send(accepted);
    }

    /// One round of the thread's main routine while it has no connection: an
    /// ended thread exits, announcing it; a disconnected thread waits for a
    /// command of the client and takes it up as `handle_idle_command` says; a
    /// thread whose connection stopped becomes disconnected and says so.
    pub fn execute_step(&mut self) -> (step: ThreadStep)
        ensures
            main_step(old(self)@, final(self)@, step),
            old(self)@.status == EthosClientStatus::Disconnected && step == ThreadStep::Exit ==> final(self)@.client_gone || final(self)@.commands == old(self)@.commands.push(
                CtoTMessage::EndClient,
            ),
            old(self)@.status == EthosClientStatus::Disconnected && final(self)@.client_gone ==> step
                == ThreadStep::Exit,
            client_in_step(old(self)@) && step != ThreadStep::Exit && final(self)@.status
                != EthosClientStatus::Ended ==> client_in_step(final(self)@),
            step == ThreadStep::Exit ==> client_status_of(final(self)@) == EthosClientStatus::Ended,
            announcing(old(self)@) && old(self)@.status != EthosClientStatus::Connected
                ==> announced_in_order(final(self)@.updates),
            announcing(old(self)@) && old(self)@.status != EthosClientStatus::Connected && step
                != ThreadStep::Exit ==> announcing(final(self)@),
    {
        match self.status {
            EthosClientStatus::Ended => {
                self.send_update(EthosClientUpdate::StatusChanged(EthosClientStatus::Ended));
                ThreadStep::Exit
            },
            EthosClientStatus::Disconnected => {
                let command = channel_recv(&mut self.channels.rcv_ctot);
                let ghost taken = self@;
                let step = self.handle_idle_command(command);
                assert(idle_step(taken, command, self@, step));
                assert(taken == old(self)@.waiting_for(command));
                step
            },
            _ => {
                self.status = EthosClientStatus::Disconnected;
                self.send_update(EthosClientUpdate::StatusChanged(EthosClientStatus::Disconnected));
                ThreadStep::Continue
            },
        }
    }

    /// What a thread without connection does with a command of the client
    /// (`None`: the client is gone): it opens a connection when asked, ends
    /// when asked or when the client is gone, and answers anything else with
    /// `ClientDisconnected`.
    pub fn handle_idle_command(&mut self, command: Option<CtoTMessage<C>>) -> (step: ThreadStep)
        ensures
            idle_step(old(self)@, command, final(self)@, step),
            client_in_step(old(self)@) && old(self)@.status == EthosClientStatus::Disconnected && step
                != ThreadStep::Exit && final(self)@.status != EthosClientStatus::Ended ==> client_in_step(
                final(self)@,
            ),
            step == ThreadStep::Exit ==> client_status_of(final(self)@) == EthosClientStatus::Ended,
            announcing(old(self)@) && old(self)@.status == EthosClientStatus::Disconnected
                ==> announced_in_order(final(self)@.updates),
            announcing(old(self)@) && old(self)@.status == EthosClientStatus::Disconnected && step
                != ThreadStep::Exit ==> announcing(final(self)@),
    {
        match command {
            Some(CtoTMessage::OpenConnection(connect_string)) => ThreadStep::Connect(connect_string),
            Some(CtoTMessage::EndClient) | None => {
                self.send_update(EthosClientUpdate::StatusChanged(EthosClientStatus::Ended));
                ThreadStep::Exit
            },
            Some(_) => {
                self.send_update(EthosClientUpdate::Error(Error::ClientDisconnected));
                ThreadStep::Continue
            },
        }
    }

    /// Takes the outcome of a connection attempt: a thread that connected is
    /// `Connected` and says so; a failure is reported as an error, and the
    /// thread stays as it was.
    pub fn handle_connection(&mut self, outcome: Result<(), ConnectionError>)
        ensures
            connection_step(old(self)@, outcome, final(self)@),
            client_in_step(old(self)@) && old(self)@.status == EthosClientStatus::Disconnected
                && final(self)@.status != EthosClientStatus::Ended ==> client_in_step(final(self)@),
            announcing(old(self)@) && old(self)@.status == EthosClientStatus::Disconnected
                ==> announcing(final(self)@),
    {
        match outcome {
            Ok(_) => {
                self.status = EthosClientStatus::Connected;
                self.send_update(EthosClientUpdate::StatusChanged(EthosClientStatus::Connected));
            },
            Err(ConnectionError::Connect(kind)) => {
                self.send_update(EthosClientUpdate::Error(connect_error(kind)));
            },
            Err(ConnectionError::Setup(kind)) => {
                self.send_update(EthosClientUpdate::Error(Error::UnhandledIOError(kind)));
            },
        }
    }

    /// What the communication loop does with an open connection: serve it
    /// while the thread is connected, shut it down otherwise.
    pub fn stream_step(&self) -> (step: StreamStep)
        ensures
            step == (if self@.status == EthosClientStatus::Connected {
                StreamStep::Serve
            } else {
                StreamStep::Shutdown
            }),
    {
        match self.status {
            EthosClientStatus::Connected => StreamStep::Serve,
            _ => StreamStep::Shutdown,
        }
    }

    /// Takes up the next waiting command of the client while connected, as
    /// `handle_client_command` says. Nothing is known of what waits.
    pub fn handle_client_message(&mut self) -> (step: ClientStep<C>)
        ensures
            exists|command: Option<CtoTMessage<C>>|
                client_command_step(#[trigger] old(self)@.taking(command), command, final(self)@, step),
            client_in_step(old(self)@) && final(self)@.status != EthosClientStatus::Ended ==> client_in_step(final(self)@),
            announcing(old(self)@) && (last_announced(old(self)@.updates) == EthosClientStatus::Connected
                || last_announced(old(self)@.updates) == EthosClientStatus::Disconnecting) ==> announcing(
                final(self)@,
            ),
    {
        let command = channel_try_recv(&mut self.channels.rcv_ctot);
        let ghost taken = self@;
        let step = self.handle_client_command(command);
        assert(client_command_step(taken, command, self@, step));
        assert(taken == old(self)@.taking(command));
        step
    }

    /// What a connected thread does with a command of the client (`None`: no
    /// command waits): a message goes to the server, a close request closes
    /// the connection, a second connection request is refused with
    /// `ClientAlreadyConnected`, and an end request ends the thread.
    pub fn handle_client_command(&mut self, command: Option<CtoTMessage<C>>) -> (step: ClientStep<C>)
        ensures
            client_command_step(old(self)@, command, final(self)@, step),
            client_in_step(old(self)@) && final(self)@.status != EthosClientStatus::Ended ==> client_in_step(final(self)@),
            announcing(old(self)@) && (last_announced(old(self)@.updates) == EthosClientStatus::Connected
                || last_announced(old(self)@.updates) == EthosClientStatus::Disconnecting) ==> announcing(
                final(self)@,
            ),
    {
        match command {
            Some(CtoTMessage::SendMessage(client_message)) => ClientStep::Send(client_message),
            Some(CtoTMessage::CloseConnection) => {
                self.handle_client_message_close();
                ClientStep::Next
            },
            Some(CtoTMessage::OpenConnection(_)) => {
                self.send_update(EthosClientUpdate::Error(Error::ClientAlreadyConnected));
                ClientStep::Next
            },
            Some(CtoTMessage::EndClient) => {
                self.status = EthosClientStatus::Ended;
                ClientStep::Done
            },
            None => ClientStep::Done,
        }
    }

    /// Close the connection to the server: the thread is `Disconnecting` and says so.
    fn handle_client_message_close(&mut self)
        ensures
            hands_updates(
                old(self)@,
                final(self)@,
                seq![EthosClientUpdate::StatusChanged(EthosClientStatus::Disconnecting)],
                EthosClientStatus::Disconnecting,
            ),
            final(self)@.incoming_size == old(self)@.incoming_size,
            client_in_step(old(self)@) && final(self)@.status != EthosClientStatus::Ended ==> client_in_step(final(self)@),
            announcing(old(self)@) && (last_announced(old(self)@.updates) == EthosClientStatus::Connected
                || last_announced(old(self)@.updates) == EthosClientStatus::Disconnecting) ==> announcing(
                final(self)@,
            ),
    {
        self.status = EthosClientStatus::Disconnecting;
        self.send_update(EthosClientUpdate::StatusChanged(EthosClientStatus::Disconnecting));
    }

    /// Decides on a message for the server whose declared size is `size`: a
    /// message larger than the maximum is refused with `ClientMessageTooLarge`
    /// and the connection is kept; any other is to be packed, and the outcome
    /// handed to `handle_client_message_pack`.
    pub fn handle_client_message_send(&mut self, size: usize) -> (accepted: bool)
        ensures
            accepted == (size <= old(self)@.max_message_size),
            accepted ==> final(self)@ == old(self)@,
            !accepted ==> hands_updates(
                old(self)@,
                final(self)@,
                seq![EthosClientUpdate::Error(Error::ClientMessageTooLarge)],
                old(self)@.status,
            ),
            final(self)@.incoming_size == old(self)@.incoming_size,
            client_in_step(old(self)@) && final(self)@.status != EthosClientStatus::Ended ==> client_in_step(final(self)@),
            announcing(old(self)@) ==> announcing(final(self)@),
    {
        if size <= self.max_message_size {
            true
        } else {
            self.send_update(EthosClientUpdate::Error(Error::ClientMessageTooLarge));
            false
        }
    }

    /// Takes the outcome of packing a message for the server (the number of
    /// packed bytes, or the codec's error): the answer is the number of bytes
    /// to write to the server, and a packing error is reported as
    /// `ClientMessagePackError`; the connection is kept.
    pub fn handle_client_message_pack(&mut self, packed: Result<usize, E>) -> (write: Option<usize>)
        ensures
            match packed {
                Ok(count) => write == Some(count) && final(self)@ == old(self)@,
                Err(err) => write is None && hands_updates(
                    old(self)@,
                    final(self)@,
                    seq![EthosClientUpdate::Error(Error::ClientMessagePackError(err))],
                    old(self)@.status,
                ),
            },
            final(self)@.incoming_size == old(self)@.incoming_size,
            client_in_step(old(self)@) && final(self)@.status != EthosClientStatus::Ended ==> client_in_step(final(self)@),
            announcing(old(self)@) ==> announcing(final(self)@),
    {
        match packed {
            Ok(count) => Some(count),
            Err(err) => {
                self.send_update(EthosClientUpdate::Error(Error::ClientMessagePackError(err)));
                None
            },
        }
    }

    /// Takes the outcome of writing a packed message to the server: a failure
    /// is reported as `ClientMessageSendError`, and the connection is kept.
    pub fn handle_client_message_write(&mut self, written: Result<(), IoErrorKind>)
        ensures
            match written {
                Ok(_) => final(self)@ == old(self)@,
                Err(kind) => hands_updates(
                    old(self)@,
                    final(self)@,
                    seq![EthosClientUpdate::Error(Error::ClientMessageSendError(kind))],
                    old(self)@.status,
                ),
            },
            final(self)@.incoming_size == old(self)@.incoming_size,
            client_in_step(old(self)@) && final(self)@.status != EthosClientStatus::Ended ==> client_in_step(final(self)@),
            announcing(old(self)@) ==> announcing(final(self)@),
    {
        match written {
            Ok(_) => {},
            Err(kind) => self.send_update(EthosClientUpdate::Error(Error::ClientMessageSendError(kind))),
        }
    }

    /// What the thread reads next from the server: the size of a message, or
    /// the body of the message whose size it read.
    pub fn next_server_read(&self) -> (read: ServerRead)
        ensures
            read == match self@.incoming_size {
                None => ServerRead::Size,
                Some(size) => ServerRead::Message(size),
            },
    {
        match self.inc_size {
            None => ServerRead::Size,
            Some(size) => ServerRead::Message(size),
        }
    }

    /// Takes the outcome of reading the size of a server message (the decoded
    /// size, or the failure), unless a size is already awaited: a size is kept
    /// until its body is read, a read that would block is tried later, and any
    /// other failure is reported and closes the connection.
    pub fn handle_server_message_size(&mut self, read: Result<usize, IoErrorKind>)
        ensures
            size_read_step(old(self)@, read, final(self)@),
            old(self)@.incoming_size is None && read is Ok ==> final(self)@.incoming_size == Some(
                read->Ok_0,
            ),
            old(self)@.incoming_size is None && read is Err && read->Err_0 != IoErrorKind::WouldBlock
                ==> final(self)@.updates == old(self)@.updates + seq![
                EthosClientUpdate::Error(Error::ServerMessageReadError(read->Err_0)),
                EthosClientUpdate::StatusChanged(EthosClientStatus::Disconnecting),
            ],
            client_in_step(old(self)@) && final(self)@.status != EthosClientStatus::Ended ==> client_in_step(final(self)@),
            announcing(old(self)@) && (last_announced(old(self)@.updates) == EthosClientStatus::Connected
                || last_announced(old(self)@.updates) == EthosClientStatus::Disconnecting) ==> announcing(
                final(self)@,
            ),
    {
        if self.inc_size.is_none() {
            self.inc_size = match read {
                Ok(size) => Some(size),
                Err(IoErrorKind::WouldBlock) => None,
                Err(kind) => {
                    let ghost before = self@;
                    let report = EthosClientUpdate::Error(Error::ServerMessageReadError(kind));
                    self.send_update(report);
                    let ghost middle = self@;
                    self.handle_client_message_close();
                    proof {
                        hands_updates_in_turn(
                            before,
                            middle,
                            self@,
                            seq![report],
                            seq![EthosClientUpdate::StatusChanged(EthosClientStatus::Disconnecting)],
                            before.status,
                            EthosClientStatus::Disconnecting,
                        );
                        assert(seq![report] + seq![EthosClientUpdate::<E>::StatusChanged(EthosClientStatus::Disconnecting)]
                            =~= seq![report, EthosClientUpdate::StatusChanged(EthosClientStatus::Disconnecting)]);
                    }
                    None
                },
            };
        }
    }

    /// Takes the outcome of reading the body of a server message (the decoded
    /// message or the codec's error, or the failure to read): a message goes
    /// to the client and the next size is awaited; a decoding error is
    /// reported and the size is kept; a read that would block is tried later;
    /// any other failure is reported and closes the connection.
    pub fn handle_server_message_read(&mut self, read: Result<Result<S, E>, IoErrorKind>)
        ensures
            body_read_step(old(self)@, read, final(self)@),
            read is Err && read->Err_0 != IoErrorKind::WouldBlock ==> final(self)@.updates == old(self)@.updates + seq![
                EthosClientUpdate::Error(Error::ServerMessageReadError(read->Err_0)),
                EthosClientUpdate::StatusChanged(EthosClientStatus::Disconnecting),
            ],
            read is Err && read->Err_0 != IoErrorKind::WouldBlock ==> final(self)@.status == (
            if final(self)@.update_refusals > old(self)@.update_refusals {
                EthosClientStatus::Ended
            } else {
                EthosClientStatus::Disconnecting
            }),
            client_in_step(old(self)@) && final(self)@.status != EthosClientStatus::Ended ==> client_in_step(final(self)@),
            announcing(old(self)@) && (last_announced(old(self)@.updates) == EthosClientStatus::Connected
                || last_announced(old(self)@.updates) == EthosClientStatus::Disconnecting) ==> announcing(
                final(self)@,
            ),
    {
        match read {
            Ok(Ok(message)) => {
                self.send_server_message_to_client(message);
                self.inc_size = None;
            },
            Ok(Err(err)) => {
                self.send_update(EthosClientUpdate::Error(Error::ServerMessageFromBytesError(err)));
            },
            Err(IoErrorKind::WouldBlock) => {},
            Err(kind) => {
                let ghost before = self@;
                let report = EthosClientUpdate::Error(Error::ServerMessageReadError(kind));
                self.send_update(report);
                let ghost middle = self@;
                self.handle_client_message_close();
                proof {
                    hands_updates_in_turn(
                        before,
                        middle,
                        self@,
                        seq![report],
                        seq![EthosClientUpdate::StatusChanged(EthosClientStatus::Disconnecting)],
                        before.status,
                        EthosClientStatus::Disconnecting,
                    );
                    assert(seq![report] + seq![EthosClientUpdate::<E>::StatusChanged(EthosClientStatus::Disconnecting)]
                        =~= seq![report, EthosClientUpdate::StatusChanged(EthosClientStatus::Disconnecting)]);
                }
            },
        }
    }

    /// Takes the outcome of shutting the connection down: a failure is
    /// reported as `UnhandledIOError`, and the status is kept.
    pub fn handle_stream_shutdown(&mut self, result: Result<(), IoErrorKind>)
        ensures
            shutdown_step(old(self)@, result, final(self)@),
            client_in_step(old(self)@) && old(self)@.status != EthosClientStatus::Connecting
                && final(self)@.status != EthosClientStatus::Ended ==> client_in_step(final(self)@),
            announcing(old(self)@) ==> announcing(final(self)@),
    {
        match result {
            Ok(_) => {},
            Err(kind) => self.send_update(EthosClientUpdate::Error(Error::UnhandledIOError(kind))),
        }
    }
}

/// The thread went from `before` to `after` by handing `message` to the
/// client's message channel: it ends if the channel refused it (the client is
/// gone), and nothing else changes but for what waits from the server.
pub open spec fn forwards<C, S, E>(before: ThreadState<C, S, E>, after: ThreadState<C, S, E>, message: S) -> bool {
    &&& after.channels == before.channels
    &&& after.messages == before.messages.push(StoCMessage::Message(message))
    &&& before.message_refusals <= after.message_refusals <= before.message_refusals + 1
    &&& (before.message_refusals > 0 ==> after.message_refusals > before.message_refusals)
    &&& after.status == if after.message_refusals > before.message_refusals {
        EthosClientStatus::Ended
    } else {
        before.status
    }
    &&& after.updates == before.updates
    &&& after.update_refusals == before.update_refusals
    &&& after.commands == before.commands
    &&& after.client_gone == before.client_gone
    &&& after.max_message_size == before.max_message_size
}

/// A thread without connection that took up `command` of the client went from
/// `before` to `after` and ended in `step`, as `ClientThread::handle_idle_command`
/// says.
pub open spec fn idle_step<C, S, E>(
    before: ThreadState<C, S, E>,
    command: Option<CtoTMessage<C>>,
    after: ThreadState<C, S, E>,
    step: ThreadStep,
) -> bool {
    &&& after.incoming_size == before.incoming_size
    &&& match command {
        Some(CtoTMessage::OpenConnection(connect_string)) => step == ThreadStep::Connect(connect_string)
            && after == before,
        Some(CtoTMessage::EndClient) | None => step == ThreadStep::Exit && hands_updates(
            before,
            after,
            seq![EthosClientUpdate::StatusChanged(EthosClientStatus::Ended)],
            before.status,
        ),
        Some(_) => step == ThreadStep::Continue && hands_updates(
            before,
            after,
            seq![EthosClientUpdate::Error(Error::ClientDisconnected)],
            before.status,
        ),
    }
}

/// One round of the main routine of a thread, from `before` to `after`, that
/// ended in `step`, as `ClientThread::execute_step` says.
pub open spec fn main_step<C, S, E>(
    before: ThreadState<C, S, E>,
    after: ThreadState<C, S, E>,
    step: ThreadStep,
) -> bool {
    if before.status == EthosClientStatus::Ended {
        &&& step == ThreadStep::Exit
        &&& after.incoming_size == before.incoming_size
        &&& hands_updates(
            before,
            after,
            seq![EthosClientUpdate::StatusChanged(EthosClientStatus::Ended)],
            EthosClientStatus::Ended,
        )
    } else if before.status == EthosClientStatus::Disconnected {
        exists|command: Option<CtoTMessage<C>>|
            idle_step(#[trigger] before.waiting_for(command), command, after, step)
    } else {
        &&& step == ThreadStep::Continue
        &&& after.incoming_size == before.incoming_size
        &&& hands_updates(
            before,
            after,
            seq![EthosClientUpdate::StatusChanged(EthosClientStatus::Disconnected)],
            EthosClientStatus::Disconnected,
        )
    }
}

/// A thread went from `before` to `after` on taking `outcome`, the outcome of
/// a connection attempt, as `ClientThread::handle_connection` says.
pub open spec fn connection_step<C, S, E>(
    before: ThreadState<C, S, E>,
    outcome: Result<(), ConnectionError>,
    after: ThreadState<C, S, E>,
) -> bool {
    &&& after.incoming_size == before.incoming_size
    &&& hands_updates(
        before,
        after,
        seq![connection_update(outcome)],
        if outcome is Ok {
            EthosClientStatus::Connected
        } else {
            before.status
        },
    )
}

/// A connected thread that took up `command` of the client went from `before`
/// to `after` and ended in `step`, as `ClientThread::handle_client_command` says.
pub open spec fn client_command_step<C, S, E>(
    before: ThreadState<C, S, E>,
    command: Option<CtoTMessage<C>>,
    after: ThreadState<C, S, E>,
    step: ClientStep<C>,
) -> bool {
    &&& after.incoming_size == before.incoming_size
    &&& match command {
        Some(CtoTMessage::SendMessage(client_message)) => step == ClientStep::Send(client_message) && after == before,
        Some(CtoTMessage::CloseConnection) => step == ClientStep::<C>::Next && hands_updates(
            before,
            after,
            seq![EthosClientUpdate::StatusChanged(EthosClientStatus::Disconnecting)],
            EthosClientStatus::Disconnecting,
        ),
        Some(CtoTMessage::OpenConnection(_)) => step == ClientStep::<C>::Next && hands_updates(
            before,
            after,
            seq![EthosClientUpdate::Error(Error::ClientAlreadyConnected)],
            before.status,
        ),
        Some(CtoTMessage::EndClient) => step == ClientStep::<C>::Done && after == ThreadState {
            status: EthosClientStatus::Ended,
            ..before
        },
        None => step == ClientStep::<C>::Done && after == before,
    }
}

/// A thread went from `before` to `after` on taking `read`, the outcome of
/// reading the size of a server message, as
/// `ClientThread::handle_server_message_size` says.
pub open spec fn size_read_step<C, S, E>(
    before: ThreadState<C, S, E>,
    read: Result<usize, IoErrorKind>,
    after: ThreadState<C, S, E>,
) -> bool {
    if before.incoming_size is Some {
        after == before
    } else {
        match read {
            Ok(size) => after == ThreadState { incoming_size: Some(size), ..before },
            Err(IoErrorKind::WouldBlock) => after == before,
            Err(kind) => {
                &&& after.incoming_size is None
                &&& hands_updates(
                    before,
                    after,
                    seq![
                        EthosClientUpdate::Error(Error::ServerMessageReadError(kind)),
                        EthosClientUpdate::StatusChanged(EthosClientStatus::Disconnecting),
                    ],
                    EthosClientStatus::Disconnecting,
                )
            },
        }
    }
}

/// A thread went from `before` to `after` on taking `read`, the outcome of
/// reading the body of a server message, as
/// `ClientThread::handle_server_message_read` says.
pub open spec fn body_read_step<C, S, E>(
    before: ThreadState<C, S, E>,
    read: Result<Result<S, E>, IoErrorKind>,
    after: ThreadState<C, S, E>,
) -> bool {
    match read {
        Ok(Ok(message)) => after.incoming_size is None && forwards(before, after, message),
        Ok(Err(err)) => after.incoming_size == before.incoming_size && hands_updates(
            before,
            after,
            seq![EthosClientUpdate::Error(Error::ServerMessageFromBytesError(err))],
            before.status,
        ),
        Err(IoErrorKind::WouldBlock) => after == before,
        Err(kind) => after.incoming_size == before.incoming_size && hands_updates(
            before,
            after,
            seq![
                EthosClientUpdate::Error(Error::ServerMessageReadError(kind)),
                EthosClientUpdate::StatusChanged(EthosClientStatus::Disconnecting),
            ],
            EthosClientStatus::Disconnecting,
        ),
    }
}

/// A thread went from `before` to `after` on taking `result`, the outcome of
/// shutting its connection down, as `ClientThread::handle_stream_shutdown` says.
pub open spec fn shutdown_step<C, S, E>(
    before: ThreadState<C, S, E>,
    result: Result<(), IoErrorKind>,
    after: ThreadState<C, S, E>,
) -> bool {
    match result {
        Ok(_) => after == before,
        Err(kind) => after.incoming_size == before.incoming_size && hands_updates(
            before,
            after,
            seq![EthosClientUpdate::Error(Error::UnhandledIOError(kind))],
            before.status,
        ),
    }
}

} // verus!
