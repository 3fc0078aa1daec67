use vstd::prelude::*;

use std::sync::mpsc::{Receiver, Sender};

verus! {

/// The sending end of a standard channel; opaque to the verifier.
#[verifier::external_type_specification]
#[verifier::external_body]
#[verifier::reject_recursive_types(T)]
pub struct ExSender<T>(std::sync::mpsc::Sender<T>);

/// The receiving end of a standard channel; opaque to the verifier.
#[verifier::external_type_specification]
#[verifier::external_body]
#[verifier::reject_recursive_types(T)]
pub struct ExReceiver<T>(std::sync::mpsc::Receiver<T>);

/// The sending end of a channel, with the label of its channel and a record
/// of what went through it: every value handed to `Sender::send`, in order,
/// and how many of them the channel refused. Only `open_channel` sets the
/// label, and only `channel_send` changes the record.
#[verifier::reject_recursive_types(T)]
pub struct LoggedSender<T> {
    sender: Sender<T>,
    label: Ghost<int>,
    sent: Ghost<Seq<T>>,
    refusals: Ghost<nat>,
}

/// The record of a `LoggedSender`.
pub struct SenderLog<T> {
    /// The label of the channel; the two ends of one channel share it.
    pub label: int,
    /// Every value handed to `Sender::send`, in order.
    pub sent: Seq<T>,
    /// How many of them the channel refused.
    pub refusals: nat,
}

impl<T> View for LoggedSender<T> {
    type V = SenderLog<T>;

    closed spec fn view(&self) -> SenderLog<T> {
        SenderLog { label: self.label@, sent: self.sent@, refusals: self.refusals@ }
    }
}

/// The receiving end of a channel, with the label of its channel and a record
/// of every answer it gave, empty ones included, in order. Only
/// `open_channel` sets the label, and only `channel_try_recv` and
/// `channel_recv` change the record.
#[verifier::reject_recursive_types(T)]
pub struct LoggedReceiver<T> {
    receiver: Receiver<T>,
    label: Ghost<int>,
    answers: Ghost<Seq<Option<T>>>,
    hung_up: Ghost<bool>,
}

/// The record of a `LoggedReceiver`.
pub struct ReceiverLog<T> {
    /// The label of the channel; the two ends of one channel share it.
    pub label: int,
    /// Every answer of the receiving end, in order (`None`: nothing was taken).
    pub answers: Seq<Option<T>>,
    /// Every value taken from the receiving end, in order.
    pub received: Seq<T>,
    /// A blocking receive found the channel empty with every sending end
    /// gone: no value can come any more.
    pub hung_up: bool,
}

impl<T> View for LoggedReceiver<T> {
    type V = ReceiverLog<T>;

    closed spec fn view(&self) -> ReceiverLog<T> {
        ReceiverLog {
            label: self.label@,
            answers: self.answers@,
            received: values_of(self.answers@),
            hung_up: self.hung_up@,
        }
    }
}

/// The values among `answers`, in order.
pub open spec fn values_of<T>(answers: Seq<Option<T>>) -> Seq<T>
    decreases answers.len(),
{
    if answers.len() == 0 {
        Seq::empty()
    } else {
        after_receiving(values_of(answers.drop_last()), answers.last())
    }
}

/// The answers of a receiving end that gave each of `values` and then
/// nothing.
pub open spec fn answers_until_empty<T>(values: Seq<T>) -> Seq<Option<T>> {
    values.map_values(|value: T| Some(value)).push(None)
}

/// Calls `std::sync::mpsc::channel`: the two ends of one new channel,
/// labelled alike, through which nothing went yet.
#[verifier::external_body]
pub(crate) fn open_channel<T>() -> (ends: (LoggedSender<T>, LoggedReceiver<T>))
    ensures
        ends.0@.label == ends.1@.label,
        ends.0@.sent == Seq::<T>::empty(),
        ends.0@.refusals == 0,
        ends.1@.answers == Seq::<Option<T>>::empty(),
        !ends.1@.hung_up,
{
    let (sender, receiver) = std::sync::mpsc::channel();
    (
        LoggedSender { sender, label: Ghost(0), sent: Ghost(Seq::empty()), refusals: Ghost(0) },
        LoggedReceiver { receiver, label: Ghost(0), answers: Ghost(Seq::empty()), hung_up: Ghost(false) },
    )
}

/// Calls `Sender::send` with `value`, and records it as handed over. The
/// answer is `false` when the channel refused it, which it does only once the
/// receiving end is gone; that end never comes back, so a channel that refused
/// a value refuses every later one. Whether the receiving end is alive is not
/// claimed.
#[verifier::external_body]
pub(crate) fn channel_send<T>(sender: &mut LoggedSender<T>, value: T) -> (accepted: bool)
    ensures
        final(sender)@.label == old(sender)@.label,
        final(sender)@.sent == old(sender)@.sent.push(value),
        final(sender)@.refusals == old(sender)@.refusals + if accepted {
            0nat
        } else {
            1nat
        },
        old(sender)@.refusals > 0 ==> !accepted,
{
    match sender.sender.send(value) {
        Ok(_) => true,
        Err(_) => false,
    }
}

/// Calls `Receiver::try_recv`, and records its answer. What waits depends
/// on the other thread, so nothing is claimed of the answer but that a channel
/// that hung up gives nothing: `None` stands for both an empty and a closed
/// channel, and does not tell that the channel hung up.
#[verifier::external_body]
pub(crate) fn channel_try_recv<T>(receiver: &mut LoggedReceiver<T>) -> (value: Option<T>)
    ensures
        final(receiver)@.label == old(receiver)@.label,
        final(receiver)@.answers == old(receiver)@.answers.push(value),
        final(receiver)@.hung_up == old(receiver)@.hung_up,
        old(receiver)@.hung_up ==> value is None,
{
    match receiver.receiver.try_recv() {
        Ok(value) => Some(value),
        Err(_) => None,
    }
}

/// Calls `Receiver::recv`, which blocks while the channel is empty and a
/// sending end remains, and records its answer. It answers `None` exactly when
/// the channel is empty and every sending end is gone, after which no value
/// can come: the channel has hung up. Which value comes is not claimed.
#[verifier::external_body]
pub(crate) fn channel_recv<T>(receiver: &mut LoggedReceiver<T>) -> (value: Option<T>)
    ensures
        final(receiver)@.label == old(receiver)@.label,
        final(receiver)@.answers == old(receiver)@.answers.push(value),
        final(receiver)@.hung_up == (value is None),
        old(receiver)@.hung_up ==> value is None,
{
    match receiver.receiver.recv() {
        Ok(value) => Some(value),
        Err(_) => None,
    }
}

/// The record of a receiving end after taking `value` (if any).
pub open spec fn after_receiving<T>(received: Seq<T>, value: Option<T>) -> Seq<T> {
    match value {
        Some(v) => received.push(v),
        None => received,
    }
}

/// The values received through a receiving end are the values among its answers.
pub broadcast proof fn received_values<T>(receiver: LoggedReceiver<T>)
    ensures
        #[trigger] receiver@.received == values_of(receiver@.answers),
{
}

/// Recording one more answer adds its value (if any) to the values received.
pub broadcast proof fn values_of_push<T>(answers: Seq<Option<T>>, answer: Option<T>)
    ensures
        #[trigger] values_of(answers.push(answer)) == after_receiving(values_of(answers), answer),
{
    assert(answers.push(answer).drop_last() == answers);
}

} // verus!
