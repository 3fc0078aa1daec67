use vstd::prelude::*;

use crate::error::{ends_connection, Error};
use crate::status::EthosClientStatus;

verus! {

/// Client to thread message. `C` is the type of a message for the server.
pub enum CtoTMessage<C> {
    /// Open a connection with connect_string.
    OpenConnection(String),
    /// Client message to send to the server.
    SendMessage(C),
    /// Tell client to close connection.
    CloseConnection,
    /// Tell the client to end the client thread.
    EndClient,
}

/// Update sent to an `EthosClient` from its communication thread.
///
/// Updates should be retrieved with `EthosClient::update` or
/// `EthosClient::update_vec` in the main loop of the software connecting to
/// the server.
#[derive(Debug, PartialEq, Eq, Structural)]
pub enum EthosClientUpdate<E> {
    /// An error occurred during the thread execution.
    Error(Error<E>),
    /// The client status changed. Client is disconnected only when
    /// `StatusChanged(Disconnected)` update is given.
    StatusChanged(EthosClientStatus),
}

/// Wrapper of a message coming from the remote server. `S` is the type of a
/// message from the server.
pub enum StoCMessage<S> {
    Message(S),
}

/// The status that a client takes on when it receives an update: the status
/// that the update announces; `Disconnected` for a connecting client after an
/// error that means that no connection came about; the one it had otherwise.
/// A client that was connected becomes disconnected only when told so.
pub open spec fn status_after_update<E>(
    status: EthosClientStatus,
    update: EthosClientUpdate<E>,
) -> EthosClientStatus {
    match update {
        EthosClientUpdate::StatusChanged(new_status) => new_status,
        EthosClientUpdate::Error(err) => if ends_connection(err) && status
            == EthosClientStatus::Connecting {
            EthosClientStatus::Disconnected
        } else {
            status
        },
    }
}

/// The status that a client takes on when it receives `updates` in order.
pub open spec fn status_after_updates<E>(
    status: EthosClientStatus,
    updates: Seq<EthosClientUpdate<E>>,
) -> EthosClientStatus
    decreases updates.len(),
{
    if updates.len() == 0 {
        status
    } else {
        status_after_update(status_after_updates(status, updates.drop_last()), updates.last())
    }
}

/// Receiving one more update takes the client from the status it had reached
/// to the status after that update.
pub proof fn status_after_updates_push<E>(
    status: EthosClientStatus,
    updates: Seq<EthosClientUpdate<E>>,
    update: EthosClientUpdate<E>,
)
    ensures
        status_after_updates(status, updates.push(update)) == status_after_update(
            status_after_updates(status, updates),
            update,
        ),
{
    assert(updates.push(update).drop_last() == updates);
}

} // verus!
