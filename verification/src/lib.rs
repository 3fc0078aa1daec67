//! Client of an ethos server: the client's side of the protocol and the
//! decisions of its communication thread, verified.

pub mod channel;
pub mod client;
pub mod error;
pub mod message;
pub mod protocol;
pub mod status;
pub mod thread;

pub use client::{join_step, ClientState, EthosClient, JoinAction, DROP_WAIT_MICROS};
pub use error::{Error, IoErrorKind};
pub use message::{CtoTMessage, EthosClientUpdate, StoCMessage};
pub use status::EthosClientStatus;
pub use thread::{
    ClientStep, ClientThread, ConnectionError, ServerRead, StreamStep, ThreadState, ThreadStep,
};
