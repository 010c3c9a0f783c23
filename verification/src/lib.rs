//! Verified core of a room-scoped chat backend: the authenticator, the
//! membership cache, the message store-and-broadcast path and the
//! disconnect-aware subscription streams.

pub mod auth;
pub mod channel;
pub mod entities;
pub mod membership;
pub mod metadata;
pub mod options;
pub mod persistence;
pub mod proto;
pub mod request;
pub mod room_manager;
pub mod services;
pub mod status;

use crate::proto::HelloRequest;
use crate::proto::HelloResponse;
use crate::request::Request;
use crate::status::Status;
use vstd::prelude::*;

verus! {

/// The greeter: the smallest service of the chat, which answers every hello.
#[derive(Debug)]
pub struct TCPChat {}

impl Default for TCPChat {
    fn default() -> (chat: TCPChat) {
        TCPChat {  }
    }
}

impl TCPChat {
    /// Answers a hello.
    pub fn say_hello(&self, request: Request<HelloRequest>) -> (answer: Result<
        HelloResponse,
        Status,
    >)
        ensures
            answer matches Ok(response) && response.message@ == "hey!"@,
    {
        Ok(HelloResponse { message: String::from_str("hey!") })
    }
}

} // verus!
