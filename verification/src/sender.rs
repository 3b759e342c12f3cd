//! The broadcast sender handle.
//!
//! A [`WebSocketSender`] wraps zero or one broadcaster of a running
//! WebSocket server. With a broadcaster it forwards text to every connected
//! client; without one it is a "dummy" and every operation succeeds without
//! doing anything. Which of the two a handle is, is fixed at construction:
//! [`WebSocketSender::dummy`] builds the dummy,
//! [`WebSocketSender::from_broadcaster`] the live handle.

use vstd::prelude::*;
use crate::events::EventKind;
use crate::events::serialize_event;

verus! {

/// Declares `ws::Sender`, the broadcaster of a running server, so that a
/// handle can hold one. The value is opaque here: only [`broadcast_send`]
/// touches it.
#[verifier::external_type_specification]
#[verifier::external_body]
pub struct ExSender(ws::Sender);

/// Whether `m` is a broadcast-failure message: the delivery errors of this
/// adapter all begin with the same words, so an error of the send path can
/// be told apart from any other by its text.
pub open spec fn is_broadcast_error(m: Seq<char>) -> bool {
    "Unable to broadcast to websocket clients: "@.is_prefix_of(m)
}

/// Relies on `ws::Sender::send`: it hands the text to the server's event
/// loop as one message command, to be delivered to the connections the
/// sender's token addresses; it fails when the event loop no longer takes
/// commands. Whether it succeeds depends on the state of the event loop, not
/// on the arguments, so neither outcome can be promised — but every error
/// comes out of the conversion below, which prefixes the broadcast-failure
/// words to the outside error.
#[verifier::external_body]
fn broadcast_send(sender: &ws::Sender, string: String) -> (r: Result<(), String>)
    ensures
        r matches Err(m) ==> is_broadcast_error(m@),
{
    sender.send(string).map_err(|e| format!("Unable to broadcast to websocket clients: {:?}", e))
}

/// A handle for pushing text frames to every client of a running server, or
/// a dummy that ignores everything it is given.
pub struct WebSocketSender {
    sender: Option<ws::Sender>,
}

impl WebSocketSender {
    /// The broadcaster this handle wraps, if any.
    pub closed spec fn spec_broadcaster(&self) -> Option<ws::Sender> {
        self.sender
    }

    /// Whether this handle is the dummy: no broadcaster behind it, every
    /// operation a successful no-op.
    pub open spec fn is_dummy(&self) -> bool {
        self.spec_broadcaster() is None
    }

    /// A dummy sender for builds where broadcasting is disabled: it never
    /// touches the network and all future calls are successful no-ops.
    pub fn dummy() -> (r: Self)
        ensures
            r.is_dummy(),
    {
        WebSocketSender { sender: None }
    }

    /// The live handle over the broadcaster of a running server: it wraps
    /// exactly the broadcaster it is given.
    pub fn from_broadcaster(broadcaster: ws::Sender) -> (r: Self)
        ensures
            r.spec_broadcaster() == Some(broadcaster),
            !r.is_dummy(),
    {
        WebSocketSender { sender: Some(broadcaster) }
    }

    /// Forwards `string` to every connected client. A dummy handle succeeds
    /// without doing anything; only a live handle can report an error, and
    /// every error it reports is a broadcast failure, named as such by its
    /// text.
    pub fn send_string(&self, string: String) -> (r: Result<(), String>)
        ensures
            self.is_dummy() ==> r is Ok,
            r matches Err(m) ==> !self.is_dummy() && is_broadcast_error(m@),
    {
        match &self.sender {
            Some(sender) => broadcast_send(sender, string),
            None => Ok(()),
        }
    }

    /// Serializes `kind` to its JSON frame and forwards it with
    /// [`Self::send_string`]. Serialization is total, so a dummy handle
    /// always succeeds, and every error is a broadcast failure of a live
    /// handle — never a serialization error.
    pub fn register(&self, kind: EventKind) -> (r: Result<(), String>)
        ensures
            self.is_dummy() ==> r is Ok,
            r matches Err(m) ==> !self.is_dummy() && is_broadcast_error(m@),
    {
        self.send_string(serialize_event(&kind))
    }
}

} // verus!
