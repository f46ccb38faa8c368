//! The decisions of the connection handler pool: the registration handshake
//! with a connecting peer, the forwarding between a peer's socket and its
//! registry channels, and the retries of binding the listening socket. The
//! socket work itself is done by the caller, which hands each outcome in.

use vstd::prelude::*;

use crate::channel::Poll;
use crate::error::MCManageError;
use crate::handler_id::{leading_char, leading_char_of, valid_handler_type};
use crate::intercom::{next_id, InterCom, InterComError};

use std::sync::mpsc::{Receiver, Sender};
use crate::message::{decode_bytes, envelope_bytes, texts, trimmed, Message, MessageType, MessageView};

verus! {

/// Errors of the connection handler pool.
#[derive(Debug)]
pub enum CommunicatorError {
    /// The listening socket could not be bound.
    FailedBind,
    /// The connection had to be closed.
    ConnectionError,
    /// The restart budget is used up; no further restart is attempted.
    RestartError,
    /// An error of the handler registry.
    InterComError(InterComError),
    /// A lifecycle error.
    MCManageError(MCManageError),
}

/// The command of the registration handshake.
pub open spec fn handshake_command() -> Seq<char> {
    "get_client_type"@
}

/// The request that opens the registration handshake with a new peer.
pub open spec fn handshake_request_view() -> MessageView {
    MessageView {
        command: handshake_command(),
        message_type: MessageType::Request,
        sender: "communicator"@,
        receiver: ""@,
        args: Seq::empty(),
    }
}

/// The client type that a peer's reply to the handshake names: the reply
/// has to be a response to the handshake command whose first argument starts
/// with `r` or `c`.
pub open spec fn reply_client_type(m: MessageView) -> Option<char> {
    if m.message_type == MessageType::Response && m.command == handshake_command() && m.args.len()
        > 0 && valid_handler_type(leading_char(m.args[0])) {
        Some(leading_char(m.args[0]))
    } else {
        None
    }
}

/// The request that opens the registration handshake with a new peer.
pub fn handshake_request() -> (r: Message)
    ensures
        r@ == handshake_request_view(),
{
    let r = Message::new("get_client_type", MessageType::Request, "communicator", "", Vec::new());
    proof {
        assert(r@.args =~= Seq::<Seq<char>>::empty());
    }
    r
}

/// The bytes of the handshake request as they are written to the peer.
pub fn handshake_request_bytes() -> (r: Vec<u8>)
    ensures
        r@ == envelope_bytes(handshake_request_view()),
{
    match handshake_request().to_bytes() {
        Some(b) => b,
        None => Vec::new(),
    }
}

/// The single byte that tells a peer that its registration is complete.
pub fn registration_ack() -> (r: Vec<u8>)
    ensures
        r@ == seq![0u8],
{
    let mut r: Vec<u8> = Vec::new();
    r.push(0u8);
    r
}

/// The client type named by a peer's reply to the handshake; a
/// `ConnectionError` when the reply is not a valid answer.
pub fn client_type_of(msg: &Message) -> (r: Result<char, CommunicatorError>)
    ensures
        match reply_client_type(msg@) {
            Some(c) => r matches Ok(t) && t == c,
            None => r matches Err(CommunicatorError::ConnectionError),
        },
{
    if *msg.message_type() != MessageType::Response {
        return Err(CommunicatorError::ConnectionError);
    }
    let expected = String::from_str("get_client_type");
    if !msg.command().eq(&expected) {
        return Err(CommunicatorError::ConnectionError);
    }
    let args = msg.args();
    if args.len() == 0 {
        return Err(CommunicatorError::ConnectionError);
    }
    proof {
        assert(texts(args@)[0] == args@[0]@);
    }
    let c = leading_char_of(args[0].as_str());
    if c == 'r' || c == 'c' {
        Ok(c)
    } else {
        Err(CommunicatorError::ConnectionError)
    }
}

/// Read the client type out of the bytes of a peer's reply to the handshake.
/// A reply that is not a message, or not a valid answer, is a
/// `ConnectionError`.
pub fn register_client_get_type(reply: Vec<u8>) -> (r: Result<char, CommunicatorError>)
    ensures
        match decode_bytes(reply@) {
            Some(m) => match reply_client_type(m) {
                Some(c) => r matches Ok(t) && t == c,
                None => r matches Err(CommunicatorError::ConnectionError),
            },
            None => r matches Err(CommunicatorError::ConnectionError),
        },
        forall|m: MessageView| trimmed(reply@) == envelope_bytes(m) ==> match reply_client_type(m) {
            Some(c) => r matches Ok(t) && t == c,
            None => r matches Err(CommunicatorError::ConnectionError),
        },
{
    match Message::from_bytes(reply) {
        Some(msg) => client_type_of(&msg),
        None => Err(CommunicatorError::ConnectionError),
    }
}

/// Register a peer whose reply to the handshake is `reply` with the
/// registry. The reply must name a valid client type; the peer then gets the
/// next free id of that type and its channels. Any failure closes only this
/// connection, so it is reported as a `ConnectionError`.
pub fn register_client(intercom: &mut InterCom, reply: &Message) -> (r: Result<
    (String, Sender<Message>, Receiver<Message>),
    CommunicatorError,
>)
    requires
        old(intercom).wf(),
    ensures
        final(intercom).wf(),
        final(intercom).is_bound() == old(intercom).is_bound(),
        final(intercom).is_running() == old(intercom).is_running(),
        final(intercom).has_console() == old(intercom).has_console(),
        r is Err ==> (r matches Err(CommunicatorError::ConnectionError) && final(intercom).ids()
            == old(intercom).ids()),
        match reply_client_type(reply@) {
            Some(c) => old(intercom).is_bound() ==> (r matches Ok((id, _, _)) && id@ == next_id(
                old(intercom).ids(),
                c,
            ) && final(intercom).ids() == old(intercom).ids().push(id@)),
            None => r is Err,
        },
{
    let client_type = match client_type_of(reply) {
        Ok(c) => c,
        Err(e) => return Err(e),
    };
    match intercom.add_handler(client_type) {
        Ok(result) => Ok(result),
        Err(_) => Err(CommunicatorError::ConnectionError),
    }
}

/// The outcome of one socket operation.
#[derive(Clone, Copy, Debug, PartialEq, Eq, Structural)]
pub enum IoOutcome {
    /// This many bytes were transferred; zero means the peer closed.
    Done(usize),
    /// Nothing could be transferred without blocking.
    WouldBlock,
    /// Any other I/O error.
    Failed,
}

/// What a connection handler does next.
pub enum HandlerAction {
    /// Nothing to do in this step.
    Idle,
    /// Write these bytes to the peer.
    Write(Vec<u8>),
    /// Send this message to the registry.
    Forward(Message),
    /// Shut the connection down and remove its registry entry.
    Close,
    /// The registry is gone: the whole connection handler pool restarts.
    RestartCommunicator,
}

/// The registry's channel for this handler was polled: a waiting message is
/// written to the peer; a gone registry makes the pool restart.
pub fn on_registry_poll(p: Poll) -> (r: HandlerAction)
    ensures
        p matches Poll::Received(m) ==> (r matches HandlerAction::Write(b) && b@ == envelope_bytes(m@)),
        p is Empty ==> r is Idle,
        p is Disconnected ==> r is RestartCommunicator,
{
    match p {
        Poll::Received(msg) => match msg.to_bytes() {
            Some(bytes) => HandlerAction::Write(bytes),
            None => HandlerAction::Close,
        },
        Poll::Empty => HandlerAction::Idle,
        Poll::Disconnected => HandlerAction::RestartCommunicator,
    }
}

/// A write to the peer finished with `o`: a write of zero bytes or an I/O
/// error closes the connection.
pub fn on_write(o: IoOutcome) -> (r: HandlerAction)
    ensures
        o matches IoOutcome::Done(n) && n > 0 ==> r is Idle,
        !(o matches IoOutcome::Done(n) && n > 0) ==> r is Close,
{
    match o {
        IoOutcome::Done(n) => if n > 0 {
            HandlerAction::Idle
        } else {
            HandlerAction::Close
        },
        _ => HandlerAction::Close,
    }
}

/// A read from the peer finished with `o`, and `received` holds the bytes
/// read. Zero bytes mean the peer closed; bytes that are not a message close
/// the connection; a message is forwarded to the registry; a read that would
/// block leaves nothing to do.
pub fn on_read(o: IoOutcome, received: Vec<u8>) -> (r: HandlerAction)
    ensures
        o == IoOutcome::Done(0) ==> r is Close,
        o matches IoOutcome::Done(n) && n > 0 ==> match decode_bytes(received@) {
            Some(m) => r matches HandlerAction::Forward(x) && x@ == m,
            None => r is Close,
        },
        o matches IoOutcome::Done(n) && n > 0 ==> forall|m: MessageView| trimmed(received@)
            == envelope_bytes(m) ==> (r matches HandlerAction::Forward(x) && x@ == m),
        o is WouldBlock ==> r is Idle,
        o is Failed ==> r is Close,
{
    match o {
        IoOutcome::Done(n) => {
            if n == 0 {
                HandlerAction::Close
            } else {
                match Message::from_bytes(received) {
                    Some(msg) => HandlerAction::Forward(msg),
                    None => HandlerAction::Close,
                }
            }
        },
        IoOutcome::WouldBlock => HandlerAction::Idle,
        IoOutcome::Failed => HandlerAction::Close,
    }
}

/// A message from the peer was handed to the registry (`sent`) or could not
/// be, because the registry is gone, which makes the whole pool restart.
pub fn on_forward(sent: bool) -> (r: HandlerAction)
    ensures
        sent ==> r is Idle,
        !sent ==> r is RestartCommunicator,
{
    if sent {
        HandlerAction::Idle
    } else {
        HandlerAction::RestartCommunicator
    }
}

/// Binding the listening socket failed for the `failed_tries`-th time: retry
/// after the fixed delay while fewer than `max_tries` attempts failed.
pub fn bind_retry(failed_tries: usize, max_tries: usize) -> (r: bool)
    ensures
        r == (failed_tries < max_tries),
{
    failed_tries < max_tries
}

} // verus!
