use vstd::prelude::*;
use crate::message::{Init, Message, derived_reply, has_successor_id, reply};

verus! {

/// The one payload a node accepts first.
#[derive(Debug, Clone)]
pub enum InitRequest {
    Init(Init),
}

/// The acknowledgement of the handshake.
#[derive(Debug, Clone, Copy, PartialEq, Eq)]
pub enum InitResponse {
    InitOk,
}

/// Why the handshake did not complete; `E` is the decoder's error.
#[derive(Debug, Clone)]
pub enum HandshakeError<E> {
    /// The input ended before any line arrived.
    Missing,
    /// The first line was not an init message.
    Malformed(E),
}

/// The first input line, as read and decoded: `None` where the input had
/// ended, `Some(Err(e))` where it did not decode as an init message.
pub open spec fn handshake_outcome<E>(first: Option<Result<Message<InitRequest>, E>>) -> Result<
    (Init, Message<InitResponse>),
    HandshakeError<E>,
> {
    match first {
        None => Err(HandshakeError::Missing),
        Some(Err(e)) => Err(HandshakeError::Malformed(e)),
        Some(Ok(m)) => match m.body.payload {
            InitRequest::Init(init) => Ok((init, derived_reply(m, InitResponse::InitOk))),
        },
    }
}

/// Completes the handshake on the first input line: yields the node's
/// identity and roster, and the `InitOk` reply to send back before any
/// other message is handled.
pub fn handshake<E>(first: Option<Result<Message<InitRequest>, E>>) -> (r: Result<
    (Init, Message<InitResponse>),
    HandshakeError<E>,
>)
    requires
        first matches Some(Ok(m)) ==> has_successor_id(m.body.msg_id),
    ensures
        r == handshake_outcome(first),
{
    match first {
        None => Err(HandshakeError::Missing),
        Some(Err(e)) => Err(HandshakeError::Malformed(e)),
        Some(Ok(m)) => {
            let ack = reply(&m, InitResponse::InitOk);
            match m.body.payload {
                InitRequest::Init(init) => Ok((init, ack)),
            }
        },
    }
}

} // verus!
