use vstd::prelude::*;

verus! {

/// One wire message: sender, recipient and body.
#[derive(Debug, Clone)]
pub struct Message<P> {
    pub src: String,
    pub dest: String,
    pub body: Body<P>,
}

/// Correlation metadata and the protocol-specific payload.
#[derive(Debug, Clone)]
pub struct Body<P> {
    pub msg_id: Option<usize>,
    pub in_reply_to: Option<usize>,
    pub payload: P,
}

/// Identity and roster handed to a node by the handshake.
#[derive(Debug, Clone)]
pub struct Init {
    pub node_id: String,
    pub node_ids: Vec<String>,
}

/// The id carried by a reply derived from a request: one past the request's id.
pub open spec fn successor_id(id: Option<usize>) -> Option<usize> {
    match id {
        Some(m) => Some((m + 1) as usize),
        None => None,
    }
}

/// A request's id leaves room for its successor.
pub open spec fn has_successor_id(id: Option<usize>) -> bool {
    match id {
        Some(m) => m < usize::MAX,
        None => true,
    }
}

/// `reply` is addressed back to the sender of `input` and correlated with it.
pub open spec fn answers<P, Q>(reply: Message<Q>, input: Message<P>) -> bool {
    &&& reply.src@ == input.dest@
    &&& reply.dest@ == input.src@
    &&& reply.body.in_reply_to == input.body.msg_id
}

/// The single reply to `input` carrying `payload`, with ids derived from the request.
pub open spec fn derived_reply<P, Q>(input: Message<P>, payload: Q) -> Message<Q> {
    Message {
        src: input.dest,
        dest: input.src,
        body: Body {
            msg_id: successor_id(input.body.msg_id),
            in_reply_to: input.body.msg_id,
            payload,
        },
    }
}

/// One past a request's id, if it has one.
pub fn successor(id: Option<usize>) -> (r: Option<usize>)
    requires
        has_successor_id(id),
    ensures
        r == successor_id(id),
{
    match id {
        Some(m) => Some(m + 1),
        None => None,
    }
}

/// Builds the reply to `input` carrying `payload`: source and destination
/// swapped, `in_reply_to` set to the request's id, and the reply's own id one
/// past it.
pub fn reply<P, Q>(input: &Message<P>, payload: Q) -> (r: Message<Q>)
    requires
        has_successor_id(input.body.msg_id),
    ensures
        r == derived_reply(*input, payload),
        answers(r, *input),
{
    Message {
        src: input.dest.clone(),
        dest: input.src.clone(),
        body: Body {
            msg_id: successor(input.body.msg_id),
            in_reply_to: input.body.msg_id,
            payload,
        },
    }
}

} // verus!
