use vstd::prelude::*;
use crate::node::Node;
use crate::message::{Init, Message, derived_reply, has_successor_id, reply};

verus! {

/// Payloads of the unique-id protocol; an id is a UUID as its 128-bit
/// big-endian value.
#[derive(Debug, Clone)]
pub enum Payload {
    Generate,
    GenerateOk { id: u128 },
}

/// A UUID value of version 4 (random) in the RFC 4122 variant.
pub open spec fn is_random_uuid(id: u128) -> bool {
    &&& (id >> 76u128) & 0xfu128 == 4u128
    &&& (id >> 62u128) & 0x3u128 == 2u128
}

/// Relies on uuid::Uuid::new_v4, read through Uuid::as_u128: a fresh random
/// UUID, whose version field is 4 and whose variant bits are `10`.
#[verifier::external_body]
fn random_uuid() -> (r: u128)
    ensures
        is_random_uuid(r),
{
    uuid::Uuid::new_v4().as_u128()
}

/// A stateless node that answers every message with a fresh id.
#[derive(Debug, Clone, Copy)]
pub struct UniqueId;

impl UniqueId {
    /// The unique-id node; it keeps nothing of the handshake.
    pub fn from_init(_init: Init) -> (r: UniqueId) {
        UniqueId
    }

    /// The reply to `input` that hands out `id`.
    pub fn reply_with_id(input: Message<Payload>, id: u128) -> (r: Vec<Message<Payload>>)
        requires
            has_successor_id(input.body.msg_id),
        ensures
            r@ == seq![derived_reply(input, Payload::GenerateOk { id })],
    {
        let out = reply(&input, Payload::GenerateOk { id });
        let r = vec![out];
        assert(r@ =~= seq![derived_reply(input, Payload::GenerateOk { id })]);
        r
    }

    /// Answers any message with one `GenerateOk` carrying a freshly drawn
    /// random UUID.
    pub fn handle(&mut self, input: Message<Payload>) -> (r: Vec<Message<Payload>>)
        requires
            has_successor_id(input.body.msg_id),
        ensures
            r@.len() == 1,
            exists|id: u128| is_random_uuid(id) && r@[0] == derived_reply(input, Payload::GenerateOk { id }),
    {
        let id = random_uuid();
        Self::reply_with_id(input, id)
    }
}

impl Node for UniqueId {
    type Payload = Payload;
    type HandleError = std::convert::Infallible;

    open spec fn inv(&self) -> bool {
        true
    }

    open spec fn initial(&self, init: Init) -> bool {
        true
    }

    open spec fn ready(&self, input: Message<Payload>) -> bool {
        has_successor_id(input.body.msg_id)
    }

    open spec fn handles(
        pre: UniqueId,
        input: Message<Payload>,
        post: UniqueId,
        r: Result<Seq<Message<Payload>>, std::convert::Infallible>,
    ) -> bool {
        &&& r is Ok
        &&& r->Ok_0.len() == 1
        &&& exists|id: u128| is_random_uuid(id) && r->Ok_0[0] == derived_reply(input, Payload::GenerateOk { id })
    }

    fn from_init(init: Init) -> (r: UniqueId) {
        UniqueId::from_init(init)
    }

    fn can_handle(&self, input: &Message<Payload>) -> (r: bool) {
        input.body.msg_id != Some(usize::MAX)
    }

    fn handle(&mut self, input: Message<Payload>) -> (r: Result<Vec<Message<Payload>>, std::convert::Infallible>) {
        Ok(UniqueId::handle(self, input))
    }
}

} // verus!
