use vstd::prelude::*;
use crate::node::Node;
use crate::message::{Body, Init, Message, derived_reply, has_successor_id, successor};

verus! {

/// Payloads of the echo protocol.
#[derive(Debug, Clone)]
pub enum EchoPayload {
    Echo { echo: String },
    EchoOk { echo: String },
}

/// A stateless node that sends each `Echo` back as `EchoOk`.
#[derive(Debug, Clone, Copy)]
pub struct Echo;

impl Echo {
    /// The echo node; it keeps nothing of the handshake.
    pub fn from_init(_init: Init) -> (r: Echo) {
        Echo
    }

    /// Answers an `Echo` with one `EchoOk` carrying the same text; answers
    /// an `EchoOk` with nothing.
    pub fn handle(&mut self, input: Message<EchoPayload>) -> (r: Vec<Message<EchoPayload>>)
        requires
            has_successor_id(input.body.msg_id),
        ensures
            match input.body.payload {
                EchoPayload::Echo { echo } => r@ == seq![derived_reply(input, EchoPayload::EchoOk { echo })],
                EchoPayload::EchoOk { .. } => r@ == Seq::<Message<EchoPayload>>::empty(),
            },
    {
        let ghost given = input;
        match input.body.payload {
            EchoPayload::Echo { echo } => {
                let r = vec![Message {
                    src: input.dest,
                    dest: input.src,
                    body: Body {
                        msg_id: successor(input.body.msg_id),
                        in_reply_to: input.body.msg_id,
                        payload: EchoPayload::EchoOk { echo },
                    },
                }];
                assert(r@ =~= seq![derived_reply(given, EchoPayload::EchoOk { echo })]);
                r
            },
            EchoPayload::EchoOk { .. } => {
                let r: Vec<Message<EchoPayload>> = Vec::new();
                r
            },
        }
    }
}

impl Node for Echo {
    type Payload = EchoPayload;
    type HandleError = std::convert::Infallible;

    open spec fn inv(&self) -> bool {
        true
    }

    open spec fn initial(&self, init: Init) -> bool {
        true
    }

    open spec fn ready(&self, input: Message<EchoPayload>) -> bool {
        has_successor_id(input.body.msg_id)
    }

    open spec fn handles(
        pre: Echo,
        input: Message<EchoPayload>,
        post: Echo,
        r: Result<Seq<Message<EchoPayload>>, std::convert::Infallible>,
    ) -> bool {
        match input.body.payload {
            EchoPayload::Echo { echo } => r == Ok::<Seq<Message<EchoPayload>>, std::convert::Infallible>(
                seq![derived_reply(input, EchoPayload::EchoOk { echo })],
            ),
            EchoPayload::EchoOk { .. } => r == Ok::<Seq<Message<EchoPayload>>, std::convert::Infallible>(
                Seq::empty(),
            ),
        }
    }

    fn from_init(init: Init) -> (r: Echo) {
        Echo::from_init(init)
    }

    fn can_handle(&self, input: &Message<EchoPayload>) -> (r: bool) {
        input.body.msg_id != Some(usize::MAX)
    }

    fn handle(&mut self, input: Message<EchoPayload>) -> (r: Result<Vec<Message<EchoPayload>>, std::convert::Infallible>) {
        Ok(Echo::handle(self, input))
    }
}

} // verus!
