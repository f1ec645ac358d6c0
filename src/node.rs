use vstd::prelude::*;
use crate::message::{Init, Message};

verus! {

/// A node kind: built once from the handshake's identity, then fed the
/// messages that follow, one at a time.
pub trait Node: Sized {
    type Payload;
    type HandleError;

    /// What the node keeps true of its state between messages.
    spec fn inv(&self) -> bool;

    /// The node is a fresh one for the handshake's `init`.
    spec fn initial(&self, init: Init) -> bool;

    /// The node can take `input` next.
    spec fn ready(&self, input: Message<Self::Payload>) -> bool;

    /// Handling `input` turns `pre` into `post` and returns `r`.
    spec fn handles(
        pre: Self,
        input: Message<Self::Payload>,
        post: Self,
        r: Result<Seq<Message<Self::Payload>>, Self::HandleError>,
    ) -> bool;

    fn from_init(init: Init) -> (r: Self)
        ensures
            r.inv(),
            r.initial(init),
    ;

    /// Whether the node can take `input` next.
    fn can_handle(&self, input: &Message<Self::Payload>) -> (r: bool)
        ensures
            r == self.ready(*input),
    ;

    fn handle(&mut self, input: Message<Self::Payload>) -> (r: Result<Vec<Message<Self::Payload>>, Self::HandleError>)
        requires
            old(self).inv(),
            old(self).ready(input),
        ensures
            final(self).inv(),
            Self::handles(
                *old(self),
                input,
                *final(self),
                match r {
                    Ok(out) => Ok(out@),
                    Err(e) => Err(e),
                },
            ),
    ;
}

} // verus!
