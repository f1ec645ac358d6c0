use vstd::prelude::*;
use crate::handshake::{HandshakeError, InitRequest, InitResponse, handshake, handshake_outcome};
use crate::message::{Message, has_successor_id};
use crate::node::Node;

verus! {

/// Why a running session stops: a line that did not decode (`D` is the
/// decoder's error), or a handler failure.
#[derive(Debug, Clone)]
pub enum DispatchError<D, H> {
    Decode(D),
    Handle(H),
}

/// A node past its handshake. The only way to make one is `start`, which
/// also yields the `InitOk` reply: no message reaches the node before the
/// handshake has completed and its reply exists.
pub struct Session<N> {
    node: N,
}

/// The handler's outcome inside a dispatch result.
pub open spec fn handler_outcome<P, D, H>(r: Result<Vec<Message<P>>, DispatchError<D, H>>) -> Result<Seq<Message<P>>, H> {
    match r {
        Ok(out) => Ok(out@),
        Err(DispatchError::Handle(h)) => Err(h),
        Err(DispatchError::Decode(_)) => Err(arbitrary()),
    }
}

impl<N: Node> Session<N> {
    /// The node's state.
    pub closed spec fn node(self) -> N {
        self.node
    }

    /// The node's invariant holds.
    pub open spec fn wf(self) -> bool {
        self.node().inv()
    }

    /// Completes the handshake on the first input line and builds the node
    /// from it. On success, returns the session with the reply to send
    /// before anything else; on failure, the handshake's error.
    pub fn start<E>(first: Option<Result<Message<InitRequest>, E>>) -> (r: Result<
        (Session<N>, Message<InitResponse>),
        HandshakeError<E>,
    >)
        requires
            first matches Some(Ok(m)) ==> has_successor_id(m.body.msg_id),
        ensures
            handshake_outcome(first) is Ok <==> r is Ok,
            r is Ok ==> {
                &&& r->Ok_0.1 == handshake_outcome(first)->Ok_0.1
                &&& r->Ok_0.0.wf()
                &&& r->Ok_0.0.node().initial(handshake_outcome(first)->Ok_0.0)
            },
            r is Err ==> r->Err_0 == handshake_outcome(first)->Err_0,
    {
        match handshake(first) {
            Ok((init, ack)) => Ok((Session { node: N::from_init(init) }, ack)),
            Err(e) => Err(e),
        }
    }

    /// Whether the node can take `input` next.
    pub fn can_accept(&self, input: &Message<N::Payload>) -> (r: bool)
        ensures
            r == self.node().ready(*input),
    {
        self.node.can_handle(input)
    }

    /// Handles one input line: a line that did not decode stops the session
    /// with `Decode`; a decoded message goes to the node, whose failure stops
    /// the session with `Handle` and whose replies are returned, in order,
    /// to be sent before the next line is read.
    pub fn receive<D>(&mut self, line: Result<Message<N::Payload>, D>) -> (r: Result<
        Vec<Message<N::Payload>>,
        DispatchError<D, N::HandleError>,
    >)
        requires
            old(self).wf(),
            line matches Ok(m) ==> old(self).node().ready(m),
        ensures
            final(self).wf(),
            match line {
                Err(d) => r == Err::<Vec<Message<N::Payload>>, DispatchError<D, N::HandleError>>(
                    DispatchError::Decode(d),
                ) && final(self).node() == old(self).node(),
                Ok(m) => !(r is Err && r->Err_0 is Decode) && N::handles(
                    old(self).node(),
                    m,
                    final(self).node(),
                    handler_outcome(r),
                ),
            },
    {
        match line {
            Err(d) => Err(DispatchError::Decode(d)),
            Ok(m) => match self.node.handle(m) {
                Ok(out) => Ok(out),
                Err(h) => Err(DispatchError::Handle(h)),
            },
        }
    }
}

} // verus!
