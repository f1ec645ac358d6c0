use vstd::prelude::*;
use crate::message::{Body, Init, Message, answers};
use crate::node::Node;

verus! {

/// Payloads of the broadcast protocol.
#[derive(Debug, Clone)]
pub enum Payload {
    Broadcast { message: usize },
    BroadcastOk,
    Read,
    ReadOk { messages: Vec<usize> },
    /// Each member's id with its neighbor ids.
    Topology { topology: Vec<(String, Vec<String>)> },
    TopologyOk,
}

/// A topology assignment that names no entry for the receiving node.
#[derive(Debug, Clone, Copy, PartialEq, Eq)]
pub struct NoTopology;

/// Whether `topology` holds an entry keyed by `id`.
pub open spec fn has_entry(topology: Seq<(String, Vec<String>)>, id: Seq<char>) -> bool {
    exists|i: int| 0 <= i < topology.len() && (#[trigger] topology[i]).0@ == id
}

/// `i` is the position of the first entry keyed by `id`.
pub open spec fn is_first_entry(topology: Seq<(String, Vec<String>)>, id: Seq<char>, i: int) -> bool {
    &&& 0 <= i < topology.len()
    &&& topology[i].0@ == id
    &&& forall|j: int| 0 <= j < i ==> (#[trigger] topology[j]).0@ != id
}

/// The neighbor list that `topology` assigns to `id`: that of its first entry keyed by `id`.
pub open spec fn neighbors_of(topology: Seq<(String, Vec<String>)>, id: Seq<char>) -> Vec<String>
    recommends
        has_entry(topology, id),
{
    topology[choose|i: int| is_first_entry(topology, id, i)].1
}

/// State of a broadcast node: its own id, the values it has accepted (each
/// once, in order of arrival), its neighbors, and the id for its next reply.
pub struct Broadcast {
    node: String,
    messages: Vec<usize>,
    neighborhood: Vec<String>,
    msg_id: usize,
}

/// The reply to `input` that a broadcast node with reply id `id` sends.
pub open spec fn is_reply_with_id(reply: Message<Payload>, input: Message<Payload>, id: usize) -> bool {
    answers(reply, input) && reply.body.msg_id == Some(id)
}

/// `r` holds exactly one message, the reply to `input` with reply id `id`.
pub open spec fn single_reply(r: Result<Seq<Message<Payload>>, NoTopology>, input: Message<Payload>, id: usize) -> bool {
    &&& r is Ok
    &&& r->Ok_0.len() == 1
    &&& is_reply_with_id(r->Ok_0[0], input, id)
}

impl Broadcast {
    /// The node's own id.
    pub closed spec fn own_id(self) -> Seq<char> {
        self.node@
    }

    /// The accepted values.
    pub closed spec fn accepted(self) -> Set<usize> {
        self.messages@.to_set()
    }

    /// The accepted values in order of arrival.
    pub closed spec fn accepted_seq(self) -> Seq<usize> {
        self.messages@
    }

    /// The neighbors last assigned.
    pub closed spec fn neighbors(self) -> Seq<String> {
        self.neighborhood@
    }

    /// The id that the next reply will carry.
    pub closed spec fn next_id(self) -> usize {
        self.msg_id
    }

    /// Each value is accepted once.
    pub closed spec fn wf(self) -> bool {
        self.messages@.no_duplicates()
    }

    /// What one handled message does to a node and what it returns.
    pub open spec fn handled(
        pre: Broadcast,
        input: Message<Payload>,
        post: Broadcast,
        r: Result<Seq<Message<Payload>>, NoTopology>,
    ) -> bool {
        &&& post.wf()
        &&& post.own_id() == pre.own_id()
        &&& post.next_id() == pre.next_id() + 1
        &&& match input.body.payload {
            Payload::Broadcast { message } => {
                &&& post.accepted() == pre.accepted().insert(message)
                &&& post.neighbors() == pre.neighbors()
                &&& single_reply(r, input, pre.next_id())
                &&& r->Ok_0[0].body.payload is BroadcastOk
            },
            Payload::Read => {
                &&& post.accepted_seq() == pre.accepted_seq()
                &&& post.neighbors() == pre.neighbors()
                &&& single_reply(r, input, pre.next_id())
                &&& match r->Ok_0[0].body.payload {
                    Payload::ReadOk { messages } => messages@ == pre.accepted_seq(),
                    _ => false,
                }
            },
            Payload::Topology { topology } => {
                &&& post.accepted_seq() == pre.accepted_seq()
                &&& if has_entry(topology@, pre.own_id()) {
                    &&& post.neighbors() == neighbors_of(topology@, pre.own_id())@
                    &&& single_reply(r, input, pre.next_id())
                    &&& r->Ok_0[0].body.payload is TopologyOk
                } else {
                    &&& post.neighbors() == pre.neighbors()
                    &&& r == Err::<Seq<Message<Payload>>, NoTopology>(NoTopology)
                }
            },
            _ => {
                &&& post.accepted_seq() == pre.accepted_seq()
                &&& post.neighbors() == pre.neighbors()
                &&& r == Ok::<Seq<Message<Payload>>, NoTopology>(Seq::empty())
            },
        }
    }

    /// A node with the handshake's identity, no accepted values, no neighbors,
    /// and reply id 1.
    pub fn from_init(init: Init) -> (r: Broadcast)
        ensures
            r.wf(),
            r.own_id() == init.node_id@,
            r.accepted_seq() == Seq::<usize>::empty(),
            r.accepted() == Set::<usize>::empty(),
            r.neighbors() == Seq::<String>::empty(),
            r.next_id() == 1,
    {
        let r = Broadcast { node: init.node_id, messages: Vec::new(), neighborhood: Vec::new(), msg_id: 1 };
        assert(r.messages@.to_set() =~= Set::<usize>::empty());
        r
    }

    /// The node's own id.
    pub fn node(&self) -> (r: &String)
        ensures
            r@ == self.own_id(),
    {
        &self.node
    }

    /// The accepted values, each once, in order of arrival.
    pub fn messages(&self) -> (r: &Vec<usize>)
        ensures
            r@ == self.accepted_seq(),
            r@.to_set() == self.accepted(),
    {
        &self.messages
    }

    /// The neighbors last assigned, in the order given.
    pub fn neighborhood(&self) -> (r: &Vec<String>)
        ensures
            r@ == self.neighbors(),
    {
        &self.neighborhood
    }

    /// The id that the next reply will carry.
    pub fn msg_id(&self) -> (r: usize)
        ensures
            r == self.next_id(),
    {
        self.msg_id
    }

    /// Adds `message` to the accepted values unless it is there already.
    fn accept(&mut self, message: usize)
        requires
            old(self).wf(),
        ensures
            final(self).wf(),
            final(self).accepted() == old(self).accepted().insert(message),
            final(self).node == old(self).node,
            final(self).neighborhood == old(self).neighborhood,
            final(self).msg_id == old(self).msg_id,
    {
        let mut i: usize = 0;
        while i < self.messages.len()
            invariant
                *self == *old(self),
                self.wf(),
                0 <= i <= self.messages@.len(),
                forall|j: int| 0 <= j < i ==> self.messages@[j] != message,
            decreases self.messages@.len() - i,
        {
            if self.messages[i] == message {
                assert(self.messages@.to_set().contains(self.messages@[i as int]));
                assert(self.messages@.to_set().insert(message) =~= self.messages@.to_set());
                return;
            }
            i = i + 1;
        }
        let ghost before = self.messages@;
        self.messages.push(message);
        assert(self.messages@ == before.push(message));
        assert(self.messages@.no_duplicates()) by {
            assert forall|a: int, b: int| 0 <= a < b < self.messages@.len() implies self.messages@[a] != self.messages@[b] by {
                if b == before.len() {
                    assert(self.messages@[a] == before[a]);
                }
            }
        }
        proof {
            before.lemma_push_to_set_commute(message);
        }
    }

    /// A copy of the accepted values.
    fn snapshot(&self) -> (r: Vec<usize>)
        ensures
            r@ == self.messages@,
    {
        let mut r: Vec<usize> = Vec::new();
        let mut i: usize = 0;
        while i < self.messages.len()
            invariant
                0 <= i <= self.messages@.len(),
                r@ == self.messages@.subrange(0, i as int),
            decreases self.messages@.len() - i,
        {
            r.push(self.messages[i]);
            i = i + 1;
            assert(r@ =~= self.messages@.subrange(0, i as int));
        }
        assert(r@ =~= self.messages@);
        r
    }

    /// Handles one message. `Broadcast` accepts its value, `Read` returns the
    /// accepted values, `Topology` takes the node's own entry as its
    /// neighbors and fails where there is none; each is answered with one
    /// reply carrying the node's reply id. Replies to this node's own
    /// messages are answered with nothing. The reply id advances by one in
    /// every case, failure included.
    pub fn handle(&mut self, input: Message<Payload>) -> (r: Result<Vec<Message<Payload>>, NoTopology>)
        requires
            old(self).wf(),
            old(self).next_id() < usize::MAX,
        ensures
            Self::handled(
                *old(self),
                input,
                *final(self),
                match r {
                    Ok(out) => Ok(out@),
                    Err(e) => Err(e),
                },
            ),
    {
        let id = self.msg_id;
        let out = match input.body.payload {
            Payload::Broadcast { message } => {
                self.accept(message);
                Ok(vec![Message {
                    src: input.dest,
                    dest: input.src,
                    body: Body { msg_id: Some(id), in_reply_to: input.body.msg_id, payload: Payload::BroadcastOk },
                }])
            },
            Payload::Read => {
                let messages = self.snapshot();
                Ok(vec![Message {
                    src: input.dest,
                    dest: input.src,
                    body: Body { msg_id: Some(id), in_reply_to: input.body.msg_id, payload: Payload::ReadOk { messages } },
                }])
            },
            Payload::Topology { mut topology } => {
                let ghost given = topology@;
                let mut i: usize = 0;
                let mut found = false;
                while i < topology.len() && !found
                    invariant
                        topology@ == given,
                        0 <= i <= topology@.len(),
                        found ==> is_first_entry(given, self.node@, i as int),
                        !found ==> forall|j: int| 0 <= j < i ==> (#[trigger] given[j]).0@ != self.node@,
                    decreases topology@.len() - i + (if found { 0int } else { 1int }),
                {
                    if topology[i].0 == self.node {
                        found = true;
                    } else {
                        i = i + 1;
                    }
                }
                if found {
                    proof {
                        assert(is_first_entry(given, self.node@, i as int));
                        let k = choose|k: int| is_first_entry(given, self.node@, k);
                        assert(k == i) by {
                            if k < i {
                                assert(given[k].0@ != self.node@);
                            } else if k > i {
                                assert(given[i as int].0@ != self.node@);
                            }
                        }
                    }
                    let entry = topology.remove(i);
                    self.neighborhood = entry.1;
                    Ok(vec![Message {
                        src: input.dest,
                        dest: input.src,
                        body: Body { msg_id: Some(id), in_reply_to: input.body.msg_id, payload: Payload::TopologyOk },
                    }])
                } else {
                    Err(NoTopology)
                }
            },
            Payload::BroadcastOk | Payload::ReadOk { .. } | Payload::TopologyOk => Ok(vec![]),
        };
        self.msg_id = self.msg_id + 1;
        out
    }
}

/// `states[i + 1]` and `outs[i]` are what handling `inputs[i]` in
/// `states[i]` gave, each handling successful.
pub open spec fn is_run(
    states: Seq<Broadcast>,
    inputs: Seq<Message<Payload>>,
    outs: Seq<Seq<Message<Payload>>>,
) -> bool {
    &&& states.len() == inputs.len() + 1
    &&& outs.len() == inputs.len()
    &&& forall|i: int|
        0 <= i < inputs.len() ==> Broadcast::handled(states[i], #[trigger] inputs[i], states[i + 1], Ok(outs[i]))
}

/// The values of the `Broadcast` messages among `inputs`.
pub open spec fn broadcast_values(inputs: Seq<Message<Payload>>) -> Set<usize> {
    Set::new(|v: usize| exists|i: int| 0 <= i < inputs.len() && (#[trigger] inputs[i]).body.payload == (Payload::Broadcast { message: v }))
}

/// A successful handling answers with at most one message, which is
/// correlated with the input and carries the node's reply id.
pub proof fn lemma_step_replies(pre: Broadcast, input: Message<Payload>, post: Broadcast, out: Seq<Message<Payload>>)
    requires
        Broadcast::handled(pre, input, post, Ok(out)),
    ensures
        out.len() <= 1,
        out.len() == 1 ==> is_reply_with_id(out[0], input, pre.next_id()),
{
}

/// Accepted values are never lost: handling any message, successfully or
/// not, keeps every value accepted before.
pub proof fn lemma_accepted_grows(
    pre: Broadcast,
    input: Message<Payload>,
    post: Broadcast,
    r: Result<Seq<Message<Payload>>, NoTopology>,
)
    requires
        Broadcast::handled(pre, input, post, r),
    ensures
        pre.accepted().subset_of(post.accepted()),
{
}

/// Over a run, the reply id advances by one per handled message.
proof fn lemma_run_ids(states: Seq<Broadcast>, inputs: Seq<Message<Payload>>, outs: Seq<Seq<Message<Payload>>>, k: int)
    requires
        is_run(states, inputs, outs),
        0 <= k <= inputs.len(),
    ensures
        states[k].next_id() == states[0].next_id() + k,
    decreases k,
{
    if k > 0 {
        lemma_run_ids(states, inputs, outs, k - 1);
        assert(Broadcast::handled(states[k - 1], inputs[k - 1], states[k], Ok(outs[k - 1])));
    }
}

/// Id correlation: over a run, every reply answers its input's `msg_id`,
/// and no two replies carry the same `msg_id`.
pub proof fn lemma_reply_ids_unique(
    states: Seq<Broadcast>,
    inputs: Seq<Message<Payload>>,
    outs: Seq<Seq<Message<Payload>>>,
    i: int,
    a: int,
    j: int,
    b: int,
)
    requires
        is_run(states, inputs, outs),
        0 <= i < inputs.len(),
        0 <= j < inputs.len(),
        0 <= a < outs[i].len(),
        0 <= b < outs[j].len(),
        i != j || a != b,
    ensures
        outs[i][a].body.in_reply_to == inputs[i].body.msg_id,
        outs[i][a].body.msg_id is Some,
        outs[i][a].body.msg_id != outs[j][b].body.msg_id,
{
    assert(Broadcast::handled(states[i], inputs[i], states[i + 1], Ok(outs[i])));
    assert(Broadcast::handled(states[j], inputs[j], states[j + 1], Ok(outs[j])));
    lemma_step_replies(states[i], inputs[i], states[i + 1], outs[i]);
    lemma_step_replies(states[j], inputs[j], states[j + 1], outs[j]);
    lemma_run_ids(states, inputs, outs, i);
    lemma_run_ids(states, inputs, outs, j);
}

/// Over a run of `Broadcast` messages only, the accepted values grow to
/// the values broadcast so far.
proof fn lemma_broadcast_prefix(states: Seq<Broadcast>, inputs: Seq<Message<Payload>>, outs: Seq<Seq<Message<Payload>>>, k: int)
    requires
        is_run(states, inputs, outs),
        forall|i: int| 0 <= i < inputs.len() ==> (#[trigger] inputs[i]).body.payload is Broadcast,
        0 <= k <= inputs.len(),
    ensures
        states[k].accepted() == states[0].accepted().union(broadcast_values(inputs.take(k))),
    decreases k,
{
    if k == 0 {
        assert(broadcast_values(inputs.take(0)) =~= Set::<usize>::empty());
        assert(states[0].accepted().union(Set::<usize>::empty()) =~= states[0].accepted());
    } else {
        lemma_broadcast_prefix(states, inputs, outs, k - 1);
        assert(Broadcast::handled(states[k - 1], inputs[k - 1], states[k], Ok(outs[k - 1])));
        let v = inputs[k - 1].body.payload->Broadcast_message;
        assert(inputs[k - 1].body.payload == (Payload::Broadcast { message: v }));
        let prev = inputs.take(k - 1);
        let cur = inputs.take(k);
        assert(broadcast_values(cur) =~= broadcast_values(prev).insert(v)) by {
            assert(cur[k - 1] == inputs[k - 1]);
            assert forall|x: usize| broadcast_values(cur).contains(x) implies broadcast_values(prev).insert(x).contains(x)
                && (x == v || broadcast_values(prev).contains(x)) by {
                let i = choose|i: int| 0 <= i < cur.len() && (#[trigger] cur[i]).body.payload == (Payload::Broadcast { message: x });
                if i < k - 1 {
                    assert(prev[i] == cur[i]);
                }
            }
            assert forall|x: usize| broadcast_values(prev).contains(x) implies broadcast_values(cur).contains(x) by {
                let i = choose|i: int| 0 <= i < prev.len() && (#[trigger] prev[i]).body.payload == (Payload::Broadcast { message: x });
                assert(cur[i] == prev[i]);
            }
        }
        assert(states[k].accepted() =~= states[0].accepted().union(broadcast_values(cur)));
    }
}

/// Broadcast monotonicity: fed `Broadcast` messages only, a fresh node has
/// accepted exactly the values broadcast, and a `Read` that follows returns
/// exactly those values, each once.
pub proof fn lemma_read_after_broadcasts(
    states: Seq<Broadcast>,
    inputs: Seq<Message<Payload>>,
    outs: Seq<Seq<Message<Payload>>>,
    read: Message<Payload>,
    post: Broadcast,
    out: Seq<Message<Payload>>,
)
    requires
        is_run(states, inputs, outs),
        states[0].accepted() == Set::<usize>::empty(),
        forall|i: int| 0 <= i < inputs.len() ==> (#[trigger] inputs[i]).body.payload is Broadcast,
        read.body.payload is Read,
        Broadcast::handled(states.last(), read, post, Ok(out)),
    ensures
        states.last().accepted() == broadcast_values(inputs),
        out.len() == 1,
        out[0].body.payload matches Payload::ReadOk { messages } && messages@.to_set() == broadcast_values(inputs)
            && messages@.no_duplicates(),
{
    lemma_broadcast_prefix(states, inputs, outs, inputs.len() as int);
    assert(inputs.take(inputs.len() as int) =~= inputs);
    assert(Set::<usize>::empty().union(broadcast_values(inputs)) =~= broadcast_values(inputs));
}

/// Topology precondition: an assignment fails exactly when it has no entry
/// for the receiving node; when it has one, the node's neighbors become that
/// entry's list, in the order given.
pub proof fn lemma_topology_assignment(
    pre: Broadcast,
    input: Message<Payload>,
    post: Broadcast,
    r: Result<Seq<Message<Payload>>, NoTopology>,
)
    requires
        input.body.payload is Topology,
        Broadcast::handled(pre, input, post, r),
    ensures
        r is Err <==> !has_entry(input.body.payload->Topology_topology@, pre.own_id()),
        r is Ok ==> post.neighbors() == neighbors_of(input.body.payload->Topology_topology@, pre.own_id())@,
        r is Err ==> post.neighbors() == pre.neighbors(),
{
}

/// Idempotent read: two `Read`s in a row return the same values in the
/// same order.
pub proof fn lemma_read_idempotent(
    s0: Broadcast,
    read1: Message<Payload>,
    s1: Broadcast,
    out1: Seq<Message<Payload>>,
    read2: Message<Payload>,
    s2: Broadcast,
    out2: Seq<Message<Payload>>,
)
    requires
        read1.body.payload is Read,
        read2.body.payload is Read,
        Broadcast::handled(s0, read1, s1, Ok(out1)),
        Broadcast::handled(s1, read2, s2, Ok(out2)),
    ensures
        out1.len() == 1,
        out2.len() == 1,
        out1[0].body.payload matches Payload::ReadOk { messages: m1 } && out2[0].body.payload matches Payload::ReadOk { messages: m2 } && m1@ == m2@,
{
}

impl Node for Broadcast {
    type Payload = Payload;
    type HandleError = NoTopology;

    open spec fn inv(&self) -> bool {
        self.wf()
    }

    open spec fn initial(&self, init: Init) -> bool {
        &&& self.own_id() == init.node_id@
        &&& self.accepted_seq() == Seq::<usize>::empty()
        &&& self.neighbors() == Seq::<String>::empty()
        &&& self.next_id() == 1
    }

    open spec fn ready(&self, input: Message<Payload>) -> bool {
        self.next_id() < usize::MAX
    }

    open spec fn handles(
        pre: Broadcast,
        input: Message<Payload>,
        post: Broadcast,
        r: Result<Seq<Message<Payload>>, NoTopology>,
    ) -> bool {
        Broadcast::handled(pre, input, post, r)
    }

    fn from_init(init: Init) -> (r: Broadcast) {
        Broadcast::from_init(init)
    }

    fn can_handle(&self, input: &Message<Payload>) -> (r: bool) {
        self.msg_id < usize::MAX
    }

    fn handle(&mut self, input: Message<Payload>) -> (r: Result<Vec<Message<Payload>>, NoTopology>) {
        Broadcast::handle(self, input)
    }
}

} // verus!
