//! The state of one node and its reaction to each message.
use vstd::prelude::*;
use crate::ids::{fresh_uuid, UUID_V4_BITS, UUID_V4_MASK};
use crate::message::{
    models, strs, topology_view, AddOk, BodyModel, Broadcast, BroadcastOk, EchoOk, GenerateOk,
    InitOk, Msg, MsgBody, MsgModel, ReadOk, TopologyOk,
};

verus! {

/// Model of a node.
pub struct NodeModel {
    /// This node's identifier.
    pub id: Seq<char>,
    /// The identifiers of the whole cluster.
    pub members: Set<Seq<char>>,
    /// The identifier that the next outgoing message gets.
    pub next_msg_id: nat,
    /// Broadcast payloads, in the order first seen.
    pub messages: Seq<usize>,
    /// Where new payloads are flooded to, in order.
    pub neighbors: Seq<Seq<char>>,
    /// The grow-only counter.
    pub counter: nat,
}

impl NodeModel {
    /// No payload is stored twice.
    pub open spec fn wf(self) -> bool {
        self.messages.no_duplicates()
    }

    /// The state with the next message identifier taken.
    pub open spec fn advanced(self, k: nat) -> NodeModel {
        NodeModel { next_msg_id: self.next_msg_id + k, ..self }
    }
}

/// A fresh node, as `init` makes it.
pub open spec fn initial(id: Seq<char>, members: Set<Seq<char>>) -> NodeModel {
    NodeModel {
        id,
        members,
        next_msg_id: 0,
        messages: Seq::empty(),
        neighbors: Seq::empty(),
        counter: 0,
    }
}

/// The neighbours that a topology lists for `id`; none where it does not list `id`.
pub open spec fn neighbors_in(t: Seq<(Seq<char>, Seq<Seq<char>>)>, id: Seq<char>) -> Seq<Seq<char>>
    decreases t.len(),
{
    if t.len() == 0 {
        Seq::empty()
    } else if t[0].0 == id {
        t[0].1
    } else {
        neighbors_in(t.drop_first(), id)
    }
}

/// A message from node `n` to `dest`.
pub open spec fn reply(n: NodeModel, dest: Seq<char>, body: BodyModel) -> MsgModel {
    MsgModel { src: n.id, dest, body }
}

/// One `Broadcast` of `message` to each neighbour, in order, numbered from the
/// next message identifier on.
pub open spec fn flood(n: NodeModel, message: usize) -> Seq<MsgModel> {
    Seq::new(
        n.neighbors.len(),
        |i: int|
            reply(
                n,
                n.neighbors[i],
                BodyModel::Broadcast { msg_id: (n.next_msg_id + i) as usize, message },
            ),
    )
}

/// Whether the message identifiers and the counter stay within `usize` while
/// node `n` handles `body`.
pub open spec fn fits(n: NodeModel, body: BodyModel) -> bool {
    &&& n.next_msg_id + n.neighbors.len() + 1 <= usize::MAX
    &&& n.counter <= usize::MAX
    &&& (body matches BodyModel::Add { delta, .. } ==> n.counter + delta <= usize::MAX)
}

/// The next state and the messages sent, in order, when node `n` handles `m`;
/// `fresh` is the identifier that a `Generate` gets.
pub open spec fn step(n: NodeModel, m: MsgModel, fresh: u128) -> (NodeModel, Seq<MsgModel>) {
    let k = n.next_msg_id as usize;
    match m.body {
        BodyModel::Echo { msg_id, echo } => (
            n.advanced(1),
            seq![reply(n, m.src, BodyModel::EchoOk { msg_id: k, in_reply_to: msg_id, echo })],
        ),
        BodyModel::Init { msg_id, .. } => (
            n,
            seq![reply(n, m.src, BodyModel::InitOk { in_reply_to: msg_id })],
        ),
        BodyModel::Generate { msg_id } => (
            n.advanced(1),
            seq![reply(n, m.src, BodyModel::GenerateOk { msg_id: k, in_reply_to: msg_id, id: fresh })],
        ),
        BodyModel::Broadcast { msg_id, message } => {
            if n.messages.contains(message) {
                (
                    n.advanced(1),
                    seq![reply(n, m.src, BodyModel::BroadcastOk { msg_id: k, in_reply_to: msg_id })],
                )
            } else {
                let j = n.neighbors.len();
                (
                    NodeModel { messages: n.messages.push(message), ..n.advanced(j + 1) },
                    flood(n, message).push(
                        reply(
                            n,
                            m.src,
                            BodyModel::BroadcastOk {
                                msg_id: (n.next_msg_id + j) as usize,
                                in_reply_to: msg_id,
                            },
                        ),
                    ),
                )
            }
        },
        BodyModel::Read { msg_id } => (
            n.advanced(1),
            seq![
                reply(
                    n,
                    m.src,
                    BodyModel::ReadOk {
                        msg_id: k,
                        in_reply_to: msg_id,
                        messages: n.messages,
                        value: n.counter as usize,
                    },
                ),
            ],
        ),
        BodyModel::Topology { msg_id, topology } => (
            NodeModel { neighbors: neighbors_in(topology, n.id), ..n.advanced(1) },
            seq![reply(n, m.src, BodyModel::TopologyOk { msg_id: k, in_reply_to: msg_id })],
        ),
        BodyModel::Add { msg_id, delta } => (
            NodeModel { counter: n.counter + delta as nat, ..n.advanced(1) },
            seq![reply(n, m.src, BodyModel::AddOk { msg_id: k, in_reply_to: msg_id })],
        ),
        _ => (n, Seq::empty()),
    }
}

/// One member of the cluster.
pub struct Node {
    id: String,
    ids: Vec<String>,
    msg_id: usize,
    messages: Vec<usize>,
    neighbors: Vec<String>,
    counter: usize,
}

impl View for Node {
    type V = NodeModel;

    closed spec fn view(&self) -> NodeModel {
        NodeModel {
            id: self.id@,
            members: strs(self.ids@).to_set(),
            next_msg_id: self.msg_id as nat,
            messages: self.messages@,
            neighbors: strs(self.neighbors@),
            counter: self.counter as nat,
        }
    }
}

/// A copy of a list of strings.
fn copy_strings(v: &Vec<String>) -> (r: Vec<String>)
    ensures
        strs(r@) == strs(v@),
{
    let mut r: Vec<String> = Vec::new();
    for i in 0..v.len()
        invariant
            r@.len() == i,
            forall|j: int| 0 <= j < i ==> r@[j]@ == v@[j]@,
    {
        r.push(v[i].clone());
    }
    assert(strs(r@) =~= strs(v@));
    r
}

/// The neighbours that topology `t` lists for `id`.
fn lookup_neighbors(t: &Vec<(String, Vec<String>)>, id: &String) -> (r: Vec<String>)
    ensures
        strs(r@) == neighbors_in(topology_view(t@), id@),
{
    let mut i: usize = 0;
    assert(topology_view(t@).subrange(0, t.len() as int) =~= topology_view(t@));
    while i < t.len()
        invariant
            i <= t.len(),
            neighbors_in(topology_view(t@), id@) == neighbors_in(
                topology_view(t@).subrange(i as int, t.len() as int),
                id@,
            ),
        decreases t.len() - i,
    {
        let ghost rest = topology_view(t@).subrange(i as int, t.len() as int);
        assert(rest.drop_first() =~= topology_view(t@).subrange(i + 1, t.len() as int));
        if t[i].0 == *id {
            return copy_strings(&t[i].1);
        }
        i = i + 1;
    }
    Vec::new()
}

/// A list of one message.
fn single(m: Msg) -> (r: Vec<Msg>)
    ensures
        models(r@) == seq![m@],
{
    let mut r: Vec<Msg> = Vec::new();
    r.push(m);
    assert(models(r@) =~= seq![m@]);
    r
}

impl Node {
    /// A fresh node with identifier `id` in a cluster of `ids`.
    pub fn init(id: String, ids: Vec<String>) -> (r: Node)
        ensures
            r@ == initial(id@, strs(ids@).to_set()),
    {
        let r = Node {
            id,
            ids,
            msg_id: 0,
            messages: Vec::new(),
            neighbors: Vec::new(),
            counter: 0,
        };
        assert(strs(r.neighbors@) =~= Seq::empty());
        r
    }

    /// Takes the next message identifier.
    fn get_msg_id(&mut self) -> (r: usize)
        requires
            old(self)@.next_msg_id < usize::MAX,
        ensures
            r == old(self)@.next_msg_id,
            final(self)@ == old(self)@.advanced(1),
    {
        let id = self.msg_id;
        self.msg_id = self.msg_id + 1;
        id
    }

    /// Whether `message` has been seen.
    fn has_seen(&self, message: usize) -> (r: bool)
        ensures
            r == self@.messages.contains(message),
    {
        for i in 0..self.messages.len()
            invariant
                forall|j: int| 0 <= j < i ==> self.messages@[j] != message,
        {
            if self.messages[i] == message {
                return true;
            }
        }
        false
    }

    /// Handles `msg`: updates the state and returns the messages to send, in
    /// order. A `Generate` is answered with a fresh random identifier.
    pub fn handle(&mut self, msg: &Msg) -> (out: Vec<Msg>)
        requires
            old(self)@.wf(),
            fits(old(self)@, msg@.body),
        ensures
            final(self)@.wf(),
            exists|fresh: u128|
                {
                    &&& (msg@.body is Generate ==> fresh & UUID_V4_MASK == UUID_V4_BITS)
                    &&& (final(self)@, models(out@)) == step(old(self)@, msg@, fresh)
                },
    {
        let fresh = match &msg.body {
            MsgBody::Generate(_) => fresh_uuid(),
            _ => 0,
        };
        self.handle_with(msg, fresh)
    }

    /// Whether the message identifiers and the counter stay within `usize`
    /// while this node handles `body`.
    pub fn has_room(&self, body: &MsgBody) -> (r: bool)
        ensures
            r == fits(self@, body@),
    {
        let spare = usize::MAX - self.msg_id;
        if spare <= self.neighbors.len() {
            return false;
        }
        match body {
            MsgBody::Add(b) => b.delta <= usize::MAX - self.counter,
            _ => true,
        }
    }

    /// This node's identifier.
    pub fn id(&self) -> (r: &String)
        ensures
            r@ == self@.id,
    {
        &self.id
    }

    /// The identifiers of the cluster, as given at `init`.
    pub fn node_ids(&self) -> (r: &Vec<String>)
        ensures
            strs(r@).to_set() == self@.members,
    {
        &self.ids
    }

    /// The identifier that the next outgoing message gets.
    pub fn next_msg_id(&self) -> (r: usize)
        ensures
            r == self@.next_msg_id,
    {
        self.msg_id
    }

    /// The broadcast payloads seen, in the order first seen.
    pub fn messages(&self) -> (r: &Vec<usize>)
        ensures
            r@ == self@.messages,
    {
        &self.messages
    }

    /// The neighbours that new payloads are flooded to.
    pub fn neighbors(&self) -> (r: &Vec<String>)
        ensures
            strs(r@) == self@.neighbors,
    {
        &self.neighbors
    }

    /// The counter's value.
    pub fn counter(&self) -> (r: usize)
        ensures
            r == self@.counter,
    {
        self.counter
    }

    /// Handles `msg`: updates the state and returns the messages to send, in
    /// order. A `Generate` is answered with `fresh`.
    pub fn handle_with(&mut self, msg: &Msg, fresh: u128) -> (out: Vec<Msg>)
        requires
            old(self)@.wf(),
            fits(old(self)@, msg@.body),
        ensures
            final(self)@.wf(),
            (final(self)@, models(out@)) == step(old(self)@, msg@, fresh),
    {
        match &msg.body {
            MsgBody::Echo(b) => {
                let k = self.get_msg_id();
                single(Msg {
                    src: self.id.clone(),
                    dest: msg.src.clone(),
                    body: MsgBody::EchoOk(EchoOk { msg_id: k, in_reply_to: b.msg_id, echo: b.echo.clone() }),
                })
            },
            MsgBody::Init(b) => single(Msg {
                src: self.id.clone(),
                dest: msg.src.clone(),
                body: MsgBody::InitOk(InitOk { in_reply_to: b.msg_id }),
            }),
            MsgBody::Generate(b) => {
                let k = self.get_msg_id();
                single(Msg {
                    src: self.id.clone(),
                    dest: msg.src.clone(),
                    body: MsgBody::GenerateOk(GenerateOk { msg_id: k, in_reply_to: b.msg_id, id: fresh }),
                })
            },
            MsgBody::Broadcast(b) => self.broadcast(msg, b.msg_id, b.message),
            MsgBody::Read(b) => {
                let k = self.get_msg_id();
                let messages = self.messages.clone();
                assert(messages@ =~= self.messages@);
                single(Msg {
                    src: self.id.clone(),
                    dest: msg.src.clone(),
                    body: MsgBody::ReadOk(ReadOk { msg_id: k, in_reply_to: b.msg_id, messages, value: self.counter }),
                })
            },
            MsgBody::Topology(b) => {
                self.neighbors = lookup_neighbors(&b.topology, &self.id);
                let k = self.get_msg_id();
                single(Msg {
                    src: self.id.clone(),
                    dest: msg.src.clone(),
                    body: MsgBody::TopologyOk(TopologyOk { msg_id: k, in_reply_to: b.msg_id }),
                })
            },
            MsgBody::Add(b) => {
                self.counter = self.counter + b.delta;
                let k = self.get_msg_id();
                single(Msg {
                    src: self.id.clone(),
                    dest: msg.src.clone(),
                    body: MsgBody::AddOk(AddOk { msg_id: k, in_reply_to: b.msg_id }),
                })
            },
            _ => {
                let out: Vec<Msg> = Vec::new();
                assert(models(out@) =~= Seq::empty());
                out
            },
        }
    }

    /// Handles a `Broadcast` of `message`: a new payload is stored and flooded
    /// to every neighbour, then the sender gets its acknowledgement.
    fn broadcast(&mut self, msg: &Msg, msg_id: usize, message: usize) -> (out: Vec<Msg>)
        requires
            old(self)@.wf(),
            fits(old(self)@, msg@.body),
            msg@.body == (BodyModel::Broadcast { msg_id, message }),
        ensures
            final(self)@.wf(),
            (final(self)@, models(out@)) == step(old(self)@, msg@, 0),
    {
        let ghost n = self@;
        let mut out: Vec<Msg> = Vec::new();
        if !self.has_seen(message) {
            self.messages.push(message);
            assert(self@.messages == n.messages.push(message));
            let len = self.neighbors.len();
            for i in 0..len
                invariant
                    len == n.neighbors.len(),
                    self.id@ == n.id,
                    strs(self.neighbors@) == n.neighbors,
                    self.neighbors.len() == n.neighbors.len(),
                    self@.next_msg_id == n.next_msg_id + i,
                    self@ == (NodeModel { messages: n.messages.push(message), ..n.advanced(i as nat) }),
                    n.next_msg_id + n.neighbors.len() + 1 <= usize::MAX,
                    models(out@) == flood(n, message).take(i as int),
            {
                let k = self.get_msg_id();
                let m = Msg {
                    src: self.id.clone(),
                    dest: self.neighbors[i].clone(),
                    body: MsgBody::Broadcast(Broadcast { msg_id: k, message }),
                };
                assert(self.neighbors@[i as int]@ == strs(self.neighbors@)[i as int]);
                assert(m@ == flood(n, message)[i as int]);
                let ghost before = out@;
                out.push(m);
                assert(models(out@) =~= models(before).push(m@));
                assert(models(out@) =~= flood(n, message).take(i + 1));
            }
            assert(flood(n, message).take(n.neighbors.len() as int) =~= flood(n, message));
            assert(self@.messages.no_duplicates());
        }
        let k = self.get_msg_id();
        out.push(Msg {
            src: self.id.clone(),
            dest: msg.src.clone(),
            body: MsgBody::BroadcastOk(BroadcastOk { msg_id: k, in_reply_to: msg_id }),
        });
        proof {
            let s = step(n, msg@, 0);
            assert(models(out@) =~= s.1);
        }
        out
    }
}

} // verus!
