//! The nodes of this process, each under its own identifier.
use vstd::prelude::*;
use crate::ids::{UUID_V4_BITS, UUID_V4_MASK};
use crate::message::{models, strs, Msg, MsgBody, MsgModel, BodyModel};
use crate::node::{fits, initial, step, Node, NodeModel};

verus! {

/// Raised for a message to an identifier that no `Init` has registered.
#[derive(Clone, Debug, PartialEq, Eq)]
pub struct LookupError {
    pub dest: String,
}

/// No two nodes share an identifier.
pub open spec fn ids_distinct(s: Seq<NodeModel>) -> bool {
    forall|i: int, j: int| 0 <= i < s.len() && 0 <= j < s.len() && i != j ==> s[i].id != s[j].id
}

/// The nodes of `s` by identifier.
pub open spec fn as_map(s: Seq<NodeModel>) -> Map<Seq<char>, NodeModel> {
    Map::new(
        |k: Seq<char>| exists|i: int| 0 <= i < s.len() && s[i].id == k,
        |k: Seq<char>| s[choose|i: int| 0 <= i < s.len() && s[i].id == k],
    )
}

/// The registry `r` once message `m` has been seen: an `Init` registers a
/// fresh node under the identifier it names, replacing any earlier one.
pub open spec fn registered(r: Map<Seq<char>, NodeModel>, m: MsgModel) -> Map<Seq<char>, NodeModel> {
    match m.body {
        BodyModel::Init { node_id, node_ids, .. } => r.insert(
            node_id,
            initial(node_id, node_ids.to_set()),
        ),
        _ => r,
    }
}

/// Whether the registry `r` can take message `m` without running its
/// recipient's message identifiers or counter past `usize`.
pub open spec fn room_for(r: Map<Seq<char>, NodeModel>, m: MsgModel) -> bool {
    let reg = registered(r, m);
    reg.contains_key(m.dest) ==> fits(reg[m.dest], m.body)
}

proof fn lemma_map_update(s: Seq<NodeModel>, i: int, n: NodeModel)
    requires
        ids_distinct(s),
        0 <= i < s.len(),
        n.id == s[i].id,
    ensures
        ids_distinct(s.update(i, n)),
        as_map(s.update(i, n)) == as_map(s).insert(n.id, n),
{
    let t = s.update(i, n);
    assert forall|k: Seq<char>| #[trigger] as_map(t).contains_key(k) implies as_map(t)[k] == as_map(s).insert(n.id, n)[k] by {
        let j = choose|j: int| 0 <= j < t.len() && t[j].id == k;
        assert(s[j].id == k);
    }
    assert forall|k: Seq<char>| #[trigger] as_map(s).insert(n.id, n).contains_key(k) implies as_map(t).contains_key(k) by {
        if k != n.id {
            let j = choose|j: int| 0 <= j < s.len() && s[j].id == k;
            assert(t[j].id == k);
        } else {
            assert(t[i].id == k);
        }
    }
    assert(as_map(t) =~= as_map(s).insert(n.id, n));
}

proof fn lemma_map_push(s: Seq<NodeModel>, n: NodeModel)
    requires
        ids_distinct(s),
        !as_map(s).contains_key(n.id),
    ensures
        ids_distinct(s.push(n)),
        as_map(s.push(n)) == as_map(s).insert(n.id, n),
{
    let t = s.push(n);
    assert forall|i: int| 0 <= i < s.len() implies s[i].id != n.id by {
        if s[i].id == n.id {
            assert(as_map(s).contains_key(n.id));
        }
    }
    assert forall|k: Seq<char>| #[trigger] as_map(t).contains_key(k) implies as_map(t)[k] == as_map(s).insert(n.id, n)[k] by {
        let j = choose|j: int| 0 <= j < t.len() && t[j].id == k;
        if j < s.len() {
            assert(s[j].id == k);
        }
    }
    assert forall|k: Seq<char>| #[trigger] as_map(s).insert(n.id, n).contains_key(k) implies as_map(t).contains_key(k) by {
        if k != n.id {
            let j = choose|j: int| 0 <= j < s.len() && s[j].id == k;
            assert(t[j].id == k);
        } else {
            assert(t[s.len() as int].id == k);
        }
    }
    assert(as_map(t) =~= as_map(s).insert(n.id, n));
}

/// The nodes of this process.
pub struct Registry {
    nodes: Vec<Node>,
}

impl View for Registry {
    type V = Map<Seq<char>, NodeModel>;

    closed spec fn view(&self) -> Map<Seq<char>, NodeModel> {
        as_map(self.nodes@.map_values(|n: Node| n@))
    }
}

impl Registry {
    /// Distinct identifiers, and every node well formed.
    pub closed spec fn wf(&self) -> bool {
        &&& ids_distinct(self.nodes@.map_values(|n: Node| n@))
        &&& forall|i: int| 0 <= i < self.nodes.len() ==> (#[trigger] self.nodes@[i])@.wf()
    }

    /// An empty registry.
    pub fn new() -> (r: Registry)
        ensures
            r.wf(),
            r@ == Map::<Seq<char>, NodeModel>::empty(),
    {
        let r = Registry { nodes: Vec::new() };
        assert(r@ =~= Map::<Seq<char>, NodeModel>::empty());
        r
    }

    /// Where the node with identifier `id` stands.
    fn find(&self, id: &String) -> (r: Option<usize>)
        requires
            self.wf(),
        ensures
            match r {
                Some(i) => i < self.nodes.len() && self.nodes@[i as int]@.id == id@,
                None => !self@.contains_key(id@),
            },
    {
        let ghost s = self.nodes@.map_values(|n: Node| n@);
        for i in 0..self.nodes.len()
            invariant
                s == self.nodes@.map_values(|n: Node| n@),
                forall|j: int| 0 <= j < i ==> s[j].id != id@,
        {
            if *self.nodes[i].id() == *id {
                return Some(i);
            }
        }
        assert(!self@.contains_key(id@));
        None
    }

    /// Registers a fresh node `id` in a cluster of `ids`, replacing any node
    /// registered under `id` before.
    pub fn register(&mut self, id: String, ids: Vec<String>)
        requires
            old(self).wf(),
        ensures
            final(self).wf(),
            final(self)@ == old(self)@.insert(id@, initial(id@, strs(ids@).to_set())),
    {
        let ghost s = self.nodes@.map_values(|n: Node| n@);
        let found = self.find(&id);
        let node = Node::init(id, ids);
        match found {
            Some(i) => {
                proof {
                    lemma_map_update(s, i as int, node@);
                }
                self.nodes.set(i, node);
                assert(self.nodes@.map_values(|n: Node| n@) =~= s.update(i as int, node@));
            },
            None => {
                proof {
                    lemma_map_push(s, node@);
                }
                self.nodes.push(node);
                assert(self.nodes@.map_values(|n: Node| n@) =~= s.push(node@));
            },
        }
    }

    /// The node registered under `id`.
    pub fn get(&self, id: &String) -> (r: Result<&Node, LookupError>)
        requires
            self.wf(),
        ensures
            match r {
                Ok(n) => self@.contains_key(id@) && n@ == self@[id@],
                Err(e) => !self@.contains_key(id@) && e.dest@ == id@,
            },
    {
        match self.find(id) {
            Some(i) => {
                let ghost s = self.nodes@.map_values(|n: Node| n@);
                assert(s[i as int].id == id@);
                Ok(&self.nodes[i])
            },
            None => Err(LookupError { dest: id.clone() }),
        }
    }

    /// Whether this registry can take `msg` without running its recipient's
    /// message identifiers or counter past `usize`.
    pub fn has_room(&self, msg: &Msg) -> (r: bool)
        requires
            self.wf(),
        ensures
            r == room_for(self@, msg@),
    {
        match &msg.body {
            MsgBody::Init(b) => {
                if b.id == msg.dest {
                    return true;
                }
            },
            _ => {},
        }
        match self.find(&msg.dest) {
            Some(i) => {
                let ghost s = self.nodes@.map_values(|n: Node| n@);
                assert(s[i as int].id == msg@.dest);
                self.nodes[i].has_room(&msg.body)
            },
            None => true,
        }
    }

    /// Handles `msg`: an `Init` first registers the node it names; then the
    /// node that `msg` is addressed to handles it and the messages it sends
    /// are returned in order. Fails where no node has that identifier.
    pub fn dispatch(&mut self, msg: &Msg) -> (r: Result<Vec<Msg>, LookupError>)
        requires
            old(self).wf(),
            room_for(old(self)@, msg@),
        ensures
            final(self).wf(),
            ({
                let reg = registered(old(self)@, msg@);
                match r {
                    Err(e) => {
                        &&& !reg.contains_key(msg@.dest)
                        &&& e.dest@ == msg@.dest
                        &&& final(self)@ == reg
                    },
                    Ok(out) => {
                        &&& reg.contains_key(msg@.dest)
                        &&& exists|fresh: u128|
                            {
                                &&& (msg@.body is Generate ==> fresh & UUID_V4_MASK == UUID_V4_BITS)
                                &&& models(out@) == (#[trigger] step(reg[msg@.dest], msg@, fresh)).1
                                &&& final(self)@ == reg.insert(
                                    msg@.dest,
                                    step(reg[msg@.dest], msg@, fresh).0,
                                )
                            }
                    },
                }
            }),
    {
        match &msg.body {
            MsgBody::Init(b) => self.register(b.id.clone(), b.ids.clone()),
            _ => {},
        }
        let ghost reg = self@;
        assert(reg == registered(old(self)@, msg@));
        match self.find(&msg.dest) {
            None => Err(LookupError { dest: msg.dest.clone() }),
            Some(i) => {
                let ghost s = self.nodes@.map_values(|n: Node| n@);
                assert(s[i as int].id == msg@.dest);
                let mut node = self.nodes.remove(i);
                let out = node.handle(msg);
                self.nodes.insert(i, node);
                proof {
                    lemma_map_update(s, i as int, node@);
                    assert(self.nodes@.map_values(|n: Node| n@) =~= s.update(i as int, node@));
                }
                Ok(out)
            },
        }
    }
}

} // verus!
