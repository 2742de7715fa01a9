//! What holds of every run of a node, stated over its model.
use vstd::prelude::*;
use crate::message::{BodyModel, MsgModel};
use crate::node::{fits, neighbors_in, step, NodeModel};

verus! {

/// The state after node `n` handles each of `ms` in turn.
pub open spec fn run(n: NodeModel, ms: Seq<MsgModel>, fresh: u128) -> NodeModel
    decreases ms.len(),
{
    if ms.len() == 0 {
        n
    } else {
        step(run(n, ms.drop_last(), fresh), ms.last(), fresh).0
    }
}

/// The sum of the deltas of the `Add` messages in `ms`.
pub open spec fn sum_of_deltas(ms: Seq<MsgModel>) -> nat
    decreases ms.len(),
{
    if ms.len() == 0 {
        0
    } else {
        sum_of_deltas(ms.drop_last()) + match ms.last().body {
            BodyModel::Add { delta, .. } => delta as nat,
            _ => 0,
        }
    }
}

/// An echo is answered once, to its sender, with the same text, in reply to
/// the request's identifier.
pub proof fn echo_is_returned(n: NodeModel, m: MsgModel, fresh: u128)
    requires
        m.body is Echo,
    ensures
        ({
            let out = step(n, m, fresh).1;
            &&& out.len() == 1
            &&& out[0].dest == m.src
            &&& out[0].body matches BodyModel::EchoOk { in_reply_to, echo, .. }
            &&& m.body matches BodyModel::Echo { msg_id, echo: asked }
            &&& in_reply_to == msg_id
            &&& echo == asked
        }),
{
}

/// After a broadcast of `p` the node holds `p` exactly once. A new payload
/// goes out once to each neighbour, in order, before the acknowledgement; a
/// payload already held goes out to nobody.
pub proof fn broadcast_is_stored_once(n: NodeModel, m: MsgModel, fresh: u128, p: usize)
    requires
        n.wf(),
        m.body matches BodyModel::Broadcast { message, .. } && message == p,
    ensures
        ({
            let (n2, out) = step(n, m, fresh);
            &&& n2.wf()
            &&& exists|i: int| 0 <= i < n2.messages.len() && n2.messages[i] == p
            &&& forall|i: int, j: int|
                0 <= i < n2.messages.len() && 0 <= j < n2.messages.len() && n2.messages[i] == p
                    && n2.messages[j] == p ==> i == j
            &&& !n.messages.contains(p) ==> {
                &&& out.len() == n.neighbors.len() + 1
                &&& forall|i: int|
                    0 <= i < n.neighbors.len() ==> out[i].dest == n.neighbors[i]
                        && out[i].body == (BodyModel::Broadcast {
                        msg_id: out[i].body->Broadcast_msg_id,
                        message: p,
                    })
                &&& out.last().dest == m.src && out.last().body is BroadcastOk
            }
            &&& n.messages.contains(p) ==> {
                &&& n2.messages == n.messages
                &&& out.len() == 1
                &&& out[0].dest == m.src && out[0].body is BroadcastOk
            }
        }),
{
    let (n2, out) = step(n, m, fresh);
    if !n.messages.contains(p) {
        assert(n2.messages[n2.messages.len() - 1] == p);
    } else {
        let i = choose|i: int| 0 <= i < n.messages.len() && n.messages[i] == p;
        assert(n2.messages[i] == p);
    }
}

/// A payload broadcast a second time changes nothing that is stored and is
/// flooded to nobody.
pub proof fn broadcast_twice_floods_once(n: NodeModel, m1: MsgModel, m2: MsgModel, fresh: u128)
    requires
        m1.body is Broadcast,
        m2.body is Broadcast,
        m1.body->Broadcast_message == m2.body->Broadcast_message,
    ensures
        ({
            let n1 = step(n, m1, fresh).0;
            let (n2, out) = step(n1, m2, fresh);
            &&& n2.messages == n1.messages
            &&& out.len() == 1
            &&& out[0].body is BroadcastOk
        }),
{
    let p = m1.body->Broadcast_message;
    let n1 = step(n, m1, fresh).0;
    if !n.messages.contains(p) {
        assert(n1.messages[n1.messages.len() - 1] == p);
    }
    assert(n1.messages.contains(p));
}

/// After a topology the neighbours are exactly those it lists for this node,
/// and the same topology again leaves them as they are.
pub proof fn topology_sets_neighbors(n: NodeModel, m: MsgModel, fresh: u128)
    requires
        m.body is Topology,
    ensures
        step(n, m, fresh).0.neighbors == neighbors_in(m.body->topology, n.id),
        step(n, m, fresh).0.id == n.id,
        step(step(n, m, fresh).0, m, fresh).0.neighbors == step(n, m, fresh).0.neighbors,
{
}

/// A run of `Add` messages adds the sum of their deltas to the counter.
pub proof fn adds_sum_up(n: NodeModel, ms: Seq<MsgModel>, fresh: u128)
    requires
        forall|i: int| 0 <= i < ms.len() ==> #[trigger] ms[i].body is Add,
    ensures
        run(n, ms, fresh).counter == n.counter + sum_of_deltas(ms),
    decreases ms.len(),
{
    if ms.len() > 0 {
        adds_sum_up(n, ms.drop_last(), fresh);
    }
}

/// A `Read` after a run of `Add` messages on a fresh counter reports the sum
/// of their deltas.
pub proof fn read_reports_sum(n: NodeModel, ms: Seq<MsgModel>, read: MsgModel, fresh: u128)
    requires
        n.counter == 0,
        forall|i: int| 0 <= i < ms.len() ==> #[trigger] ms[i].body is Add,
        read.body is Read,
        sum_of_deltas(ms) <= usize::MAX,
    ensures
        step(run(n, ms, fresh), read, fresh).1.len() == 1,
        step(run(n, ms, fresh), read, fresh).1[0].body matches BodyModel::ReadOk { value, .. }
            && value == sum_of_deltas(ms),
{
    adds_sum_up(n, ms, fresh);
}

/// The message identifier that a body carries, if any.
pub open spec fn msg_id_of(b: BodyModel) -> Option<usize> {
    match b {
        BodyModel::Echo { msg_id, .. } => Some(msg_id),
        BodyModel::EchoOk { msg_id, .. } => Some(msg_id),
        BodyModel::Init { msg_id, .. } => Some(msg_id),
        BodyModel::InitOk { .. } => None,
        BodyModel::Generate { msg_id } => Some(msg_id),
        BodyModel::GenerateOk { msg_id, .. } => Some(msg_id),
        BodyModel::Broadcast { msg_id, .. } => Some(msg_id),
        BodyModel::BroadcastOk { msg_id, .. } => Some(msg_id),
        BodyModel::Read { msg_id } => Some(msg_id),
        BodyModel::ReadOk { msg_id, .. } => Some(msg_id),
        BodyModel::Topology { msg_id, .. } => Some(msg_id),
        BodyModel::TopologyOk { msg_id, .. } => Some(msg_id),
        BodyModel::Add { msg_id, .. } => Some(msg_id),
        BodyModel::AddOk { msg_id, .. } => Some(msg_id),
    }
}

/// Each message a node sends carries a distinct identifier taken from its
/// own count, which only grows; the counter never goes down.
pub proof fn ids_are_fresh_and_counter_grows(n: NodeModel, m: MsgModel, fresh: u128)
    requires
        fits(n, m.body),
    ensures
        ({
            let (n2, out) = step(n, m, fresh);
            &&& n.next_msg_id <= n2.next_msg_id
            &&& n.counter <= n2.counter
            &&& forall|i: int|
                0 <= i < out.len() && (#[trigger] msg_id_of(out[i].body)) is Some ==> {
                    let k = msg_id_of(out[i].body)->0;
                    n.next_msg_id <= k < n2.next_msg_id
                }
            &&& forall|i: int, j: int|
                0 <= i < j < out.len() && (#[trigger] msg_id_of(out[i].body)) is Some && (
                #[trigger] msg_id_of(out[j].body)) is Some ==> msg_id_of(out[i].body)->0
                    < msg_id_of(out[j].body)->0
        }),
{
}

} // verus!
