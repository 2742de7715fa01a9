//! Messages of the protocol: an envelope with a sender, a recipient and a
//! typed body, and their mathematical model.
use vstd::prelude::*;

verus! {

#[derive(Clone, Debug, PartialEq, Eq)]
pub struct Init {
    pub msg_id: usize,
    pub id: String,
    pub ids: Vec<String>,
}

#[derive(Clone, Debug, PartialEq, Eq)]
pub struct InitOk {
    pub in_reply_to: usize,
}

#[derive(Clone, Debug, PartialEq, Eq)]
pub struct Echo {
    pub msg_id: usize,
    pub echo: String,
}

#[derive(Clone, Debug, PartialEq, Eq)]
pub struct EchoOk {
    pub msg_id: usize,
    pub in_reply_to: usize,
    pub echo: String,
}

#[derive(Clone, Debug, PartialEq, Eq)]
pub struct Generate {
    pub msg_id: usize,
}

#[derive(Clone, Debug, PartialEq, Eq)]
pub struct GenerateOk {
    pub msg_id: usize,
    pub in_reply_to: usize,
    pub id: u128,
}

#[derive(Clone, Debug, PartialEq, Eq)]
pub struct Broadcast {
    pub msg_id: usize,
    pub message: usize,
}

#[derive(Clone, Debug, PartialEq, Eq)]
pub struct BroadcastOk {
    pub msg_id: usize,
    pub in_reply_to: usize,
}

#[derive(Clone, Debug, PartialEq, Eq)]
pub struct Read {
    pub msg_id: usize,
}

/// Reply to `Read`: the broadcast workload reads `messages`, the counter
/// workload reads `value`.
#[derive(Clone, Debug, PartialEq, Eq)]
pub struct ReadOk {
    pub msg_id: usize,
    pub in_reply_to: usize,
    pub messages: Vec<usize>,
    pub value: usize,
}

/// A cluster-wide topology: for each node identifier, its neighbours in order.
/// Identifiers are distinct, as the keys of a map.
#[derive(Clone, Debug, PartialEq, Eq)]
pub struct Topology {
    pub msg_id: usize,
    pub topology: Vec<(String, Vec<String>)>,
}

#[derive(Clone, Debug, PartialEq, Eq)]
pub struct TopologyOk {
    pub msg_id: usize,
    pub in_reply_to: usize,
}

#[derive(Clone, Debug, PartialEq, Eq)]
pub struct Add {
    pub msg_id: usize,
    pub delta: usize,
}

#[derive(Clone, Debug, PartialEq, Eq)]
pub struct AddOk {
    pub msg_id: usize,
    pub in_reply_to: usize,
}

/// The body of a message, one variant per request and per reply.
#[derive(Clone, Debug, PartialEq, Eq)]
pub enum MsgBody {
    Echo(Echo),
    EchoOk(EchoOk),
    Init(Init),
    InitOk(InitOk),
    Generate(Generate),
    GenerateOk(GenerateOk),
    Broadcast(Broadcast),
    BroadcastOk(BroadcastOk),
    Read(Read),
    ReadOk(ReadOk),
    Topology(Topology),
    TopologyOk(TopologyOk),
    Add(Add),
    AddOk(AddOk),
}

/// An envelope: sender, recipient and body.
#[derive(Clone, Debug, PartialEq, Eq)]
pub struct Msg {
    pub src: String,
    pub dest: String,
    pub body: MsgBody,
}

/// Model of a body: the same variants over mathematical values.
pub enum BodyModel {
    Echo { msg_id: usize, echo: Seq<char> },
    EchoOk { msg_id: usize, in_reply_to: usize, echo: Seq<char> },
    Init { msg_id: usize, node_id: Seq<char>, node_ids: Seq<Seq<char>> },
    InitOk { in_reply_to: usize },
    Generate { msg_id: usize },
    GenerateOk { msg_id: usize, in_reply_to: usize, id: u128 },
    Broadcast { msg_id: usize, message: usize },
    BroadcastOk { msg_id: usize, in_reply_to: usize },
    Read { msg_id: usize },
    ReadOk { msg_id: usize, in_reply_to: usize, messages: Seq<usize>, value: usize },
    Topology { msg_id: usize, topology: Seq<(Seq<char>, Seq<Seq<char>>)> },
    TopologyOk { msg_id: usize, in_reply_to: usize },
    Add { msg_id: usize, delta: usize },
    AddOk { msg_id: usize, in_reply_to: usize },
}

/// Model of an envelope.
pub struct MsgModel {
    pub src: Seq<char>,
    pub dest: Seq<char>,
    pub body: BodyModel,
}

/// The character sequences of a sequence of strings.
pub open spec fn strs(v: Seq<String>) -> Seq<Seq<char>> {
    v.map_values(|s: String| s@)
}

/// The model of a topology's entries.
pub open spec fn topology_view(t: Seq<(String, Vec<String>)>) -> Seq<(Seq<char>, Seq<Seq<char>>)> {
    t.map_values(|e: (String, Vec<String>)| (e.0@, strs(e.1@)))
}

impl View for MsgBody {
    type V = BodyModel;

    open spec fn view(&self) -> BodyModel {
        match self {
            MsgBody::Echo(b) => BodyModel::Echo { msg_id: b.msg_id, echo: b.echo@ },
            MsgBody::EchoOk(b) => BodyModel::EchoOk {
                msg_id: b.msg_id,
                in_reply_to: b.in_reply_to,
                echo: b.echo@,
            },
            MsgBody::Init(b) => BodyModel::Init { msg_id: b.msg_id, node_id: b.id@, node_ids: strs(b.ids@) },
            MsgBody::InitOk(b) => BodyModel::InitOk { in_reply_to: b.in_reply_to },
            MsgBody::Generate(b) => BodyModel::Generate { msg_id: b.msg_id },
            MsgBody::GenerateOk(b) => BodyModel::GenerateOk {
                msg_id: b.msg_id,
                in_reply_to: b.in_reply_to,
                id: b.id,
            },
            MsgBody::Broadcast(b) => BodyModel::Broadcast { msg_id: b.msg_id, message: b.message },
            MsgBody::BroadcastOk(b) => BodyModel::BroadcastOk {
                msg_id: b.msg_id,
                in_reply_to: b.in_reply_to,
            },
            MsgBody::Read(b) => BodyModel::Read { msg_id: b.msg_id },
            MsgBody::ReadOk(b) => BodyModel::ReadOk {
                msg_id: b.msg_id,
                in_reply_to: b.in_reply_to,
                messages: b.messages@,
                value: b.value,
            },
            MsgBody::Topology(b) => BodyModel::Topology {
                msg_id: b.msg_id,
                topology: topology_view(b.topology@),
            },
            MsgBody::TopologyOk(b) => BodyModel::TopologyOk {
                msg_id: b.msg_id,
                in_reply_to: b.in_reply_to,
            },
            MsgBody::Add(b) => BodyModel::Add { msg_id: b.msg_id, delta: b.delta },
            MsgBody::AddOk(b) => BodyModel::AddOk { msg_id: b.msg_id, in_reply_to: b.in_reply_to },
        }
    }
}

impl View for Msg {
    type V = MsgModel;

    open spec fn view(&self) -> MsgModel {
        MsgModel { src: self.src@, dest: self.dest@, body: self.body@ }
    }
}

/// The models of a sequence of messages.
pub open spec fn models(s: Seq<Msg>) -> Seq<MsgModel> {
    s.map_values(|m: Msg| m@)
}

} // verus!
