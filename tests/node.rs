use maelstrom_node::{
    is_zero, Add, AddOk, Broadcast, BroadcastOk, Echo, EchoOk, Generate, GenerateOk, Init, InitOk,
    Msg, MsgBody, Node, Read, ReadOk, Registry, Topology, TopologyOk, UUID_V4_BITS, UUID_V4_MASK,
};

fn msg(src: &str, dest: &str, body: MsgBody) -> Msg {
    Msg { src: src.to_string(), dest: dest.to_string(), body }
}

fn node(id: &str) -> Node {
    Node::init(id.to_string(), vec![id.to_string()])
}

fn topology(entries: &[(&str, &[&str])]) -> Vec<(String, Vec<String>)> {
    entries
        .iter()
        .map(|(k, v)| (k.to_string(), v.iter().map(|s| s.to_string()).collect()))
        .collect()
}

fn registry_with(id: &str) -> Registry {
    let mut r = Registry::new();
    let init = msg("c0", id, MsgBody::Init(Init { msg_id: 0, id: id.to_string(), ids: vec![id.to_string()] }));
    r.dispatch(&init).unwrap();
    r
}

#[test]
fn init_then_echo() {
    let mut r = Registry::new();
    let init = msg("c1", "n1", MsgBody::Init(Init { msg_id: 7, id: "n1".to_string(), ids: vec!["n1".to_string()] }));
    let out = r.dispatch(&init).unwrap();
    assert_eq!(out, vec![msg("n1", "c1", MsgBody::InitOk(InitOk { in_reply_to: 7 }))]);
    let echo = msg("c1", "n1", MsgBody::Echo(Echo { msg_id: 1, echo: "hi".to_string() }));
    let out = r.dispatch(&echo).unwrap();
    assert_eq!(
        out,
        vec![msg("n1", "c1", MsgBody::EchoOk(EchoOk { msg_id: 0, in_reply_to: 1, echo: "hi".to_string() }))]
    );
}

#[test]
fn echo_returns_text_and_request_id() {
    let mut n = node("n3");
    n.handle(&msg("c9", "n3", MsgBody::Add(Add { msg_id: 4, delta: 1 })));
    let out = n.handle(&msg("c9", "n3", MsgBody::Echo(Echo { msg_id: 35, echo: "Please echo 35".to_string() })));
    assert_eq!(
        out,
        vec![msg("n3", "c9", MsgBody::EchoOk(EchoOk { msg_id: 1, in_reply_to: 35, echo: "Please echo 35".to_string() }))]
    );
}

#[test]
fn broadcast_floods_once() {
    let mut n = node("n1");
    let out = n.handle(&msg("c1", "n1", MsgBody::Topology(Topology { msg_id: 1, topology: topology(&[("n1", &["n2"])]) })));
    assert_eq!(out, vec![msg("n1", "c1", MsgBody::TopologyOk(TopologyOk { msg_id: 0, in_reply_to: 1 }))]);
    let out = n.handle(&msg("c1", "n1", MsgBody::Broadcast(Broadcast { msg_id: 2, message: 42 })));
    assert_eq!(
        out,
        vec![
            msg("n1", "n2", MsgBody::Broadcast(Broadcast { msg_id: 1, message: 42 })),
            msg("n1", "c1", MsgBody::BroadcastOk(BroadcastOk { msg_id: 2, in_reply_to: 2 })),
        ]
    );
    let out = n.handle(&msg("c1", "n1", MsgBody::Broadcast(Broadcast { msg_id: 3, message: 42 })));
    assert_eq!(out, vec![msg("n1", "c1", MsgBody::BroadcastOk(BroadcastOk { msg_id: 3, in_reply_to: 3 }))]);
    assert_eq!(n.messages(), &vec![42]);
}

#[test]
fn adds_then_read() {
    let mut r = registry_with("n1");
    r.dispatch(&msg("c1", "n1", MsgBody::Add(Add { msg_id: 1, delta: 5 }))).unwrap();
    r.dispatch(&msg("c1", "n1", MsgBody::Add(Add { msg_id: 2, delta: 3 }))).unwrap();
    let out = r.dispatch(&msg("c1", "n1", MsgBody::Read(Read { msg_id: 3 }))).unwrap();
    assert_eq!(
        out,
        vec![msg("n1", "c1", MsgBody::ReadOk(ReadOk { msg_id: 2, in_reply_to: 3, messages: vec![], value: 8 }))]
    );
}

#[test]
fn broadcast_to_several_neighbours_in_order() {
    let mut n = node("a");
    n.handle(&msg("c", "a", MsgBody::Topology(Topology { msg_id: 1, topology: topology(&[("b", &["a"]), ("a", &["b", "c"])]) })));
    let out = n.handle(&msg("c", "a", MsgBody::Broadcast(Broadcast { msg_id: 5, message: 7 })));
    assert_eq!(out.len(), 3);
    assert_eq!(out[0], msg("a", "b", MsgBody::Broadcast(Broadcast { msg_id: 1, message: 7 })));
    assert_eq!(out[1], msg("a", "c", MsgBody::Broadcast(Broadcast { msg_id: 2, message: 7 })));
    assert_eq!(out[2], msg("a", "c", MsgBody::BroadcastOk(BroadcastOk { msg_id: 3, in_reply_to: 5 })));
    n.handle(&msg("b", "a", MsgBody::Broadcast(Broadcast { msg_id: 9, message: 8 })));
    n.handle(&msg("b", "a", MsgBody::Broadcast(Broadcast { msg_id: 10, message: 7 })));
    assert_eq!(n.messages(), &vec![7, 8]);
    assert_eq!(n.next_msg_id(), 8);
}

#[test]
fn read_lists_messages_in_first_seen_order() {
    let mut n = node("n1");
    for (i, p) in [3usize, 1, 3, 2].iter().enumerate() {
        n.handle(&msg("c", "n1", MsgBody::Broadcast(Broadcast { msg_id: i, message: *p })));
    }
    let out = n.handle(&msg("c", "n1", MsgBody::Read(Read { msg_id: 10 })));
    assert_eq!(
        out,
        vec![msg("n1", "c", MsgBody::ReadOk(ReadOk { msg_id: 4, in_reply_to: 10, messages: vec![3, 1, 2], value: 0 }))]
    );
}

#[test]
fn topology_replaces_neighbours() {
    let mut n = node("n1");
    let t1 = msg("c", "n1", MsgBody::Topology(Topology { msg_id: 1, topology: topology(&[("n1", &["n2", "n3"])]) }));
    n.handle(&t1);
    assert_eq!(n.neighbors(), &vec!["n2".to_string(), "n3".to_string()]);
    n.handle(&t1);
    assert_eq!(n.neighbors(), &vec!["n2".to_string(), "n3".to_string()]);
    n.handle(&msg("c", "n1", MsgBody::Topology(Topology { msg_id: 2, topology: topology(&[("n1", &["n4"])]) })));
    assert_eq!(n.neighbors(), &vec!["n4".to_string()]);
}

#[test]
fn topology_without_own_entry_clears_neighbours() {
    let mut n = node("n1");
    n.handle(&msg("c", "n1", MsgBody::Topology(Topology { msg_id: 1, topology: topology(&[("n1", &["n2"])]) })));
    n.handle(&msg("c", "n1", MsgBody::Topology(Topology { msg_id: 2, topology: topology(&[("n2", &["n1"])]) })));
    assert!(n.neighbors().is_empty());
    let out = n.handle(&msg("c", "n1", MsgBody::Broadcast(Broadcast { msg_id: 3, message: 1 })));
    assert_eq!(out, vec![msg("n1", "c", MsgBody::BroadcastOk(BroadcastOk { msg_id: 2, in_reply_to: 3 }))]);
}

#[test]
fn generate_ids_are_distinct() {
    let mut r = registry_with("n1");
    let mut r2 = registry_with("n2");
    let mut seen: Vec<u128> = Vec::new();
    for i in 0..200usize {
        for (reg, dest) in [(&mut r, "n1"), (&mut r2, "n2")] {
            let out = reg.dispatch(&msg("c", dest, MsgBody::Generate(Generate { msg_id: i }))).unwrap();
            assert_eq!(out.len(), 1);
            match &out[0].body {
                MsgBody::GenerateOk(GenerateOk { msg_id, in_reply_to, id }) => {
                    assert_eq!(*msg_id, i);
                    assert_eq!(*in_reply_to, i);
                    assert_eq!(*id & UUID_V4_MASK, UUID_V4_BITS);
                    assert!(!seen.contains(id));
                    seen.push(*id);
                }
                other => panic!("unexpected reply {:?}", other),
            }
        }
    }
}

#[test]
fn add_zero_keeps_counter() {
    let mut n = node("n1");
    n.handle(&msg("c", "n1", MsgBody::Add(Add { msg_id: 1, delta: 0 })));
    assert_eq!(n.counter(), 0);
    n.handle(&msg("c", "n1", MsgBody::Add(Add { msg_id: 2, delta: 4 })));
    assert_eq!(n.counter(), 4);
}

#[test]
fn replies_are_ignored() {
    let mut n = node("n1");
    let bodies = vec![
        MsgBody::InitOk(InitOk { in_reply_to: 1 }),
        MsgBody::EchoOk(EchoOk { msg_id: 1, in_reply_to: 1, echo: "x".to_string() }),
        MsgBody::BroadcastOk(BroadcastOk { msg_id: 1, in_reply_to: 1 }),
        MsgBody::AddOk(AddOk { msg_id: 1, in_reply_to: 1 }),
    ];
    for b in bodies {
        assert!(n.handle(&msg("n2", "n1", b)).is_empty());
    }
    assert_eq!(n.next_msg_id(), 0);
}

#[test]
fn unknown_destination_fails() {
    let mut r = registry_with("n1");
    let err = r.dispatch(&msg("c", "n9", MsgBody::Read(Read { msg_id: 1 }))).unwrap_err();
    assert_eq!(err.dest, "n9");
    assert!(r.get(&"n9".to_string()).is_err());
    assert_eq!(r.get(&"n1".to_string()).unwrap().id(), "n1");
}

#[test]
fn init_again_replaces_node() {
    let mut r = registry_with("n1");
    r.dispatch(&msg("c", "n1", MsgBody::Add(Add { msg_id: 1, delta: 9 }))).unwrap();
    let init = msg("c", "n1", MsgBody::Init(Init { msg_id: 2, id: "n1".to_string(), ids: vec!["n1".to_string(), "n2".to_string()] }));
    r.dispatch(&init).unwrap();
    let n = r.get(&"n1".to_string()).unwrap();
    assert_eq!(n.counter(), 0);
    assert_eq!(n.next_msg_id(), 0);
    assert_eq!(n.node_ids().len(), 2);
}

#[test]
fn room_runs_out_at_the_largest_counter() {
    let mut r = registry_with("n1");
    let big = msg("c", "n1", MsgBody::Add(Add { msg_id: 1, delta: usize::MAX }));
    assert!(r.has_room(&big));
    r.dispatch(&big).unwrap();
    assert_eq!(r.get(&"n1".to_string()).unwrap().counter(), usize::MAX);
    assert!(!r.has_room(&msg("c", "n1", MsgBody::Add(Add { msg_id: 2, delta: 1 }))));
    assert!(r.has_room(&msg("c", "n1", MsgBody::Add(Add { msg_id: 3, delta: 0 }))));
}

#[test]
fn zero_is_zero() {
    assert!(is_zero(&0));
    assert!(!is_zero(&8));
}
