use gossip_glomers::broadcast::{Broadcast, NoTopology, Payload};
use gossip_glomers::message::{Body, Init, Message};

fn init(node_id: &str, node_ids: &[&str]) -> Init {
    Init {
        node_id: node_id.to_string(),
        node_ids: node_ids.iter().map(|s| s.to_string()).collect(),
    }
}

fn msg(msg_id: Option<usize>, payload: Payload) -> Message<Payload> {
    Message {
        src: "c1".to_string(),
        dest: "n1".to_string(),
        body: Body { msg_id, in_reply_to: None, payload },
    }
}

fn read_set(node: &mut Broadcast, msg_id: usize) -> Vec<usize> {
    let out = node.handle(msg(Some(msg_id), Payload::Read)).unwrap();
    assert_eq!(out.len(), 1);
    match &out[0].body.payload {
        Payload::ReadOk { messages } => {
            let mut m = messages.clone();
            m.sort();
            m
        }
        other => panic!("unexpected reply {:?}", other),
    }
}

fn topology(entries: &[(&str, &[&str])]) -> Vec<(String, Vec<String>)> {
    entries
        .iter()
        .map(|(k, v)| (k.to_string(), v.iter().map(|s| s.to_string()).collect()))
        .collect()
}

#[test]
fn fresh_node_starts_empty() {
    let node = Broadcast::from_init(init("n1", &["n1", "n2"]));
    assert_eq!(node.node(), "n1");
    assert!(node.messages().is_empty());
    assert!(node.neighborhood().is_empty());
    assert_eq!(node.msg_id(), 1);
}

#[test]
fn broadcast_is_acknowledged() {
    let mut node = Broadcast::from_init(init("n1", &["n1"]));
    let out = node.handle(msg(Some(7), Payload::Broadcast { message: 42 })).unwrap();
    assert_eq!(out.len(), 1);
    assert_eq!(out[0].src, "n1");
    assert_eq!(out[0].dest, "c1");
    assert_eq!(out[0].body.in_reply_to, Some(7));
    assert_eq!(out[0].body.msg_id, Some(1));
    assert!(matches!(out[0].body.payload, Payload::BroadcastOk));
    assert_eq!(node.messages(), &vec![42]);
    assert_eq!(node.msg_id(), 2);
}

#[test]
fn read_returns_union_of_broadcasts() {
    let mut node = Broadcast::from_init(init("n1", &["n1"]));
    for (i, v) in [5usize, 1, 5, 9, 1].iter().enumerate() {
        node.handle(msg(Some(i + 10), Payload::Broadcast { message: *v })).unwrap();
    }
    assert_eq!(read_set(&mut node, 20), vec![1, 5, 9]);
}

#[test]
fn repeated_broadcast_keeps_set() {
    let mut node = Broadcast::from_init(init("n1", &["n1"]));
    node.handle(msg(Some(1), Payload::Broadcast { message: 3 })).unwrap();
    let before = read_set(&mut node, 2);
    let out = node.handle(msg(Some(3), Payload::Broadcast { message: 3 })).unwrap();
    assert_eq!(out[0].body.msg_id, Some(3));
    assert_eq!(read_set(&mut node, 4), before);
    assert_eq!(node.messages(), &vec![3]);
}

#[test]
fn read_on_fresh_node_is_empty() {
    let mut node = Broadcast::from_init(init("n1", &["n1"]));
    assert_eq!(read_set(&mut node, 1), Vec::<usize>::new());
}

#[test]
fn two_reads_return_same_values() {
    let mut node = Broadcast::from_init(init("n1", &["n1"]));
    node.handle(msg(Some(1), Payload::Broadcast { message: 8 })).unwrap();
    node.handle(msg(Some(2), Payload::Broadcast { message: 4 })).unwrap();
    let first = read_set(&mut node, 3);
    let second = read_set(&mut node, 4);
    assert_eq!(first, second);
    assert_eq!(first, vec![4, 8]);
}

#[test]
fn topology_without_own_entry_fails() {
    let mut node = Broadcast::from_init(init("n1", &["n1", "n2"]));
    let t = topology(&[("n2", &["n3"]), ("n3", &["n2"])]);
    let r = node.handle(msg(Some(1), Payload::Topology { topology: t }));
    assert_eq!(r.unwrap_err(), NoTopology);
    assert!(node.neighborhood().is_empty());
    assert_eq!(node.msg_id(), 2);
}

#[test]
fn topology_sets_neighbors_in_order() {
    let mut node = Broadcast::from_init(init("n1", &["n1", "n2", "n3"]));
    let t = topology(&[("n2", &["n1"]), ("n1", &["n3", "n2"]), ("n3", &["n1"])]);
    let out = node.handle(msg(Some(4), Payload::Topology { topology: t })).unwrap();
    assert_eq!(out.len(), 1);
    assert!(matches!(out[0].body.payload, Payload::TopologyOk));
    assert_eq!(out[0].body.in_reply_to, Some(4));
    assert_eq!(out[0].body.msg_id, Some(1));
    assert_eq!(node.neighborhood(), &vec!["n3".to_string(), "n2".to_string()]);
}

#[test]
fn topology_reassignment_overwrites() {
    let mut node = Broadcast::from_init(init("n1", &["n1", "n2"]));
    let t1 = topology(&[("n1", &["n2"])]);
    node.handle(msg(Some(1), Payload::Topology { topology: t1 })).unwrap();
    let t2 = topology(&[("n1", &[])]);
    node.handle(msg(Some(2), Payload::Topology { topology: t2 })).unwrap();
    assert!(node.neighborhood().is_empty());
}

#[test]
fn replies_to_own_messages_produce_nothing() {
    let mut node = Broadcast::from_init(init("n1", &["n1"]));
    assert!(node.handle(msg(Some(1), Payload::BroadcastOk)).unwrap().is_empty());
    assert!(node.handle(msg(None, Payload::TopologyOk)).unwrap().is_empty());
    let out = node.handle(msg(Some(3), Payload::ReadOk { messages: vec![1, 2] })).unwrap();
    assert!(out.is_empty());
    assert!(node.messages().is_empty());
    assert_eq!(node.msg_id(), 4);
}

#[test]
fn reply_ids_are_distinct_and_correlated() {
    let mut node = Broadcast::from_init(init("n1", &["n1"]));
    let inputs = vec![
        msg(Some(100), Payload::Broadcast { message: 1 }),
        msg(Some(100), Payload::Read),
        msg(None, Payload::BroadcastOk),
        msg(Some(7), Payload::Topology { topology: topology(&[("n1", &["n2"])]) }),
        msg(Some(8), Payload::Read),
    ];
    let mut seen = Vec::new();
    for input in inputs {
        let m = input.body.msg_id;
        for reply in node.handle(input).unwrap() {
            assert_eq!(reply.body.in_reply_to, m);
            let id = reply.body.msg_id.unwrap();
            assert!(!seen.contains(&id));
            seen.push(id);
        }
    }
    assert_eq!(seen, vec![1, 2, 4, 5]);
}
