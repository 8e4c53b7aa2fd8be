use maelstrom::broadcast::{BroadcastRequest, BroadcastResponse, BroadcastService};
use maelstrom::echo::{EchoRequest, EchoResponse, EchoService};
use maelstrom::message::{Metadata, Request};
use maelstrom::protocol::{Broadcast, Echo, Generate, Init, Read, Topology};
use maelstrom::service::Service;
use maelstrom::unique_ids::{UniqueIdRequest, UniqueIdResponse, UniqueIdService};

fn s(x: &str) -> String {
    x.to_string()
}

fn req<B>(kind: &str, payload: B) -> Request<B> {
    Request::new(
        Metadata { src: s("c1"), dest: s("n1"), kind: s(kind), msg_id: Some(1), in_reply_to: None },
        payload,
    )
}

fn init(id: &str, ids: &[&str]) -> Init {
    Init { node_id: s(id), node_ids: ids.iter().map(|x| s(x)).collect() }
}

#[test]
fn echo_sends_the_text_back() {
    let svc = EchoService::default();
    let r = svc.echo(req("echo", Echo { echo: s("hello") })).unwrap();
    assert_eq!(r.body().echo, "hello");
    assert!(r.into_parts().0.is_none());
}

#[test]
fn echo_init_is_kept_once() {
    let mut svc = EchoService::default();
    assert_eq!(svc.node_id(), None);
    svc.init(req("init", init("n1", &["n1", "n2"]))).unwrap();
    svc.init(req("init", init("n9", &["n9"]))).unwrap();
    assert_eq!(svc.node_id(), Some(s("n1")));
    assert_eq!(svc.node_ids(), Some(vec![s("n1"), s("n2")]));
}

#[test]
fn echo_service_dispatches_by_kind() {
    let mut svc = EchoService::default();
    let r = svc.call(req("init", EchoRequest::Init(init("n1", &["n1"])))).unwrap();
    assert!(matches!(r.body(), EchoResponse::InitOk(_)));
    let r = svc.call(req("echo", EchoRequest::Echo(Echo { echo: s("x") }))).unwrap();
    match r.body() {
        EchoResponse::EchoOk(ok) => assert_eq!(ok.echo, "x"),
        _ => panic!("wrong reply"),
    }
}

#[test]
fn generate_before_init_uses_unknown() {
    let mut svc = UniqueIdService::default();
    let r = svc.generate(req("generate", Generate {})).unwrap();
    assert_eq!(r.body().id, "unknown-0");
    assert_eq!(svc.counter(), 1);
}

#[test]
fn generate_counts_per_node() {
    let mut svc = UniqueIdService::default();
    svc.init(req("init", init("n3", &["n1", "n2", "n3"]))).unwrap();
    let ids: Vec<String> = (0..12).map(|_| svc.generate(req("generate", Generate {})).unwrap().body().id.clone()).collect();
    assert_eq!(ids[0], "n3-0");
    assert_eq!(ids[9], "n3-9");
    assert_eq!(ids[10], "n3-10");
    assert_eq!(ids[11], "n3-11");
    let mut sorted = ids.clone();
    sorted.sort();
    sorted.dedup();
    assert_eq!(sorted.len(), ids.len());
}

#[test]
fn unique_id_init_is_kept_once() {
    let mut svc = UniqueIdService::default();
    svc.init(req("init", init("n1", &[]))).unwrap();
    svc.init(req("init", init("n2", &[]))).unwrap();
    assert_eq!(svc.node_id(), Some(s("n1")));
}

#[test]
fn unique_id_service_dispatches_by_kind() {
    let mut svc = UniqueIdService::default();
    svc.call(req("init", UniqueIdRequest::Init(init("n2", &["n2"])))).unwrap();
    let r = svc.call(req("generate", UniqueIdRequest::Generate(Generate {}))).unwrap();
    match r.body() {
        UniqueIdResponse::GenerateOk(ok) => assert_eq!(ok.id, "n2-0"),
        _ => panic!("wrong reply"),
    }
}

fn topology(entries: &[(&str, &[&str])]) -> Topology {
    Topology {
        topology: entries.iter().map(|(k, ns)| (s(k), ns.iter().map(|x| s(x)).collect())).collect(),
    }
}

#[test]
fn read_returns_broadcasts_in_order() {
    let mut svc = BroadcastService::default();
    let r = svc.read(req("read", Read {})).unwrap();
    assert!(r.body().messages.is_empty());
    for m in [3i64, -1, 3, 1000] {
        svc.broadcast(req("broadcast", Broadcast { message: m })).unwrap();
    }
    let r = svc.read(req("read", Read {})).unwrap();
    assert_eq!(r.body().messages, vec![3, -1, 3, 1000]);
}

#[test]
fn topology_picks_this_nodes_neighbors() {
    let mut svc = BroadcastService::default();
    svc.init(req("init", init("n2", &["n1", "n2", "n3"]))).unwrap();
    svc.topology(req("topology", topology(&[("n1", &["n2"]), ("n2", &["n1", "n3"]), ("n3", &["n2"])])))
        .unwrap();
    assert_eq!(svc.neighbors(), Some(vec![s("n1"), s("n3")]));
    svc.topology(req("topology", topology(&[("n2", &["n9"])]))).unwrap();
    assert_eq!(svc.neighbors(), Some(vec![s("n1"), s("n3")]));
}

#[test]
fn topology_before_init_or_without_entry_sets_nothing() {
    let mut svc = BroadcastService::default();
    svc.topology(req("topology", topology(&[("n1", &["n2"])]))).unwrap();
    assert_eq!(svc.neighbors(), None);
    svc.init(req("init", init("n4", &["n4"]))).unwrap();
    svc.topology(req("topology", topology(&[("n1", &["n2"])]))).unwrap();
    assert_eq!(svc.neighbors(), None);
    assert_eq!(svc.node_id(), Some(s("n4")));
    assert_eq!(svc.node_ids(), Some(vec![s("n4")]));
}

#[test]
fn broadcast_service_dispatches_by_kind() {
    let mut svc = BroadcastService::default();
    svc.call(req("init", BroadcastRequest::Init(init("n1", &["n1"])))).unwrap();
    svc.call(req("broadcast", BroadcastRequest::Broadcast(Broadcast { message: 5 }))).unwrap();
    let r = svc.call(req("read", BroadcastRequest::Read(Read {}))).unwrap();
    match r.body() {
        BroadcastResponse::ReadOk(ok) => assert_eq!(ok.messages, vec![5]),
        _ => panic!("wrong reply"),
    }
}

#[test]
fn ids_from_different_nodes_differ() {
    let mut a = UniqueIdService::default();
    let mut b = UniqueIdService::default();
    a.init(req("init", init("n1", &["n1", "n11"]))).unwrap();
    b.init(req("init", init("n11", &["n1", "n11"]))).unwrap();
    let mut all = Vec::new();
    for _ in 0..15 {
        all.push(a.generate(req("generate", Generate {})).unwrap().body().id.clone());
        all.push(b.generate(req("generate", Generate {})).unwrap().body().id.clone());
    }
    assert!(all.contains(&s("n1-11")));
    assert!(all.contains(&s("n11-1")));
    let mut sorted = all.clone();
    sorted.sort();
    sorted.dedup();
    assert_eq!(sorted.len(), all.len());
}

#[test]
fn broadcast_keeps_values_through_other_requests() {
    let mut svc = BroadcastService::default();
    svc.broadcast(req("broadcast", Broadcast { message: 1 })).unwrap();
    svc.init(req("init", init("n1", &["n1", "n2"]))).unwrap();
    svc.topology(req("topology", topology(&[("n1", &["n2"])]))).unwrap();
    svc.broadcast(req("broadcast", Broadcast { message: 2 })).unwrap();
    let r = svc.read(req("read", Read {})).unwrap();
    assert_eq!(r.body().messages, vec![1, 2]);
    assert_eq!(svc.neighbors(), Some(vec![s("n2")]));
}

#[test]
fn gossip_goes_to_every_neighbor_in_order() {
    let mut svc = BroadcastService::default();
    assert!(svc.gossip(&Broadcast { message: 4 }).is_empty());
    svc.init(req("init", init("n1", &["n1", "n2", "n3"]))).unwrap();
    svc.topology(req("topology", topology(&[("n1", &["n3", "n2"])]))).unwrap();
    let out = svc.gossip(&Broadcast { message: 4 });
    assert_eq!(out.len(), 2);
    assert_eq!(out[0].0, "n3");
    assert_eq!(out[1].0, "n2");
    for (_, kind, body) in &out {
        assert_eq!(kind, "broadcast");
        assert_eq!(body.message, 4);
    }
}

#[test]
fn reads_return_all_broadcasts_with_repeats() {
    let mut svc = BroadcastService::default();
    let steps = vec![
        BroadcastRequest::Broadcast(Broadcast { message: 7 }),
        BroadcastRequest::Read(Read {}),
        BroadcastRequest::Init(init("n1", &["n1"])),
        BroadcastRequest::Broadcast(Broadcast { message: 7 }),
        BroadcastRequest::Broadcast(Broadcast { message: -2 }),
    ];
    for s in steps {
        svc.call(req("x", s)).unwrap();
    }
    let a = svc.read(req("read", Read {})).unwrap().into_parts();
    let b = svc.read(req("read", Read {})).unwrap().into_parts();
    assert!(a.0.is_none());
    assert_eq!(a.1.messages, vec![7, 7, -2]);
    assert_eq!(b.1.messages, a.1.messages);
}

#[test]
fn ids_differ_even_for_node_ids_with_dashes() {
    let mut a = UniqueIdService::default();
    let mut b = UniqueIdService::default();
    a.init(req("init", init("a-1", &[]))).unwrap();
    b.init(req("init", init("a", &[]))).unwrap();
    let mut all = Vec::new();
    for _ in 0..12 {
        all.push(a.generate(req("generate", Generate {})).unwrap().body().id.clone());
        all.push(b.generate(req("generate", Generate {})).unwrap().body().id.clone());
    }
    assert!(all.contains(&s("a-1-0")));
    assert!(all.contains(&s("a-10")));
    let mut sorted = all.clone();
    sorted.sort();
    sorted.dedup();
    assert_eq!(sorted.len(), all.len());
}
