use maelstrom::mux::{Mux, Route};

fn s(x: &str) -> String {
    x.to_string()
}

#[test]
fn fresh_mux_has_no_node_id() {
    let m = Mux::new();
    assert_eq!(m.node_id(), None);
    assert_eq!(m.src(), "");
}

#[test]
fn init_sets_the_node_id_once() {
    let mut m = Mux::new();
    assert_eq!(m.route_inbound(&s("init"), None, Some(s("n1"))), Route::Request);
    assert_eq!(m.node_id(), Some(s("n1")));
    assert_eq!(m.route_inbound(&s("init"), None, Some(s("n2"))), Route::Request);
    assert_eq!(m.node_id(), Some(s("n1")));
    assert_eq!(m.src(), "n1");
}

#[test]
fn only_init_names_the_node() {
    let mut m = Mux::new();
    m.route_inbound(&s("echo"), None, Some(s("n5")));
    assert_eq!(m.node_id(), None);
    m.route_inbound(&s("init"), None, None);
    assert_eq!(m.node_id(), None);
}

#[test]
fn set_src_reports_whether_it_set() {
    let mut m = Mux::new();
    assert!(m.set_src(s("n3")));
    assert!(!m.set_src(s("n4")));
    assert_eq!(m.src(), "n3");
}

#[test]
fn rpc_ids_start_at_one_and_increase() {
    let mut m = Mux::new();
    assert_eq!(m.register_rpc(), 1);
    assert_eq!(m.register_rpc(), 2);
    assert_eq!(m.register_rpc(), 3);
    assert!(m.is_pending(1) && m.is_pending(2) && m.is_pending(3));
    assert!(!m.is_pending(4));
}

#[test]
fn reply_is_routed_to_its_rpc_once() {
    let mut m = Mux::new();
    let id = m.register_rpc();
    assert_eq!(m.route_inbound(&s("read_ok"), Some(id), None), Route::Reply(id));
    assert!(!m.is_pending(id));
    assert_eq!(m.route_inbound(&s("read_ok"), Some(id), None), Route::Request);
}

#[test]
fn unmatched_reply_is_a_request() {
    let mut m = Mux::new();
    let id = m.register_rpc();
    assert_eq!(m.route_inbound(&s("echo_ok"), Some(id + 10), None), Route::Request);
    assert!(m.is_pending(id));
}

#[test]
fn send_message_has_no_id() {
    let mut m = Mux::new();
    m.set_src(s("n1"));
    let msg = m.send_message(s("n2"), s("broadcast"), 7i64);
    assert_eq!(msg.src, "n1");
    assert_eq!(msg.dest, "n2");
    assert_eq!(msg.body.kind, "broadcast");
    assert_eq!(msg.body.msg_id, None);
    assert_eq!(msg.body.in_reply_to, None);
    assert_eq!(msg.body.payload, 7);
}

#[test]
fn rpc_message_takes_the_next_id() {
    let mut m = Mux::new();
    let a = m.rpc_message(s("n2"), s("broadcast"), 1i64);
    let b = m.rpc_message(s("n3"), s("broadcast"), 2i64);
    assert_eq!(a.body.msg_id, Some(1));
    assert_eq!(b.body.msg_id, Some(2));
    assert_eq!(a.src, "");
    assert!(m.is_pending(1) && m.is_pending(2));
    assert_eq!(m.route_inbound(&s("broadcast_ok"), Some(2), None), Route::Reply(2));
    assert!(m.is_pending(1));
}
