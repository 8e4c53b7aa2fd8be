use maelstrom::message::{reply_message, Metadata, Request, Response};

fn meta(src: &str, dest: &str, kind: &str, msg_id: Option<u64>, in_reply_to: Option<u64>) -> Metadata {
    Metadata {
        src: src.to_string(),
        dest: dest.to_string(),
        kind: kind.to_string(),
        msg_id,
        in_reply_to,
    }
}

#[test]
fn request_round_trips_metadata_and_payload() {
    let req = Request::new(meta("c1", "n1", "echo", Some(7), None), 42i64);
    let m = req.metadata();
    assert_eq!(m.src, "c1");
    assert_eq!(m.dest, "n1");
    assert_eq!(m.kind, "echo");
    assert_eq!(m.msg_id, Some(7));
    assert_eq!(m.in_reply_to, None);
    assert_eq!(*req.body(), 42);
    let (m2, p) = req.into_parts();
    assert_eq!(m2.src, "c1");
    assert_eq!(m2.kind, "echo");
    assert_eq!(m2.msg_id, Some(7));
    assert_eq!(p, 42);
}

#[test]
fn request_from_message_keeps_the_message() {
    let req = Request::new(meta("n2", "n1", "read_ok", None, Some(3)), "x".to_string());
    let (md, payload) = req.into_parts();
    let msg = maelstrom::message::Message {
        src: md.src,
        dest: md.dest,
        body: maelstrom::message::Body { kind: md.kind, msg_id: md.msg_id, in_reply_to: md.in_reply_to, payload },
    };
    let req = Request::from_message(msg);
    assert_eq!(req.metadata().in_reply_to, Some(3));
    assert_eq!(req.body(), "x");
}

#[test]
fn response_parts() {
    let r = Response::new(5u8);
    assert_eq!(*r.body(), 5);
    let (md, p) = r.into_parts();
    assert!(md.is_none());
    assert_eq!(p, 5);
    let r = Response::with_metadata(meta("n1", "n9", "custom", Some(1), None), 6u8);
    let (md, p) = r.into_parts();
    assert_eq!(md.unwrap().dest, "n9");
    assert_eq!(p, 6);
}

#[test]
fn default_reply_swaps_routing_and_answers_the_request() {
    let req = meta("c1", "n1", "echo", Some(12), None);
    let m = reply_message(&req, Response::new("hi".to_string()));
    assert_eq!(m.src, "n1");
    assert_eq!(m.dest, "c1");
    assert_eq!(m.body.kind, "echo_ok");
    assert_eq!(m.body.msg_id, None);
    assert_eq!(m.body.in_reply_to, Some(12));
    assert_eq!(m.body.payload, "hi");
}

#[test]
fn reply_to_request_without_id_answers_nothing() {
    let req = meta("c2", "n3", "read", None, None);
    let m = reply_message(&req, Response::new(0u8));
    assert_eq!(m.body.kind, "read_ok");
    assert_eq!(m.body.in_reply_to, None);
}

#[test]
fn reply_with_override_uses_it_as_is() {
    let req = meta("c1", "n1", "echo", Some(12), None);
    let m = reply_message(&req, Response::with_metadata(meta("n1", "n2", "gossip", Some(99), Some(4)), 1i64));
    assert_eq!(m.src, "n1");
    assert_eq!(m.dest, "n2");
    assert_eq!(m.body.kind, "gossip");
    assert_eq!(m.body.msg_id, Some(99));
    assert_eq!(m.body.in_reply_to, Some(4));
    assert_eq!(m.body.payload, 1);
}

#[test]
fn response_from_parts_inverts_into_parts() {
    let r = Response::from_parts(Some(meta("a", "b", "k", None, None)), 3u32);
    let (md, p) = r.into_parts();
    assert_eq!(md.unwrap().src, "a");
    assert_eq!(p, 3);
}

#[test]
fn request_clone_keeps_envelope_and_payload() {
    let r = Request::new(meta("c1", "n1", "echo", Some(9), Some(2)), "hi".to_string());
    let c = r.clone();
    let m = r.metadata();
    let (m2, p) = c.into_parts();
    assert_eq!(m.src, m2.src);
    assert_eq!(m.dest, m2.dest);
    assert_eq!(m.kind, m2.kind);
    assert_eq!(m.msg_id, m2.msg_id);
    assert_eq!(m.in_reply_to, m2.in_reply_to);
    assert_eq!(*r.body(), p);
}
