use std::collections::HashSet;
use vstd::prelude::*;
use vstd::string::*;

use crate::message::{Body, Message};
use crate::protocol::opt_str;

verus! {

broadcast use vstd::std_specs::hash::group_hash_axioms;

/// What a [`Mux`] holds, as plain values.
pub struct MuxView {
    /// This node's id, once the `init` message has named it.
    pub src: Option<Seq<char>>,
    /// The `msg_id` that the next outbound RPC gets.
    pub next_msg_id: u64,
    /// The ids of the RPCs sent whose reply has not come back yet.
    pub pending: Set<u64>,
}

/// The decisions of the process-level multiplexer that owns stdin and
/// stdout: it learns the node's id from `init`, numbers outbound RPCs, and
/// tells the replies to pending RPCs apart from the requests meant for the
/// service. The channels and the waiting RPC futures themselves live with
/// the caller, keyed by the ids that this type hands out.
pub struct Mux {
    src: Option<String>,
    next_msg_id: u64,
    pending: HashSet<u64>,
}

/// Where an inbound message goes.
#[derive(Debug, Clone, Copy, PartialEq, Eq, Structural)]
pub enum Route {
    /// To the RPC that is waiting for the reply to the message with this id.
    Reply(u64),
    /// To the service, as a request.
    Request,
}

/// The kind of the message that tells a node its id.
pub open spec fn init_kind() -> Seq<char> {
    seq!['i', 'n', 'i', 't']
}

/// The multiplexer before any message has come in.
pub open spec fn initial_mux() -> MuxView {
    MuxView { src: None, next_msg_id: 1, pending: Set::empty() }
}

/// The node id is set once: a later value is ignored.
pub open spec fn learn_src(v: MuxView, id: Seq<char>) -> MuxView {
    match v.src {
        Some(_) => v,
        None => MuxView { src: Some(id), ..v },
    }
}

/// Registers an outbound RPC: it gets the next id, which becomes pending,
/// and the counter moves on (wrapping around after `u64::MAX`).
pub open spec fn register(v: MuxView) -> (MuxView, u64) {
    (
        MuxView {
            next_msg_id: if v.next_msg_id == u64::MAX {
                0
            } else {
                (v.next_msg_id + 1) as u64
            },
            pending: v.pending.insert(v.next_msg_id),
            ..v
        },
        v.next_msg_id,
    )
}

/// Routes an inbound message of kind `kind` that answers `in_reply_to` and,
/// for an `init` message, names the node `node_id`. An `init` message that
/// names the node sets its id, if it is not set yet. A message that answers a
/// pending RPC goes to that RPC, which stops being pending; every other
/// message is a request for the service.
pub open spec fn route(
    v: MuxView,
    kind: Seq<char>,
    in_reply_to: Option<u64>,
    node_id: Option<Seq<char>>,
) -> (MuxView, Route) {
    let v1 = if kind == init_kind() && node_id is Some {
        learn_src(v, node_id->0)
    } else {
        v
    };
    match in_reply_to {
        Some(id) => if v1.pending.contains(id) {
            (MuxView { pending: v1.pending.remove(id), ..v1 }, Route::Reply(id))
        } else {
            (v1, Route::Request)
        },
        None => (v1, Route::Request),
    }
}

/// The node's id as outbound messages carry it: empty until it is known.
pub open spec fn src_or_empty(v: MuxView) -> Seq<char> {
    match v.src {
        Some(s) => s,
        None => Seq::empty(),
    }
}

impl View for Mux {
    type V = MuxView;

    closed spec fn view(&self) -> MuxView {
        MuxView { src: opt_str(self.src), next_msg_id: self.next_msg_id, pending: self.pending@ }
    }
}

impl Mux {
    /// A multiplexer that knows no node id, numbers RPCs from 1 and waits for
    /// no reply.
    pub fn new() -> (m: Self)
        ensures
            m@ == initial_mux(),
    {
        Mux { src: None, next_msg_id: 1, pending: HashSet::new() }
    }

    /// This node's id, if the `init` message has named it.
    pub fn node_id(&self) -> (id: Option<String>)
        ensures
            opt_str(id) == self@.src,
    {
        match &self.src {
            Some(s) => Some(s.clone()),
            None => None,
        }
    }

    /// The `src` of outbound messages: the node's id, or the empty string
    /// before it is known.
    pub fn src(&self) -> (s: String)
        ensures
            s@ == src_or_empty(self@),
    {
        match &self.src {
            Some(s) => s.clone(),
            None => String::new(),
        }
    }

    /// Sets the node's id unless it is already set; says whether it was set.
    pub fn set_src(&mut self, id: String) -> (set: bool)
        ensures
            set == (old(self)@.src is None),
            final(self)@ == learn_src(old(self)@, id@),
    {
        if self.src.is_none() {
            self.src = Some(id);
            true
        } else {
            false
        }
    }

    /// Whether an RPC with this id still waits for its reply.
    pub fn is_pending(&self, id: u64) -> (b: bool)
        ensures
            b == self@.pending.contains(id),
    {
        self.pending.contains(&id)
    }

    /// Takes the next RPC id and marks it pending.
    pub fn register_rpc(&mut self) -> (id: u64)
        ensures
            (final(self)@, id) == register(old(self)@),
    {
        let id = self.next_msg_id;
        self.next_msg_id = self.next_msg_id.wrapping_add(1);
        self.pending.insert(id);
        proof {
            assert(final(self)@.pending == register(old(self)@).0.pending);
        }
        id
    }

    /// Decides where an inbound message goes (see [`route`]). `node_id` is
    /// the `node_id` field of the message's payload, where it is a string.
    pub fn route_inbound(&mut self, kind: &String, in_reply_to: Option<u64>, node_id: Option<String>) -> (r: Route)
        ensures
            (final(self)@, r) == route(old(self)@, kind@, in_reply_to, opt_str(node_id)),
    {
        let init = String::from_str("init");
        proof {
            reveal_strlit("init");
            assert(init@ =~= init_kind());
        }
        if *kind == init {
            match node_id {
                Some(id) => {
                    self.set_src(id);
                },
                None => {},
            }
        }
        match in_reply_to {
            Some(id) => {
                if self.pending.contains(&id) {
                    self.pending.remove(&id);
                    Route::Reply(id)
                } else {
                    Route::Request
                }
            },
            None => Route::Request,
        }
    }

    /// A fire-and-forget message from this node: it carries no `msg_id` and
    /// expects no reply.
    pub fn send_message<B>(&self, dest: String, kind: String, payload: B) -> (m: Message<B>)
        ensures
            m.src@ == src_or_empty(self@),
            m.dest == dest,
            m.body.kind == kind,
            m.body.msg_id is None,
            m.body.in_reply_to is None,
            m.body.payload == payload,
    {
        Message {
            src: self.src(),
            dest,
            body: Body { kind, msg_id: None, in_reply_to: None, payload },
        }
    }

    /// An RPC from this node: it takes the next id (see [`register`]), which
    /// stays pending until its reply comes in.
    pub fn rpc_message<B>(&mut self, dest: String, kind: String, payload: B) -> (m: Message<B>)
        ensures
            final(self)@ == register(old(self)@).0,
            m.body.msg_id == Some(register(old(self)@).1),
            m.src@ == src_or_empty(old(self)@),
            m.dest == dest,
            m.body.kind == kind,
            m.body.in_reply_to is None,
            m.body.payload == payload,
    {
        let id = self.register_rpc();
        Message {
            src: self.src(),
            dest,
            body: Body { kind, msg_id: Some(id), in_reply_to: None, payload },
        }
    }
}

/// The reply to a registered RPC goes to that RPC, and only once: the same
/// reply coming in again is handed to the service as a request.
pub proof fn lemma_reply_routed_once(
    v: MuxView,
    kind1: Seq<char>,
    node1: Option<Seq<char>>,
    kind2: Seq<char>,
    node2: Option<Seq<char>>,
)
    ensures
        ({
            let (v1, id) = register(v);
            let (v2, r2) = route(v1, kind1, Some(id), node1);
            let (v3, r3) = route(v2, kind2, Some(id), node2);
            &&& r2 == Route::Reply(id)
            &&& r3 == Route::Request
            &&& !v3.pending.contains(id)
        }),
{
}

/// A message that answers no pending RPC is a request for the service, and
/// leaves the pending RPCs as they were.
pub proof fn lemma_unmatched_is_request(
    v: MuxView,
    kind: Seq<char>,
    in_reply_to: Option<u64>,
    node: Option<Seq<char>>,
)
    requires
        in_reply_to matches Some(id) ==> !v.pending.contains(id),
    ensures
        route(v, kind, in_reply_to, node).1 == Route::Request,
        route(v, kind, in_reply_to, node).0.pending == v.pending,
{
}

/// Routing never touches the RPCs other than the one a reply answers, nor
/// the id counter.
pub proof fn lemma_route_keeps_others(
    v: MuxView,
    kind: Seq<char>,
    in_reply_to: Option<u64>,
    node: Option<Seq<char>>,
    other: u64,
)
    requires
        in_reply_to != Some(other),
    ensures
        route(v, kind, in_reply_to, node).0.pending.contains(other) == v.pending.contains(other),
        route(v, kind, in_reply_to, node).0.next_msg_id == v.next_msg_id,
{
}

/// Once the node's id is known, no later message changes it.
pub proof fn lemma_src_set_once(
    v: MuxView,
    kind: Seq<char>,
    in_reply_to: Option<u64>,
    node: Option<Seq<char>>,
)
    requires
        v.src is Some,
    ensures
        route(v, kind, in_reply_to, node).0.src == v.src,
        register(v).0.src == v.src,
{
}

/// An `init` message that names the node gives an unnamed node its id.
pub proof fn lemma_init_names_node(v: MuxView, in_reply_to: Option<u64>, id: Seq<char>)
    requires
        v.src is None,
    ensures
        route(v, init_kind(), in_reply_to, Some(id)).0.src == Some(id),
{
}

/// Two RPCs registered one after the other get different ids.
pub proof fn lemma_consecutive_ids_differ(v: MuxView)
    ensures
        register(v).1 != register(register(v).0).1,
{
}

/// The multiplexer after `n` RPCs have been registered on `v`.
pub open spec fn after_registrations(v: MuxView, n: nat) -> MuxView
    decreases n,
{
    if n == 0 {
        v
    } else {
        register(after_registrations(v, (n - 1) as nat)).0
    }
}

/// After `n` registrations on a fresh multiplexer (`n < u64::MAX`), with no
/// reply in between, the next id is `n + 1` and the pending ids are exactly
/// `1..=n`: the `k`-th RPC got id `k`, so no two of them share an id.
pub proof fn lemma_registrations_from_fresh(n: nat)
    requires
        n < u64::MAX,
    ensures
        after_registrations(initial_mux(), n).next_msg_id == n + 1,
        forall|i: u64| after_registrations(initial_mux(), n).pending.contains(i) <==> 1 <= i <= n,
    decreases n,
{
    if n > 0 {
        lemma_registrations_from_fresh((n - 1) as nat);
    }
}

/// A reply to any pending RPC goes to that RPC and ends its wait, whatever
/// else is pending, whatever the message's kind and whatever id comes next.
pub proof fn lemma_pending_reply_routed(v: MuxView, kind: Seq<char>, id: u64, node: Option<Seq<char>>)
    requires
        v.pending.contains(id),
    ensures
        route(v, kind, Some(id), node).1 == Route::Reply(id),
        route(v, kind, Some(id), node).0.pending == v.pending.remove(id),
        route(v, kind, Some(id), node).0.next_msg_id == v.next_msg_id,
{
}

/// Registering an RPC gives it the counter's current value, whatever is
/// pending; the counter moves on by one (modulo 2^64) and the new id joins
/// the pending ones.
pub proof fn lemma_register_takes_counter(v: MuxView)
    ensures
        register(v).1 == v.next_msg_id,
        register(v).0.next_msg_id as int == (v.next_msg_id as int + 1) % 0x1_0000_0000_0000_0000,
        register(v).0.pending == v.pending.insert(v.next_msg_id),
        register(v).0.src == v.src,
{
}

/// What happens to a multiplexer: an outbound RPC is registered, or a
/// message comes in (its kind, the id it answers, the node id it names).
pub enum MuxEvent {
    Register,
    Inbound(Seq<char>, Option<u64>, Option<Seq<char>>),
}

/// The multiplexer after one event, and the id that a registration took.
pub open spec fn mux_step(v: MuxView, e: MuxEvent) -> (MuxView, Option<u64>) {
    match e {
        MuxEvent::Register => (register(v).0, Some(register(v).1)),
        MuxEvent::Inbound(kind, in_reply_to, node) => (route(v, kind, in_reply_to, node).0, None),
    }
}

/// The multiplexer after a run of events, and the ids that the run's
/// registrations took, in order.
pub open spec fn mux_run(v: MuxView, events: Seq<MuxEvent>) -> (MuxView, Seq<u64>)
    decreases events.len(),
{
    if events.len() == 0 {
        (v, Seq::empty())
    } else {
        let (v1, ids) = mux_run(v, events.drop_last());
        let (v2, taken) = mux_step(v1, events.last());
        match taken {
            Some(id) => (v2, ids.push(id)),
            None => (v2, ids),
        }
    }
}

/// On a fresh multiplexer, whatever replies and requests come in between,
/// the `k`-th registered RPC gets id `k` (counting from 1, for fewer than
/// `u64::MAX` registrations), so every RPC gets an id that no earlier one had.
pub proof fn lemma_run_ids_count_up(events: Seq<MuxEvent>)
    ensures
        mux_run(initial_mux(), events).1.len() < u64::MAX ==> {
            &&& mux_run(initial_mux(), events).0.next_msg_id == mux_run(initial_mux(), events).1.len() + 1
            &&& forall|k: int|
                0 <= k < mux_run(initial_mux(), events).1.len() ==> #[trigger] mux_run(initial_mux(), events).1[k]
                    == k + 1
        },
    decreases events.len(),
{
    if events.len() > 0 {
        lemma_run_ids_count_up(events.drop_last());
    }
}

/// On a fresh multiplexer, no two RPCs of a run share an id (for fewer than
/// `u64::MAX` registrations), whatever messages came in between.
pub proof fn lemma_run_ids_distinct(events: Seq<MuxEvent>, i: int, j: int)
    requires
        mux_run(initial_mux(), events).1.len() < u64::MAX,
        0 <= i < j < mux_run(initial_mux(), events).1.len(),
    ensures
        mux_run(initial_mux(), events).1[i] != mux_run(initial_mux(), events).1[j],
{
    lemma_run_ids_count_up(events);
}

} // verus!
