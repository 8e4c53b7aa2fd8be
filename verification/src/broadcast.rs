use vstd::prelude::*;
use vstd::string::*;

use crate::error::ErrorCode;
use crate::message::{Request, Response};
use crate::protocol::{
    clone_strings, opt_str, opt_strs, set_once, Broadcast, BroadcastOk, Init, InitOk, Read, ReadOk,
    Topology, TopologyOk,
};
use crate::service::Service;

verus! {

/// What a [`BroadcastService`] holds, as plain values.
pub struct BroadcastView {
    pub node_id: Option<Seq<char>>,
    pub node_ids: Option<Seq<Seq<char>>>,
    pub neighbors: Option<Seq<Seq<char>>>,
    pub messages: Seq<i64>,
}

/// The broadcast workload: a node that stores every value broadcast to it,
/// passes each on to its neighbors, and reports all it has seen on `read`.
pub struct BroadcastService {
    node_id: Option<String>,
    node_ids: Option<Vec<String>>,
    neighbors: Option<Vec<String>>,
    messages: Vec<i64>,
}

/// The requests of the broadcast workload.
#[derive(Clone, Debug)]
pub enum BroadcastRequest {
    Init(Init),
    Topology(Topology),
    Broadcast(Broadcast),
    Read(Read),
}

/// The replies of the broadcast workload.
#[derive(Clone, Debug)]
pub enum BroadcastResponse {
    InitOk(InitOk),
    TopologyOk(TopologyOk),
    BroadcastOk(BroadcastOk),
    ReadOk(ReadOk),
}

impl View for BroadcastService {
    type V = BroadcastView;

    closed spec fn view(&self) -> BroadcastView {
        BroadcastView {
            node_id: opt_str(self.node_id),
            node_ids: opt_strs(self.node_ids),
            neighbors: opt_strs(self.neighbors),
            messages: self.messages@,
        }
    }
}

/// Whether entry `j` of a topology is the first one about node `id`.
pub open spec fn is_first_entry(topology: Seq<(Seq<char>, Seq<Seq<char>>)>, id: Seq<char>, j: int) -> bool {
    &&& 0 <= j < topology.len()
    &&& topology[j].0 == id
    &&& forall|k: int| 0 <= k < j ==> topology[k].0 != id
}

/// The neighbors that a topology gives node `id`: those of its first entry
/// about `id`, if there is one.
pub open spec fn neighbors_in(topology: Seq<(Seq<char>, Seq<Seq<char>>)>, id: Seq<char>) -> Option<
    Seq<Seq<char>>,
> {
    if exists|j: int| is_first_entry(topology, id, j) {
        Some(topology[choose|j: int| is_first_entry(topology, id, j)].1)
    } else {
        None
    }
}

/// The node after `init` named it `id` in a cluster of `ids`.
pub open spec fn after_init(v: BroadcastView, id: Seq<char>, ids: Seq<Seq<char>>) -> BroadcastView {
    BroadcastView { node_id: set_once(v.node_id, id), node_ids: set_once(v.node_ids, ids), ..v }
}

/// The node after `topology`: a named node keeps the neighbors that the
/// topology gives it, unless it has neighbors already.
pub open spec fn after_topology(v: BroadcastView, topology: Seq<(Seq<char>, Seq<Seq<char>>)>) -> BroadcastView {
    match v.node_id {
        Some(id) => match neighbors_in(topology, id) {
            Some(ns) => BroadcastView { neighbors: set_once(v.neighbors, ns), ..v },
            None => v,
        },
        None => v,
    }
}

/// The node after `broadcast` of `m`: `m` is added after every value seen before.
pub open spec fn after_broadcast(v: BroadcastView, m: i64) -> BroadcastView {
    BroadcastView { messages: v.messages.push(m), ..v }
}

/// The kind of the message that passes a broadcast value on.
pub open spec fn gossip_kind() -> Seq<char> {
    seq!['b', 'r', 'o', 'a', 'd', 'c', 'a', 's', 't']
}

/// A request to the broadcast node, as plain values.
pub enum BroadcastStep {
    Init(Seq<char>, Seq<Seq<char>>),
    Topology(Seq<(Seq<char>, Seq<Seq<char>>)>),
    Broadcast(i64),
    Read,
}

/// The plain values of a request.
pub open spec fn step_of(r: BroadcastRequest) -> BroadcastStep {
    match r {
        BroadcastRequest::Init(b) => BroadcastStep::Init(b.node_id@, b.node_ids.deep_view()),
        BroadcastRequest::Topology(b) => BroadcastStep::Topology(b.topology.deep_view()),
        BroadcastRequest::Broadcast(b) => BroadcastStep::Broadcast(b.message),
        BroadcastRequest::Read(_) => BroadcastStep::Read,
    }
}

/// The node after one request.
pub open spec fn apply_step(v: BroadcastView, s: BroadcastStep) -> BroadcastView {
    match s {
        BroadcastStep::Init(id, ids) => after_init(v, id, ids),
        BroadcastStep::Topology(t) => after_topology(v, t),
        BroadcastStep::Broadcast(m) => after_broadcast(v, m),
        BroadcastStep::Read => v,
    }
}

/// The node after a run of requests, in order.
pub open spec fn apply_steps(v: BroadcastView, steps: Seq<BroadcastStep>) -> BroadcastView
    decreases steps.len(),
{
    if steps.len() == 0 {
        v
    } else {
        apply_step(apply_steps(v, steps.drop_last()), steps.last())
    }
}

/// The values that a run of requests broadcasts, in order, repeats kept.
pub open spec fn broadcast_values(steps: Seq<BroadcastStep>) -> Seq<i64>
    decreases steps.len(),
{
    if steps.len() == 0 {
        Seq::empty()
    } else {
        let earlier = broadcast_values(steps.drop_last());
        match steps.last() {
            BroadcastStep::Broadcast(m) => earlier.push(m),
            _ => earlier,
        }
    }
}

/// A node that knows nothing yet and has seen no value.
pub open spec fn fresh_broadcast_node() -> BroadcastView {
    BroadcastView { node_id: None, node_ids: None, neighbors: None, messages: Seq::empty() }
}

impl Default for BroadcastService {
    /// A node that knows nothing yet and has seen no value.
    fn default() -> (s: Self)
        ensures
            s@ == fresh_broadcast_node(),
    {
        BroadcastService { node_id: None, node_ids: None, neighbors: None, messages: Vec::new() }
    }
}

impl BroadcastService {
    /// Learns the node's id and the cluster's ids (each only the first time)
    /// and acknowledges.
    pub fn init(&mut self, req: Request<Init>) -> (r: Result<Response<InitOk>, ErrorCode>)
        ensures
            final(self)@ == after_init(
                old(self)@,
                req.message().body.payload.node_id@,
                req.message().body.payload.node_ids.deep_view(),
            ),
            (r matches Ok(resp) && resp.override_metadata() is None && resp.payload() == (InitOk {})),
    {
        let body = req.body();
        if self.node_id.is_none() {
            self.node_id = Some(body.node_id.clone());
        }
        if self.node_ids.is_none() {
            self.node_ids = Some(clone_strings(&body.node_ids));
        }
        Ok(Response::new(InitOk {}))
    }

    /// Keeps the neighbors that the topology gives this node (see
    /// [`after_topology`]) and acknowledges.
    pub fn topology(&mut self, req: Request<Topology>) -> (r: Result<Response<TopologyOk>, ErrorCode>)
        ensures
            final(self)@ == after_topology(old(self)@, req.message().body.payload.topology.deep_view()),
            (r matches Ok(resp) && resp.override_metadata() is None && resp.payload() == (TopologyOk {})),
    {
        let (_, body) = req.into_parts();
        let topology = body.topology;
        let ghost tv = topology.deep_view();
        match &self.node_id {
            Some(id) => {
                let mut found: Option<Vec<String>> = None;
                let mut i: usize = 0;
                while i < topology.len()
                    invariant_except_break
                        i <= topology.len(),
                        forall|k: int| 0 <= k < i ==> tv[k].0 != id@,
                        found is None,
                    invariant
                        tv == topology.deep_view(),
                    ensures
                        found is None ==> !exists|j: int| is_first_entry(tv, id@, j),
                        found matches Some(ns) ==> neighbors_in(tv, id@) == Some(ns.deep_view()),
                    decreases topology.len() - i,
                {
                    if topology[i].0 == *id {
                        let ns = clone_strings(&topology[i].1);
                        proof {
                            assert(tv[i as int] == topology[i as int].deep_view());
                            assert(is_first_entry(tv, id@, i as int));
                            let j = choose|j: int| is_first_entry(tv, id@, j);
                            assert(j == i);
                        }
                        found = Some(ns);
                        break;
                    }
                    proof {
                        assert(tv[i as int] == topology[i as int].deep_view());
                    }
                    i += 1;
                }
                match found {
                    Some(ns) => {
                        if self.neighbors.is_none() {
                            self.neighbors = Some(ns);
                        }
                    },
                    None => {},
                }
            },
            None => {},
        }
        Ok(Response::new(TopologyOk {}))
    }

    /// Stores the broadcast value and acknowledges. Passing the value on to
    /// the [`neighbors`](Self::neighbors) is up to the caller, which owns the
    /// network.
    pub fn broadcast(&mut self, req: Request<Broadcast>) -> (r: Result<Response<BroadcastOk>, ErrorCode>)
        ensures
            final(self)@ == after_broadcast(old(self)@, req.message().body.payload.message),
            (r matches Ok(resp) && resp.override_metadata() is None && resp.payload() == (BroadcastOk {})),
    {
        let message = req.body().message;
        self.messages.push(message);
        Ok(Response::new(BroadcastOk {}))
    }

    /// Every value broadcast to the node, in the order they came.
    pub fn read(&self, _req: Request<Read>) -> (r: Result<Response<ReadOk>, ErrorCode>)
        ensures
            (r matches Ok(resp) && resp.override_metadata() is None
                && resp.payload().messages@ == self@.messages),
    {
        let messages = self.messages.clone();
        proof {
            assert(messages@ =~= self.messages@);
        }
        Ok(Response::new(ReadOk { messages }))
    }

    /// The nodes that broadcast values are passed on to, once `topology` has
    /// named them.
    pub fn neighbors(&self) -> (ns: Option<Vec<String>>)
        ensures
            opt_strs(ns) == self@.neighbors,
    {
        match &self.neighbors {
            Some(v) => Some(clone_strings(v)),
            None => None,
        }
    }

    /// The RPCs that pass a broadcast value on: one `broadcast` message
    /// carrying `b` to each neighbor, in the neighbors' order; none before
    /// `topology` has named the neighbors.
    pub fn gossip(&self, b: &Broadcast) -> (out: Vec<(String, String, Broadcast)>)
        ensures
            out.len() == (match self@.neighbors {
                Some(ns) => ns.len(),
                None => 0,
            }),
            forall|i: int|
                0 <= i < out.len() ==> {
                    &&& (#[trigger] out[i]).0@ == self@.neighbors->0[i]
                    &&& out[i].1@ == gossip_kind()
                    &&& out[i].2 == *b
                },
    {
        let mut out: Vec<(String, String, Broadcast)> = Vec::new();
        match &self.neighbors {
            Some(ns) => {
                let ghost nv = ns.deep_view();
                let mut i: usize = 0;
                while i < ns.len()
                    invariant
                        i <= ns.len(),
                        nv == ns.deep_view(),
                        self@.neighbors == Some(nv),
                        out.len() == i,
                        forall|k: int|
                            0 <= k < i ==> {
                                &&& (#[trigger] out[k]).0@ == nv[k]
                                &&& out[k].1@ == gossip_kind()
                                &&& out[k].2 == *b
                            },
                    decreases ns.len() - i,
                {
                    let kind = String::from_str("broadcast");
                    proof {
                        reveal_strlit("broadcast");
                        assert(kind@ =~= gossip_kind());
                    }
                    out.push((ns[i].clone(), kind, *b));
                    i += 1;
                }
            },
            None => {},
        }
        out
    }

    /// The node's id, once `init` has named it.
    pub fn node_id(&self) -> (id: Option<String>)
        ensures
            opt_str(id) == self@.node_id,
    {
        match &self.node_id {
            Some(s) => Some(s.clone()),
            None => None,
        }
    }

    /// The ids of all nodes, once `init` has named them.
    pub fn node_ids(&self) -> (ids: Option<Vec<String>>)
        ensures
            opt_strs(ids) == self@.node_ids,
    {
        match &self.node_ids {
            Some(v) => Some(clone_strings(v)),
            None => None,
        }
    }
}

impl Service<Request<BroadcastRequest>> for BroadcastService {
    type Response = Response<BroadcastResponse>;
    type Error = ErrorCode;

    /// Hands the request to the handler of its kind.
    fn call(&mut self, req: Request<BroadcastRequest>) -> (r: Result<Response<BroadcastResponse>, ErrorCode>)
        ensures
            final(self)@ == apply_step(old(self)@, step_of(req.message().body.payload)),
            (match req.message().body.payload {
                BroadcastRequest::Init(b) => {
                    &&& final(self)@ == after_init(old(self)@, b.node_id@, b.node_ids.deep_view())
                    &&& r matches Ok(resp) && resp.override_metadata() is None
                        && resp.payload() == BroadcastResponse::InitOk((InitOk {}))
                },
                BroadcastRequest::Topology(b) => {
                    &&& final(self)@ == after_topology(old(self)@, b.topology.deep_view())
                    &&& r matches Ok(resp) && resp.override_metadata() is None
                        && resp.payload() == BroadcastResponse::TopologyOk((TopologyOk {}))
                },
                BroadcastRequest::Broadcast(b) => {
                    &&& final(self)@ == after_broadcast(old(self)@, b.message)
                    &&& r matches Ok(resp) && resp.override_metadata() is None
                        && resp.payload() == BroadcastResponse::BroadcastOk((BroadcastOk {}))
                },
                BroadcastRequest::Read(_) => {
                    &&& final(self)@ == old(self)@
                    &&& r matches Ok(resp) && resp.override_metadata() is None
                        && (resp.payload() matches BroadcastResponse::ReadOk(ok)
                        && ok.messages@ == old(self)@.messages)
                },
            }),
    {
        let (metadata, payload) = req.into_parts();
        match payload {
            BroadcastRequest::Init(b) => {
                match self.init(Request::new(metadata, b)) {
                    Ok(resp) => {
                        let (md, p) = resp.into_parts();
                        Ok(Response::from_parts(md, BroadcastResponse::InitOk(p)))
                    },
                    Err(e) => Err(e),
                }
            },
            BroadcastRequest::Topology(b) => {
                match self.topology(Request::new(metadata, b)) {
                    Ok(resp) => {
                        let (md, p) = resp.into_parts();
                        Ok(Response::from_parts(md, BroadcastResponse::TopologyOk(p)))
                    },
                    Err(e) => Err(e),
                }
            },
            BroadcastRequest::Broadcast(b) => {
                match self.broadcast(Request::new(metadata, b)) {
                    Ok(resp) => {
                        let (md, p) = resp.into_parts();
                        Ok(Response::from_parts(md, BroadcastResponse::BroadcastOk(p)))
                    },
                    Err(e) => Err(e),
                }
            },
            BroadcastRequest::Read(b) => {
                match self.read(Request::new(metadata, b)) {
                    Ok(resp) => {
                        let (md, p) = resp.into_parts();
                        Ok(Response::from_parts(md, BroadcastResponse::ReadOk(p)))
                    },
                    Err(e) => Err(e),
                }
            },
        }
    }
}

/// A read after a broadcast of `m` gives back everything read before, then `m`.
pub proof fn lemma_read_after_broadcast(v: BroadcastView, m: i64)
    ensures
        after_broadcast(v, m).messages == v.messages.push(m),
        after_broadcast(v, m).messages.contains(m),
{
    assert(after_broadcast(v, m).messages[v.messages.len() as int] == m);
}

/// A read gives back every value broadcast before it, in the order they
/// came, repeats kept: after any run of requests, the node holds what it held
/// before followed by the run's broadcast values. From a fresh node, that is
/// exactly the run's broadcast values. A read changes nothing, so two reads
/// in a row give the same list.
pub proof fn lemma_read_returns_all_broadcasts(v: BroadcastView, steps: Seq<BroadcastStep>)
    ensures
        apply_steps(v, steps).messages == v.messages + broadcast_values(steps),
        apply_steps(fresh_broadcast_node(), steps).messages == broadcast_values(steps),
        apply_step(apply_steps(v, steps), BroadcastStep::Read) == apply_steps(v, steps),
    decreases steps.len(),
{
    if steps.len() > 0 {
        lemma_read_returns_all_broadcasts(v, steps.drop_last());
        lemma_read_returns_all_broadcasts(fresh_broadcast_node(), steps.drop_last());
        match steps.last() {
            BroadcastStep::Broadcast(m) => {
                assert(v.messages + broadcast_values(steps) =~= (v.messages + broadcast_values(steps.drop_last())).push(m));
            },
            _ => {},
        }
    }
    assert(fresh_broadcast_node().messages + broadcast_values(steps) =~= broadcast_values(steps));
}

/// No value broadcast to a node is ever lost: `init`, `topology` and further
/// broadcasts keep every value seen so far, at its place.
pub proof fn lemma_values_kept(
    v: BroadcastView,
    id: Seq<char>,
    ids: Seq<Seq<char>>,
    topology: Seq<(Seq<char>, Seq<Seq<char>>)>,
    m: i64,
)
    ensures
        after_init(v, id, ids).messages == v.messages,
        after_topology(v, topology).messages == v.messages,
        after_broadcast(v, m).messages.subrange(0, v.messages.len() as int) == v.messages,
{
    assert(after_broadcast(v, m).messages.subrange(0, v.messages.len() as int) =~= v.messages);
}

/// Once a node has neighbors, a later topology does not change them; nor do
/// `init` and `broadcast`.
pub proof fn lemma_neighbors_set_once(
    v: BroadcastView,
    topology: Seq<(Seq<char>, Seq<Seq<char>>)>,
    id: Seq<char>,
    ids: Seq<Seq<char>>,
    m: i64,
)
    requires
        v.neighbors is Some,
    ensures
        after_topology(v, topology).neighbors == v.neighbors,
        after_init(v, id, ids).neighbors == v.neighbors,
        after_broadcast(v, m).neighbors == v.neighbors,
{
}

/// A named node without neighbors takes those of the first topology entry
/// about it.
pub proof fn lemma_topology_sets_neighbors(
    v: BroadcastView,
    topology: Seq<(Seq<char>, Seq<Seq<char>>)>,
    j: int,
)
    requires
        v.node_id is Some,
        v.neighbors is None,
        is_first_entry(topology, v.node_id->0, j),
    ensures
        after_topology(v, topology).neighbors == Some(topology[j].1),
{
    let id = v.node_id->0;
    let c = choose|i: int| is_first_entry(topology, id, i);
    assert(is_first_entry(topology, id, c));
    assert(c == j);
}

/// `init` gives a node without an id the id it names, and a node without
/// the cluster's ids the ids it names, whatever the cluster's size; a node
/// that has them keeps them. Neighbors and values are untouched.
pub proof fn lemma_init_sets_ids(v: BroadcastView, id: Seq<char>, ids: Seq<Seq<char>>)
    ensures
        v.node_id is None ==> after_init(v, id, ids).node_id == Some(id),
        v.node_id is Some ==> after_init(v, id, ids).node_id == v.node_id,
        v.node_ids is None ==> after_init(v, id, ids).node_ids == Some(ids),
        v.node_ids is Some ==> after_init(v, id, ids).node_ids == v.node_ids,
        after_init(v, id, ids).neighbors == v.neighbors,
        after_init(v, id, ids).messages == v.messages,
{
}

/// On a fresh node, `init` and then `topology` make the node take the
/// neighbors listed under its own id in the topology's first entry for it.
pub proof fn lemma_init_then_topology(
    id: Seq<char>,
    ids: Seq<Seq<char>>,
    topology: Seq<(Seq<char>, Seq<Seq<char>>)>,
    j: int,
)
    requires
        is_first_entry(topology, id, j),
    ensures
        after_topology(after_init(fresh_broadcast_node(), id, ids), topology).node_id == Some(id),
        after_topology(after_init(fresh_broadcast_node(), id, ids), topology).neighbors == Some(topology[j].1),
{
    lemma_topology_sets_neighbors(after_init(fresh_broadcast_node(), id, ids), topology, j);
}

} // verus!
