use vstd::prelude::*;
use vstd::string::*;

use crate::decimal::{decimal, is_digit, lemma_decimal_digits, lemma_decimal_injective, push_decimal};
use crate::error::ErrorCode;
use crate::message::{Request, Response};
use crate::protocol::{opt_str, set_once, Generate, GenerateOk, Init, InitOk};
use crate::service::Service;

verus! {

/// What a [`UniqueIdService`] holds, as plain values.
pub struct UniqueIdView {
    pub node_id: Option<Seq<char>>,
    pub counter: u64,
}

/// The unique-id workload: each `generate` gets an id made of the node's id
/// and a per-node sequence number.
pub struct UniqueIdService {
    node_id: Option<String>,
    counter: u64,
}

/// The requests of the unique-id workload.
#[derive(Clone, Debug)]
pub enum UniqueIdRequest {
    Init(Init),
    Generate(Generate),
}

/// The replies of the unique-id workload.
#[derive(Clone, Debug)]
pub enum UniqueIdResponse {
    InitOk(InitOk),
    GenerateOk(GenerateOk),
}

impl View for UniqueIdService {
    type V = UniqueIdView;

    closed spec fn view(&self) -> UniqueIdView {
        UniqueIdView { node_id: opt_str(self.node_id), counter: self.counter }
    }
}

/// The name that stands for the node in its ids before `init` names it.
pub open spec fn unknown_node() -> Seq<char> {
    seq!['u', 'n', 'k', 'n', 'o', 'w', 'n']
}

/// The name the node puts in its ids: its id, or `unknown`.
pub open spec fn node_name(v: UniqueIdView) -> Seq<char> {
    match v.node_id {
        Some(id) => id,
        None => unknown_node(),
    }
}

/// The id with sequence number `seq` on node `node`: `<node>-<seq>`.
pub open spec fn unique_id(node: Seq<char>, seq: nat) -> Seq<char> {
    node + seq!['-'] + decimal(seq)
}

/// The counter after one more id: it wraps around after `u64::MAX`.
pub open spec fn next_counter(c: u64) -> u64 {
    if c == u64::MAX {
        0
    } else {
        (c + 1) as u64
    }
}

impl Default for UniqueIdService {
    /// A node that is not named yet and has handed out no id.
    fn default() -> (s: Self)
        ensures
            s@ == (UniqueIdView { node_id: None, counter: 0 }),
    {
        UniqueIdService { node_id: None, counter: 0 }
    }
}

impl UniqueIdService {
    /// Learns the node's id (only the first time) and acknowledges.
    pub fn init(&mut self, req: Request<Init>) -> (r: Result<Response<InitOk>, ErrorCode>)
        ensures
            final(self)@ == (UniqueIdView {
                node_id: set_once(old(self)@.node_id, req.message().body.payload.node_id@),
                counter: old(self)@.counter,
            }),
            (r matches Ok(resp) && resp.override_metadata() is None && resp.payload() == (InitOk {})),
    {
        if self.node_id.is_none() {
            self.node_id = Some(req.body().node_id.clone());
        }
        Ok(Response::new(InitOk {}))
    }

    /// Hands out the id `<node>-<counter>` and moves the counter on.
    pub fn generate(&mut self, _req: Request<Generate>) -> (r: Result<Response<GenerateOk>, ErrorCode>)
        ensures
            final(self)@.node_id == old(self)@.node_id,
            final(self)@.counter == next_counter(old(self)@.counter),
            (r matches Ok(resp) && resp.override_metadata() is None
                && resp.payload().id@ == unique_id(node_name(old(self)@), old(self)@.counter as nat)),
    {
        let mut id = match &self.node_id {
            Some(s) => s.clone(),
            None => String::from_str("unknown"),
        };
        proof {
            reveal_strlit("unknown");
            reveal_strlit("-");
            assert("unknown"@ =~= unknown_node());
        }
        let seq = self.counter;
        self.counter = self.counter.wrapping_add(1);
        id.append("-");
        push_decimal(seq, &mut id);
        proof {
            assert(id@ =~= unique_id(node_name(old(self)@), seq as nat));
        }
        Ok(Response::new(GenerateOk { id }))
    }

    /// The node's id, once `init` has named it.
    pub fn node_id(&self) -> (id: Option<String>)
        ensures
            opt_str(id) == self@.node_id,
    {
        match &self.node_id {
            Some(s) => Some(s.clone()),
            None => None,
        }
    }

    /// The sequence number of the next id.
    pub fn counter(&self) -> (c: u64)
        ensures
            c == self@.counter,
    {
        self.counter
    }
}

impl Service<Request<UniqueIdRequest>> for UniqueIdService {
    type Response = Response<UniqueIdResponse>;
    type Error = ErrorCode;

    /// Hands the request to the handler of its kind.
    fn call(&mut self, req: Request<UniqueIdRequest>) -> (r: Result<Response<UniqueIdResponse>, ErrorCode>)
        ensures
            (match req.message().body.payload {
                UniqueIdRequest::Init(b) => {
                    &&& final(self)@ == (UniqueIdView {
                        node_id: set_once(old(self)@.node_id, b.node_id@),
                        counter: old(self)@.counter,
                    })
                    &&& r matches Ok(resp) && resp.override_metadata() is None
                        && resp.payload() == UniqueIdResponse::InitOk((InitOk {}))
                },
                UniqueIdRequest::Generate(_) => {
                    &&& final(self)@.node_id == old(self)@.node_id
                    &&& final(self)@.counter == next_counter(old(self)@.counter)
                    &&& r matches Ok(resp) && resp.override_metadata() is None
                        && (resp.payload() matches UniqueIdResponse::GenerateOk(g)
                        && g.id@ == unique_id(node_name(old(self)@), old(self)@.counter as nat))
                },
            }),
    {
        let (metadata, payload) = req.into_parts();
        match payload {
            UniqueIdRequest::Init(b) => {
                match self.init(Request::new(metadata, b)) {
                    Ok(resp) => {
                        let (md, p) = resp.into_parts();
                        Ok(Response::from_parts(md, UniqueIdResponse::InitOk(p)))
                    },
                    Err(e) => Err(e),
                }
            },
            UniqueIdRequest::Generate(b) => {
                match self.generate(Request::new(metadata, b)) {
                    Ok(resp) => {
                        let (md, p) = resp.into_parts();
                        Ok(Response::from_parts(md, UniqueIdResponse::GenerateOk(p)))
                    },
                    Err(e) => Err(e),
                }
            },
        }
    }
}

/// On one node, different sequence numbers give different ids.
pub proof fn lemma_ids_differ_on_node(node: Seq<char>, s1: nat, s2: nat)
    requires
        s1 != s2,
    ensures
        unique_id(node, s1) != unique_id(node, s2),
{
    if unique_id(node, s1) == unique_id(node, s2) {
        let k: int = node.len() as int + 1;
        assert(unique_id(node, s1).subrange(k, unique_id(node, s1).len() as int) =~= decimal(s1));
        assert(unique_id(node, s2).subrange(k, unique_id(node, s2).len() as int) =~= decimal(s2));
        lemma_decimal_injective(s1, s2);
    }
}

/// Ids are unique across the cluster: two ids made from different node ids
/// or from different sequence numbers are different. An id splits at its
/// last `-`, since the sequence number after it is all digits.
pub proof fn lemma_ids_unique(n1: Seq<char>, s1: nat, n2: Seq<char>, s2: nat)
    requires
        n1 != n2 || s1 != s2,
    ensures
        unique_id(n1, s1) != unique_id(n2, s2),
{
    if n1 == n2 {
        lemma_ids_differ_on_node(n1, s1, s2);
    } else if unique_id(n1, s1) == unique_id(n2, s2) {
        let a = unique_id(n1, s1);
        lemma_id_names_node(n1, s1);
        lemma_id_names_node(n2, s2);
        if n1.len() < n2.len() {
            assert(a[n2.len() as int] == '-');
        } else if n2.len() < n1.len() {
            assert(a[n1.len() as int] == '-');
        } else {
            assert(n1 =~= n2) by {
                assert forall|i: int| 0 <= i < n1.len() implies n1[i] == n2[i] by {
                    assert(a[i] == n1[i]);
                    assert(a[i] == n2[i]);
                }
            }
        }
    }
}

/// Two `generate` requests one after the other on the same node get
/// different ids.
pub proof fn lemma_consecutive_ids_differ(node: Seq<char>, c: u64)
    ensures
        unique_id(node, c as nat) != unique_id(node, next_counter(c) as nat),
{
    lemma_ids_differ_on_node(node, c as nat, next_counter(c) as nat);
}

/// The last `-` of an id is the one right after the node's id: everything
/// after it is the sequence number's digits. So the node's id can be read
/// back from the id, whatever characters it holds.
pub proof fn lemma_id_names_node(node: Seq<char>, seq: nat)
    ensures
        unique_id(node, seq)[node.len() as int] == '-',
        unique_id(node, seq).subrange(0, node.len() as int) == node,
        forall|i: int|
            node.len() < i < unique_id(node, seq).len() ==> #[trigger] unique_id(node, seq)[i] != '-',
{
    lemma_decimal_digits(seq);
    let id = unique_id(node, seq);
    assert(id.subrange(0, node.len() as int) =~= node);
    assert forall|i: int| node.len() < i < id.len() implies #[trigger] id[i] != '-' by {
        assert(id[i] == decimal(seq)[i - node.len() - 1]);
        assert(is_digit(decimal(seq)[i - node.len() - 1]));
    }
}

/// The counter goes up by one with each id, and only wraps to 0 after
/// `u64::MAX`.
pub proof fn lemma_next_counter_counts(c: u64)
    ensures
        c < u64::MAX ==> next_counter(c) == c + 1,
        c == u64::MAX ==> next_counter(c) == 0,
{
}

/// The counter after `k` ids, starting from `c`.
pub open spec fn counter_after(c: u64, k: nat) -> u64
    decreases k,
{
    if k == 0 {
        c
    } else {
        next_counter(counter_after(c, (k - 1) as nat))
    }
}

/// On a fresh node (counter 0), after `k` ids the counter is `k`, for every
/// `k` up to `u64::MAX`.
pub proof fn lemma_counter_after_fresh(k: nat)
    requires
        k <= u64::MAX,
    ensures
        counter_after(0, k) == k,
    decreases k,
{
    if k > 0 {
        lemma_counter_after_fresh((k - 1) as nat);
    }
}

/// On a fresh node, the `i`-th and the `j`-th `generate` of a run return
/// different ids, for any two of the first `2^64` requests.
pub proof fn lemma_run_ids_distinct_on_node(node: Seq<char>, i: nat, j: nat)
    requires
        i < j <= u64::MAX,
    ensures
        unique_id(node, counter_after(0, i) as nat) != unique_id(node, counter_after(0, j) as nat),
{
    lemma_counter_after_fresh(i);
    lemma_counter_after_fresh(j);
    lemma_ids_differ_on_node(node, i, j);
}

/// `init` gives a node without an id the id it names; a node that has one
/// keeps it. The counter is untouched.
pub proof fn lemma_unique_init_sets_id(v: UniqueIdView, id: Seq<char>)
    ensures
        v.node_id is None ==> set_once(v.node_id, id) == Some(id),
        v.node_id is Some ==> set_once(v.node_id, id) == v.node_id,
{
}

} // verus!
