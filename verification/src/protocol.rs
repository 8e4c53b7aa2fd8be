use vstd::prelude::*;

verus! {

/// `init`: tells a node its own id and the ids of all nodes in the cluster.
#[derive(Clone, Debug)]
pub struct Init {
    pub node_id: String,
    pub node_ids: Vec<String>,
}

/// `init_ok`: acknowledges `init`.
#[derive(Clone, Copy, Debug, PartialEq, Eq, Structural)]
pub struct InitOk {}

/// `echo`: asks the node to send `echo` back.
#[derive(Clone, Debug)]
pub struct Echo {
    pub echo: String,
}

/// `echo_ok`: the echoed text.
#[derive(Clone, Debug)]
pub struct EchoOk {
    pub echo: String,
}

/// `generate`: asks for a new unique id.
#[derive(Clone, Copy, Debug, PartialEq, Eq, Structural)]
pub struct Generate {}

/// `generate_ok`: a unique id.
#[derive(Clone, Debug)]
pub struct GenerateOk {
    pub id: String,
}

/// `topology`: for each node, the nodes it should talk to.
#[derive(Clone, Debug)]
pub struct Topology {
    pub topology: Vec<(String, Vec<String>)>,
}

/// `topology_ok`: acknowledges `topology`.
#[derive(Clone, Copy, Debug, PartialEq, Eq, Structural)]
pub struct TopologyOk {}

/// `broadcast`: a value to store and pass on.
#[derive(Clone, Copy, Debug, PartialEq, Eq, Structural)]
pub struct Broadcast {
    pub message: i64,
}

/// `broadcast_ok`: acknowledges `broadcast`.
#[derive(Clone, Copy, Debug, PartialEq, Eq, Structural)]
pub struct BroadcastOk {}

/// `read`: asks for every value the node has seen.
#[derive(Clone, Copy, Debug, PartialEq, Eq, Structural)]
pub struct Read {}

/// `read_ok`: every value the node has seen, in the order it saw them.
#[derive(Clone, Debug)]
pub struct ReadOk {
    pub messages: Vec<i64>,
}

/// A value that can be set once: a second value is ignored.
pub open spec fn set_once<T>(cell: Option<T>, v: T) -> Option<T> {
    match cell {
        Some(_) => cell,
        None => Some(v),
    }
}

/// The view of an optional string.
pub open spec fn opt_str(s: Option<String>) -> Option<Seq<char>> {
    match s {
        Some(x) => Some(x@),
        None => None,
    }
}

/// The view of an optional list of strings.
pub open spec fn opt_strs(s: Option<Vec<String>>) -> Option<Seq<Seq<char>>> {
    match s {
        Some(x) => Some(x.deep_view()),
        None => None,
    }
}

/// A copy of a list of strings.
pub fn clone_strings(v: &Vec<String>) -> (c: Vec<String>)
    ensures
        c.deep_view() == v.deep_view(),
{
    let c = v.clone();
    proof {
        assert(c.deep_view() =~= v.deep_view()) by {
            assert forall|i: int| 0 <= i < v.len() implies c.deep_view()[i] == v.deep_view()[i] by {
                assert(cloned::<String>(v[i], c[i]));
            }
        }
    }
    c
}

/// An empty cell takes the first value; a full one keeps what it holds.
pub proof fn lemma_set_once<T>(cell: Option<T>, v: T)
    ensures
        cell is None ==> set_once(cell, v) == Some(v),
        cell matches Some(x) ==> set_once(cell, v) == Some(x),
{
}

} // verus!
