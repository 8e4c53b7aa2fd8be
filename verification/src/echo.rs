use vstd::prelude::*;

use crate::error::ErrorCode;
use crate::message::{Request, Response};
use crate::protocol::{clone_strings, opt_str, opt_strs, set_once, Echo, EchoOk, Init, InitOk};
use crate::service::Service;

verus! {

/// What an [`EchoService`] holds, as plain values.
pub struct EchoView {
    pub node_id: Option<Seq<char>>,
    pub node_ids: Option<Seq<Seq<char>>>,
}

/// The echo workload: a node that sends every `echo` text back.
pub struct EchoService {
    node_id: Option<String>,
    node_ids: Option<Vec<String>>,
}

/// The requests of the echo workload.
#[derive(Clone, Debug)]
pub enum EchoRequest {
    Init(Init),
    Echo(Echo),
}

/// The replies of the echo workload.
#[derive(Clone, Debug)]
pub enum EchoResponse {
    InitOk(InitOk),
    EchoOk(EchoOk),
}

impl View for EchoService {
    type V = EchoView;

    closed spec fn view(&self) -> EchoView {
        EchoView { node_id: opt_str(self.node_id), node_ids: opt_strs(self.node_ids) }
    }
}

/// The echo node after `init` named it `id` in a cluster of `ids`: each is
/// kept only if it was not known yet.
pub open spec fn echo_after_init(v: EchoView, id: Seq<char>, ids: Seq<Seq<char>>) -> EchoView {
    EchoView { node_id: set_once(v.node_id, id), node_ids: set_once(v.node_ids, ids) }
}

impl Default for EchoService {
    /// A node that knows neither its id nor the cluster yet.
    fn default() -> (s: Self)
        ensures
            s@ == (EchoView { node_id: None, node_ids: None }),
    {
        EchoService { node_id: None, node_ids: None }
    }
}

impl EchoService {
    /// Learns the node's id and the cluster's ids (each only the first time)
    /// and acknowledges.
    pub fn init(&mut self, req: Request<Init>) -> (r: Result<Response<InitOk>, ErrorCode>)
        ensures
            final(self)@ == echo_after_init(
                old(self)@,
                req.message().body.payload.node_id@,
                req.message().body.payload.node_ids.deep_view(),
            ),
            (r matches Ok(resp) && resp.override_metadata() is None && resp.payload() == (InitOk {})),
    {
        let body = req.body();
        if self.node_id.is_none() {
            self.node_id = Some(body.node_id.clone());
        }
        if self.node_ids.is_none() {
            self.node_ids = Some(clone_strings(&body.node_ids));
        }
        Ok(Response::new(InitOk {}))
    }

    /// Sends the request's text back.
    pub fn echo(&self, req: Request<Echo>) -> (r: Result<Response<EchoOk>, ErrorCode>)
        ensures
            (r matches Ok(resp) && resp.override_metadata() is None
                && resp.payload().echo == req.message().body.payload.echo),
    {
        Ok(Response::new(EchoOk { echo: req.body().echo.clone() }))
    }

    /// The node's id, once `init` has named it.
    pub fn node_id(&self) -> (id: Option<String>)
        ensures
            opt_str(id) == self@.node_id,
    {
        match &self.node_id {
            Some(s) => Some(s.clone()),
            None => None,
        }
    }

    /// The ids of all nodes, once `init` has named them.
    pub fn node_ids(&self) -> (ids: Option<Vec<String>>)
        ensures
            opt_strs(ids) == self@.node_ids,
    {
        match &self.node_ids {
            Some(v) => Some(clone_strings(v)),
            None => None,
        }
    }
}

impl Service<Request<EchoRequest>> for EchoService {
    type Response = Response<EchoResponse>;
    type Error = ErrorCode;

    /// Hands the request to the handler of its kind.
    fn call(&mut self, req: Request<EchoRequest>) -> (r: Result<Response<EchoResponse>, ErrorCode>)
        ensures
            (match req.message().body.payload {
                EchoRequest::Init(b) => {
                    &&& final(self)@ == echo_after_init(old(self)@, b.node_id@, b.node_ids.deep_view())
                    &&& r matches Ok(resp) && resp.override_metadata() is None
                        && resp.payload() == EchoResponse::InitOk((InitOk {}))
                },
                EchoRequest::Echo(b) => {
                    &&& final(self)@ == old(self)@
                    &&& r matches Ok(resp) && resp.override_metadata() is None
                        && resp.payload() == EchoResponse::EchoOk((EchoOk { echo: b.echo }))
                },
            }),
    {
        let (metadata, payload) = req.into_parts();
        match payload {
            EchoRequest::Init(b) => {
                let r = self.init(Request::new(metadata, b));
                match r {
                    Ok(resp) => {
                        let (md, p) = resp.into_parts();
                        Ok(Response::from_parts(md, EchoResponse::InitOk(p)))
                    },
                    Err(e) => Err(e),
                }
            },
            EchoRequest::Echo(b) => {
                let r = self.echo(Request::new(metadata, b));
                match r {
                    Ok(resp) => {
                        let (md, p) = resp.into_parts();
                        Ok(Response::from_parts(md, EchoResponse::EchoOk(p)))
                    },
                    Err(e) => Err(e),
                }
            },
        }
    }
}

/// `init` gives an echo node without an id the id it names, and one without
/// the cluster's ids the ids it names; a node that has them keeps them.
pub proof fn lemma_echo_init_sets_ids(v: EchoView, id: Seq<char>, ids: Seq<Seq<char>>)
    ensures
        v.node_id is None ==> echo_after_init(v, id, ids).node_id == Some(id),
        v.node_id is Some ==> echo_after_init(v, id, ids).node_id == v.node_id,
        v.node_ids is None ==> echo_after_init(v, id, ids).node_ids == Some(ids),
        v.node_ids is Some ==> echo_after_init(v, id, ids).node_ids == v.node_ids,
{
}

} // verus!
