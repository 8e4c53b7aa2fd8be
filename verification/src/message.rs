use vstd::prelude::*;
use vstd::string::*;

verus! {

/// Top-level Maelstrom wire message: `{"src":..,"dest":..,"body":{..}}`.
#[derive(Clone, Debug)]
pub struct Message<B> {
    pub src: String,
    pub dest: String,
    pub body: Body<B>,
}

/// The nested `body` object of a Maelstrom message. `kind` travels as
/// `"type"`; the payload's own fields stand beside `type`, `msg_id` and
/// `in_reply_to`.
#[derive(Clone, Debug)]
pub struct Body<B> {
    pub kind: String,
    pub msg_id: Option<u64>,
    pub in_reply_to: Option<u64>,
    pub payload: B,
}

/// The routing fields (`src`, `dest`) together with the envelope fields of
/// the body (`kind`, `msg_id`, `in_reply_to`), so that handlers need not
/// reach into the nested wire types.
#[derive(Debug)]
pub struct Metadata {
    pub src: String,
    pub dest: String,
    pub kind: String,
    pub msg_id: Option<u64>,
    pub in_reply_to: Option<u64>,
}

/// The id that a message carries in `msg_id` and `in_reply_to`.
pub type MessageId = u64;

impl Clone for Metadata {
    fn clone(&self) -> (m: Self)
        ensures
            m == *self,
    {
        Metadata {
            src: self.src.clone(),
            dest: self.dest.clone(),
            kind: self.kind.clone(),
            msg_id: self.msg_id,
            in_reply_to: self.in_reply_to,
        }
    }
}

/// The metadata of a message: its routing and envelope fields.
pub open spec fn metadata_of<B>(m: Message<B>) -> Metadata {
    Metadata {
        src: m.src,
        dest: m.dest,
        kind: m.body.kind,
        msg_id: m.body.msg_id,
        in_reply_to: m.body.in_reply_to,
    }
}

/// The message made of a metadata and a payload.
pub open spec fn message_of<B>(metadata: Metadata, payload: B) -> Message<B> {
    Message {
        src: metadata.src,
        dest: metadata.dest,
        body: Body {
            kind: metadata.kind,
            msg_id: metadata.msg_id,
            in_reply_to: metadata.in_reply_to,
            payload,
        },
    }
}

/// An inbound request as a handler sees it.
#[derive(Debug)]
pub struct Request<B>(Message<B>);

impl<B> Request<B> {
    /// The whole message this request carries.
    pub closed spec fn message(&self) -> Message<B> {
        self.0
    }

    /// A request carrying the message made of `metadata` and `payload`.
    pub fn new(metadata: Metadata, payload: B) -> (r: Self)
        ensures
            r.message() == message_of(metadata, payload),
    {
        Self(
            Message {
                src: metadata.src,
                dest: metadata.dest,
                body: Body {
                    kind: metadata.kind,
                    msg_id: metadata.msg_id,
                    in_reply_to: metadata.in_reply_to,
                    payload,
                },
            },
        )
    }

    /// Returns a snapshot of the envelope fields.
    pub fn metadata(&self) -> (m: Metadata)
        ensures
            m == metadata_of(self.message()),
    {
        Metadata {
            src: self.0.src.clone(),
            dest: self.0.dest.clone(),
            kind: self.0.body.kind.clone(),
            msg_id: self.0.body.msg_id,
            in_reply_to: self.0.body.in_reply_to,
        }
    }

    /// The request's payload.
    pub fn body(&self) -> (b: &B)
        ensures
            *b == self.message().body.payload,
    {
        &self.0.body.payload
    }

    /// The request that carries a message as it came off the wire.
    pub fn from_message(msg: Message<B>) -> (r: Self)
        ensures
            r.message() == msg,
    {
        Self(msg)
    }

    /// Splits the request into its metadata and its payload.
    pub fn into_parts(self) -> (parts: (Metadata, B))
        ensures
            parts == (metadata_of(self.message()), self.message().body.payload),
    {
        (
            Metadata {
                src: self.0.src,
                dest: self.0.dest,
                kind: self.0.body.kind,
                msg_id: self.0.body.msg_id,
                in_reply_to: self.0.body.in_reply_to,
            },
            self.0.body.payload,
        )
    }
}

impl<B: Clone> Clone for Request<B> {
    /// A copy of the request: the same envelope, and a clone of the payload.
    fn clone(&self) -> (c: Self)
        ensures
            metadata_of(c.message()) == metadata_of(self.message()),
            cloned(self.message().body.payload, c.message().body.payload),
    {
        Self(
            Message {
                src: self.0.src.clone(),
                dest: self.0.dest.clone(),
                body: Body {
                    kind: self.0.body.kind.clone(),
                    msg_id: self.0.body.msg_id,
                    in_reply_to: self.0.body.in_reply_to,
                    payload: self.0.body.payload.clone(),
                },
            },
        )
    }
}

/// Handler-facing response: the payload and an optional metadata override.
/// Without an override the reply's routing is derived from the request it
/// answers (see [`reply_message`]).
pub struct Response<B> {
    pub(crate) metadata: Option<Metadata>,
    pub(crate) payload: B,
}

impl<B> Response<B> {
    /// The metadata override, if any.
    pub closed spec fn override_metadata(&self) -> Option<Metadata> {
        self.metadata
    }

    /// The response's payload.
    pub closed spec fn payload(&self) -> B {
        self.payload
    }

    /// A response with no metadata override; the reply's `src`, `dest`,
    /// `kind` and `in_reply_to` are filled in from the request.
    pub fn new(payload: B) -> (r: Self)
        ensures
            r.override_metadata() is None,
            r.payload() == payload,
    {
        Self { metadata: None, payload }
    }

    /// A response with explicit routing metadata.
    pub fn with_metadata(metadata: Metadata, payload: B) -> (r: Self)
        ensures
            r.override_metadata() == Some(metadata),
            r.payload() == payload,
    {
        Self { metadata: Some(metadata), payload }
    }

    /// The response's payload.
    pub fn body(&self) -> (b: &B)
        ensures
            *b == self.payload(),
    {
        &self.payload
    }

    /// The response made of a metadata override (if any) and a payload; the
    /// inverse of [`Response::into_parts`].
    pub fn from_parts(metadata: Option<Metadata>, payload: B) -> (r: Self)
        ensures
            r.override_metadata() == metadata,
            r.payload() == payload,
    {
        Self { metadata, payload }
    }

    /// Splits the response into its metadata override and its payload.
    pub fn into_parts(self) -> (parts: (Option<Metadata>, B))
        ensures
            parts == (self.override_metadata(), self.payload()),
    {
        (self.metadata, self.payload)
    }
}

/// The kind of the reply to a request of kind `kind`: `kind` followed by `_ok`.
pub open spec fn reply_kind(kind: Seq<char>) -> Seq<char> {
    kind + seq!['_', 'o', 'k']
}

/// The reply that a response to a request with metadata `req` becomes on the
/// wire. With a metadata override, the override is used as it is. Without
/// one, the reply goes from the request's destination back to its source,
/// answers its `msg_id`, carries no `msg_id` of its own, and its kind is the
/// request's kind followed by `_ok`.
pub open spec fn reply_fits<B>(req: Metadata, resp: Response<B>, m: Message<B>) -> bool {
    match resp.override_metadata() {
        Some(md) => m == message_of(md, resp.payload()),
        None => {
            &&& m.src == req.dest
            &&& m.dest == req.src
            &&& m.body.kind@ == reply_kind(req.kind@)
            &&& m.body.msg_id is None
            &&& m.body.in_reply_to == req.msg_id
            &&& m.body.payload == resp.payload()
        },
    }
}

/// Turns a handler's response into the wire message that answers the request
/// whose metadata is `req`.
pub fn reply_message<B>(req: &Metadata, resp: Response<B>) -> (m: Message<B>)
    ensures
        reply_fits(*req, resp, m),
{
    match resp.metadata {
        Some(md) => Message {
            src: md.src,
            dest: md.dest,
            body: Body {
                kind: md.kind,
                msg_id: md.msg_id,
                in_reply_to: md.in_reply_to,
                payload: resp.payload,
            },
        },
        None => {
            let kind = req.kind.clone().concat("_ok");
            proof {
                reveal_strlit("_ok");
                assert("_ok"@ =~= seq!['_', 'o', 'k']);
            }
            Message {
                src: req.dest.clone(),
                dest: req.src.clone(),
                body: Body { kind, msg_id: None, in_reply_to: req.msg_id, payload: resp.payload },
            }
        },
    }
}

/// A request built from a metadata and a payload gives back exactly that
/// metadata and payload.
pub proof fn lemma_request_parts_round_trip<B>(metadata: Metadata, payload: B)
    ensures
        metadata_of(message_of(metadata, payload)) == metadata,
        message_of(metadata, payload).body.payload == payload,
{
}

/// A reply made without an override answers the request it was made for:
/// its destination is the request's source, its source the request's
/// destination, and it names the request's id.
pub proof fn lemma_default_reply_answers_request<B>(req: Metadata, resp: Response<B>, m: Message<B>)
    requires
        resp.override_metadata() is None,
        reply_fits(req, resp, m),
    ensures
        m.dest == req.src,
        m.src == req.dest,
        m.body.in_reply_to == req.msg_id,
{
}

/// The default reply's kind is the request's kind followed by the three
/// characters `_ok`, for every request kind.
pub proof fn lemma_default_reply_kind<B>(req: Metadata, resp: Response<B>, m: Message<B>)
    requires
        resp.override_metadata() is None,
        reply_fits(req, resp, m),
    ensures
        m.body.kind@.len() == req.kind@.len() + 3,
        forall|i: int| 0 <= i < req.kind@.len() ==> m.body.kind@[i] == req.kind@[i],
        m.body.kind@[req.kind@.len() as int] == '_',
        m.body.kind@[req.kind@.len() as int + 1] == 'o',
        m.body.kind@[req.kind@.len() as int + 2] == 'k',
{
}

} // verus!
