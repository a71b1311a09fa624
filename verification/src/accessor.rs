//! The contract between the core and a storage backend: requests, replies,
//! and the trait a backend implements.

use vstd::prelude::*;
use crate::capability::{Capability, Operation};
use crate::error::{Error, ErrorView};
use crate::metadata::{Entry, EntryView, Metadata, MetadataView, entries_view};

verus! {

/// One call on an accessor. Fields that an operation does not use are empty.
#[derive(Debug)]
pub struct Request {
    pub op: Operation,
    /// The normalized path the operation is about.
    pub path: Vec<u8>,
    /// The destination of a rename or a copy.
    pub target: Vec<u8>,
    /// The bytes of a write or an append.
    pub data: Vec<u8>,
    /// The byte range of a ranged read: first offset and the offset after the last.
    pub range: Option<(u64, u64)>,
    /// The continuation of a listing; `None` asks for its first page.
    pub token: Option<u64>,
}

/// The mathematical value of a [`Request`].
pub ghost struct RequestView {
    pub op: Operation,
    pub path: Seq<u8>,
    pub target: Seq<u8>,
    pub data: Seq<u8>,
    pub range: Option<(u64, u64)>,
    pub token: Option<u64>,
}

impl View for Request {
    type V = RequestView;

    open spec fn view(&self) -> RequestView {
        RequestView {
            op: self.op,
            path: self.path@,
            target: self.target@,
            data: self.data@,
            range: self.range,
            token: self.token,
        }
    }
}

impl RequestView {
    /// A request that carries a path and nothing else.
    pub open spec fn simple(op: Operation, path: Seq<u8>) -> RequestView {
        RequestView {
            op,
            path,
            target: Seq::empty(),
            data: Seq::empty(),
            range: None,
            token: None,
        }
    }
}

impl Request {
    /// A request that carries a path and nothing else.
    pub fn simple(op: Operation, path: Vec<u8>) -> (r: Request)
        ensures
            r@ == RequestView::simple(op, path@),
    {
        Request { op, path, target: Vec::new(), data: Vec::new(), range: None, token: None }
    }
}

/// One page of a listing.
#[derive(Debug)]
pub struct Page {
    pub entries: Vec<Entry>,
    /// The continuation for the page after this one; `None` on the last page.
    pub next: Option<u64>,
}

/// What an accessor hands back on success.
#[derive(Debug)]
pub enum Response {
    /// The operation is done and has nothing to report.
    Done,
    Bytes(Vec<u8>),
    Meta(Metadata),
    Page(Page),
}

/// The mathematical value of a [`Response`].
pub ghost enum ResponseView {
    Done,
    Bytes(Seq<u8>),
    Meta(MetadataView),
    Page(Seq<EntryView>, Option<u64>),
}

impl View for Response {
    type V = ResponseView;

    open spec fn view(&self) -> ResponseView {
        match self {
            Response::Done => ResponseView::Done,
            Response::Bytes(b) => ResponseView::Bytes(b@),
            Response::Meta(m) => ResponseView::Meta(m@),
            Response::Page(p) => ResponseView::Page(entries_view(p.entries@), p.next),
        }
    }
}

/// The outcome of one call, as a mathematical value.
pub type ReplyView = Result<ResponseView, ErrorView>;

/// The mathematical value of what a call returned.
pub open spec fn reply_view(r: Result<Response, Error>) -> ReplyView {
    match r {
        Ok(v) => Ok(v@),
        Err(e) => Err(e@),
    }
}

/// A storage backend, or a backend under layers.
///
/// An accessor is modelled as a deterministic machine: its state decides the
/// reply to a request and the state it is in afterwards. A backend whose
/// replies depend on the outside world holds that dependence in its state.
///
/// A listing is handed out in pages. A page that is not the last holds at
/// least one entry.
pub trait Accessor: Sized {
    /// The mathematical state of the accessor.
    type Model;

    /// The state this accessor is in.
    spec fn model(&self) -> Self::Model;

    /// What an accessor in this state declares it can do.
    spec fn declared(m: Self::Model) -> Capability;

    /// The reply that a state gives to a request.
    spec fn reply(m: Self::Model, req: RequestView) -> ReplyView;

    /// The state after a state has handled a request.
    spec fn after(m: Self::Model, req: RequestView) -> Self::Model;

    /// Handling a request never changes what the accessor declares.
    proof fn capability_is_fixed(m: Self::Model, req: RequestView)
        ensures
            Self::declared(Self::after(m, req)) == Self::declared(m),
    ;

    fn info(&self) -> (c: Capability)
        ensures
            c == Self::declared(self.model()),
    ;

    fn call(&mut self, req: &Request) -> (r: Result<Response, Error>)
        ensures
            reply_view(r) == Self::reply(old(self).model(), req@),
            final(self).model() == Self::after(old(self).model(), req@),
    ;
}

} // verus!
