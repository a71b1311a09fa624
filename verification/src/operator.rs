//! The operator: the public face of a layered accessor.
//!
//! Every operation is normalized and checked against the accessor's
//! capability before anything is handed to the layers, so a call that cannot
//! succeed fails without reaching the backend.

use vstd::prelude::*;
use vstd::pervasive::unreached;
use vstd::slice::slice_to_vec;
use crate::accessor::{Accessor, ReplyView, Request, RequestView, Response, ResponseView, reply_view};
use crate::capability::{Capability, Operation};
use crate::error::{Error, ErrorKind, ErrorView};
use crate::layer::{Layer, Layered, Outcome, refusal, refuse};
use crate::metadata::Metadata;
use crate::options::{ReadOptions, WriteOptions, range_ok};
use crate::path::{escape, normalize_path, normalized};

verus! {

/// Whether the operation names a second path.
pub open spec fn two_paths(op: Operation) -> bool {
    op == Operation::Rename || op == Operation::Copy
}

/// The failure with which a range that ends before it starts is rejected.
pub open spec fn bad_range() -> ErrorView {
    ErrorView {
        kind: ErrorKind::InvalidInput,
        transient: false,
        message: "range ends before it starts"@,
    }
}

/// The failure that stands for a reply of the wrong shape.
pub open spec fn mismatch() -> ErrorView {
    ErrorView {
        kind: ErrorKind::Unexpected,
        transient: false,
        message: "accessor replied with the wrong kind of value"@,
    }
}

/// A caller's request with its paths in normal form, or the failure for a
/// path that leaves the root.
pub open spec fn prepared(raw: RequestView) -> Result<RequestView, ErrorView> {
    match normalized(raw.path) {
        None => Err(escape()),
        Some(path) => {
            if two_paths(raw.op) {
                match normalized(raw.target) {
                    None => Err(escape()),
                    Some(target) => Ok(RequestView { path, target, ..raw }),
                }
            } else {
                Ok(RequestView { path, ..raw })
            }
        },
    }
}

/// The failure, if any, with which a request is turned away before it is
/// dispatched under the given capability.
pub open spec fn objection(cap: Capability, req: RequestView) -> Option<ErrorView> {
    if !cap.supports_spec(req.op) {
        Some(refusal())
    } else if !range_ok(req.range) {
        Some(bad_range())
    } else {
        None
    }
}

/// Whether a value is of the kind the operation answers with.
pub open spec fn expected(op: Operation, v: ResponseView) -> bool {
    match op {
        Operation::Read | Operation::ReadRange => v is Bytes,
        Operation::Write | Operation::Append | Operation::Stat => v is Meta,
        Operation::Delete | Operation::Rename | Operation::Copy => v is Done,
        Operation::List => v is Page,
    }
}

/// A reply as the operator passes it on: failures as they are, a value of the
/// wrong kind as a failure, a description with its fields normalized.
pub open spec fn shaped(op: Operation, reply: ReplyView) -> ReplyView {
    match reply {
        Err(e) => Err(e),
        Ok(v) => {
            if !expected(op, v) {
                Err(mismatch())
            } else {
                match v {
                    ResponseView::Meta(m) => Ok(ResponseView::Meta(m.normalized())),
                    _ => Ok(v),
                }
            }
        },
    }
}

/// The outcome of a call that is turned away: nothing is touched.
pub open spec fn rejected<A: Accessor>(acc: Layered<A>, e: ErrorView) -> Outcome<A::Model> {
    Outcome { base: acc.base.model(), trace: acc.trace@, reply: Err(e) }
}

/// The outcome of submitting a request whose paths are in normal form.
pub open spec fn submitted<A: Accessor>(acc: Layered<A>, req: RequestView) -> Outcome<A::Model> {
    match objection(acc.capability(), req) {
        Some(e) => rejected(acc, e),
        None => {
            let o = acc.outcome(req);
            Outcome { base: o.base, trace: o.trace, reply: shaped(req.op, o.reply) }
        },
    }
}

/// The outcome of an operation as a caller asks for it.
pub open spec fn performed<A: Accessor>(acc: Layered<A>, raw: RequestView) -> Outcome<A::Model> {
    match prepared(raw) {
        Err(e) => rejected(acc, e),
        Ok(req) => submitted(acc, req),
    }
}

/// The reply that a result of bytes stands for.
pub open spec fn bytes_reply(r: Result<Vec<u8>, Error>) -> ReplyView {
    match r {
        Ok(b) => Ok(ResponseView::Bytes(b@)),
        Err(e) => Err(e@),
    }
}

/// The reply that a result of a description stands for.
pub open spec fn meta_reply(r: Result<Metadata, Error>) -> ReplyView {
    match r {
        Ok(m) => Ok(ResponseView::Meta(m@)),
        Err(e) => Err(e@),
    }
}

/// The reply that a result without a value stands for.
pub open spec fn unit_reply(r: Result<(), Error>) -> ReplyView {
    match r {
        Ok(_) => Ok(ResponseView::Done),
        Err(e) => Err(e@),
    }
}

/// The public face of one layered accessor.
pub struct Operator<A: Accessor> {
    pub accessor: Layered<A>,
}

fn is_two_paths(op: Operation) -> (b: bool)
    ensures
        b == two_paths(op),
{
    match op {
        Operation::Rename => true,
        Operation::Copy => true,
        _ => false,
    }
}

/// Passes a reply on as the operator does: a value of the wrong kind becomes
/// a failure, a description gets its fields normalized.
pub fn shape_reply(op: Operation, reply: Result<Response, Error>) -> (r: Result<Response, Error>)
    ensures
        reply_view(r) == shaped(op, reply_view(reply)),
{
    match reply {
        Err(e) => Err(e),
        Ok(v) => match v {
            Response::Bytes(b) => match op {
                Operation::Read | Operation::ReadRange => Ok(Response::Bytes(b)),
                _ => Err(wrong_shape()),
            },
            Response::Meta(m) => match op {
                Operation::Write | Operation::Append | Operation::Stat => Ok(
                    Response::Meta(m.normalize()),
                ),
                _ => Err(wrong_shape()),
            },
            Response::Done => match op {
                Operation::Delete | Operation::Rename | Operation::Copy => Ok(Response::Done),
                _ => Err(wrong_shape()),
            },
            Response::Page(p) => match op {
                Operation::List => Ok(Response::Page(p)),
                _ => Err(wrong_shape()),
            },
        },
    }
}

fn wrong_shape() -> (e: Error)
    ensures
        e@ == mismatch(),
{
    Error::new(ErrorKind::Unexpected, "accessor replied with the wrong kind of value")
}

/// Brings a caller's request into the form in which it is dispatched:
/// paths in normal form. Touches nothing.
pub fn prepare_request(
    op: Operation,
    path: &[u8],
    target: &[u8],
    data: Vec<u8>,
    range: Option<(u64, u64)>,
    token: Option<u64>,
) -> (r: Result<Request, Error>)
    ensures
        match prepared(
            RequestView { op, path: path@, target: target@, data: data@, range, token },
        ) {
            Ok(v) => r is Ok && r.unwrap()@ == v,
            Err(e) => r is Err && r.unwrap_err()@ == e,
        },
{
    let path = match normalize_path(path) {
        Ok(p) => p,
        Err(e) => {
            return Err(e);
        },
    };
    if is_two_paths(op) {
        let target = match normalize_path(target) {
            Ok(t) => t,
            Err(e) => {
                return Err(e);
            },
        };
        Ok(Request { op, path, target, data, range, token })
    } else {
        let kept = slice_to_vec(target);
        Ok(Request { op, path, target: kept, data, range, token })
    }
}

/// Checks a request against the capability and the rules on options.
/// Touches nothing.
pub fn check_request(cap: &Capability, req: &Request) -> (r: Result<(), Error>)
    ensures
        match objection(*cap, req@) {
            Some(e) => r is Err && r.unwrap_err()@ == e,
            None => r is Ok,
        },
{
    if !cap.supports(req.op) {
        return Err(refuse());
    }
    match req.range {
        Some((start, end)) => {
            if start > end {
                return Err(Error::new(ErrorKind::InvalidInput, "range ends before it starts"));
            }
        },
        None => {},
    }
    Ok(())
}

impl<A: Accessor> Operator<A> {
    /// An operator over a bare backend.
    pub fn new(base: A) -> (op: Self)
        ensures
            op.accessor.base == base,
            op.accessor.layers@ == Seq::<Layer>::empty(),
            op.accessor.trace@ == Seq::<crate::layer::Event>::empty(),
    {
        Operator { accessor: Layered::new(base) }
    }

    /// The same operator with one more layer, outside those it has.
    pub fn layer(self, layer: Layer) -> (op: Self)
        ensures
            op.accessor.base == self.accessor.base,
            op.accessor.trace@ == self.accessor.trace@,
            op.accessor.layers@ == self.accessor.layers@.push(layer),
    {
        Operator { accessor: layer.wrap(self.accessor) }
    }

    /// What the operator can do: the backend's capability as the layers
    /// leave it.
    pub fn info(&self) -> (c: Capability)
        ensures
            c == self.accessor.capability(),
    {
        self.accessor.info()
    }

    /// The layered accessor behind the operator.
    pub fn accessor(&self) -> (a: &Layered<A>)
        ensures
            *a == self.accessor,
    {
        &self.accessor
    }

    /// Gives the layered accessor back.
    pub fn into_inner(self) -> (a: Layered<A>)
        ensures
            a == self.accessor,
    {
        self.accessor
    }

    /// Brings a caller's request into the form in which it is dispatched:
    /// paths in normal form. Touches nothing.
    pub fn prepare(
        op: Operation,
        path: &[u8],
        target: &[u8],
        data: Vec<u8>,
        range: Option<(u64, u64)>,
        token: Option<u64>,
    ) -> (r: Result<Request, Error>)
        ensures
            match prepared(
                RequestView { op, path: path@, target: target@, data: data@, range, token },
            ) {
                Ok(v) => r is Ok && r.unwrap()@ == v,
                Err(e) => r is Err && r.unwrap_err()@ == e,
            },
    {
        prepare_request(op, path, target, data, range, token)
    }

    /// Checks a request against the operator's capability and the rules on
    /// options. Touches nothing.
    pub fn check(&self, req: &Request) -> (r: Result<(), Error>)
        ensures
            match objection(self.accessor.capability(), req@) {
                Some(e) => r is Err && r.unwrap_err()@ == e,
                None => r is Ok,
            },
    {
        let cap = self.accessor.info();
        check_request(&cap, req)
    }

    /// Checks a request whose paths are in normal form and, if nothing
    /// speaks against it, hands it to the layers.
    pub fn submit(&mut self, req: &Request) -> (r: Result<Response, Error>)
        ensures
            final(self).accessor.layers@ == old(self).accessor.layers@,
            final(self).accessor.base.model() == submitted(old(self).accessor, req@).base,
            final(self).accessor.trace@ == submitted(old(self).accessor, req@).trace,
            reply_view(r) == submitted(old(self).accessor, req@).reply,
    {
        match self.check(req) {
            Err(e) => Err(e),
            Ok(_) => {
                let reply = self.accessor.call(req);
                shape_reply(req.op, reply)
            },
        }
    }

    /// Performs one operation: normalizes, checks, dispatches, and passes the
    /// reply on in its normal form.
    pub fn perform(
        &mut self,
        op: Operation,
        path: &[u8],
        target: &[u8],
        data: Vec<u8>,
        range: Option<(u64, u64)>,
        token: Option<u64>,
    ) -> (r: Result<Response, Error>)
        ensures
            final(self).accessor.layers@ == old(self).accessor.layers@,
            ({
                let o = performed(
                    old(self).accessor,
                    RequestView { op, path: path@, target: target@, data: data@, range, token },
                );
                &&& final(self).accessor.base.model() == o.base
                &&& final(self).accessor.trace@ == o.trace
                &&& reply_view(r) == o.reply
            }),
    {
        match Self::prepare(op, path, target, data, range, token) {
            Err(e) => Err(e),
            Ok(req) => self.submit(&req),
        }
    }
}

/// The operation that a read with the given options asks for.
pub open spec fn read_op(options: ReadOptions) -> Operation {
    if options.range is Some {
        Operation::ReadRange
    } else {
        Operation::Read
    }
}

/// The operation that a write with the given options asks for.
pub open spec fn write_op(options: WriteOptions) -> Operation {
    if options.append {
        Operation::Append
    } else {
        Operation::Write
    }
}

impl<A: Accessor> Operator<A> {
    /// That `after` and `reply` are what `before` makes of the operation
    /// `raw`: the layers are kept, and backend, trace and reply are those of
    /// [`performed`].
    pub open spec fn went(before: Self, after: Self, raw: RequestView, reply: ReplyView) -> bool {
        let o = performed(before.accessor, raw);
        &&& after.accessor.layers@ == before.accessor.layers@
        &&& after.accessor.base.model() == o.base
        &&& after.accessor.trace@ == o.trace
        &&& reply == o.reply
    }

    /// Reads an entry whole.
    pub fn read(&mut self, path: &[u8]) -> (r: Result<Vec<u8>, Error>)
        ensures
            Self::went(
                *old(self),
                *final(self),
                RequestView::simple(Operation::Read, path@),
                bytes_reply(r),
            ),
    {
        self.read_with(path, ReadOptions { range: None })
    }

    /// Reads an entry, or the range of it that the options name.
    pub fn read_with(&mut self, path: &[u8], options: ReadOptions) -> (r: Result<Vec<u8>, Error>)
        ensures
            Self::went(
                *old(self),
                *final(self),
                RequestView {
                    range: options.range,
                    ..RequestView::simple(read_op(options), path@)
                },
                bytes_reply(r),
            ),
    {
        let op = match options.range {
            Some(_) => Operation::ReadRange,
            None => Operation::Read,
        };
        let none: Vec<u8> = Vec::new();
        match self.perform(op, path, none.as_slice(), Vec::new(), options.range, None) {
            Ok(Response::Bytes(b)) => Ok(b),
            Ok(_) => unreached(),
            Err(e) => Err(e),
        }
    }

    /// Writes an entry, replacing what was there.
    pub fn write(&mut self, path: &[u8], data: Vec<u8>) -> (r: Result<Metadata, Error>)
        ensures
            Self::went(
                *old(self),
                *final(self),
                RequestView { data: data@, ..RequestView::simple(Operation::Write, path@) },
                meta_reply(r),
            ),
    {
        self.write_with(path, data, WriteOptions { append: false })
    }

    /// Writes an entry, replacing it or extending it as the options say.
    pub fn write_with(&mut self, path: &[u8], data: Vec<u8>, options: WriteOptions) -> (r: Result<
        Metadata,
        Error,
    >)
        ensures
            Self::went(
                *old(self),
                *final(self),
                RequestView { data: data@, ..RequestView::simple(write_op(options), path@) },
                meta_reply(r),
            ),
    {
        let op = if options.append {
            Operation::Append
        } else {
            Operation::Write
        };
        let none: Vec<u8> = Vec::new();
        match self.perform(op, path, none.as_slice(), data, None, None) {
            Ok(Response::Meta(m)) => Ok(m),
            Ok(_) => unreached(),
            Err(e) => Err(e),
        }
    }

    /// Describes an entry.
    pub fn stat(&mut self, path: &[u8]) -> (r: Result<Metadata, Error>)
        ensures
            Self::went(
                *old(self),
                *final(self),
                RequestView::simple(Operation::Stat, path@),
                meta_reply(r),
            ),
    {
        let none: Vec<u8> = Vec::new();
        match self.perform(Operation::Stat, path, none.as_slice(), Vec::new(), None, None) {
            Ok(Response::Meta(m)) => Ok(m),
            Ok(_) => unreached(),
            Err(e) => Err(e),
        }
    }

    /// Deletes an entry.
    pub fn delete(&mut self, path: &[u8]) -> (r: Result<(), Error>)
        ensures
            Self::went(
                *old(self),
                *final(self),
                RequestView::simple(Operation::Delete, path@),
                unit_reply(r),
            ),
    {
        let none: Vec<u8> = Vec::new();
        match self.perform(Operation::Delete, path, none.as_slice(), Vec::new(), None, None) {
            Ok(Response::Done) => Ok(()),
            Ok(_) => unreached(),
            Err(e) => Err(e),
        }
    }

    /// Moves an entry to another path.
    pub fn rename(&mut self, from: &[u8], to: &[u8]) -> (r: Result<(), Error>)
        ensures
            Self::went(
                *old(self),
                *final(self),
                RequestView { target: to@, ..RequestView::simple(Operation::Rename, from@) },
                unit_reply(r),
            ),
    {
        match self.perform(Operation::Rename, from, to, Vec::new(), None, None) {
            Ok(Response::Done) => Ok(()),
            Ok(_) => unreached(),
            Err(e) => Err(e),
        }
    }

    /// Copies an entry to another path.
    pub fn copy(&mut self, from: &[u8], to: &[u8]) -> (r: Result<(), Error>)
        ensures
            Self::went(
                *old(self),
                *final(self),
                RequestView { target: to@, ..RequestView::simple(Operation::Copy, from@) },
                unit_reply(r),
            ),
    {
        match self.perform(Operation::Copy, from, to, Vec::new(), None, None) {
            Ok(Response::Done) => Ok(()),
            Ok(_) => unreached(),
            Err(e) => Err(e),
        }
    }
}

} // verus!
