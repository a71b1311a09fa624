//! The lister: a single-pass cursor over the pages of a listing.
//!
//! A lister starts as `Created`, is `Yielding` once it has fetched a page, and
//! is `Closed` when the listing has ended, has failed, or was abandoned. It
//! fetches pages as it needs them and never hands an entry out twice.

use vstd::prelude::*;
use vstd::pervasive::unreached;
use vstd::slice::slice_to_vec;
use crate::accessor::{Accessor, Request, RequestView, Response, ResponseView};
use crate::capability::Operation;
use crate::error::{Error, ErrorKind, ErrorView};
use crate::metadata::{Entry, EntryView, entries_view};
use crate::operator::{Operator, objection, prepared, submitted};

verus! {

/// Where a lister stands in its life.
#[derive(Clone, Copy, Debug, PartialEq, Eq, Structural)]
pub enum ListerState {
    Created,
    Yielding,
    Closed,
}

/// A cursor over one listing.
#[derive(Debug)]
pub struct Lister {
    /// The listed path, in normal form.
    pub path: Vec<u8>,
    /// The entries of the current page that were not handed out yet.
    pub pending: Vec<Entry>,
    /// The continuation for the next page, if the backend announced one.
    pub token: Option<u64>,
    pub state: ListerState,
}

/// The request for the page of a listing that follows `token`.
pub open spec fn page_request(path: Seq<u8>, token: Option<u64>) -> RequestView {
    RequestView { token, ..RequestView::simple(Operation::List, path) }
}

/// An entry as the lister hands it out: its description normalized.
pub open spec fn yielded(e: EntryView) -> EntryView {
    EntryView { path: e.path, metadata: e.metadata.normalized() }
}

/// The failure for a page that holds nothing and yet is not the last: a
/// lister that followed such pages might never return.
pub open spec fn stalled() -> ErrorView {
    ErrorView {
        kind: ErrorKind::Unexpected,
        transient: false,
        message: "accessor sent an empty page that is not the last"@,
    }
}

fn hand_out(e: Entry) -> (r: Entry)
    ensures
        r@ == yielded(e@),
{
    Entry { path: e.path, metadata: e.metadata.normalize() }
}

impl Lister {
    /// Whether the next call of [`Lister::next`] has to ask the accessor for
    /// a page.
    pub open spec fn must_fetch(&self) -> bool {
        &&& self.state != ListerState::Closed
        &&& self.pending@.len() == 0
        &&& !(self.state == ListerState::Yielding && self.token is None)
    }

    /// Whether the listing has ended, has failed or was abandoned.
    pub fn is_closed(&self) -> (b: bool)
        ensures
            b == (self.state == ListerState::Closed),
    {
        match self.state {
            ListerState::Closed => true,
            _ => false,
        }
    }

    /// Abandons the listing. A closed lister stays closed.
    pub fn close(&mut self)
        ensures
            final(self).state == ListerState::Closed,
            final(self).pending@.len() == 0,
            final(self).path == old(self).path,
            final(self).token == old(self).token,
    {
        self.pending = Vec::new();
        self.state = ListerState::Closed;
    }

    /// The next entry of the listing, or `None` at its end.
    ///
    /// A closed lister answers `None` every time. An entry of the current
    /// page is handed out without a call. Only when the page is used up and
    /// the listing goes on is the accessor asked, once, for the next page; if
    /// that fails, the failure is returned and the lister is closed.
    pub fn next<A: Accessor>(&mut self, op: &mut Operator<A>) -> (r: Result<Option<Entry>, Error>)
        ensures
            final(self).path == old(self).path,
            final(op).accessor.layers@ == old(op).accessor.layers@,
            r is Err || (r is Ok && r.unwrap() is None) ==> final(self).state == ListerState::Closed,
            old(self).state == ListerState::Closed ==> r is Ok && r.unwrap() is None && *final(self)
                == *old(self),
            !old(self).must_fetch() ==> *final(op) == *old(op),
            old(self).state != ListerState::Closed && old(self).pending@.len() > 0 ==> {
                &&& r is Ok && r.unwrap() is Some
                &&& r.unwrap().unwrap()@ == yielded(old(self).pending@[0]@)
                &&& entries_view(final(self).pending@) == entries_view(old(self).pending@).skip(1)
                &&& final(self).token == old(self).token
                &&& final(self).state == ListerState::Yielding
            },
            old(self).state == ListerState::Yielding && old(self).pending@.len() == 0 && old(
                self,
            ).token is None ==> r is Ok && r.unwrap() is None && final(self).pending@.len() == 0,
            old(self).must_fetch() ==> {
                let o = submitted(old(op).accessor, page_request(old(self).path@, old(self).token));
                &&& final(op).accessor.base.model() == o.base
                &&& final(op).accessor.trace@ == o.trace
                &&& match o.reply {
                    Err(e) => r is Err && r.unwrap_err()@ == e && final(self).pending@.len() == 0,
                    Ok(ResponseView::Page(entries, next)) => {
                        if entries.len() > 0 {
                            &&& r is Ok && r.unwrap() is Some
                            &&& r.unwrap().unwrap()@ == yielded(entries[0])
                            &&& entries_view(final(self).pending@) == entries.skip(1)
                            &&& final(self).token == next
                            &&& final(self).state == ListerState::Yielding
                        } else if next is None {
                            r is Ok && r.unwrap() is None && final(self).pending@.len() == 0
                        } else {
                            r is Err && r.unwrap_err()@ == stalled() && final(self).pending@.len()
                                == 0
                        }
                    },
                    Ok(_) => false,
                }
            },
    {
        if self.is_closed() {
            return Ok(None);
        }
        if self.pending.len() > 0 {
            let e = self.pending.remove(0);
            self.state = ListerState::Yielding;
            assert(entries_view(self.pending@) =~= entries_view(old(self).pending@).skip(1));
            return Ok(Some(hand_out(e)));
        }
        let exhausted = match self.state {
            ListerState::Yielding => self.token.is_none(),
            _ => false,
        };
        if exhausted {
            self.state = ListerState::Closed;
            return Ok(None);
        }
        let path = slice_to_vec(self.path.as_slice());
        let req = Request {
            op: Operation::List,
            path,
            target: Vec::new(),
            data: Vec::new(),
            range: None,
            token: self.token,
        };
        assert(req@ == page_request(self.path@, self.token));
        match op.submit(&req) {
            Err(e) => {
                self.state = ListerState::Closed;
                Err(e)
            },
            Ok(Response::Page(page)) => {
                let mut entries = page.entries;
                let ghost all = entries_view(entries@);
                if entries.len() > 0 {
                    let e = entries.remove(0);
                    assert(entries_view(entries@) =~= all.skip(1));
                    self.pending = entries;
                    self.token = page.next;
                    self.state = ListerState::Yielding;
                    Ok(Some(hand_out(e)))
                } else {
                    self.state = ListerState::Closed;
                    match page.next {
                        None => Ok(None),
                        Some(_) => Err(
                            Error::new(
                                ErrorKind::Unexpected,
                                "accessor sent an empty page that is not the last",
                            ),
                        ),
                    }
                }
            },
            Ok(_) => unreached(),
        }
    }
}

impl<A: Accessor> Operator<A> {
    /// Starts a listing. The path is normalized and the capability checked;
    /// the accessor is first asked when the lister is asked for an entry.
    pub fn list(&self, path: &[u8]) -> (r: Result<Lister, Error>)
        ensures
            match prepared(RequestView::simple(Operation::List, path@)) {
                Err(e) => r is Err && r.unwrap_err()@ == e,
                Ok(req) => match objection(self.accessor.capability(), req) {
                    Some(e) => r is Err && r.unwrap_err()@ == e,
                    None => {
                        &&& r is Ok
                        &&& r.unwrap().path@ == req.path
                        &&& r.unwrap().pending@.len() == 0
                        &&& r.unwrap().token is None
                        &&& r.unwrap().state == ListerState::Created
                    },
                },
            },
    {
        let none: Vec<u8> = Vec::new();
        let req = match Self::prepare(
            Operation::List,
            path,
            none.as_slice(),
            Vec::new(),
            None,
            None,
        ) {
            Ok(req) => req,
            Err(e) => {
                return Err(e);
            },
        };
        match self.check(&req) {
            Err(e) => Err(e),
            Ok(_) => Ok(
                Lister {
                    path: req.path,
                    pending: Vec::new(),
                    token: None,
                    state: ListerState::Created,
                },
            ),
        }
    }
}

} // verus!
