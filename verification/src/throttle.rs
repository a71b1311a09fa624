//! A rate limit around an accessor: a bucket of tokens, one per call.
//!
//! The bucket belongs to the accessor it is part of. A call takes one token
//! with it to the inner accessor; with no token left the call fails as rate
//! limited and the inner accessor is not reached. Whoever owns the accessor
//! refills the bucket.

use vstd::prelude::*;
use crate::accessor::{Accessor, ReplyView, Request, RequestView, Response};
use crate::capability::Capability;
use crate::error::{Error, ErrorKind, ErrorView};

verus! {

/// An accessor behind a bucket of tokens.
pub struct Throttled<A: Accessor> {
    pub inner: A,
    pub tokens: u64,
}

/// The mathematical state of a [`Throttled`] accessor.
pub ghost struct ThrottledModel<M> {
    pub inner: M,
    pub tokens: u64,
}

/// The failure of a call that finds the bucket empty.
pub open spec fn out_of_tokens() -> ErrorView {
    ErrorView {
        kind: ErrorKind::RateLimited,
        transient: false,
        message: "no token left for the call"@,
    }
}

impl<A: Accessor> Throttled<A> {
    /// Puts an accessor behind a bucket that holds `tokens` tokens.
    pub fn new(inner: A, tokens: u64) -> (t: Self)
        ensures
            t.inner == inner,
            t.tokens == tokens,
    {
        Throttled { inner, tokens }
    }

    /// How many calls the bucket lets through before it is refilled.
    pub fn tokens(&self) -> (n: u64)
        ensures
            n == self.tokens,
    {
        self.tokens
    }

    /// Adds tokens to the bucket, up to what it can hold.
    pub fn refill(&mut self, tokens: u64)
        ensures
            final(self).inner == old(self).inner,
            final(self).tokens == if old(self).tokens + tokens > u64::MAX {
                u64::MAX
            } else {
                (old(self).tokens + tokens) as u64
            },
    {
        if tokens > u64::MAX - self.tokens {
            self.tokens = u64::MAX;
        } else {
            self.tokens = self.tokens + tokens;
        }
    }

    /// Gives the inner accessor back.
    pub fn into_inner(self) -> (a: A)
        ensures
            a == self.inner,
    {
        self.inner
    }
}

impl<A: Accessor> Accessor for Throttled<A> {
    type Model = ThrottledModel<A::Model>;

    open spec fn model(&self) -> ThrottledModel<A::Model> {
        ThrottledModel { inner: self.inner.model(), tokens: self.tokens }
    }

    open spec fn declared(m: ThrottledModel<A::Model>) -> Capability {
        A::declared(m.inner)
    }

    open spec fn reply(m: ThrottledModel<A::Model>, req: RequestView) -> ReplyView {
        if m.tokens == 0 {
            Err(out_of_tokens())
        } else {
            A::reply(m.inner, req)
        }
    }

    open spec fn after(m: ThrottledModel<A::Model>, req: RequestView) -> ThrottledModel<A::Model> {
        if m.tokens == 0 {
            m
        } else {
            ThrottledModel { inner: A::after(m.inner, req), tokens: (m.tokens - 1) as u64 }
        }
    }

    proof fn capability_is_fixed(m: ThrottledModel<A::Model>, req: RequestView) {
        A::capability_is_fixed(m.inner, req);
    }

    fn info(&self) -> (c: Capability) {
        self.inner.info()
    }

    fn call(&mut self, req: &Request) -> (r: Result<Response, Error>) {
        if self.tokens == 0 {
            Err(Error::new(ErrorKind::RateLimited, "no token left for the call"))
        } else {
            self.tokens = self.tokens - 1;
            self.inner.call(req)
        }
    }
}

} // verus!
