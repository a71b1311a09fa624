//! Layers, and the accessor that a stack of layers over a backend makes.
//!
//! A layer applied later stands outside the layers applied before it: it sees
//! a call first and its result last.

use vstd::prelude::*;
use crate::accessor::{Accessor, ReplyView, Request, RequestView, Response, reply_view};
use crate::capability::{Capability, Operation};
use crate::error::{Error, ErrorKind, ErrorView, retryable};
use crate::laws::lemma_capability_is_kept;

verus! {

/// The two moments at which a tracing layer records a call.
#[derive(Clone, Copy, Debug, PartialEq, Eq, Structural)]
pub enum Phase {
    /// The call passes the layer on its way to the backend.
    Enter,
    /// The result passes the layer on its way back.
    Leave,
}

/// One record of a tracing layer.
#[derive(Clone, Copy, Debug, PartialEq, Eq, Structural)]
pub struct Event {
    pub layer: u32,
    pub phase: Phase,
}

/// A behaviour that can be put around an accessor.
#[derive(Clone, Copy, Debug, PartialEq, Eq, Structural)]
pub enum Layer {
    /// Records every call that passes, under the given number.
    Trace(u32),
    /// Repeats a call that failed in a way a repetition may cure, up to
    /// `attempts` tries in all. Operations that are not idempotent are
    /// repeated only if `non_idempotent` is set.
    Retry { attempts: u32, non_idempotent: bool },
    /// Lets through only what the given capability supports.
    Restrict(Capability),
}

/// Whether doing the operation twice leaves the backend as doing it once.
pub open spec fn idempotent(op: Operation) -> bool {
    op != Operation::Append && op != Operation::Rename
}

/// How many further tries a retry layer grants after the first one.
pub open spec fn retries(attempts: u32, non_idempotent: bool, op: Operation) -> nat {
    if attempts <= 1 || (!idempotent(op) && !non_idempotent) {
        0
    } else {
        (attempts - 1) as nat
    }
}

/// Whether a reply is a failure that a repetition may cure.
pub open spec fn reply_retryable(r: ReplyView) -> bool {
    match r {
        Ok(_) => false,
        Err(e) => retryable(e.kind, e.transient),
    }
}

/// The failure with which a capability check refuses an operation.
pub open spec fn refusal() -> ErrorView {
    ErrorView {
        kind: ErrorKind::Unsupported,
        transient: false,
        message: "operation is not supported by the accessor"@,
    }
}

/// The failure with which a capability check refuses an operation.
pub fn refuse() -> (e: Error)
    ensures
        e@ == refusal(),
{
    Error::new(ErrorKind::Unsupported, "operation is not supported by the accessor")
}

/// Where a call has left a layered accessor: the backend's state, the trace,
/// and the reply.
pub ghost struct Outcome<M> {
    pub base: M,
    pub trace: Seq<Event>,
    pub reply: ReplyView,
}

/// The outcome of a call that is handled by the `depth` innermost layers and
/// the backend.
pub open spec fn run<A: Accessor>(
    layers: Seq<Layer>,
    depth: nat,
    base: A::Model,
    trace: Seq<Event>,
    req: RequestView,
) -> Outcome<A::Model>
    decreases depth, 1nat, 0nat,
{
    if depth == 0 || depth > layers.len() {
        Outcome { base: A::after(base, req), trace, reply: A::reply(base, req) }
    } else {
        match layers[depth - 1] {
            Layer::Trace(id) => {
                let inner = run::<A>(
                    layers,
                    (depth - 1) as nat,
                    base,
                    trace.push(Event { layer: id, phase: Phase::Enter }),
                    req,
                );
                Outcome {
                    base: inner.base,
                    trace: inner.trace.push(Event { layer: id, phase: Phase::Leave }),
                    reply: inner.reply,
                }
            },
            Layer::Restrict(cap) => {
                if cap.supports_spec(req.op) {
                    run::<A>(layers, (depth - 1) as nat, base, trace, req)
                } else {
                    Outcome { base, trace, reply: Err(refusal()) }
                }
            },
            Layer::Retry { attempts, non_idempotent } => {
                settle::<A>(
                    layers,
                    depth,
                    run::<A>(layers, (depth - 1) as nat, base, trace, req),
                    req,
                    retries(attempts, non_idempotent, req.op),
                )
            },
        }
    }
}

/// What a retry layer at `depth` makes of the outcome `first` of a try when
/// `left` further tries are granted: it tries again while tries are left and
/// the failure is one that a repetition may cure.
pub open spec fn settle<A: Accessor>(
    layers: Seq<Layer>,
    depth: nat,
    first: Outcome<A::Model>,
    req: RequestView,
    left: nat,
) -> Outcome<A::Model>
    decreases depth, 0nat, left,
{
    if depth > 0 && left > 0 && reply_retryable(first.reply) {
        settle::<A>(
            layers,
            depth,
            run::<A>(layers, (depth - 1) as nat, first.base, first.trace, req),
            req,
            (left - 1) as nat,
        )
    } else {
        first
    }
}

/// What a stack of layers leaves of a backend's capability.
pub open spec fn effective(layers: Seq<Layer>, base: Capability) -> Capability
    decreases layers.len(),
{
    if layers.len() == 0 {
        base
    } else {
        let below = effective(layers.drop_last(), base);
        match layers.last() {
            Layer::Restrict(cap) => below.restrict_spec(cap),
            _ => below,
        }
    }
}

/// A backend under a stack of layers. `layers[0]` is the innermost layer.
pub struct Layered<A: Accessor> {
    pub base: A,
    pub layers: Vec<Layer>,
    pub trace: Vec<Event>,
}

impl Layer {
    /// Puts this layer around an accessor, outside the layers it already has.
    pub fn wrap<A: Accessor>(self, accessor: Layered<A>) -> (wrapped: Layered<A>)
        ensures
            wrapped.base == accessor.base,
            wrapped.trace@ == accessor.trace@,
            wrapped.layers@ == accessor.layers@.push(self),
    {
        let mut wrapped = accessor;
        wrapped.layers.push(self);
        wrapped
    }
}

impl<A: Accessor> Layered<A> {
    /// The bare backend, under no layer.
    pub fn new(base: A) -> (s: Self)
        ensures
            s.base == base,
            s.layers@ == Seq::<Layer>::empty(),
            s.trace@ == Seq::<Event>::empty(),
    {
        Layered { base, layers: Vec::new(), trace: Vec::new() }
    }

    /// The capability that a caller of this accessor can rely on.
    pub open spec fn capability(&self) -> Capability {
        effective(self.layers@, A::declared(self.base.model()))
    }

    /// The outcome of handing a request to the outermost layer.
    pub open spec fn outcome(&self, req: RequestView) -> Outcome<A::Model> {
        run::<A>(self.layers@, self.layers@.len(), self.base.model(), self.trace@, req)
    }

    /// The records that the tracing layers have made so far.
    pub fn trace(&self) -> (t: &Vec<Event>)
        ensures
            t@ == self.trace@,
    {
        &self.trace
    }

    /// Hands a request to the layer at `depth - 1`, or to the backend at depth 0.
    fn run_from(&mut self, depth: usize, req: &Request) -> (r: Result<Response, Error>)
        requires
            depth <= old(self).layers@.len(),
        ensures
            final(self).layers@ == old(self).layers@,
            final(self).base.model() == run::<A>(
                old(self).layers@,
                depth as nat,
                old(self).base.model(),
                old(self).trace@,
                req@,
            ).base,
            final(self).trace@ == run::<A>(
                old(self).layers@,
                depth as nat,
                old(self).base.model(),
                old(self).trace@,
                req@,
            ).trace,
            reply_view(r) == run::<A>(
                old(self).layers@,
                depth as nat,
                old(self).base.model(),
                old(self).trace@,
                req@,
            ).reply,
        decreases depth,
    {
        if depth == 0 {
            return self.base.call(req);
        }
        let layer = self.layers[depth - 1];
        match layer {
            Layer::Trace(id) => {
                self.trace.push(Event { layer: id, phase: Phase::Enter });
                let r = self.run_from(depth - 1, req);
                self.trace.push(Event { layer: id, phase: Phase::Leave });
                r
            },
            Layer::Restrict(cap) => {
                if cap.supports(req.op) {
                    self.run_from(depth - 1, req)
                } else {
                    Err(refuse())
                }
            },
            Layer::Retry { attempts, non_idempotent } => {
                let mut left: u32 = retries_of(attempts, non_idempotent, req.op);
                let ghost layers = self.layers@;
                let mut r = self.run_from(depth - 1, req);
                let ghost first = Outcome {
                    base: self.base.model(),
                    trace: self.trace@,
                    reply: reply_view(r),
                };
                let ghost budget = left as nat;
                while left > 0 && is_retryable(&r)
                    invariant
                        self.layers@ == layers,
                        0 < depth <= layers.len(),
                        settle::<A>(
                            layers,
                            depth as nat,
                            Outcome {
                                base: self.base.model(),
                                trace: self.trace@,
                                reply: reply_view(r),
                            },
                            req@,
                            left as nat,
                        ) == settle::<A>(layers, depth as nat, first, req@, budget),
                    decreases left,
                {
                    left = left - 1;
                    r = self.run_from(depth - 1, req);
                }
                r
            },
        }
    }
}

/// The mathematical state of a layered accessor.
pub ghost struct LayeredModel<M> {
    pub base: M,
    pub layers: Seq<Layer>,
    pub trace: Seq<Event>,
}

/// A backend under layers is an accessor again: it declares what the layers
/// leave of the backend's capability, and answers as the outermost layer does.
impl<A: Accessor> Accessor for Layered<A> {
    type Model = LayeredModel<A::Model>;

    open spec fn model(&self) -> LayeredModel<A::Model> {
        LayeredModel { base: self.base.model(), layers: self.layers@, trace: self.trace@ }
    }

    open spec fn declared(m: LayeredModel<A::Model>) -> Capability {
        effective(m.layers, A::declared(m.base))
    }

    open spec fn reply(m: LayeredModel<A::Model>, req: RequestView) -> ReplyView {
        run::<A>(m.layers, m.layers.len(), m.base, m.trace, req).reply
    }

    open spec fn after(m: LayeredModel<A::Model>, req: RequestView) -> LayeredModel<A::Model> {
        let o = run::<A>(m.layers, m.layers.len(), m.base, m.trace, req);
        LayeredModel { base: o.base, layers: m.layers, trace: o.trace }
    }

    proof fn capability_is_fixed(m: LayeredModel<A::Model>, req: RequestView) {
        lemma_capability_is_kept::<A>(m.layers, m.layers.len(), m.base, m.trace, req);
    }

    /// The capability that a caller of this accessor can rely on.
    fn info(&self) -> (c: Capability) {
        let mut c = self.base.info();
        let mut i: usize = 0;
        while i < self.layers.len()
            invariant
                i <= self.layers.len(),
                c == effective(self.layers@.take(i as int), A::declared(self.base.model())),
            decreases self.layers.len() - i,
        {
            let ghost done = self.layers@.take(i as int + 1);
            assert(done.drop_last() =~= self.layers@.take(i as int));
            assert(done.last() == self.layers@[i as int]);
            match self.layers[i] {
                Layer::Restrict(cap) => {
                    c = c.restrict(&cap);
                },
                _ => {},
            }
            i += 1;
        }
        assert(self.layers@.take(i as int) =~= self.layers@);
        c
    }

    /// Hands a request to the outermost layer.
    fn call(&mut self, req: &Request) -> (r: Result<Response, Error>) {
        let depth = self.layers.len();
        self.run_from(depth, req)
    }
}

fn is_idempotent(op: Operation) -> (b: bool)
    ensures
        b == idempotent(op),
{
    match op {
        Operation::Append => false,
        Operation::Rename => false,
        _ => true,
    }
}

fn retries_of(attempts: u32, non_idempotent: bool, op: Operation) -> (n: u32)
    ensures
        n == retries(attempts, non_idempotent, op),
{
    if attempts <= 1 || (!is_idempotent(op) && !non_idempotent) {
        0
    } else {
        attempts - 1
    }
}

fn is_retryable(r: &Result<Response, Error>) -> (b: bool)
    ensures
        b == reply_retryable(reply_view(*r)),
{
    match r {
        Ok(_) => false,
        Err(e) => e.is_retryable(),
    }
}

} // verus!
