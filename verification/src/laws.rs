//! What holds of the operator, its layers and its handles on every input.

use vstd::prelude::*;
use crate::accessor::{Accessor, ReplyView, RequestView, ResponseView};
use crate::capability::{Capability, Operation};
use crate::file::{FileView, close_step, closed_handle, untouched, write_step};
use crate::layer::{
    Event,
    Layer,
    Layered,
    Outcome,
    Phase,
    effective,
    refusal,
    reply_retryable,
    retries,
    run,
    settle,
};
use crate::operator::{performed, prepared, rejected};
use crate::path::normalized;

verus! {

/// Layers never add to what the backend can do: an operation that the layered
/// accessor supports is one that the backend supports.
pub proof fn lemma_layers_only_restrict(layers: Seq<Layer>, base: Capability, op: Operation)
    requires
        effective(layers, base).supports_spec(op),
    ensures
        base.supports_spec(op),
    decreases layers.len(),
{
    if layers.len() > 0 {
        lemma_layers_only_restrict(layers.drop_last(), base, op);
    }
}

/// An operation that the layered accessor supports is one that each of its
/// restricting layers lets through.
pub proof fn lemma_supported_passes(layers: Seq<Layer>, base: Capability, op: Operation, i: int)
    requires
        effective(layers, base).supports_spec(op),
        0 <= i < layers.len(),
        layers[i] is Restrict,
    ensures
        layers[i]->Restrict_0.supports_spec(op),
    decreases layers.len(),
{
    if i < layers.len() - 1 {
        lemma_supported_passes(layers.drop_last(), base, op, i);
    }
}

/// An operation on paths below the root that the capability does not declare
/// fails as unsupported, and neither the backend nor the trace is touched.
pub proof fn lemma_unsupported_is_refused<A: Accessor>(acc: Layered<A>, raw: RequestView)
    requires
        prepared(raw) is Ok,
        !acc.capability().supports_spec(raw.op),
    ensures
        performed(acc, raw) == rejected(acc, refusal()),
        performed(acc, raw).base == acc.base.model(),
        performed(acc, raw).trace == acc.trace@,
{
}

/// The same holds of an operation that the backend itself does not declare,
/// whatever layers stand above it.
pub proof fn lemma_undeclared_is_refused<A: Accessor>(acc: Layered<A>, raw: RequestView)
    requires
        prepared(raw) is Ok,
        !A::declared(acc.base.model()).supports_spec(raw.op),
    ensures
        performed(acc, raw) == rejected(acc, refusal()),
{
    if acc.capability().supports_spec(raw.op) {
        lemma_layers_only_restrict(acc.layers@, A::declared(acc.base.model()), raw.op);
    }
}

/// The order of layers shows: with a tracing layer `a` put around the
/// backend first and a tracing layer `b` put around it second, a call passes
/// `b` before `a` on its way in and `a` before `b` on its way out, and
/// reaches the backend once.
pub proof fn lemma_layer_order<A: Accessor>(
    base: A::Model,
    trace: Seq<Event>,
    a: u32,
    b: u32,
    req: RequestView,
)
    ensures
        ({
            let o = run::<A>(seq![Layer::Trace(a), Layer::Trace(b)], 2, base, trace, req);
            &&& o.trace == trace + seq![
                Event { layer: b, phase: Phase::Enter },
                Event { layer: a, phase: Phase::Enter },
                Event { layer: a, phase: Phase::Leave },
                Event { layer: b, phase: Phase::Leave },
            ]
            &&& o.base == A::after(base, req)
            &&& o.reply == A::reply(base, req)
        }),
{
    reveal_with_fuel(run, 3);
    let o = run::<A>(seq![Layer::Trace(a), Layer::Trace(b)], 2, base, trace, req);
    assert(o.trace =~= trace + seq![
        Event { layer: b, phase: Phase::Enter },
        Event { layer: a, phase: Phase::Enter },
        Event { layer: a, phase: Phase::Leave },
        Event { layer: b, phase: Phase::Leave },
    ]);
}

/// Whether every one of the `depth` innermost layers is a tracing layer.
pub open spec fn only_traces(layers: Seq<Layer>, depth: nat) -> bool {
    forall|i: int| 0 <= i < depth && i < layers.len() ==> layers[i] is Trace
}

/// Tracing layers do not alter an operation: the backend sees the request
/// once and its reply comes back as it is.
pub proof fn lemma_traces_are_transparent<A: Accessor>(
    layers: Seq<Layer>,
    depth: nat,
    base: A::Model,
    trace: Seq<Event>,
    req: RequestView,
)
    requires
        only_traces(layers, depth),
    ensures
        run::<A>(layers, depth, base, trace, req).base == A::after(base, req),
        run::<A>(layers, depth, base, trace, req).reply == A::reply(base, req),
    decreases depth,
{
    if depth > 0 && depth <= layers.len() {
        let id = layers[depth - 1]->Trace_0;
        lemma_traces_are_transparent::<A>(
            layers,
            (depth - 1) as nat,
            base,
            trace.push(Event { layer: id, phase: Phase::Enter }),
            req,
        );
    }
}

/// What a layered accessor declares does not change with the calls it
/// handles.
pub proof fn lemma_capability_is_kept<A: Accessor>(
    layers: Seq<Layer>,
    depth: nat,
    base: A::Model,
    trace: Seq<Event>,
    req: RequestView,
)
    ensures
        A::declared(run::<A>(layers, depth, base, trace, req).base) == A::declared(base),
    decreases depth, 1nat, 0nat,
{
    if depth == 0 || depth > layers.len() {
        A::capability_is_fixed(base, req);
    } else {
        match layers[depth - 1] {
            Layer::Trace(id) => {
                lemma_capability_is_kept::<A>(
                    layers,
                    (depth - 1) as nat,
                    base,
                    trace.push(Event { layer: id, phase: Phase::Enter }),
                    req,
                );
            },
            Layer::Restrict(cap) => {
                lemma_capability_is_kept::<A>(layers, (depth - 1) as nat, base, trace, req);
            },
            Layer::Retry { attempts, non_idempotent } => {
                lemma_capability_is_kept::<A>(layers, (depth - 1) as nat, base, trace, req);
                lemma_retry_keeps_capability::<A>(
                    layers,
                    depth,
                    run::<A>(layers, (depth - 1) as nat, base, trace, req),
                    req,
                    retries(attempts, non_idempotent, req.op),
                );
            },
        }
    }
}

/// The part of [`lemma_capability_is_kept`] that speaks of a retry layer.
pub proof fn lemma_retry_keeps_capability<A: Accessor>(
    layers: Seq<Layer>,
    depth: nat,
    first: Outcome<A::Model>,
    req: RequestView,
    left: nat,
)
    ensures
        A::declared(settle::<A>(layers, depth, first, req, left).base) == A::declared(first.base),
    decreases depth, 0nat, left,
{
    if depth > 0 && left > 0 && reply_retryable(first.reply) {
        lemma_capability_is_kept::<A>(layers, (depth - 1) as nat, first.base, first.trace, req);
        lemma_retry_keeps_capability::<A>(
            layers,
            depth,
            run::<A>(layers, (depth - 1) as nat, first.base, first.trace, req),
            req,
            (left - 1) as nat,
        );
    }
}

/// The write of `data` to a path in normal form.
pub open spec fn write_of(path: Seq<u8>, data: Seq<u8>) -> RequestView {
    RequestView { data, ..RequestView::simple(Operation::Write, path) }
}

/// The read of a path in normal form.
pub open spec fn read_of(path: Seq<u8>) -> RequestView {
    RequestView::simple(Operation::Read, path)
}

/// The reply that hands out exactly `data`.
pub open spec fn bytes_of(data: Seq<u8>) -> ReplyView {
    Ok(ResponseView::Bytes(data))
}

/// Whether a kind of backend keeps what is written: in whatever state it
/// accepts the write of `data` to `path`, it answers a read of `path` that
/// follows with exactly `data`.
pub open spec fn keeps_writes<A: Accessor>(path: Seq<u8>, data: Seq<u8>) -> bool {
    forall|m: A::Model| #[trigger]
        A::reply(m, write_of(path, data)) is Ok ==> A::reply(
            A::after(m, write_of(path, data)),
            read_of(path),
        ) == bytes_of(data)
}

/// A write that comes back from the layers as done has left the backend in a
/// state that answers the read with what was written.
pub proof fn lemma_write_lands<A: Accessor>(
    layers: Seq<Layer>,
    depth: nat,
    base: A::Model,
    trace: Seq<Event>,
    path: Seq<u8>,
    data: Seq<u8>,
)
    requires
        keeps_writes::<A>(path, data),
        run::<A>(layers, depth, base, trace, write_of(path, data)).reply is Ok,
    ensures
        A::reply(run::<A>(layers, depth, base, trace, write_of(path, data)).base, read_of(path))
            == bytes_of(data),
    decreases depth, 1nat, 0nat,
{
    let w = write_of(path, data);
    if depth == 0 || depth > layers.len() {
        assert(A::reply(base, w) is Ok);
    } else {
        match layers[depth - 1] {
            Layer::Trace(id) => {
                lemma_write_lands::<A>(
                    layers,
                    (depth - 1) as nat,
                    base,
                    trace.push(Event { layer: id, phase: Phase::Enter }),
                    path,
                    data,
                );
            },
            Layer::Restrict(cap) => {
                lemma_write_lands::<A>(layers, (depth - 1) as nat, base, trace, path, data);
            },
            Layer::Retry { attempts, non_idempotent } => {
                let first = run::<A>(layers, (depth - 1) as nat, base, trace, w);
                if first.reply is Ok {
                    lemma_write_lands::<A>(layers, (depth - 1) as nat, base, trace, path, data);
                }
                lemma_retried_write_lands::<A>(
                    layers,
                    depth,
                    first,
                    path,
                    data,
                    retries(attempts, non_idempotent, w.op),
                );
            },
        }
    }
}

/// The part of [`lemma_write_lands`] that speaks of a retry layer.
pub proof fn lemma_retried_write_lands<A: Accessor>(
    layers: Seq<Layer>,
    depth: nat,
    first: Outcome<A::Model>,
    path: Seq<u8>,
    data: Seq<u8>,
    left: nat,
)
    requires
        keeps_writes::<A>(path, data),
        first.reply is Ok ==> A::reply(first.base, read_of(path)) == bytes_of(data),
        settle::<A>(layers, depth, first, write_of(path, data), left).reply is Ok,
    ensures
        A::reply(
            settle::<A>(layers, depth, first, write_of(path, data), left).base,
            read_of(path),
        ) == bytes_of(data),
    decreases depth, 0nat, left,
{
    let w = write_of(path, data);
    if depth > 0 && left > 0 && reply_retryable(first.reply) {
        let again = run::<A>(layers, (depth - 1) as nat, first.base, first.trace, w);
        if again.reply is Ok {
            lemma_write_lands::<A>(
                layers,
                (depth - 1) as nat,
                first.base,
                first.trace,
                path,
                data,
            );
        }
        lemma_retried_write_lands::<A>(layers, depth, again, path, data, (left - 1) as nat);
    }
}

/// Whether every restricting layer lets the operation through.
pub open spec fn lets_through(layers: Seq<Layer>, op: Operation) -> bool {
    forall|i: int|
        0 <= i < layers.len() && layers[i] is Restrict ==> layers[i]->Restrict_0.supports_spec(op)
}

/// Layers do not alter a success: a request that the backend answers with a
/// value, and that the restricting layers let through, reaches the backend
/// once, and the value comes back as it is.
pub proof fn lemma_success_passes<A: Accessor>(
    layers: Seq<Layer>,
    depth: nat,
    base: A::Model,
    trace: Seq<Event>,
    req: RequestView,
)
    requires
        A::reply(base, req) is Ok,
        lets_through(layers, req.op),
    ensures
        run::<A>(layers, depth, base, trace, req).reply == A::reply(base, req),
        run::<A>(layers, depth, base, trace, req).base == A::after(base, req),
    decreases depth,
{
    if depth > 0 && depth <= layers.len() {
        match layers[depth - 1] {
            Layer::Trace(id) => {
                lemma_success_passes::<A>(
                    layers,
                    (depth - 1) as nat,
                    base,
                    trace.push(Event { layer: id, phase: Phase::Enter }),
                    req,
                );
            },
            Layer::Restrict(cap) => {
                assert(layers[depth - 1] is Restrict);
                assert(cap.supports_spec(req.op));
                lemma_success_passes::<A>(layers, (depth - 1) as nat, base, trace, req);
            },
            Layer::Retry { attempts, non_idempotent } => {
                lemma_success_passes::<A>(layers, (depth - 1) as nat, base, trace, req);
                let first = run::<A>(layers, (depth - 1) as nat, base, trace, req);
                assert(!reply_retryable(first.reply));
                assert(settle::<A>(
                    layers,
                    depth,
                    first,
                    req,
                    retries(attempts, non_idempotent, req.op),
                ) == first);
            },
        }
    }
}

/// An operation that the layered accessor supports is one that every
/// restricting layer lets through.
pub proof fn lemma_supported_is_let_through(layers: Seq<Layer>, base: Capability, op: Operation)
    requires
        effective(layers, base).supports_spec(op),
    ensures
        lets_through(layers, op),
{
    assert forall|i: int| 0 <= i < layers.len() && layers[i] is Restrict implies layers[i]->Restrict_0.supports_spec(
        op,
    ) by {
        lemma_supported_passes(layers, base, op, i);
    }
}

/// Round trip: over a backend that keeps what is written, and under any
/// layers, a write that succeeds is followed by a read of the same path that
/// returns exactly the bytes written. The two paths may be spelled
/// differently as long as they have one normal form.
pub proof fn lemma_round_trip<A: Accessor>(
    before: Layered<A>,
    between: Layered<A>,
    written: Seq<u8>,
    read: Seq<u8>,
    data: Seq<u8>,
)
    requires
        normalized(written) is Some,
        normalized(read) == normalized(written),
        keeps_writes::<A>(normalized(written).unwrap(), data),
        before.capability().supports_spec(Operation::Read),
        performed(before, write_of(written, data)).reply is Ok,
        between.layers@ == before.layers@,
        between.base.model() == performed(before, write_of(written, data)).base,
    ensures
        performed(between, read_of(read)).reply == bytes_of(data),
{
    let path = normalized(written).unwrap();
    let layers = before.layers@;
    let base = before.base.model();
    assert(prepared(write_of(written, data)) == Ok::<RequestView, crate::error::ErrorView>(
        write_of(path, data),
    ));
    assert(prepared(read_of(read)) == Ok::<RequestView, crate::error::ErrorView>(read_of(path)));
    lemma_write_lands::<A>(layers, layers.len(), base, before.trace@, path, data);
    lemma_capability_is_kept::<A>(layers, layers.len(), base, before.trace@, write_of(path, data));
    lemma_supported_is_let_through(layers, A::declared(base), Operation::Read);
    lemma_success_passes::<A>(
        layers,
        layers.len(),
        between.base.model(),
        between.trace@,
        read_of(path),
    );
}

/// A closed handle stays closed: closing it again succeeds and changes
/// nothing, and a write to it fails as closed and changes nothing.
pub proof fn lemma_closed_handle<A: Accessor>(f: FileView, acc: Layered<A>, bytes: Seq<u8>)
    requires
        f.closed,
    ensures
        close_step(f, acc) == (f, untouched(acc)),
        write_step(f, acc, bytes) == (f, rejected(acc, closed_handle())),
{
}

/// A close that succeeds leaves the handle closed, and a handle that it
/// found open with nothing buffered.
pub proof fn lemma_close_closes<A: Accessor>(f: FileView, acc: Layered<A>)
    requires
        close_step(f, acc).1.reply is Ok,
    ensures
        close_step(f, acc).0.closed,
        !f.closed ==> close_step(f, acc).0.buffer.len() == 0,
{
}

} // verus!
