//! An accessor that answers from recorded replies.
//!
//! It lets the layers run where the backend cannot be called from inside
//! them, as when a call to it suspends: the caller records each reply of the
//! backend and runs the layers over the record. While the layers ask for a
//! reply that is not recorded yet, the run is starved; the caller then calls
//! the backend once more, records what it replied, and runs the layers again.
//! A run that is not starved ends as the layers would have ended over the
//! backend itself.

use vstd::prelude::*;
use crate::accessor::{Accessor, ReplyView, Request, RequestView, Response, reply_view};
use crate::capability::Capability;
use crate::error::{Error, ErrorKind, ErrorView};
use crate::layer::{Event, Layer, Outcome, Phase, reply_retryable, retries, run, settle};

verus! {

/// Recorded replies, the next one first.
pub struct Recorded {
    /// What the backend declares.
    pub capability: Capability,
    pub replies: Vec<Result<Response, Error>>,
    /// Whether a call found no reply recorded.
    pub starved: bool,
}

/// The mathematical state of a [`Recorded`] accessor.
pub ghost struct RecordedModel {
    pub capability: Capability,
    pub replies: Seq<ReplyView>,
    pub starved: bool,
}

/// The failure of a call for which no reply is recorded.
pub open spec fn pending() -> ErrorView {
    ErrorView {
        kind: ErrorKind::Unexpected,
        transient: false,
        message: "no reply is recorded for the call"@,
    }
}

/// The values of a run of replies.
pub open spec fn replies_view(replies: Seq<Result<Response, Error>>) -> Seq<ReplyView> {
    Seq::new(replies.len(), |i: int| reply_view(replies[i]))
}

impl Recorded {
    /// A record of the given replies of a backend with the given capability.
    pub fn new(capability: Capability, replies: Vec<Result<Response, Error>>) -> (r: Recorded)
        ensures
            r.model() == (RecordedModel {
                capability,
                replies: replies_view(replies@),
                starved: false,
            }),
    {
        Recorded { capability, replies, starved: false }
    }

    /// Whether a call found no reply recorded.
    pub fn is_starved(&self) -> (b: bool)
        ensures
            b == self.model().starved,
    {
        self.starved
    }
}

impl Accessor for Recorded {
    type Model = RecordedModel;

    open spec fn model(&self) -> RecordedModel {
        RecordedModel {
            capability: self.capability,
            replies: replies_view(self.replies@),
            starved: self.starved,
        }
    }

    open spec fn declared(m: RecordedModel) -> Capability {
        m.capability
    }

    open spec fn reply(m: RecordedModel, req: RequestView) -> ReplyView {
        if m.replies.len() > 0 {
            m.replies[0]
        } else {
            Err(pending())
        }
    }

    open spec fn after(m: RecordedModel, req: RequestView) -> RecordedModel {
        if m.replies.len() > 0 {
            RecordedModel { replies: m.replies.skip(1), ..m }
        } else {
            RecordedModel { starved: true, ..m }
        }
    }

    proof fn capability_is_fixed(m: RecordedModel, req: RequestView) {
    }

    fn info(&self) -> (c: Capability) {
        self.capability
    }

    fn call(&mut self, req: &Request) -> (r: Result<Response, Error>) {
        if self.replies.len() > 0 {
            let r = self.replies.remove(0);
            assert(replies_view(self.replies@) =~= replies_view(old(self).replies@).skip(1));
            r
        } else {
            self.starved = true;
            Err(Error::new(ErrorKind::Unexpected, "no reply is recorded for the call"))
        }
    }
}

/// The replies that an accessor in state `m` gives to `n` calls with one
/// request, one after the other.
pub open spec fn replies_of<A: Accessor>(m: A::Model, req: RequestView, n: nat) -> Seq<ReplyView>
    decreases n,
{
    if n == 0 {
        Seq::empty()
    } else {
        seq![A::reply(m, req)] + replies_of::<A>(A::after(m, req), req, (n - 1) as nat)
    }
}

/// Whether a run over a record stands to a run over an accessor as it
/// should: a starved run has ended with [`pending`]; any other has the reply
/// and the trace of the run over the accessor, and the replies it has left
/// are those that the accessor would give next.
pub open spec fn agrees<A: Accessor>(
    over_record: Outcome<RecordedModel>,
    over_accessor: Outcome<A::Model>,
    req: RequestView,
) -> bool {
    if over_record.base.starved {
        over_record.reply == Err::<crate::accessor::ResponseView, ErrorView>(pending())
    } else {
        &&& over_record.reply == over_accessor.reply
        &&& over_record.trace == over_accessor.trace
        &&& over_record.base.replies == replies_of::<A>(
            over_accessor.base,
            req,
            over_record.base.replies.len(),
        )
    }
}

/// Running the layers over a record of an accessor's replies is running them
/// over the accessor, as far as the record reaches.
pub proof fn lemma_replay_agrees<A: Accessor>(
    layers: Seq<Layer>,
    depth: nat,
    record: RecordedModel,
    m: A::Model,
    trace: Seq<Event>,
    req: RequestView,
)
    requires
        !record.starved,
        record.replies == replies_of::<A>(m, req, record.replies.len()),
    ensures
        agrees::<A>(
            run::<Recorded>(layers, depth, record, trace, req),
            run::<A>(layers, depth, m, trace, req),
            req,
        ),
    decreases depth, 1nat, 0nat,
{
    if depth == 0 || depth > layers.len() {
        if record.replies.len() > 0 {
            let n = record.replies.len();
            let rest = replies_of::<A>(A::after(m, req), req, (n - 1) as nat);
            assert(record.replies == seq![A::reply(m, req)] + rest);
            assert(record.replies.skip(1) =~= rest);
        }
    } else {
        match layers[depth - 1] {
            Layer::Trace(id) => {
                lemma_replay_agrees::<A>(
                    layers,
                    (depth - 1) as nat,
                    record,
                    m,
                    trace.push(Event { layer: id, phase: Phase::Enter }),
                    req,
                );
            },
            Layer::Restrict(cap) => {
                if cap.supports_spec(req.op) {
                    lemma_replay_agrees::<A>(layers, (depth - 1) as nat, record, m, trace, req);
                }
            },
            Layer::Retry { attempts, non_idempotent } => {
                lemma_replay_agrees::<A>(layers, (depth - 1) as nat, record, m, trace, req);
                lemma_replayed_retry_agrees::<A>(
                    layers,
                    depth,
                    run::<Recorded>(layers, (depth - 1) as nat, record, trace, req),
                    run::<A>(layers, (depth - 1) as nat, m, trace, req),
                    req,
                    retries(attempts, non_idempotent, req.op),
                );
            },
        }
    }
}

/// The part of [`lemma_replay_agrees`] that speaks of a retry layer.
pub proof fn lemma_replayed_retry_agrees<A: Accessor>(
    layers: Seq<Layer>,
    depth: nat,
    over_record: Outcome<RecordedModel>,
    over_accessor: Outcome<A::Model>,
    req: RequestView,
    left: nat,
)
    requires
        agrees::<A>(over_record, over_accessor, req),
    ensures
        agrees::<A>(
            settle::<Recorded>(layers, depth, over_record, req, left),
            settle::<A>(layers, depth, over_accessor, req, left),
            req,
        ),
    decreases depth, 0nat, left,
{
    if depth > 0 && left > 0 && !over_record.base.starved && reply_retryable(over_record.reply) {
        lemma_replay_agrees::<A>(
            layers,
            (depth - 1) as nat,
            over_record.base,
            over_accessor.base,
            over_record.trace,
            req,
        );
        lemma_replayed_retry_agrees::<A>(
            layers,
            depth,
            run::<Recorded>(layers, (depth - 1) as nat, over_record.base, over_record.trace, req),
            run::<A>(layers, (depth - 1) as nat, over_accessor.base, over_accessor.trace, req),
            req,
            (left - 1) as nat,
        );
    }
}

} // verus!
