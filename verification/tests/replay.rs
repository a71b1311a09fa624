use opstore::accessor::{Accessor, Request, Response};
use opstore::capability::{Capability, Operation};
use opstore::error::{Error, ErrorKind};
use opstore::layer::{Event, Layer, Layered, Phase};
use opstore::replay::Recorded;

fn throttled() -> Error {
    Error::new(ErrorKind::RateLimited, "slow down")
}

fn chain(replies: Vec<Result<Response, Error>>) -> Layered<Recorded> {
    let base = Layered::new(Recorded::new(Capability::all(), replies));
    Layer::Trace(2).wrap(Layer::Retry { attempts: 3, non_idempotent: false }.wrap(Layer::Trace(1).wrap(base)))
}

fn read() -> Request {
    Request::simple(Operation::Read, b"/k".to_vec())
}

#[test]
fn run_without_a_reply_is_starved() {
    let mut c = chain(Vec::new());
    let e = c.call(&read()).unwrap_err();
    assert_eq!(e.kind(), ErrorKind::Unexpected);
    assert_eq!(e.message(), "no reply is recorded for the call");
    assert!(c.base.is_starved());
}

#[test]
fn run_is_starved_while_a_retry_is_due() {
    let mut c = chain(vec![Err(throttled())]);
    assert!(c.call(&read()).is_err());
    assert!(c.base.is_starved());
    let mut c = chain(vec![Err(throttled()), Err(throttled())]);
    assert!(c.call(&read()).is_err());
    assert!(c.base.is_starved());
}

#[test]
fn run_over_a_full_record_ends_as_over_the_backend() {
    let mut c = chain(vec![Err(throttled()), Err(throttled()), Ok(Response::Bytes(vec![7]))]);
    match c.call(&read()) {
        Ok(Response::Bytes(b)) => assert_eq!(b, vec![7]),
        _ => panic!("expected bytes"),
    }
    assert!(!c.base.is_starved());
    assert!(c.base.replies.is_empty());
    let mut expected = vec![Event { layer: 2, phase: Phase::Enter }];
    for _ in 0..3 {
        expected.push(Event { layer: 1, phase: Phase::Enter });
        expected.push(Event { layer: 1, phase: Phase::Leave });
    }
    expected.push(Event { layer: 2, phase: Phase::Leave });
    assert_eq!(c.trace(), &expected);
}

#[test]
fn run_ends_on_a_failure_that_is_not_retried() {
    let mut c = chain(vec![Err(Error::new(ErrorKind::NotFound, "gone")), Err(throttled())]);
    let e = c.call(&read()).unwrap_err();
    assert_eq!(e.kind(), ErrorKind::NotFound);
    assert!(!c.base.is_starved());
    assert_eq!(c.base.replies.len(), 1);

    let mut c = chain(vec![Err(throttled()), Err(throttled()), Err(throttled())]);
    let e = c.call(&read()).unwrap_err();
    assert_eq!(e.kind(), ErrorKind::RateLimited);
    assert!(!c.base.is_starved());
    assert_eq!(c.info(), Capability::all());
}

#[test]
fn duplicate_keeps_kind_mark_and_message() {
    let e = Error::new(ErrorKind::Unexpected, "reset").into_transient();
    let d = e.duplicate();
    assert_eq!(d.kind(), ErrorKind::Unexpected);
    assert_eq!(d.message(), "reset");
    assert!(d.is_retryable());
    assert!(!Error::new(ErrorKind::Unexpected, "reset").duplicate().is_retryable());
}
