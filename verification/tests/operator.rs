use opstore::accessor::{Accessor, Page, Request, RequestView, Response, ResponseView};
use opstore::capability::{Capability, Operation};
use opstore::error::{Error, ErrorKind, ErrorView};
use opstore::file::{FileMode, Whence};
use opstore::layer::{Event, Layer, Layered, Phase};
use opstore::lister::ListerState;
use opstore::memory::MemoryBackend;
use opstore::metadata::{Entry, EntryMode, Metadata};
use opstore::operator::{Operator, check_request, prepare_request, shape_reply};
use opstore::options::{ReadOptions, WriteOptions};
use opstore::path::normalize_path;
use opstore::throttle::Throttled;

/// An in-memory backend that counts its calls and fails on request.
struct Mock {
    cap: Capability,
    files: Vec<(Vec<u8>, Vec<u8>)>,
    calls: u64,
    seen: Vec<Operation>,
    /// Each call takes the first of these, if there is one, and fails with it.
    faults: Vec<Error>,
    page_size: usize,
    /// Replies to every stat as to a directory of length zero.
    all_dirs: bool,
    /// Replies to every call with `Done`.
    always_done: bool,
    /// Replies to the first page of a listing with an empty page and a token.
    stall: bool,
}

impl Mock {
    fn new(cap: Capability) -> Mock {
        Mock {
            cap,
            files: Vec::new(),
            calls: 0,
            seen: Vec::new(),
            faults: Vec::new(),
            page_size: 2,
            all_dirs: false,
            always_done: false,
            stall: false,
        }
    }

    fn find(&self, path: &[u8]) -> Option<usize> {
        self.files.iter().position(|f| f.0 == path)
    }

    fn missing() -> Error {
        Error::new(ErrorKind::NotFound, "no such entry")
    }
}

impl Accessor for Mock {
    // The model serves proofs only; nothing that runs asks for it.
    type Model = ();

    fn model(&self) {
        unreachable!()
    }

    fn declared(_m: ()) -> Capability {
        unreachable!()
    }

    fn reply(_m: (), _req: RequestView) -> Result<ResponseView, ErrorView> {
        unreachable!()
    }

    fn after(_m: (), _req: RequestView) {
        unreachable!()
    }

    fn capability_is_fixed(_m: (), _req: RequestView) {
        unreachable!()
    }

    fn info(&self) -> Capability {
        self.cap
    }

    fn call(&mut self, req: &Request) -> Result<Response, Error> {
        self.calls += 1;
        self.seen.push(req.op);
        if !self.faults.is_empty() {
            return Err(self.faults.remove(0));
        }
        if self.always_done {
            return Ok(Response::Done);
        }
        match req.op {
            Operation::Read => match self.find(&req.path) {
                Some(i) => Ok(Response::Bytes(self.files[i].1.clone())),
                None => Err(Mock::missing()),
            },
            Operation::ReadRange => match self.find(&req.path) {
                Some(i) => {
                    let data = &self.files[i].1;
                    let (start, end) = req.range.unwrap();
                    let start = (start as usize).min(data.len());
                    let end = (end as usize).min(data.len());
                    Ok(Response::Bytes(data[start..end].to_vec()))
                }
                None => Err(Mock::missing()),
            },
            Operation::Write => {
                let len = req.data.len() as u64;
                match self.find(&req.path) {
                    Some(i) => self.files[i].1 = req.data.clone(),
                    None => self.files.push((req.path.clone(), req.data.clone())),
                }
                Ok(Response::Meta(Metadata::new(EntryMode::File, Some(len))))
            }
            Operation::Append => {
                let i = match self.find(&req.path) {
                    Some(i) => i,
                    None => {
                        self.files.push((req.path.clone(), Vec::new()));
                        self.files.len() - 1
                    }
                };
                self.files[i].1.extend_from_slice(&req.data);
                let len = self.files[i].1.len() as u64;
                Ok(Response::Meta(Metadata::new(EntryMode::File, Some(len))))
            }
            Operation::Stat => {
                if self.all_dirs {
                    return Ok(Response::Meta(Metadata::new(EntryMode::Dir, Some(0))));
                }
                match self.find(&req.path) {
                    Some(i) => Ok(Response::Meta(Metadata::new(
                        EntryMode::File,
                        Some(self.files[i].1.len() as u64),
                    ))),
                    None => Err(Mock::missing()),
                }
            }
            Operation::Delete => match self.find(&req.path) {
                Some(i) => {
                    self.files.remove(i);
                    Ok(Response::Done)
                }
                None => Err(Mock::missing()),
            },
            Operation::Rename => match self.find(&req.path) {
                Some(i) => {
                    self.files[i].0 = req.target.clone();
                    Ok(Response::Done)
                }
                None => Err(Mock::missing()),
            },
            Operation::Copy => match self.find(&req.path) {
                Some(i) => {
                    if self.find(&req.target).is_some() {
                        return Err(Error::new(ErrorKind::AlreadyExists, "target exists"));
                    }
                    let data = self.files[i].1.clone();
                    self.files.push((req.target.clone(), data));
                    Ok(Response::Done)
                }
                None => Err(Mock::missing()),
            },
            Operation::List => {
                if self.stall {
                    return Ok(Response::Page(Page { entries: Vec::new(), next: Some(1) }));
                }
                let start = req.token.unwrap_or(0) as usize * self.page_size;
                let end = (start + self.page_size).min(self.files.len());
                let mut entries = Vec::new();
                for f in &self.files[start.min(end)..end] {
                    let kind = if f.0.ends_with(b"/") { EntryMode::Dir } else { EntryMode::File };
                    entries.push(Entry {
                        path: f.0.clone(),
                        metadata: Metadata::new(kind, Some(f.1.len() as u64)),
                    });
                }
                let next = if end < self.files.len() {
                    Some(req.token.unwrap_or(0) + 1)
                } else {
                    None
                };
                Ok(Response::Page(Page { entries, next }))
            }
        }
    }
}

fn cap_rw() -> Capability {
    let mut c = Capability::none();
    c.read = true;
    c.write = true;
    c
}

fn throttled() -> Error {
    Error::new(ErrorKind::RateLimited, "slow down")
}

fn kind_of<T>(r: Result<T, Error>) -> ErrorKind {
    match r {
        Ok(_) => panic!("expected a failure"),
        Err(e) => e.kind(),
    }
}

fn calls(op: &Operator<Mock>) -> u64 {
    op.accessor().base.calls
}

#[test]
fn example_write_read_without_list() {
    let mut op = Operator::new(Mock::new(cap_rw()));
    assert_eq!(kind_of(op.list(b"/")), ErrorKind::Unsupported);
    assert_eq!(calls(&op), 0);
    let meta = op.write(b"/a.txt", b"hi".to_vec()).unwrap();
    assert_eq!(meta.content_length(), Some(2));
    assert_eq!(op.read(b"/a.txt").unwrap(), b"hi".to_vec());
    assert_eq!(calls(&op), 2);
}

#[test]
fn round_trip_returns_what_was_written() {
    let mut op = Operator::new(Mock::new(Capability::all()))
        .layer(Layer::Retry { attempts: 2, non_idempotent: false })
        .layer(Layer::Trace(9));
    let data: Vec<u8> = vec![0, 255, 47, 46, 10];
    op.write(b"dir//blob.bin", data.clone()).unwrap();
    assert_eq!(op.read(b"/dir/./blob.bin").unwrap(), data);
    assert_eq!(op.accessor().base.files[0].0, b"/dir/blob.bin".to_vec());
}

#[test]
fn undeclared_operations_do_not_reach_the_backend() {
    let mut op = Operator::new(Mock::new(Capability::none())).layer(Layer::Trace(1));
    assert_eq!(kind_of(op.read(b"/x")), ErrorKind::Unsupported);
    assert_eq!(kind_of(op.write(b"/x", vec![1])), ErrorKind::Unsupported);
    assert_eq!(kind_of(op.stat(b"/x")), ErrorKind::Unsupported);
    assert_eq!(kind_of(op.delete(b"/x")), ErrorKind::Unsupported);
    assert_eq!(kind_of(op.rename(b"/x", b"/y")), ErrorKind::Unsupported);
    assert_eq!(kind_of(op.copy(b"/x", b"/y")), ErrorKind::Unsupported);
    assert_eq!(kind_of(op.list(b"/")), ErrorKind::Unsupported);
    assert_eq!(kind_of(op.open(b"/x", FileMode::Write, 4)), ErrorKind::Unsupported);
    assert_eq!(calls(&op), 0);
    assert!(op.accessor().trace().is_empty());
}

#[test]
fn escaping_path_is_rejected_before_the_capability_check() {
    let mut op = Operator::new(Mock::new(Capability::none()));
    let e = op.read(b"/../x").unwrap_err();
    assert_eq!(e.kind(), ErrorKind::InvalidInput);
    assert_eq!(e.message(), "path leaves the root");
    assert_eq!(kind_of(op.rename(b"/a", b"b/../../c")), ErrorKind::InvalidInput);
    assert_eq!(calls(&op), 0);
}

#[test]
fn layer_order_is_observable() {
    let a = Layer::Trace(1);
    let b = Layer::Trace(2);
    let mut layered = b.wrap(a.wrap(Layered::new(Mock::new(Capability::all()))));
    let r = layered.call(&Request::simple(Operation::Stat, b"/none".to_vec()));
    assert_eq!(kind_of(r), ErrorKind::NotFound);
    let expected = vec![
        Event { layer: 2, phase: Phase::Enter },
        Event { layer: 1, phase: Phase::Enter },
        Event { layer: 1, phase: Phase::Leave },
        Event { layer: 2, phase: Phase::Leave },
    ];
    assert_eq!(layered.trace(), &expected);
    assert_eq!(layered.base.calls, 1);
}

#[test]
fn retry_succeeds_on_the_third_attempt() {
    let mut mock = Mock::new(Capability::all());
    mock.files.push((b"/k".to_vec(), b"v".to_vec()));
    mock.faults = vec![throttled(), throttled()];
    let mut op = Operator::new(mock).layer(Layer::Retry { attempts: 3, non_idempotent: false });
    assert_eq!(op.read(b"/k").unwrap(), b"v".to_vec());
    assert_eq!(calls(&op), 3);
}

#[test]
fn retry_gives_up_after_its_attempts() {
    let mut mock = Mock::new(Capability::all());
    mock.faults = vec![throttled(), throttled(), throttled(), throttled()];
    let mut op = Operator::new(mock).layer(Layer::Retry { attempts: 3, non_idempotent: false });
    assert_eq!(kind_of(op.stat(b"/k")), ErrorKind::RateLimited);
    assert_eq!(calls(&op), 3);
}

#[test]
fn retry_repeats_only_what_may_be_cured() {
    let mut mock = Mock::new(Capability::all());
    mock.faults = vec![Error::new(ErrorKind::PermissionDenied, "no"), throttled()];
    let mut op = Operator::new(mock).layer(Layer::Retry { attempts: 5, non_idempotent: false });
    assert_eq!(kind_of(op.stat(b"/k")), ErrorKind::PermissionDenied);
    assert_eq!(calls(&op), 1);

    let mut mock = Mock::new(Capability::all());
    mock.faults = vec![
        Error::new(ErrorKind::Unexpected, "reset").into_transient(),
        Error::new(ErrorKind::Unexpected, "broken"),
        throttled(),
    ];
    let mut op = Operator::new(mock).layer(Layer::Retry { attempts: 5, non_idempotent: false });
    let e = op.stat(b"/k").unwrap_err();
    assert_eq!(e.kind(), ErrorKind::Unexpected);
    assert_eq!(e.message(), "broken");
    assert_eq!(calls(&op), 2);
}

#[test]
fn retry_spares_operations_that_are_not_idempotent() {
    let mut mock = Mock::new(Capability::all());
    mock.faults = vec![throttled()];
    let mut op = Operator::new(mock).layer(Layer::Retry { attempts: 3, non_idempotent: false });
    let r = op.write_with(b"/log", vec![1], WriteOptions::new().with_append(true));
    assert_eq!(kind_of(r), ErrorKind::RateLimited);
    assert_eq!(calls(&op), 1);

    let mut mock = Mock::new(Capability::all());
    mock.faults = vec![throttled()];
    let mut op = Operator::new(mock).layer(Layer::Retry { attempts: 3, non_idempotent: true });
    let r = op.write_with(b"/log", vec![1], WriteOptions::new().with_append(true));
    assert_eq!(r.unwrap().content_length(), Some(1));
    assert_eq!(calls(&op), 2);
}

#[test]
fn inner_layers_are_passed_again_on_each_retry() {
    let mut mock = Mock::new(Capability::all());
    mock.files.push((b"/k".to_vec(), b"v".to_vec()));
    mock.faults = vec![throttled()];
    let mut op = Operator::new(mock)
        .layer(Layer::Trace(1))
        .layer(Layer::Retry { attempts: 2, non_idempotent: false })
        .layer(Layer::Trace(2));
    op.read(b"/k").unwrap();
    let expected = vec![
        Event { layer: 2, phase: Phase::Enter },
        Event { layer: 1, phase: Phase::Enter },
        Event { layer: 1, phase: Phase::Leave },
        Event { layer: 1, phase: Phase::Enter },
        Event { layer: 1, phase: Phase::Leave },
        Event { layer: 2, phase: Phase::Leave },
    ];
    assert_eq!(op.accessor().trace(), &expected);
}

#[test]
fn restricting_layer_narrows_the_capability() {
    let mut read_only = Capability::all();
    read_only.write = false;
    read_only.list_max_page = Some(10);
    let mut base = Capability::all();
    base.list_max_page = Some(100);
    base.write_max_size = Some(7);
    let mut mock = Mock::new(base);
    mock.files.push((b"/k".to_vec(), b"v".to_vec()));
    let mut op = Operator::new(mock).layer(Layer::Restrict(read_only));
    let cap = op.info();
    assert!(cap.supports(Operation::Read));
    assert!(!cap.supports(Operation::Write));
    assert!(!cap.supports(Operation::Append));
    assert_eq!(cap.limit(Operation::List), Some(10));
    assert_eq!(cap.limit(Operation::Write), Some(7));
    assert_eq!(cap.limit(Operation::Read), None);
    assert_eq!(kind_of(op.write(b"/k", vec![1])), ErrorKind::Unsupported);
    assert_eq!(calls(&op), 0);
    assert_eq!(op.read(b"/k").unwrap(), b"v".to_vec());
}

#[test]
fn restricting_layer_turns_away_direct_calls() {
    let mut read_only = Capability::all();
    read_only.delete = false;
    let mut layered = Layer::Restrict(read_only).wrap(Layered::new(Mock::new(Capability::all())));
    let e = layered.call(&Request::simple(Operation::Delete, b"/k".to_vec())).unwrap_err();
    assert_eq!(e.kind(), ErrorKind::Unsupported);
    assert_eq!(e.message(), "operation is not supported by the accessor");
    assert_eq!(layered.base.calls, 0);
}

#[test]
fn capability_answers_by_operation() {
    let none = Capability::none();
    let all = Capability::all();
    let ops = [
        Operation::Read,
        Operation::ReadRange,
        Operation::Write,
        Operation::Append,
        Operation::Stat,
        Operation::Delete,
        Operation::List,
        Operation::Rename,
        Operation::Copy,
    ];
    for op in ops {
        assert!(!none.supports(op));
        assert!(all.supports(op));
        assert_eq!(all.limit(op), None);
        assert!(!all.restrict(&none).supports(op));
    }
    let mut c = Capability::none();
    c.read_range = true;
    assert!(!c.supports(Operation::ReadRange));
    c.read = true;
    assert!(c.supports(Operation::ReadRange));
    let mut a = Capability::all();
    a.write_max_size = Some(5);
    let mut b = Capability::all();
    b.write_max_size = Some(3);
    assert_eq!(a.restrict(&b).limit(Operation::Append), Some(3));
    assert_eq!(b.restrict(&a).limit(Operation::Write), Some(3));
    assert_eq!(a.restrict(&all).limit(Operation::Write), Some(5));
    assert_eq!(all.restrict(&a), a);
}

#[test]
fn paths_are_brought_into_normal_form() {
    assert_eq!(normalize_path(b"/a//b/./c/../d").unwrap(), b"/a/b/d".to_vec());
    assert_eq!(normalize_path(b"a/b/").unwrap(), b"/a/b/".to_vec());
    assert_eq!(normalize_path(b"").unwrap(), b"/".to_vec());
    assert_eq!(normalize_path(b"/").unwrap(), b"/".to_vec());
    assert_eq!(normalize_path(b"///").unwrap(), b"/".to_vec());
    assert_eq!(normalize_path(b"a/..").unwrap(), b"/".to_vec());
    assert_eq!(normalize_path(b"a/b/..").unwrap(), b"/a".to_vec());
    assert_eq!(normalize_path(b"...").unwrap(), b"/...".to_vec());
    assert_eq!(normalize_path(b"/a.txt").unwrap(), b"/a.txt".to_vec());
    assert_eq!(kind_of(normalize_path(b"..")), ErrorKind::InvalidInput);
    assert_eq!(kind_of(normalize_path(b"/a/../../b")), ErrorKind::InvalidInput);
    assert_eq!(kind_of(normalize_path(b"../a/")), ErrorKind::InvalidInput);
}

#[test]
fn ranged_read_needs_the_capability_and_a_sound_range() {
    let mut mock = Mock::new(cap_rw());
    mock.files.push((b"/k".to_vec(), b"0123456789".to_vec()));
    let mut op = Operator::new(mock);
    let r = op.read_with(b"/k", ReadOptions::new().with_range(2, 5));
    assert_eq!(kind_of(r), ErrorKind::Unsupported);
    assert_eq!(calls(&op), 0);

    let mut mock = Mock::new(Capability::all());
    mock.files.push((b"/k".to_vec(), b"0123456789".to_vec()));
    let mut op = Operator::new(mock);
    let e = op.read_with(b"/k", ReadOptions::new().with_range(5, 2)).unwrap_err();
    assert_eq!(e.kind(), ErrorKind::InvalidInput);
    assert_eq!(e.message(), "range ends before it starts");
    assert_eq!(calls(&op), 0);
    assert!(!ReadOptions::new().with_range(5, 2).is_valid());
    assert!(ReadOptions::new().with_range(5, 5).is_valid());
    assert!(ReadOptions::new().is_valid());
    assert_eq!(op.read_with(b"/k", ReadOptions::new().with_range(2, 5)).unwrap(), b"234".to_vec());
    assert_eq!(op.read_with(b"/k", ReadOptions::new()).unwrap(), b"0123456789".to_vec());
    assert_eq!(op.accessor().base.seen, vec![Operation::ReadRange, Operation::Read]);
}

#[test]
fn directory_has_no_length() {
    let mut mock = Mock::new(Capability::all());
    mock.all_dirs = true;
    let mut op = Operator::new(mock);
    let m = op.stat(b"/dir/").unwrap();
    assert!(m.is_dir());
    assert_eq!(m.kind(), EntryMode::Dir);
    assert_eq!(m.content_length(), None);
    let f = Metadata::new(EntryMode::File, Some(0)).normalize();
    assert_eq!(f.content_length(), Some(0));
    let u = Metadata::new(EntryMode::Unknown, None).normalize();
    assert_eq!(u.content_length(), None);
}

#[test]
fn reply_of_the_wrong_kind_is_unexpected() {
    let mut mock = Mock::new(Capability::all());
    mock.always_done = true;
    let mut op = Operator::new(mock);
    let e = op.read(b"/k").unwrap_err();
    assert_eq!(e.kind(), ErrorKind::Unexpected);
    assert_eq!(e.message(), "accessor replied with the wrong kind of value");
    assert_eq!(kind_of(op.stat(b"/k")), ErrorKind::Unexpected);
    assert!(op.delete(b"/k").is_ok());
    assert_eq!(calls(&op), 3);
}

#[test]
fn stat_delete_rename_copy_reach_the_backend() {
    let mut mock = Mock::new(Capability::all());
    mock.files.push((b"/a".to_vec(), b"xyz".to_vec()));
    let mut op = Operator::new(mock);
    assert_eq!(op.stat(b"a").unwrap().content_length(), Some(3));
    op.copy(b"/a", b"/b").unwrap();
    assert_eq!(kind_of(op.copy(b"/a", b"//b")), ErrorKind::AlreadyExists);
    op.rename(b"/a", b"/c/./d").unwrap();
    assert_eq!(kind_of(op.stat(b"/a")), ErrorKind::NotFound);
    assert_eq!(op.read(b"/c/d").unwrap(), b"xyz".to_vec());
    op.delete(b"/b").unwrap();
    assert_eq!(kind_of(op.delete(b"/b")), ErrorKind::NotFound);
    let cap = op.info();
    assert_eq!(cap, Capability::all());
    let layered = op.into_inner();
    assert_eq!(layered.base.files.len(), 1);
}

#[test]
fn backend_failures_keep_their_kind() {
    let kinds = [
        ErrorKind::NotFound,
        ErrorKind::AlreadyExists,
        ErrorKind::PermissionDenied,
        ErrorKind::InvalidInput,
        ErrorKind::Unsupported,
        ErrorKind::RateLimited,
        ErrorKind::Conflict,
        ErrorKind::Closed,
        ErrorKind::InvalidState,
        ErrorKind::IsADirectory,
        ErrorKind::NotADirectory,
        ErrorKind::Unexpected,
    ];
    for kind in kinds {
        let mut mock = Mock::new(Capability::all());
        mock.faults = vec![Error::new(kind, "from the backend")];
        let mut op = Operator::new(mock).layer(Layer::Trace(1));
        let e = op.read(b"/k").unwrap_err();
        assert_eq!(e.kind(), kind);
        assert_eq!(e.message(), "from the backend");
        assert_eq!(e.is_retryable(), kind == ErrorKind::RateLimited);
    }
    let e = Error::new(ErrorKind::Unexpected, "x");
    assert!(!e.is_retryable());
    assert!(e.into_transient().is_retryable());
    assert!(!Error::new(ErrorKind::NotFound, "x").into_transient().is_retryable());
}

fn listing_backend(n: u8) -> Mock {
    let mut mock = Mock::new(Capability::all());
    for i in 0..n {
        mock.files.push((vec![b'/', b'a' + i], vec![0; i as usize]));
    }
    mock
}

#[test]
fn lister_yields_every_entry_once_and_then_the_end() {
    let mut op = Operator::new(listing_backend(5));
    let mut lister = op.list(b"/").unwrap();
    assert_eq!(lister.state, ListerState::Created);
    assert_eq!(calls(&op), 0);
    let mut seen: Vec<Vec<u8>> = Vec::new();
    while let Some(e) = lister.next(&mut op).unwrap() {
        assert_eq!(lister.state, ListerState::Yielding);
        assert_eq!(e.metadata.content_length(), Some(seen.len() as u64));
        assert!(!seen.contains(&e.path));
        seen.push(e.path);
    }
    let expected: Vec<Vec<u8>> =
        vec![b"/a".to_vec(), b"/b".to_vec(), b"/c".to_vec(), b"/d".to_vec(), b"/e".to_vec()];
    assert_eq!(seen, expected);
    assert_eq!(calls(&op), 3);
    assert!(lister.is_closed());
    for _ in 0..4 {
        assert!(lister.next(&mut op).unwrap().is_none());
    }
    assert_eq!(calls(&op), 3);
}

#[test]
fn lister_ends_on_a_full_last_page() {
    let mut op = Operator::new(listing_backend(2));
    let mut lister = op.list(b"/").unwrap();
    assert_eq!(lister.next(&mut op).unwrap().unwrap().path, b"/a".to_vec());
    assert_eq!(lister.next(&mut op).unwrap().unwrap().path, b"/b".to_vec());
    assert!(lister.next(&mut op).unwrap().is_none());
    assert_eq!(calls(&op), 1);

    let mut op = Operator::new(listing_backend(0));
    let mut lister = op.list(b"/").unwrap();
    assert!(lister.next(&mut op).unwrap().is_none());
    assert!(lister.is_closed());
    assert_eq!(calls(&op), 1);
}

#[test]
fn lister_closes_on_a_failure_and_keeps_what_it_gave() {
    let mut op = Operator::new(listing_backend(3));
    let mut lister = op.list(b"/").unwrap();
    let first = lister.next(&mut op).unwrap().unwrap();
    let second = lister.next(&mut op).unwrap().unwrap();
    let mut layered = op.into_inner();
    layered.base.faults = vec![Error::new(ErrorKind::PermissionDenied, "revoked")];
    let mut op = Operator { accessor: layered };
    assert_eq!(kind_of(lister.next(&mut op)), ErrorKind::PermissionDenied);
    assert!(lister.is_closed());
    assert!(lister.next(&mut op).unwrap().is_none());
    assert_eq!(first.path, b"/a".to_vec());
    assert_eq!(second.path, b"/b".to_vec());
    assert_eq!(calls(&op), 2);
}

#[test]
fn lister_can_be_abandoned() {
    let mut op = Operator::new(listing_backend(3));
    let mut lister = op.list(b"/").unwrap();
    lister.next(&mut op).unwrap().unwrap();
    lister.close();
    assert!(lister.is_closed());
    assert!(lister.next(&mut op).unwrap().is_none());
    lister.close();
    assert!(lister.next(&mut op).unwrap().is_none());
    assert_eq!(calls(&op), 1);
}

#[test]
fn lister_refuses_an_empty_page_that_is_not_the_last() {
    let mut mock = listing_backend(3);
    mock.stall = true;
    let mut op = Operator::new(mock);
    let mut lister = op.list(b"/").unwrap();
    let e = lister.next(&mut op).unwrap_err();
    assert_eq!(e.kind(), ErrorKind::Unexpected);
    assert_eq!(e.message(), "accessor sent an empty page that is not the last");
    assert!(lister.is_closed());
}

#[test]
fn closing_twice_succeeds_and_writing_after_close_fails() {
    let mut op = Operator::new(Mock::new(Capability::all()));
    let mut f = op.open(b"/out", FileMode::Write, 1024).unwrap();
    assert_eq!(f.write(&mut op, b"abc").unwrap(), 3);
    assert_eq!(calls(&op), 0);
    f.close(&mut op).unwrap();
    assert!(f.is_closed());
    assert_eq!(calls(&op), 1);
    f.close(&mut op).unwrap();
    assert_eq!(calls(&op), 1);
    let e = f.write(&mut op, b"d").unwrap_err();
    assert_eq!(e.kind(), ErrorKind::Closed);
    assert_eq!(e.message(), "file handle is closed");
    assert_eq!(kind_of(f.flush(&mut op)), ErrorKind::Closed);
    assert_eq!(kind_of(f.seek(&mut op, 0, Whence::Start)), ErrorKind::Closed);
    assert_eq!(kind_of(f.read(&mut op, 1)), ErrorKind::Closed);
    assert_eq!(op.read(b"/out").unwrap(), b"abc".to_vec());
}

#[test]
fn writes_are_buffered_up_to_the_threshold() {
    let mut op = Operator::new(Mock::new(Capability::all()));
    let mut f = op.open(b"/out", FileMode::Write, 4).unwrap();
    assert_eq!(f.write(&mut op, b"ab").unwrap(), 2);
    assert_eq!(f.buffered(), 2);
    assert_eq!(calls(&op), 0);
    assert_eq!(f.write(&mut op, b"cd").unwrap(), 2);
    assert_eq!(f.buffered(), 0);
    assert_eq!(f.offset(), 4);
    assert_eq!(f.write(&mut op, b"efghi").unwrap(), 5);
    assert_eq!(f.write(&mut op, b"j").unwrap(), 1);
    assert_eq!(f.buffered(), 1);
    f.flush(&mut op).unwrap();
    f.flush(&mut op).unwrap();
    assert_eq!(f.buffered(), 0);
    assert_eq!(f.offset(), 10);
    assert_eq!(
        op.accessor().base.seen,
        vec![Operation::Write, Operation::Append, Operation::Append]
    );
    assert_eq!(op.read(b"/out").unwrap(), b"abcdefghij".to_vec());
    assert_eq!(kind_of(f.read(&mut op, 1)), ErrorKind::InvalidState);
}

#[test]
fn failed_flush_keeps_the_buffer() {
    let mut mock = Mock::new(Capability::all());
    mock.faults = vec![throttled()];
    let mut op = Operator::new(mock);
    let mut f = op.open(b"/out", FileMode::Write, 2).unwrap();
    assert_eq!(kind_of(f.write(&mut op, b"abc")), ErrorKind::RateLimited);
    assert_eq!(f.buffered(), 3);
    assert_eq!(f.offset(), 3);
    f.close(&mut op).unwrap();
    assert_eq!(op.read(b"/out").unwrap(), b"abc".to_vec());

    let mut mock = Mock::new(Capability::all());
    mock.faults = vec![throttled()];
    let mut op = Operator::new(mock);
    let mut f = op.open(b"/out", FileMode::Write, 100).unwrap();
    f.write(&mut op, b"abc").unwrap();
    assert_eq!(kind_of(f.close(&mut op)), ErrorKind::RateLimited);
    assert!(!f.is_closed());
    assert_eq!(f.buffered(), 3);
}

#[test]
fn seek_with_unflushed_writes_is_an_invalid_state() {
    let mut op = Operator::new(Mock::new(Capability::all()));
    let mut f = op.open(b"/out", FileMode::Write, 100).unwrap();
    f.write(&mut op, b"abc").unwrap();
    let e = f.seek(&mut op, 0, Whence::Start).unwrap_err();
    assert_eq!(e.kind(), ErrorKind::InvalidState);
    assert_eq!(e.message(), "seek with unflushed writes");
    assert_eq!(f.offset(), 3);
    f.flush(&mut op).unwrap();
    assert_eq!(f.seek(&mut op, 1, Whence::Start).unwrap(), 1);
}

#[test]
fn reading_handle_reads_and_seeks() {
    let mut mock = Mock::new(Capability::all());
    mock.files.push((b"/in".to_vec(), b"0123456789".to_vec()));
    let mut op = Operator::new(mock);
    let mut f = op.open(b"in", FileMode::Read, 0).unwrap();
    assert_eq!(f.read(&mut op, 4).unwrap(), b"0123".to_vec());
    assert_eq!(f.offset(), 4);
    assert_eq!(f.read(&mut op, 4).unwrap(), b"4567".to_vec());
    assert_eq!(f.read(&mut op, 4).unwrap(), b"89".to_vec());
    assert_eq!(f.offset(), 10);
    assert_eq!(f.read(&mut op, 4).unwrap(), Vec::<u8>::new());
    assert_eq!(f.seek(&mut op, 3, Whence::Start).unwrap(), 3);
    assert_eq!(f.seek(&mut op, -2, Whence::Current).unwrap(), 1);
    assert_eq!(f.seek(&mut op, 5, Whence::Current).unwrap(), 6);
    assert_eq!(f.read(&mut op, 2).unwrap(), b"67".to_vec());
    let before = calls(&op);
    assert_eq!(f.seek(&mut op, -3, Whence::End).unwrap(), 7);
    assert_eq!(calls(&op), before + 1);
    assert_eq!(f.read(&mut op, 100).unwrap(), b"789".to_vec());
    let e = f.seek(&mut op, -1, Whence::Start).unwrap_err();
    assert_eq!(e.kind(), ErrorKind::InvalidInput);
    assert_eq!(e.message(), "offset is out of bounds");
    assert_eq!(kind_of(f.seek(&mut op, i64::MIN, Whence::Current)), ErrorKind::InvalidInput);
    assert_eq!(f.seek(&mut op, i64::MAX, Whence::Start).unwrap(), i64::MAX as u64);
    assert_eq!(f.seek(&mut op, i64::MAX, Whence::Current).unwrap(), u64::MAX - 1);
    assert_eq!(f.seek(&mut op, 1, Whence::Current).unwrap(), u64::MAX);
    assert_eq!(kind_of(f.seek(&mut op, 1, Whence::Current)), ErrorKind::InvalidInput);
    assert_eq!(f.offset(), u64::MAX);
    assert_eq!(kind_of(f.read(&mut op, 1)), ErrorKind::InvalidInput);
    assert_eq!(kind_of(f.read(&mut op, u64::MAX)), ErrorKind::InvalidInput);
    assert_eq!(f.seek(&mut op, 0, Whence::Start).unwrap(), 0);
    assert_eq!(f.read(&mut op, u64::MAX).unwrap(), b"0123456789".to_vec());
    assert_eq!(kind_of(f.write(&mut op, b"x")), ErrorKind::InvalidState);
    f.close(&mut op).unwrap();
    f.close(&mut op).unwrap();
    assert!(f.is_closed());
}

#[test]
fn seek_from_the_end_needs_a_known_size() {
    let mut mock = Mock::new(Capability::all());
    mock.all_dirs = true;
    let mut op = Operator::new(mock);
    let mut f = op.open(b"/dir/", FileMode::Read, 0).unwrap();
    let e = f.seek(&mut op, 0, Whence::End).unwrap_err();
    assert_eq!(e.kind(), ErrorKind::Unsupported);
    assert_eq!(e.message(), "size of the entry is not known");
    assert_eq!(kind_of(op.open(b"/../x", FileMode::Read, 0)), ErrorKind::InvalidInput);
}

#[test]
fn memory_backend_keeps_what_is_written() {
    let mut op = Operator::new(MemoryBackend::new())
        .layer(Layer::Retry { attempts: 3, non_idempotent: false })
        .layer(Layer::Trace(1));
    assert_eq!(kind_of(op.read(b"/a")), ErrorKind::NotFound);
    assert_eq!(op.write(b"/a", b"one".to_vec()).unwrap().content_length(), Some(3));
    assert_eq!(op.write(b"/b", b"".to_vec()).unwrap().content_length(), Some(0));
    assert_eq!(op.read(b"a").unwrap(), b"one".to_vec());
    assert_eq!(op.write(b"//a", b"three".to_vec()).unwrap().content_length(), Some(5));
    assert_eq!(op.read(b"/a").unwrap(), b"three".to_vec());
    assert_eq!(op.read(b"/b").unwrap(), Vec::<u8>::new());
    assert_eq!(op.accessor().base.len(), 2);
    let m = op.stat(b"/a").unwrap();
    assert_eq!(m.kind(), EntryMode::File);
    assert_eq!(m.content_length(), Some(5));
    op.delete(b"/a").unwrap();
    let e = op.stat(b"/a").unwrap_err();
    assert_eq!(e.kind(), ErrorKind::NotFound);
    assert_eq!(e.message(), "no entry at this path");
    assert_eq!(kind_of(op.delete(b"/a")), ErrorKind::NotFound);
    assert_eq!(op.accessor().base.len(), 1);
    assert_eq!(op.read(b"/b").unwrap(), Vec::<u8>::new());
}

#[test]
fn memory_backend_declares_what_it_does() {
    let mut op = Operator::new(MemoryBackend::new());
    let cap = op.info();
    assert!(cap.supports(Operation::Read));
    assert!(cap.supports(Operation::Write));
    assert!(cap.supports(Operation::Stat));
    assert!(cap.supports(Operation::Delete));
    assert!(!cap.supports(Operation::ReadRange));
    assert!(!cap.supports(Operation::Append));
    assert!(!cap.supports(Operation::List));
    assert!(!cap.supports(Operation::Rename));
    assert!(!cap.supports(Operation::Copy));
    assert_eq!(kind_of(op.list(b"/")), ErrorKind::Unsupported);
    assert_eq!(kind_of(op.rename(b"/a", b"/b")), ErrorKind::Unsupported);
    let mut bare = MemoryBackend::new();
    let r = bare.call(&Request::simple(Operation::List, b"/".to_vec()));
    assert_eq!(kind_of(r), ErrorKind::Unsupported);
    assert_eq!(bare.info(), cap);
}

#[test]
fn lister_hands_out_normalized_descriptions() {
    let mut mock = Mock::new(Capability::all());
    mock.files.push((b"/dir/".to_vec(), Vec::new()));
    mock.files.push((b"/dir/file".to_vec(), Vec::new()));
    let mut op = Operator::new(mock).layer(Layer::Trace(4));
    let mut lister = op.list(b"dir/").unwrap();
    assert_eq!(lister.path, b"/dir/".to_vec());
    let dir = lister.next(&mut op).unwrap().unwrap();
    assert_eq!(dir.path, b"/dir/".to_vec());
    assert_eq!(dir.metadata.kind(), EntryMode::Dir);
    assert_eq!(dir.metadata.content_length(), None);
    let file = lister.next(&mut op).unwrap().unwrap();
    assert_eq!(file.metadata.kind(), EntryMode::File);
    assert_eq!(file.metadata.content_length(), Some(0));
    assert!(lister.next(&mut op).unwrap().is_none());
    assert_eq!(op.accessor().trace().len(), 2);
}

#[test]
fn empty_bucket_stops_calls_before_the_backend() {
    let mut mock = Mock::new(Capability::all());
    mock.files.push((b"/k".to_vec(), b"v".to_vec()));
    let mut op = Operator::new(Throttled::new(mock, 2));
    assert_eq!(op.info(), Capability::all());
    assert_eq!(op.read(b"/k").unwrap(), b"v".to_vec());
    assert_eq!(op.read(b"/k").unwrap(), b"v".to_vec());
    let e = op.read(b"/k").unwrap_err();
    assert_eq!(e.kind(), ErrorKind::RateLimited);
    assert_eq!(e.message(), "no token left for the call");
    assert_eq!(op.accessor().base.inner.calls, 2);
    assert_eq!(op.accessor().base.tokens(), 0);
    let mut layered = op.into_inner();
    layered.base.refill(1);
    let mut op = Operator { accessor: layered };
    assert_eq!(op.read(b"/k").unwrap(), b"v".to_vec());
    assert_eq!(kind_of(op.read(b"/k")), ErrorKind::RateLimited);
    let mut t = op.into_inner().base;
    t.refill(u64::MAX);
    t.refill(5);
    assert_eq!(t.tokens(), u64::MAX);
    assert_eq!(t.into_inner().calls, 3);
}

#[test]
fn retry_above_an_empty_bucket_uses_its_attempts() {
    let mock = Mock::new(Capability::all());
    let mut op = Operator::new(Throttled::new(mock, 0))
        .layer(Layer::Trace(1))
        .layer(Layer::Retry { attempts: 3, non_idempotent: false });
    assert_eq!(kind_of(op.stat(b"/k")), ErrorKind::RateLimited);
    assert_eq!(op.accessor().trace().len(), 6);
    assert_eq!(op.accessor().base.inner.calls, 0);
}

#[test]
fn layered_accessor_can_be_layered_again() {
    let mut mock = Mock::new(Capability::all());
    mock.files.push((b"/k".to_vec(), b"v".to_vec()));
    let inner = Layer::Trace(1).wrap(Layered::new(mock));
    let mut outer = Layer::Trace(2).wrap(Layered::new(inner));
    let r = outer.call(&Request::simple(Operation::Read, b"/k".to_vec()));
    assert!(r.is_ok());
    let two = vec![Event { layer: 2, phase: Phase::Enter }, Event { layer: 2, phase: Phase::Leave }];
    let one = vec![Event { layer: 1, phase: Phase::Enter }, Event { layer: 1, phase: Phase::Leave }];
    assert_eq!(outer.trace(), &two);
    assert_eq!(outer.base.trace(), &one);
    assert_eq!(outer.info(), Capability::all());
}

#[test]
fn second_send_needs_append() {
    let mut op = Operator::new(MemoryBackend::new());
    let mut f = op.open(b"/out", FileMode::Write, 2).unwrap();
    assert_eq!(f.write(&mut op, b"ab").unwrap(), 2);
    assert_eq!(op.read(b"/out").unwrap(), b"ab".to_vec());
    assert_eq!(kind_of(f.write(&mut op, b"cd")), ErrorKind::Unsupported);
    assert_eq!(f.buffered(), 2);
    assert_eq!(kind_of(f.close(&mut op)), ErrorKind::Unsupported);
    assert!(!f.is_closed());
    assert_eq!(op.read(b"/out").unwrap(), b"ab".to_vec());
    assert_eq!(kind_of(op.open(b"/out", FileMode::Read, 0)), ErrorKind::Unsupported);
}

#[test]
fn decisions_are_available_without_an_operator() {
    let req = prepare_request(Operation::Copy, b"a//b", b"c/./d/", vec![7], Some((1, 2)), Some(3))
        .unwrap();
    assert_eq!(req.op, Operation::Copy);
    assert_eq!(req.path, b"/a/b".to_vec());
    assert_eq!(req.target, b"/c/d/".to_vec());
    assert_eq!(req.data, vec![7]);
    assert_eq!(req.range, Some((1, 2)));
    assert_eq!(req.token, Some(3));
    let req = prepare_request(Operation::Read, b"a", b"../raw", Vec::new(), None, None).unwrap();
    assert_eq!(req.target, b"../raw".to_vec());
    let r = prepare_request(Operation::Rename, b"a", b"../raw", Vec::new(), None, None);
    assert_eq!(kind_of(r), ErrorKind::InvalidInput);

    assert!(check_request(&Capability::all(), &req).is_ok());
    assert_eq!(kind_of(check_request(&Capability::none(), &req)), ErrorKind::Unsupported);
    let mut bad = Request::simple(Operation::ReadRange, b"/a".to_vec());
    bad.range = Some((2, 1));
    assert_eq!(kind_of(check_request(&Capability::all(), &bad)), ErrorKind::InvalidInput);
    assert_eq!(kind_of(check_request(&cap_rw(), &bad)), ErrorKind::Unsupported);

    let shaped = shape_reply(Operation::Stat, Ok(Response::Meta(Metadata::new(EntryMode::Dir, Some(9)))));
    match shaped {
        Ok(Response::Meta(m)) => assert_eq!(m.content_length(), None),
        _ => panic!("expected a description"),
    }
    assert_eq!(kind_of(shape_reply(Operation::List, Ok(Response::Done))), ErrorKind::Unexpected);
    assert_eq!(kind_of(shape_reply(Operation::Read, Err(throttled()))), ErrorKind::RateLimited);
    assert!(matches!(shape_reply(Operation::Read, Ok(Response::Bytes(vec![1]))), Ok(Response::Bytes(_))));
}
