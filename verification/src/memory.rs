//! A backend that keeps its entries in memory.
//!
//! It reads, writes, describes and deletes whole entries, and declares no
//! more than that.

use vstd::prelude::*;
use vstd::slice::slice_to_vec;
use crate::accessor::{Accessor, ReplyView, Request, RequestView, Response, ResponseView};
use crate::capability::{Capability, Operation};
use crate::error::{Error, ErrorKind, ErrorView};
use crate::laws::{
    bytes_of,
    keeps_writes,
    lemma_round_trip,
    lemma_success_passes,
    lemma_supported_is_let_through,
    read_of,
    write_of,
};
use crate::layer::{Layered, refusal, refuse};
use crate::operator::{performed, prepared};
use crate::path::normalized;
use crate::metadata::{EntryMode, Metadata, MetadataView};

verus! {

/// Entries held in memory, in the order in which their paths first appeared.
pub struct MemoryBackend {
    pub files: Vec<(Vec<u8>, Vec<u8>)>,
}

/// The entries of a [`MemoryBackend`]: paths and contents.
pub type Files = Seq<(Seq<u8>, Seq<u8>)>;

/// The first place at or behind `from` that holds the path.
pub open spec fn position(files: Files, path: Seq<u8>, from: int) -> Option<int>
    decreases files.len() - from,
{
    if from < 0 || from >= files.len() {
        None
    } else if files[from].0 == path {
        Some(from)
    } else {
        position(files, path, from + 1)
    }
}

/// The failure for a path that holds nothing.
pub open spec fn not_found() -> ErrorView {
    ErrorView { kind: ErrorKind::NotFound, transient: false, message: "no entry at this path"@ }
}

/// What the backend declares: whole reads, whole writes, stat and delete.
pub open spec fn memory_capability() -> Capability {
    Capability {
        read: true,
        read_range: false,
        write: true,
        append: false,
        stat: true,
        delete: true,
        list: false,
        rename: false,
        copy: false,
        write_max_size: None,
        list_max_page: None,
    }
}

/// The reply of a backend that holds `files`.
pub open spec fn memory_reply(files: Files, req: RequestView) -> ReplyView {
    let at = position(files, req.path, 0);
    match req.op {
        Operation::Read => match at {
            Some(i) => Ok(ResponseView::Bytes(files[i].1)),
            None => Err(not_found()),
        },
        Operation::Stat => match at {
            Some(i) => Ok(
                ResponseView::Meta(
                    MetadataView::bare(EntryMode::File, Some(files[i].1.len() as u64)),
                ),
            ),
            None => Err(not_found()),
        },
        Operation::Write => Ok(
            ResponseView::Meta(MetadataView::bare(EntryMode::File, Some(req.data.len() as u64))),
        ),
        Operation::Delete => match at {
            Some(_) => Ok(ResponseView::Done),
            None => Err(not_found()),
        },
        _ => Err(refusal()),
    }
}

/// What a backend that held `files` holds after a request.
pub open spec fn memory_after(files: Files, req: RequestView) -> Files {
    let at = position(files, req.path, 0);
    match req.op {
        Operation::Write => match at {
            Some(i) => files.update(i, (req.path, req.data)),
            None => files.push((req.path, req.data)),
        },
        Operation::Delete => match at {
            Some(i) => files.remove(i),
            None => files,
        },
        _ => files,
    }
}

/// `position` finds the first place that holds the path, and only that.
pub proof fn lemma_position(files: Files, path: Seq<u8>, from: int)
    requires
        0 <= from,
    ensures
        match position(files, path, from) {
            Some(i) => from <= i < files.len() && files[i].0 == path,
            None => true,
        },
        forall|k: int|
            from <= k < files.len() && (position(files, path, from) is None || k < position(
                files,
                path,
                from,
            ).unwrap()) ==> (#[trigger] files[k]).0 != path,
    decreases files.len() - from,
{
    if from < files.len() && files[from].0 != path {
        lemma_position(files, path, from + 1);
    }
}

/// The first place that holds the path is what `position` finds.
pub proof fn lemma_position_is(files: Files, path: Seq<u8>, from: int, i: int)
    requires
        0 <= from <= i < files.len(),
        files[i].0 == path,
        forall|k: int| from <= k < i ==> (#[trigger] files[k]).0 != path,
    ensures
        position(files, path, from) == Some(i),
    decreases i - from,
{
    if from < i {
        lemma_position_is(files, path, from + 1, i);
    }
}

/// The memory backend keeps what is written.
pub proof fn lemma_memory_keeps_writes(path: Seq<u8>, data: Seq<u8>)
    ensures
        keeps_writes::<MemoryBackend>(path, data),
{
    assert forall|m: Files| #[trigger]
        MemoryBackend::reply(m, write_of(path, data)) is Ok implies MemoryBackend::reply(
        MemoryBackend::after(m, write_of(path, data)),
        read_of(path),
    ) == bytes_of(data) by {
        let next = memory_after(m, write_of(path, data));
        lemma_position(m, path, 0);
        match position(m, path, 0) {
            Some(i) => {
                lemma_position_is(next, path, 0, i);
            },
            None => {
                lemma_position_is(next, path, 0, m.len() as int);
            },
        }
    }
}

/// Round trip over the memory backend: under any layers that leave writes
/// and reads supported, the write of a path below the root succeeds, and a
/// read of the same path that follows returns exactly the bytes written.
pub proof fn lemma_memory_round_trip(
    before: Layered<MemoryBackend>,
    between: Layered<MemoryBackend>,
    written: Seq<u8>,
    read: Seq<u8>,
    data: Seq<u8>,
)
    requires
        normalized(written) is Some,
        normalized(read) == normalized(written),
        before.capability().supports_spec(Operation::Write),
        before.capability().supports_spec(Operation::Read),
        between.layers@ == before.layers@,
        between.base.model() == performed(before, write_of(written, data)).base,
    ensures
        performed(before, write_of(written, data)).reply is Ok,
        performed(between, read_of(read)).reply == bytes_of(data),
{
    let path = normalized(written).unwrap();
    let layers = before.layers@;
    assert(prepared(write_of(written, data)) == Ok::<RequestView, ErrorView>(
        write_of(path, data),
    ));
    lemma_supported_is_let_through(layers, memory_capability(), Operation::Write);
    lemma_success_passes::<MemoryBackend>(
        layers,
        layers.len(),
        before.base.model(),
        before.trace@,
        write_of(path, data),
    );
    lemma_memory_keeps_writes(path, data);
    lemma_round_trip::<MemoryBackend>(before, between, written, read, data);
}

fn same_bytes(a: &[u8], b: &[u8]) -> (same: bool)
    ensures
        same == (a@ == b@),
{
    if a.len() != b.len() {
        return false;
    }
    let mut i: usize = 0;
    while i < a.len()
        invariant
            a.len() == b.len(),
            i <= a.len(),
            a@.take(i as int) == b@.take(i as int),
        decreases a.len() - i,
    {
        if a[i] != b[i] {
            return false;
        }
        assert(a@.take(i as int + 1) =~= a@.take(i as int).push(a@[i as int]));
        assert(b@.take(i as int + 1) =~= b@.take(i as int).push(b@[i as int]));
        i += 1;
    }
    assert(a@.take(i as int) =~= a@);
    assert(b@.take(i as int) =~= b@);
    true
}

impl MemoryBackend {
    /// A backend that holds nothing.
    pub fn new() -> (b: MemoryBackend)
        ensures
            b.model() == Seq::<(Seq<u8>, Seq<u8>)>::empty(),
    {
        let b = MemoryBackend { files: Vec::new() };
        assert(b.model() =~= Seq::empty());
        b
    }

    /// How many entries the backend holds.
    pub fn len(&self) -> (n: usize)
        ensures
            n == self.model().len(),
    {
        self.files.len()
    }

    fn find(&self, path: &[u8]) -> (at: Option<usize>)
        ensures
            match at {
                Some(i) => position(self.model(), path@, 0) == Some(i as int) && i
                    < self.files@.len(),
                None => position(self.model(), path@, 0) is None,
            },
    {
        let mut i: usize = 0;
        while i < self.files.len()
            invariant
                i <= self.files.len(),
                position(self.model(), path@, 0) == position(self.model(), path@, i as int),
            decreases self.files.len() - i,
        {
            if same_bytes(self.files[i].0.as_slice(), path) {
                return Some(i);
            }
            i += 1;
        }
        None
    }
}

impl Accessor for MemoryBackend {
    type Model = Files;

    open spec fn model(&self) -> Files {
        Seq::new(self.files@.len(), |i: int| (self.files@[i].0@, self.files@[i].1@))
    }

    open spec fn declared(m: Files) -> Capability {
        memory_capability()
    }

    open spec fn reply(m: Files, req: RequestView) -> ReplyView {
        memory_reply(m, req)
    }

    open spec fn after(m: Files, req: RequestView) -> Files {
        memory_after(m, req)
    }

    proof fn capability_is_fixed(m: Files, req: RequestView) {
    }

    fn info(&self) -> (c: Capability) {
        Capability {
            read: true,
            read_range: false,
            write: true,
            append: false,
            stat: true,
            delete: true,
            list: false,
            rename: false,
            copy: false,
            write_max_size: None,
            list_max_page: None,
        }
    }

    fn call(&mut self, req: &Request) -> (r: Result<Response, Error>) {
        let at = self.find(req.path.as_slice());
        let ghost before = self.model();
        proof {
            match at {
                Some(i) => {
                    assert(position(before, req@.path, 0) == Some(i as int));
                    assert(before[i as int] == (self.files@[i as int].0@, self.files@[i as int].1@));
                },
                None => {
                    assert(position(before, req@.path, 0) is None);
                },
            }
        }
        match req.op {
            Operation::Read => match at {
                Some(i) => Ok(Response::Bytes(slice_to_vec(self.files[i].1.as_slice()))),
                None => Err(Error::new(ErrorKind::NotFound, "no entry at this path")),
            },
            Operation::Stat => match at {
                Some(i) => Ok(
                    Response::Meta(
                        Metadata::new(EntryMode::File, Some(self.files[i].1.len() as u64)),
                    ),
                ),
                None => Err(Error::new(ErrorKind::NotFound, "no entry at this path")),
            },
            Operation::Write => {
                let entry = (slice_to_vec(req.path.as_slice()), slice_to_vec(req.data.as_slice()));
                let size = req.data.len() as u64;
                match at {
                    Some(i) => {
                        self.files[i] = entry;
                        assert(self.model() =~= before.update(i as int, (req.path@, req.data@)));
                    },
                    None => {
                        self.files.push(entry);
                        assert(self.model() =~= before.push((req.path@, req.data@)));
                    },
                }
                Ok(Response::Meta(Metadata::new(EntryMode::File, Some(size))))
            },
            Operation::Delete => match at {
                Some(i) => {
                    let _ = self.files.remove(i);
                    assert(self.model() =~= before.remove(i as int));
                    Ok(Response::Done)
                },
                None => Err(Error::new(ErrorKind::NotFound, "no entry at this path")),
            },
            _ => Err(refuse()),
        }
    }
}

} // verus!
