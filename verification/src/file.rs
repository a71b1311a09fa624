//! The file handle: a cursor over one entry, for reading or for writing.
//!
//! A writing handle collects what it is given in a buffer and sends it when
//! the buffer has reached the handle's threshold, on `flush`, and on `close`.
//! The first send replaces the entry, each later one extends it. After
//! `close` every operation but `close` fails.

use vstd::prelude::*;
use vstd::pervasive::unreached;
use vstd::slice::slice_to_vec;
use crate::accessor::{Accessor, Request, RequestView, Response, ResponseView};
use crate::capability::Operation;
use crate::error::{Error, ErrorKind, ErrorView};
use crate::layer::{Layered, Outcome};
use crate::operator::{Operator, objection, prepared, rejected, submitted};

verus! {

/// What a handle was opened for.
#[derive(Clone, Copy, Debug, PartialEq, Eq, Structural)]
pub enum FileMode {
    Read,
    Write,
}

/// From where a seek counts.
#[derive(Clone, Copy, Debug, PartialEq, Eq, Structural)]
pub enum Whence {
    Start,
    Current,
    End,
}

/// A cursor over one entry.
#[derive(Debug)]
pub struct File {
    /// The entry's path, in normal form.
    pub path: Vec<u8>,
    pub mode: FileMode,
    /// The position of the cursor, in bytes from the start of the entry.
    pub offset: u64,
    /// What was written and not sent yet.
    pub buffer: Vec<u8>,
    /// The buffer is sent as soon as it holds this many bytes.
    pub threshold: usize,
    /// Whether anything was sent yet.
    pub sent: bool,
    pub closed: bool,
}

/// The mathematical value of a [`File`].
pub ghost struct FileView {
    pub path: Seq<u8>,
    pub mode: FileMode,
    pub offset: u64,
    pub buffer: Seq<u8>,
    pub threshold: usize,
    pub sent: bool,
    pub closed: bool,
}

impl View for File {
    type V = FileView;

    open spec fn view(&self) -> FileView {
        FileView {
            path: self.path@,
            mode: self.mode,
            offset: self.offset,
            buffer: self.buffer@,
            threshold: self.threshold,
            sent: self.sent,
            closed: self.closed,
        }
    }
}

/// A permanent failure of the given kind.
pub open spec fn failure(kind: ErrorKind, message: Seq<char>) -> ErrorView {
    ErrorView { kind, transient: false, message }
}

/// The failure of any operation on a closed handle.
pub open spec fn closed_handle() -> ErrorView {
    failure(ErrorKind::Closed, "file handle is closed"@)
}

/// The failure of a read on a writing handle, or a write on a reading one.
pub open spec fn wrong_mode() -> ErrorView {
    failure(ErrorKind::InvalidState, "file handle was opened in the other mode"@)
}

/// The failure of a seek while written bytes wait in the buffer.
pub open spec fn unflushed() -> ErrorView {
    failure(ErrorKind::InvalidState, "seek with unflushed writes"@)
}

/// The failure of a move of the cursor to before the start or beyond what
/// an offset can hold.
pub open spec fn bad_offset() -> ErrorView {
    failure(ErrorKind::InvalidInput, "offset is out of bounds"@)
}

/// The failure of a seek from the end of an entry whose size is not known.
pub open spec fn unsized_entry() -> ErrorView {
    failure(ErrorKind::Unsupported, "size of the entry is not known"@)
}

/// The failure that stands for a reply with more bytes than were asked for.
pub open spec fn overlong() -> ErrorView {
    failure(ErrorKind::Unexpected, "accessor replied with more bytes than asked for"@)
}

/// The outcome of a call that leaves the accessor alone and succeeds.
pub open spec fn untouched<A: Accessor>(acc: Layered<A>) -> Outcome<A::Model> {
    Outcome { base: acc.base.model(), trace: acc.trace@, reply: Ok(ResponseView::Done) }
}

/// The request that sends a handle's buffer.
pub open spec fn flush_request(f: FileView) -> RequestView {
    RequestView {
        data: f.buffer,
        ..RequestView::simple(
            if f.sent {
                Operation::Append
            } else {
                Operation::Write
            },
            f.path,
        )
    }
}

/// The request that reads `len` bytes at a handle's cursor.
pub open spec fn read_request(f: FileView, len: u64) -> RequestView {
    RequestView {
        range: Some((f.offset, (f.offset + len) as u64)),
        ..RequestView::simple(Operation::ReadRange, f.path)
    }
}

/// Sending the buffer: an empty buffer is not sent; a buffer that was sent
/// is empty afterwards; a buffer that could not be sent is kept.
pub open spec fn flush_step<A: Accessor>(f: FileView, acc: Layered<A>) -> (FileView, Outcome<A::Model>) {
    if f.buffer.len() == 0 {
        (f, untouched(acc))
    } else {
        let o = submitted(acc, flush_request(f));
        match o.reply {
            Err(_) => (f, o),
            Ok(_) => (
                FileView { buffer: Seq::empty(), sent: true, ..f },
                Outcome { base: o.base, trace: o.trace, reply: Ok(ResponseView::Done) },
            ),
        }
    }
}

/// A write: the bytes go to the buffer and the cursor moves on; a buffer that
/// has reached the threshold is sent.
pub open spec fn write_step<A: Accessor>(f: FileView, acc: Layered<A>, bytes: Seq<u8>) -> (
    FileView,
    Outcome<A::Model>,
) {
    if f.closed {
        (f, rejected(acc, closed_handle()))
    } else if f.mode != FileMode::Write {
        (f, rejected(acc, wrong_mode()))
    } else if f.offset + bytes.len() > u64::MAX || f.buffer.len() + bytes.len() > usize::MAX {
        (f, rejected(acc, bad_offset()))
    } else {
        let taken = FileView {
            buffer: f.buffer + bytes,
            offset: (f.offset + bytes.len()) as u64,
            ..f
        };
        if taken.buffer.len() >= taken.threshold {
            flush_step(taken, acc)
        } else {
            (taken, untouched(acc))
        }
    }
}

/// A close: what is buffered is sent, and if that went well the handle is
/// closed. A closed handle stays as it is.
pub open spec fn close_step<A: Accessor>(f: FileView, acc: Layered<A>) -> (FileView, Outcome<A::Model>) {
    if f.closed {
        (f, untouched(acc))
    } else {
        let (g, o) = flush_step(f, acc);
        match o.reply {
            Err(_) => (g, o),
            Ok(_) => (FileView { closed: true, ..g }, o),
        }
    }
}

/// Where a seek lands, if it lands within what an offset can hold.
pub open spec fn landing(base: u64, delta: i64) -> Option<u64> {
    if 0 <= base + delta <= u64::MAX {
        Some((base + delta) as u64)
    } else {
        None
    }
}

fn land(base: u64, delta: i64) -> (r: Option<u64>)
    ensures
        r == landing(base, delta),
{
    if delta >= 0 {
        let d = delta as u64;
        if d > u64::MAX - base {
            None
        } else {
            Some(base + d)
        }
    } else {
        let d: u64 = (-(delta + 1)) as u64 + 1;
        if d > base {
            None
        } else {
            Some(base - d)
        }
    }
}

fn fail(kind: ErrorKind, message: &str) -> (e: Error)
    ensures
        e@ == failure(kind, message@),
{
    Error::new(kind, message)
}

fn append_bytes(dst: &mut Vec<u8>, src: &[u8])
    ensures
        final(dst)@ == old(dst)@ + src@,
{
    let mut i: usize = 0;
    while i < src.len()
        invariant
            i <= src.len(),
            dst@ == old(dst)@ + src@.take(i as int),
        decreases src.len() - i,
    {
        dst.push(src[i]);
        assert(src@.take(i as int + 1) =~= src@.take(i as int).push(src@[i as int]));
        assert(dst@ =~= old(dst)@ + src@.take(i as int + 1));
        i += 1;
    }
    assert(src@.take(i as int) =~= src@);
}

impl File {
    /// Whether the handle was closed.
    pub fn is_closed(&self) -> (b: bool)
        ensures
            b == self@.closed,
    {
        self.closed
    }

    /// The position of the cursor.
    pub fn offset(&self) -> (n: u64)
        ensures
            n == self@.offset,
    {
        self.offset
    }

    /// How many written bytes wait to be sent.
    pub fn buffered(&self) -> (n: usize)
        ensures
            n == self@.buffer.len(),
    {
        self.buffer.len()
    }

    /// Sends the buffer, whatever the handle's state.
    fn send<A: Accessor>(&mut self, op: &mut Operator<A>) -> (r: Result<(), Error>)
        ensures
            final(op).accessor.layers@ == old(op).accessor.layers@,
            ({
                let (f, o) = flush_step(old(self)@, old(op).accessor);
                &&& final(self)@ == f
                &&& final(op).accessor.base.model() == o.base
                &&& final(op).accessor.trace@ == o.trace
                &&& crate::operator::unit_reply(r) == o.reply
            }),
    {
        if self.buffer.len() == 0 {
            return Ok(());
        }
        let mut data: Vec<u8> = Vec::new();
        core::mem::swap(&mut self.buffer, &mut data);
        let mut req = Request {
            op: if self.sent {
                Operation::Append
            } else {
                Operation::Write
            },
            path: slice_to_vec(self.path.as_slice()),
            target: Vec::new(),
            data,
            range: None,
            token: None,
        };
        assert(req@ == flush_request(old(self)@));
        match op.submit(&req) {
            Err(e) => {
                core::mem::swap(&mut self.buffer, &mut req.data);
                Err(e)
            },
            Ok(_) => {
                self.sent = true;
                Ok(())
            },
        }
    }

    /// Sends what is buffered.
    pub fn flush<A: Accessor>(&mut self, op: &mut Operator<A>) -> (r: Result<(), Error>)
        ensures
            final(op).accessor.layers@ == old(op).accessor.layers@,
            ({
                let (f, o) = if old(self)@.closed {
                    (old(self)@, rejected(old(op).accessor, closed_handle()))
                } else {
                    flush_step(old(self)@, old(op).accessor)
                };
                &&& final(self)@ == f
                &&& final(op).accessor.base.model() == o.base
                &&& final(op).accessor.trace@ == o.trace
                &&& crate::operator::unit_reply(r) == o.reply
            }),
    {
        if self.closed {
            return Err(fail(ErrorKind::Closed, "file handle is closed"));
        }
        self.send(op)
    }

    /// Takes the bytes into the buffer and sends the buffer if it has reached
    /// the threshold. Returns how many bytes were taken: all of them. Where
    /// sending fails, the failure is returned and the bytes stay buffered.
    pub fn write<A: Accessor>(&mut self, op: &mut Operator<A>, bytes: &[u8]) -> (r: Result<
        usize,
        Error,
    >)
        ensures
            final(op).accessor.layers@ == old(op).accessor.layers@,
            ({
                let (f, o) = write_step(old(self)@, old(op).accessor, bytes@);
                &&& final(self)@ == f
                &&& final(op).accessor.base.model() == o.base
                &&& final(op).accessor.trace@ == o.trace
                &&& match o.reply {
                    Err(e) => r is Err && r.unwrap_err()@ == e,
                    Ok(_) => r is Ok && r.unwrap() == bytes@.len(),
                }
            }),
    {
        if self.closed {
            return Err(fail(ErrorKind::Closed, "file handle is closed"));
        }
        match self.mode {
            FileMode::Read => {
                return Err(
                    fail(ErrorKind::InvalidState, "file handle was opened in the other mode"),
                );
            },
            FileMode::Write => {},
        }
        let n = bytes.len();
        if n as u64 > u64::MAX - self.offset || n > usize::MAX - self.buffer.len() {
            return Err(fail(ErrorKind::InvalidInput, "offset is out of bounds"));
        }
        append_bytes(&mut self.buffer, bytes);
        self.offset = self.offset + n as u64;
        if self.buffer.len() >= self.threshold {
            match self.send(op) {
                Err(e) => Err(e),
                Ok(_) => Ok(n),
            }
        } else {
            Ok(n)
        }
    }

    /// Sends what is buffered and closes the handle. On a closed handle this
    /// does nothing and succeeds. Where sending fails the handle stays open.
    pub fn close<A: Accessor>(&mut self, op: &mut Operator<A>) -> (r: Result<(), Error>)
        ensures
            final(op).accessor.layers@ == old(op).accessor.layers@,
            old(self)@.closed ==> r is Ok && *final(self) == *old(self) && *final(op) == *old(op),
            ({
                let (f, o) = close_step(old(self)@, old(op).accessor);
                &&& final(self)@ == f
                &&& final(op).accessor.base.model() == o.base
                &&& final(op).accessor.trace@ == o.trace
                &&& crate::operator::unit_reply(r) == o.reply
            }),
    {
        if self.closed {
            return Ok(());
        }
        match self.send(op) {
            Err(e) => Err(e),
            Ok(_) => {
                self.closed = true;
                Ok(())
            },
        }
    }

    /// Reads up to `len` bytes at the cursor and moves the cursor behind them.
    pub fn read<A: Accessor>(&mut self, op: &mut Operator<A>, len: u64) -> (r: Result<
        Vec<u8>,
        Error,
    >)
        ensures
            final(op).accessor.layers@ == old(op).accessor.layers@,
            ({
                let f = old(self)@;
                let acc = old(op).accessor;
                if f.closed {
                    &&& r is Err && r.unwrap_err()@ == closed_handle()
                    &&& *final(self) == *old(self) && *final(op) == *old(op)
                } else if f.mode != FileMode::Read {
                    &&& r is Err && r.unwrap_err()@ == wrong_mode()
                    &&& *final(self) == *old(self) && *final(op) == *old(op)
                } else if f.offset + len > u64::MAX {
                    &&& r is Err && r.unwrap_err()@ == bad_offset()
                    &&& *final(self) == *old(self) && *final(op) == *old(op)
                } else {
                    let o = submitted(acc, read_request(f, len));
                    &&& final(op).accessor.base.model() == o.base
                    &&& final(op).accessor.trace@ == o.trace
                    &&& match o.reply {
                        Ok(ResponseView::Bytes(b)) => if b.len() <= len {
                            &&& r is Ok && r.unwrap()@ == b
                            &&& final(self)@ == (FileView { offset: (f.offset + b.len()) as u64, ..f })
                        } else {
                            r is Err && r.unwrap_err()@ == overlong() && final(self)@ == f
                        },
                        Ok(_) => false,
                        Err(e) => r is Err && r.unwrap_err()@ == e && final(self)@ == f,
                    }
                }
            }),
    {
        if self.closed {
            return Err(fail(ErrorKind::Closed, "file handle is closed"));
        }
        match self.mode {
            FileMode::Write => {
                return Err(
                    fail(ErrorKind::InvalidState, "file handle was opened in the other mode"),
                );
            },
            FileMode::Read => {},
        }
        if len > u64::MAX - self.offset {
            return Err(fail(ErrorKind::InvalidInput, "offset is out of bounds"));
        }
        let req = Request {
            op: Operation::ReadRange,
            path: slice_to_vec(self.path.as_slice()),
            target: Vec::new(),
            data: Vec::new(),
            range: Some((self.offset, self.offset + len)),
            token: None,
        };
        assert(req@ == read_request(old(self)@, len));
        match op.submit(&req) {
            Err(e) => Err(e),
            Ok(Response::Bytes(b)) => {
                if b.len() as u64 <= len {
                    self.offset = self.offset + b.len() as u64;
                    Ok(b)
                } else {
                    Err(
                        fail(
                            ErrorKind::Unexpected,
                            "accessor replied with more bytes than asked for",
                        ),
                    )
                }
            },
            Ok(_) => unreached(),
        }
    }

    /// Moves the cursor by `delta` from the start, from where it is, or from
    /// the end of the entry, and returns where it then is. Only a seek from
    /// the end asks the accessor: for the entry's size.
    pub fn seek<A: Accessor>(&mut self, op: &mut Operator<A>, delta: i64, whence: Whence) -> (r:
        Result<u64, Error>)
        ensures
            final(op).accessor.layers@ == old(op).accessor.layers@,
            ({
                let f = old(self)@;
                let acc = old(op).accessor;
                let moved = |base: u64|
                    match landing(base, delta) {
                        Some(n) => r is Ok && r.unwrap() == n && final(self)@ == (FileView {
                            offset: n,
                            ..f
                        }),
                        None => r is Err && r.unwrap_err()@ == bad_offset() && final(self)@ == f,
                    };
                if f.closed {
                    &&& r is Err && r.unwrap_err()@ == closed_handle()
                    &&& *final(self) == *old(self) && *final(op) == *old(op)
                } else if f.mode == FileMode::Write && f.buffer.len() > 0 {
                    &&& r is Err && r.unwrap_err()@ == unflushed()
                    &&& *final(self) == *old(self) && *final(op) == *old(op)
                } else if whence == Whence::Start {
                    *final(op) == *old(op) && moved(0)
                } else if whence == Whence::Current {
                    *final(op) == *old(op) && moved(f.offset)
                } else {
                    let o = submitted(acc, RequestView::simple(Operation::Stat, f.path));
                    &&& final(op).accessor.base.model() == o.base
                    &&& final(op).accessor.trace@ == o.trace
                    &&& match o.reply {
                        Ok(ResponseView::Meta(m)) => match m.content_length {
                            Some(size) => moved(size),
                            None => r is Err && r.unwrap_err()@ == unsized_entry() && final(self)@
                                == f,
                        },
                        Ok(_) => false,
                        Err(e) => r is Err && r.unwrap_err()@ == e && final(self)@ == f,
                    }
                }
            }),
    {
        if self.closed {
            return Err(fail(ErrorKind::Closed, "file handle is closed"));
        }
        let writing = match self.mode {
            FileMode::Write => true,
            FileMode::Read => false,
        };
        if writing && self.buffer.len() > 0 {
            return Err(fail(ErrorKind::InvalidState, "seek with unflushed writes"));
        }
        let base: u64 = match whence {
            Whence::Start => 0,
            Whence::Current => self.offset,
            Whence::End => {
                let req = Request::simple(Operation::Stat, slice_to_vec(self.path.as_slice()));
                match op.submit(&req) {
                    Err(e) => {
                        return Err(e);
                    },
                    Ok(Response::Meta(m)) => match m.content_length {
                        Some(size) => size,
                        None => {
                            return Err(
                                fail(ErrorKind::Unsupported, "size of the entry is not known"),
                            );
                        },
                    },
                    Ok(_) => unreached(),
                }
            },
        };
        match land(base, delta) {
            Some(n) => {
                self.offset = n;
                Ok(n)
            },
            None => Err(fail(ErrorKind::InvalidInput, "offset is out of bounds")),
        }
    }
}

impl<A: Accessor> Operator<A> {
    /// Opens an entry for reading or for writing. The path is normalized and
    /// the capability checked: a reading handle needs ranged reads, a writing
    /// handle writes. The accessor is not asked.
    pub fn open(&self, path: &[u8], mode: FileMode, threshold: usize) -> (r: Result<File, Error>)
        ensures
            ({
                let op = if mode == FileMode::Read {
                    Operation::ReadRange
                } else {
                    Operation::Write
                };
                match prepared(RequestView::simple(op, path@)) {
                    Err(e) => r is Err && r.unwrap_err()@ == e,
                    Ok(req) => match objection(self.accessor.capability(), req) {
                        Some(e) => r is Err && r.unwrap_err()@ == e,
                        None => r is Ok && r.unwrap()@ == (FileView {
                            path: req.path,
                            mode,
                            offset: 0,
                            buffer: Seq::empty(),
                            threshold,
                            sent: false,
                            closed: false,
                        }),
                    },
                }
            }),
    {
        let op = match mode {
            FileMode::Read => Operation::ReadRange,
            FileMode::Write => Operation::Write,
        };
        let none: Vec<u8> = Vec::new();
        let req = match Self::prepare(op, path, none.as_slice(), Vec::new(), None, None) {
            Ok(req) => req,
            Err(e) => {
                return Err(e);
            },
        };
        match self.check(&req) {
            Err(e) => Err(e),
            Ok(_) => Ok(
                File {
                    path: req.path,
                    mode,
                    offset: 0,
                    buffer: Vec::new(),
                    threshold,
                    sent: false,
                    closed: false,
                },
            ),
        }
    }
}

} // verus!
