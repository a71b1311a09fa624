//! What is known of a stored entry.

use vstd::prelude::*;

verus! {

/// The kind of a stored entry.
#[derive(Clone, Copy, Debug, PartialEq, Eq, Structural)]
pub enum EntryMode {
    File,
    Dir,
    Unknown,
}

/// The description of one stored entry.
#[derive(Debug)]
pub struct Metadata {
    pub kind: EntryMode,
    pub content_length: Option<u64>,
    /// Seconds since the Unix epoch.
    pub last_modified: Option<i64>,
    pub etag: Option<String>,
    pub content_type: Option<String>,
    pub custom: Vec<(String, String)>,
}

/// The mathematical value of a [`Metadata`].
pub ghost struct MetadataView {
    pub kind: EntryMode,
    pub content_length: Option<u64>,
    pub last_modified: Option<i64>,
    pub etag: Option<Seq<char>>,
    pub content_type: Option<Seq<char>>,
    pub custom: Seq<(Seq<char>, Seq<char>)>,
}

/// The text of an optional string.
pub open spec fn text_view(s: Option<String>) -> Option<Seq<char>> {
    match s {
        Some(t) => Some(t@),
        None => None,
    }
}

impl View for Metadata {
    type V = MetadataView;

    open spec fn view(&self) -> MetadataView {
        MetadataView {
            kind: self.kind,
            content_length: self.content_length,
            last_modified: self.last_modified,
            etag: text_view(self.etag),
            content_type: text_view(self.content_type),
            custom: Seq::new(
                self.custom@.len(),
                |i: int| (self.custom@[i].0@, self.custom@[i].1@),
            ),
        }
    }
}

impl MetadataView {
    /// The same description with the size of a directory taken out: a
    /// directory has no length, not length zero.
    pub open spec fn normalized(self) -> MetadataView {
        MetadataView {
            content_length: if self.kind == EntryMode::Dir {
                None
            } else {
                self.content_length
            },
            ..self
        }
    }

    /// A description that carries only a kind and a length.
    pub open spec fn bare(kind: EntryMode, content_length: Option<u64>) -> MetadataView {
        MetadataView {
            kind,
            content_length,
            last_modified: None,
            etag: None,
            content_type: None,
            custom: Seq::empty(),
        }
    }
}

impl Metadata {
    /// A description that carries only a kind and a length.
    pub fn new(kind: EntryMode, content_length: Option<u64>) -> (m: Metadata)
        ensures
            m@ == MetadataView::bare(kind, content_length),
    {
        let m = Metadata {
            kind,
            content_length,
            last_modified: None,
            etag: None,
            content_type: None,
            custom: Vec::new(),
        };
        assert(m@.custom =~= Seq::empty());
        m
    }

    /// Irons out what backends report inconsistently.
    pub fn normalize(self) -> (m: Metadata)
        ensures
            m@ == self@.normalized(),
    {
        let content_length = match self.kind {
            EntryMode::Dir => None,
            _ => self.content_length,
        };
        Metadata {
            kind: self.kind,
            content_length,
            last_modified: self.last_modified,
            etag: self.etag,
            content_type: self.content_type,
            custom: self.custom,
        }
    }

    /// The kind of the entry.
    pub fn kind(&self) -> (k: EntryMode)
        ensures
            k == self@.kind,
    {
        self.kind
    }

    /// The size of the entry in bytes, where it is known.
    pub fn content_length(&self) -> (n: Option<u64>)
        ensures
            n == self@.content_length,
    {
        self.content_length
    }

    /// Whether the entry is a directory.
    pub fn is_dir(&self) -> (b: bool)
        ensures
            b == (self@.kind == EntryMode::Dir),
    {
        match self.kind {
            EntryMode::Dir => true,
            _ => false,
        }
    }
}

/// Normalizing twice changes nothing more.
pub proof fn lemma_normalized_idempotent(m: MetadataView)
    ensures
        m.normalized().normalized() == m.normalized(),
{
}

/// One unit of a listing: a normalized path and what is known of the entry.
#[derive(Debug)]
pub struct Entry {
    pub path: Vec<u8>,
    pub metadata: Metadata,
}

/// The mathematical value of an [`Entry`].
pub ghost struct EntryView {
    pub path: Seq<u8>,
    pub metadata: MetadataView,
}

impl View for Entry {
    type V = EntryView;

    open spec fn view(&self) -> EntryView {
        EntryView { path: self.path@, metadata: self.metadata@ }
    }
}

/// The values of a run of entries, in order.
pub open spec fn entries_view(entries: Seq<Entry>) -> Seq<EntryView> {
    Seq::new(entries.len(), |i: int| entries[i]@)
}

} // verus!
