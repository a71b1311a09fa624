//! Paths below an operator's root, and their normal form.
//!
//! A path is a run of bytes in which `/` separates segments. Its normal form
//! starts with `/`, has no empty segment, no `.` and no `..`, and ends with
//! `/` only if the path did and names something below the root.

use vstd::prelude::*;
use crate::error::{Error, ErrorKind, ErrorView};

verus! {

/// The separator of path segments, `/`.
pub const SEPARATOR: u8 = 47;

/// The byte `.`.
pub const DOT: u8 = 46;

/// Whether the segment is `.`, which names the place it stands in.
pub open spec fn is_current(segment: Seq<u8>) -> bool {
    segment.len() == 1 && segment[0] == DOT
}

/// Whether the segment is `..`, which names the place above.
pub open spec fn is_parent(segment: Seq<u8>) -> bool {
    segment.len() == 2 && segment[0] == DOT && segment[1] == DOT
}

/// The segments below the root after one more segment has been read, or
/// `None` where that segment climbs above the root.
pub open spec fn enter(stack: Seq<Seq<u8>>, segment: Seq<u8>) -> Option<Seq<Seq<u8>>> {
    if segment.len() == 0 || is_current(segment) {
        Some(stack)
    } else if is_parent(segment) {
        if stack.len() == 0 {
            None
        } else {
            Some(stack.drop_last())
        }
    } else {
        Some(stack.push(segment))
    }
}

/// How far a reading of a path has come: the segments it stands below, and
/// the bytes of the segment it is in.
pub ghost struct Walk {
    pub stack: Seq<Seq<u8>>,
    pub segment: Seq<u8>,
}

/// The reading of the first `n` bytes of a path, or `None` where they climb
/// above the root.
pub open spec fn walk(path: Seq<u8>, n: nat) -> Option<Walk>
    decreases n,
{
    if n == 0 || n > path.len() {
        Some(Walk { stack: Seq::empty(), segment: Seq::empty() })
    } else {
        match walk(path, (n - 1) as nat) {
            None => None,
            Some(w) => {
                if path[n - 1] == SEPARATOR {
                    match enter(w.stack, w.segment) {
                        None => None,
                        Some(stack) => Some(Walk { stack, segment: Seq::empty() }),
                    }
                } else {
                    Some(Walk { stack: w.stack, segment: w.segment.push(path[n - 1]) })
                }
            },
        }
    }
}

/// The segments written one after the other, each behind a separator.
pub open spec fn joined(stack: Seq<Seq<u8>>) -> Seq<u8>
    decreases stack.len(),
{
    if stack.len() == 0 {
        Seq::empty()
    } else {
        joined(stack.drop_last()).push(SEPARATOR) + stack.last()
    }
}

/// The normal form of a path, or `None` where the path leaves the root.
pub open spec fn normalized(path: Seq<u8>) -> Option<Seq<u8>> {
    match walk(path, path.len()) {
        None => None,
        Some(w) => match enter(w.stack, w.segment) {
            None => None,
            Some(stack) => Some(
                if stack.len() == 0 {
                    seq![SEPARATOR]
                } else if w.segment.len() == 0 {
                    joined(stack).push(SEPARATOR)
                } else {
                    joined(stack)
                },
            ),
        },
    }
}

/// The failure with which a path that leaves the root is rejected.
pub open spec fn escape() -> ErrorView {
    ErrorView {
        kind: ErrorKind::InvalidInput,
        transient: false,
        message: "path leaves the root"@,
    }
}

/// The segments of a stack of segments, as runs of bytes.
pub open spec fn stack_view(stack: Seq<Vec<u8>>) -> Seq<Seq<u8>> {
    Seq::new(stack.len(), |i: int| stack[i]@)
}

fn enter_segment(stack: &mut Vec<Vec<u8>>, segment: Vec<u8>) -> (ok: bool)
    ensures
        match enter(stack_view(old(stack)@), segment@) {
            None => !ok && final(stack)@ == old(stack)@,
            Some(s) => ok && stack_view(final(stack)@) == s,
        },
{
    let n = segment.len();
    if n == 0 || (n == 1 && segment[0] == DOT) {
        true
    } else if n == 2 && segment[0] == DOT && segment[1] == DOT {
        if stack.len() == 0 {
            false
        } else {
            let _ = stack.pop();
            assert(stack_view(stack@) =~= stack_view(old(stack)@).drop_last());
            true
        }
    } else {
        stack.push(segment);
        assert(stack_view(stack@) =~= stack_view(old(stack)@).push(segment@));
        true
    }
}

fn join(stack: &Vec<Vec<u8>>) -> (out: Vec<u8>)
    ensures
        out@ == joined(stack_view(stack@)),
{
    let mut out: Vec<u8> = Vec::new();
    let mut i: usize = 0;
    while i < stack.len()
        invariant
            i <= stack.len(),
            out@ == joined(stack_view(stack@).take(i as int)),
        decreases stack.len() - i,
    {
        let ghost before = out@;
        let ghost done = stack_view(stack@).take(i as int + 1);
        assert(done.drop_last() =~= stack_view(stack@).take(i as int));
        assert(done.last() == stack@[i as int]@);
        out.push(SEPARATOR);
        let segment = &stack[i];
        let mut j: usize = 0;
        while j < segment.len()
            invariant
                j <= segment.len(),
                out@ == before.push(SEPARATOR) + segment@.take(j as int),
            decreases segment.len() - j,
        {
            out.push(segment[j]);
            assert(segment@.take(j as int + 1) =~= segment@.take(j as int).push(segment@[j as int]));
            assert(out@ =~= before.push(SEPARATOR) + segment@.take(j as int + 1));
            j += 1;
        }
        assert(segment@.take(j as int) =~= segment@);
        i += 1;
    }
    assert(stack_view(stack@).take(i as int) =~= stack_view(stack@));
    out
}

/// Brings a path into its normal form, and rejects one that leaves the root.
pub fn normalize_path(path: &[u8]) -> (r: Result<Vec<u8>, Error>)
    ensures
        match normalized(path@) {
            Some(p) => r is Ok && r.unwrap()@ == p,
            None => r is Err && r.unwrap_err()@ == escape(),
        },
{
    let mut stack: Vec<Vec<u8>> = Vec::new();
    let mut segment: Vec<u8> = Vec::new();
    let mut i: usize = 0;
    assert(stack_view(stack@) =~= Seq::empty());
    while i < path.len()
        invariant
            i <= path.len(),
            walk(path@, i as nat) == Some(Walk { stack: stack_view(stack@), segment: segment@ }),
        decreases path.len() - i,
    {
        let b = path[i];
        if b == SEPARATOR {
            let done = segment;
            segment = Vec::new();
            if !enter_segment(&mut stack, done) {
                proof {
                    lemma_walk_stays_lost(path@, (i + 1) as nat, path@.len());
                }
                return Err(Error::new(ErrorKind::InvalidInput, "path leaves the root"));
            }
        } else {
            segment.push(b);
        }
        i += 1;
    }
    let closed = segment.len() == 0;
    if !enter_segment(&mut stack, segment) {
        return Err(Error::new(ErrorKind::InvalidInput, "path leaves the root"));
    }
    let mut out = join(&stack);
    if stack.len() == 0 || closed {
        out.push(SEPARATOR);
    }
    assert(stack.len() == 0 ==> out@ =~= seq![SEPARATOR]);
    Ok(out)
}

/// Once a reading has left the root, no further byte brings it back.
proof fn lemma_walk_stays_lost(path: Seq<u8>, n: nat, m: nat)
    requires
        n <= m <= path.len(),
        walk(path, n) is None,
    ensures
        walk(path, m) is None,
    decreases m,
{
    if m > n {
        lemma_walk_stays_lost(path, n, (m - 1) as nat);
    }
}

} // verus!
