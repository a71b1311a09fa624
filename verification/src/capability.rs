//! The catalogue of operations and the flags that say which of them an
//! accessor supports.

use vstd::prelude::*;

verus! {

/// The operations an accessor can be asked for.
#[derive(Clone, Copy, Debug, PartialEq, Eq, Structural)]
pub enum Operation {
    Read,
    /// A read restricted to a byte range.
    ReadRange,
    Write,
    /// A write that extends an entry instead of replacing it.
    Append,
    Stat,
    Delete,
    List,
    Rename,
    Copy,
}

/// What an accessor can do. Fixed when the accessor is built.
#[derive(Clone, Copy, Debug, PartialEq, Eq, Structural)]
pub struct Capability {
    pub read: bool,
    pub read_range: bool,
    pub write: bool,
    pub append: bool,
    pub stat: bool,
    pub delete: bool,
    pub list: bool,
    pub rename: bool,
    pub copy: bool,
    /// Largest number of bytes one write may carry.
    pub write_max_size: Option<u64>,
    /// Largest number of entries one listing page may hold.
    pub list_max_page: Option<u64>,
}

/// The smaller of two optional bounds, where `None` is "unbounded".
pub open spec fn tighter(a: Option<u64>, b: Option<u64>) -> Option<u64> {
    match (a, b) {
        (Some(x), Some(y)) => Some(if x <= y { x } else { y }),
        (Some(x), None) => Some(x),
        (None, y) => y,
    }
}

fn tighter_of(a: Option<u64>, b: Option<u64>) -> (r: Option<u64>)
    ensures
        r == tighter(a, b),
{
    match (a, b) {
        (Some(x), Some(y)) => Some(if x <= y { x } else { y }),
        (Some(x), None) => Some(x),
        (None, y) => y,
    }
}

impl Capability {
    /// Whether the operation is supported. A ranged read needs reads, an
    /// append needs writes.
    pub open spec fn supports_spec(self, op: Operation) -> bool {
        match op {
            Operation::Read => self.read,
            Operation::ReadRange => self.read && self.read_range,
            Operation::Write => self.write,
            Operation::Append => self.write && self.append,
            Operation::Stat => self.stat,
            Operation::Delete => self.delete,
            Operation::List => self.list,
            Operation::Rename => self.rename,
            Operation::Copy => self.copy,
        }
    }

    /// The numeric bound declared for the operation, if any.
    pub open spec fn limit_spec(self, op: Operation) -> Option<u64> {
        match op {
            Operation::Write | Operation::Append => self.write_max_size,
            Operation::List => self.list_max_page,
            _ => None,
        }
    }

    /// The capability that supports exactly what both `self` and `other`
    /// support, under the tighter of their bounds.
    pub open spec fn restrict_spec(self, other: Capability) -> Capability {
        Capability {
            read: self.read && other.read,
            read_range: self.read_range && other.read_range,
            write: self.write && other.write,
            append: self.append && other.append,
            stat: self.stat && other.stat,
            delete: self.delete && other.delete,
            list: self.list && other.list,
            rename: self.rename && other.rename,
            copy: self.copy && other.copy,
            write_max_size: tighter(self.write_max_size, other.write_max_size),
            list_max_page: tighter(self.list_max_page, other.list_max_page),
        }
    }

    /// The capability that supports nothing.
    pub fn none() -> (c: Capability)
        ensures
            forall|op: Operation| !c.supports_spec(op),
            forall|op: Operation| c.limit_spec(op) is None,
            !c.read_range && !c.append,
    {
        Capability {
            read: false,
            read_range: false,
            write: false,
            append: false,
            stat: false,
            delete: false,
            list: false,
            rename: false,
            copy: false,
            write_max_size: None,
            list_max_page: None,
        }
    }

    /// The capability that supports every operation without a bound.
    pub fn all() -> (c: Capability)
        ensures
            forall|op: Operation| c.supports_spec(op),
            forall|op: Operation| c.limit_spec(op) is None,
    {
        Capability {
            read: true,
            read_range: true,
            write: true,
            append: true,
            stat: true,
            delete: true,
            list: true,
            rename: true,
            copy: true,
            write_max_size: None,
            list_max_page: None,
        }
    }

    /// Whether the operation is supported.
    pub fn supports(&self, op: Operation) -> (b: bool)
        ensures
            b == self.supports_spec(op),
    {
        match op {
            Operation::Read => self.read,
            Operation::ReadRange => self.read && self.read_range,
            Operation::Write => self.write,
            Operation::Append => self.write && self.append,
            Operation::Stat => self.stat,
            Operation::Delete => self.delete,
            Operation::List => self.list,
            Operation::Rename => self.rename,
            Operation::Copy => self.copy,
        }
    }

    /// The numeric bound declared for the operation, if any.
    pub fn limit(&self, op: Operation) -> (l: Option<u64>)
        ensures
            l == self.limit_spec(op),
    {
        match op {
            Operation::Write | Operation::Append => self.write_max_size,
            Operation::List => self.list_max_page,
            _ => None,
        }
    }

    /// Narrows this capability by another one.
    pub fn restrict(&self, other: &Capability) -> (c: Capability)
        ensures
            c == self.restrict_spec(*other),
    {
        Capability {
            read: self.read && other.read,
            read_range: self.read_range && other.read_range,
            write: self.write && other.write,
            append: self.append && other.append,
            stat: self.stat && other.stat,
            delete: self.delete && other.delete,
            list: self.list && other.list,
            rename: self.rename && other.rename,
            copy: self.copy && other.copy,
            write_max_size: tighter_of(self.write_max_size, other.write_max_size),
            list_max_page: tighter_of(self.list_max_page, other.list_max_page),
        }
    }
}

/// Restriction never fabricates support: the narrowed capability supports an
/// operation exactly when both sides do.
pub proof fn lemma_restrict_supports(a: Capability, b: Capability, op: Operation)
    ensures
        a.restrict_spec(b).supports_spec(op) == (a.supports_spec(op) && b.supports_spec(op)),
{
}

/// Restriction never loosens a bound: where either side declares one, the
/// narrowed capability declares one that is no larger.
pub proof fn lemma_restrict_limit(a: Capability, b: Capability, op: Operation)
    ensures
        a.limit_spec(op) is Some ==> a.restrict_spec(b).limit_spec(op) is Some
            && a.restrict_spec(b).limit_spec(op).unwrap() <= a.limit_spec(op).unwrap(),
        b.limit_spec(op) is Some ==> a.restrict_spec(b).limit_spec(op) is Some
            && a.restrict_spec(b).limit_spec(op).unwrap() <= b.limit_spec(op).unwrap(),
{
}

} // verus!
