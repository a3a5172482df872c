//! Communicators and the processes they contain, as far as point to point
//! communication reads them.

use vstd::prelude::*;

use crate::raw::{AsRaw, RawComm, RawMessage};

verus! {

/// Identifies a process by its number within a communicator.
pub type Rank = i32;

/// The special values that an implementation of the message passing interface uses.
#[derive(Clone, Copy, Debug, PartialEq, Eq, Structural)]
pub struct Constants {
    /// The source rank that matches messages from any process.
    pub any_source: Rank,
    /// The tag that matches messages with any tag.
    pub any_tag: crate::Tag,
    /// The handle that a message has once it has been received.
    pub message_null: RawMessage,
    /// The handle of a message probed from the null process.
    pub message_no_proc: RawMessage,
}

/// A communicator: its raw handle and the special values of the implementation it
/// belongs to.
#[derive(Clone, Copy, Debug, PartialEq, Eq, Structural)]
pub struct Communicator {
    pub raw: RawComm,
    pub constants: Constants,
}

impl AsRaw for Communicator {
    type Raw = RawComm;

    open spec fn is_raw(&self, raw: RawComm) -> bool {
        raw == self.raw
    }

    fn as_raw(&self) -> (r: RawComm)
        ensures
            r == self.raw,
    {
        self.raw
    }
}

/// Something that belongs to a communicator.
pub trait AsCommunicator {
    /// The communicator, as the contracts see it.
    spec fn communicator(&self) -> Communicator;

    /// The communicator.
    fn as_communicator(&self) -> (c: Communicator)
        ensures
            c == self.communicator(),
    ;
}

impl AsCommunicator for Communicator {
    open spec fn communicator(&self) -> Communicator {
        *self
    }

    fn as_communicator(&self) -> (c: Communicator) {
        *self
    }
}

/// A single process of a communicator.
#[derive(Clone, Copy, Debug, PartialEq, Eq, Structural)]
pub struct Process {
    comm: Communicator,
    rank: Rank,
}

impl Process {
    /// The process at `rank` within `comm`.
    pub fn new(comm: Communicator, rank: Rank) -> (p: Process)
        ensures
            p.communicator() == comm,
            p.rank_spec() == rank,
    {
        Process { comm, rank }
    }

    /// The rank, as the contracts see it.
    pub closed spec fn rank_spec(&self) -> Rank {
        self.rank
    }

    /// The rank of the process within its communicator.
    pub fn rank(&self) -> (r: Rank)
        ensures
            r == self.rank_spec(),
    {
        self.rank
    }
}

impl AsCommunicator for Process {
    closed spec fn communicator(&self) -> Communicator {
        self.comm
    }

    fn as_communicator(&self) -> (c: Communicator) {
        self.comm
    }
}

/// Any process of a communicator; as a source it matches messages from every process.
#[derive(Clone, Copy, Debug, PartialEq, Eq, Structural)]
pub struct AnyProcess {
    comm: Communicator,
}

impl AnyProcess {
    /// Any process of `comm`.
    pub fn new(comm: Communicator) -> (p: AnyProcess)
        ensures
            p.communicator() == comm,
    {
        AnyProcess { comm }
    }
}

impl AsCommunicator for AnyProcess {
    closed spec fn communicator(&self) -> Communicator {
        self.comm
    }

    fn as_communicator(&self) -> (c: Communicator) {
        self.comm
    }
}

} // verus!
