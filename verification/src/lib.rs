//! Point to point communication for a message passing library.
//!
//! Every operation is split in two: a verified function that decides which call of the
//! message passing interface to make, with which ranks, tags, buffers and handles, and a
//! verified function that turns what the call reported into the library's values. Making
//! the call itself is left to the caller.

pub mod raw;
pub mod topology;
pub mod datatype;
pub mod request;
pub mod point_to_point;
pub mod decimal;

pub use raw::{AsRaw, AsRawMut, RawAccess};
pub use topology::{Rank, Constants, Communicator, AsCommunicator, Process, AnyProcess};
pub use datatype::{Datatype, BufferLayout};
pub use request::Request;
pub use point_to_point::{
    DEFAULT_TAG, SendMode, Operation, RawStatus, Status, Source, Destination, Message,
    MatchedReceiveVec, VecReceive, CountRangeError, ReceiveFuture, element_count,
    single_element_status, immediate_probe_outcome, count_as_usize, send_receive_with_tags,
    send_receive, send_receive_into_with_tags, send_receive_into,
    send_receive_replace_into_with_tags, send_receive_replace_into,
};

use vstd::prelude::*;

verus! {

/// A message tag.
pub type Tag = i32;

/// A number of elements.
pub type Count = i32;

} // verus!
