//! Point to point communication.
//!
//! Endpoints of communication are described by types that implement the `Source` and
//! `Destination` traits. Each operation on them yields the `Operation` to perform; the
//! functions on `Status`, `Message` and `ReceiveFuture` turn what the operation reported
//! into the library's values.

use vstd::prelude::*;

use conv::ConvUtil;
use conv::errors::NegOverflow;

use crate::{Count, Tag};
use crate::datatype::{BufferLayout, Datatype};
use crate::decimal::{append_decimal, decimal};
use crate::raw::{AsRaw, AsRawMut, RawAccess, RawComm, RawMessage, RawRequest};
use crate::request::Request;
use crate::topology::{AnyProcess, AsCommunicator, Communicator, Constants, Process, Rank};

verus! {

/// The tag that operations without an explicit tag send with.
pub const DEFAULT_TAG: Tag = 0;

/// The four modes of a send operation.
#[derive(Clone, Copy, Debug, PartialEq, Eq, Structural)]
pub enum SendMode {
    /// Standard mode.
    Standard,
    /// Buffered mode: completes once the message is copied to a buffer.
    Buffered,
    /// Synchronous mode: completes only once the matching receive operation has started.
    Synchronous,
    /// Ready mode: fails if the matching receive operation has not been posted.
    Ready,
}

/// A call of the message passing interface, with every argument but the buffers' memory.
#[derive(Clone, Copy, Debug, PartialEq, Eq, Structural)]
pub enum Operation {
    /// Blocking probe for an incoming message.
    Probe { source: Rank, tag: Tag, comm: RawComm },
    /// Blocking probe that matches the incoming message for a later receive.
    MatchedProbe { source: Rank, tag: Tag, comm: RawComm },
    /// Probe that returns at once.
    ImmediateProbe { source: Rank, tag: Tag, comm: RawComm },
    /// Matching probe that returns at once.
    ImmediateMatchedProbe { source: Rank, tag: Tag, comm: RawComm },
    /// Blocking receive into a buffer.
    Receive { buf: BufferLayout, source: Rank, tag: Tag, comm: RawComm },
    /// Start of a receive into a buffer.
    ImmediateReceive { buf: BufferLayout, source: Rank, tag: Tag, comm: RawComm },
    /// Blocking send of a buffer.
    Send { mode: SendMode, buf: BufferLayout, destination: Rank, tag: Tag, comm: RawComm },
    /// Start of a send of a buffer.
    ImmediateSend { mode: SendMode, buf: BufferLayout, destination: Rank, tag: Tag, comm: RawComm },
    /// Blocking receive of a matched message.
    MatchedReceive { buf: BufferLayout, message: RawMessage },
    /// Start of a receive of a matched message.
    ImmediateMatchedReceive { buf: BufferLayout, message: RawMessage },
    /// Send and receive at once, from and into two buffers.
    SendReceive {
        send_buf: BufferLayout,
        destination: Rank,
        send_tag: Tag,
        receive_buf: BufferLayout,
        source: Rank,
        receive_tag: Tag,
        comm: RawComm,
    },
    /// Send and receive at once, the received message replacing the sent one in one buffer.
    SendReceiveReplace {
        buf: BufferLayout,
        destination: Rank,
        send_tag: Tag,
        source: Rank,
        receive_tag: Tag,
        comm: RawComm,
    },
}

// ---------------------------------------------------------------------------------------
// Status
// ---------------------------------------------------------------------------------------

/// What the interface reports of a completed receive: the source, the tag, the error code
/// and the number of bytes of data received.
#[derive(Clone, Copy, Debug, PartialEq, Eq, Structural)]
pub struct RawStatus {
    pub source: Rank,
    pub tag: Tag,
    pub error: i32,
    pub received_bytes: u64,
}

/// Whether `count` elements of `size` bytes each make up exactly `received_bytes` bytes.
pub open spec fn whole_elements(count: Count, size: u32, received_bytes: u64) -> bool {
    count >= 0 && count * size == received_bytes
}

/// The number of elements of `size` bytes that the `received_bytes` bytes of a message
/// hold: zero for a datatype of size zero; otherwise the number of elements, as a `Count`,
/// that make up exactly the bytes received, and none where no such number exists.
pub open spec fn element_count(received_bytes: u64, size: u32) -> Option<Count> {
    if size == 0 {
        Some(0)
    } else if exists|c: Count| #[trigger] whole_elements(c, size, received_bytes) {
        Some(choose|c: Count| #[trigger] whole_elements(c, size, received_bytes))
    } else {
        None
    }
}

/// For a datatype of nonzero size, the count of `element_count` is the quotient of the bytes
/// by the size, where the division is exact and the quotient fits a `Count`, and there is
/// none otherwise.
pub proof fn law_element_count_exact(received_bytes: u64, size: u32)
    requires
        size > 0,
    ensures
        element_count(received_bytes, size) matches Some(c) ==> c >= 0 && c * size
            == received_bytes && c == received_bytes / (size as u64),
        element_count(received_bytes, size) is None <==> (received_bytes % (size as u64) != 0
            || received_bytes / (size as u64) > i32::MAX),
{
    let b: int = received_bytes as int;
    let s: int = size as int;
    let q: int = b / s;
    assert(b == q * s + b % s && 0 <= b % s < s && q >= 0) by (nonlinear_arith)
        requires
            s > 0,
            b >= 0,
            q == b / s,
    ;
    assert forall|c: Count| #[trigger] whole_elements(c, size, received_bytes) implies c == q
        && b % s == 0 by {
        let ci: int = c as int;
        assert(ci == q && b % s == 0) by (nonlinear_arith)
            requires
                s > 0,
                ci * s == b,
                b == q * s + b % s,
                0 <= b % s < s,
        ;
    }
    if b % s == 0 && q <= i32::MAX {
        let n: Count = q as Count;
        assert(whole_elements(n, size, received_bytes));
    }
}

/// The text that describes a status: its source rank and its tag.
pub open spec fn status_text(status: RawStatus) -> Seq<char> {
    "Status { source_rank: "@ + decimal(status.source as int) + ", tag: "@ + decimal(
        status.tag as int,
    ) + " }"@
}

/// Describes the result of a point to point receive operation.
#[derive(Clone, Copy)]
pub struct Status {
    raw: RawStatus,
}

impl View for Status {
    type V = RawStatus;

    closed spec fn view(&self) -> RawStatus {
        self.raw
    }
}

impl Status {
    /// Construct a `Status` value from what the interface reported.
    pub fn from_raw(status: RawStatus) -> (s: Status)
        ensures
            s@ == status,
    {
        Status { raw: status }
    }

    /// The rank of the message source.
    pub fn source_rank(&self) -> (r: Rank)
        ensures
            r == self@.source,
    {
        self.raw.source
    }

    /// The message tag.
    pub fn tag(&self) -> (t: Tag)
        ensures
            t == self@.tag,
    {
        self.raw.tag
    }

    /// The text that describes the status, as in `Status { source_rank: 1, tag: -2 }`.
    pub fn describe(&self) -> (t: String)
        ensures
            t@ == status_text(self@),
    {
        let mut text: String = String::new();
        text.append("Status { source_rank: ");
        append_decimal(&mut text, self.raw.source);
        text.append(", tag: ");
        append_decimal(&mut text, self.raw.tag);
        text.append(" }");
        text
    }

    /// Number of instances of the datatype `d` contained in the message: zero for a
    /// datatype of size zero, none where the message holds no whole number of them or more
    /// than a `Count` can express.
    pub fn count(&self, d: Datatype) -> (c: Option<Count>)
        ensures
            c == element_count(self@.received_bytes, d.size),
    {
        proof {
            if d.size > 0 {
                law_element_count_exact(self.raw.received_bytes, d.size);
            }
        }
        if d.size == 0 {
            Some(0)
        } else {
            let size: u64 = d.size as u64;
            if self.raw.received_bytes % size != 0 {
                None
            } else {
                let n: u64 = self.raw.received_bytes / size;
                if n > i32::MAX as u64 {
                    None
                } else {
                    Some(n as Count)
                }
            }
        }
    }
}

/// The status of a receive of a single element of `datatype`; such a receive must not
/// have received an empty message.
pub fn single_element_status(status: RawStatus, datatype: Datatype) -> (s: Status)
    requires
        element_count(status.received_bytes, datatype.size) != Some(0 as Count),
    ensures
        s@ == status,
{
    Status::from_raw(status)
}

// ---------------------------------------------------------------------------------------
// Source
// ---------------------------------------------------------------------------------------

/// Something that can be used as the source in a point to point receive operation.
///
/// A `Process` used as a source receives data only from the identified process; an
/// `AnyProcess` receives data from every process of its communicator.
pub trait Source: AsCommunicator {
    /// The rank, as the contracts see it.
    spec fn source_rank_spec(&self) -> Rank;

    /// `Rank` that identifies the source.
    fn source_rank(&self) -> (r: Rank)
        ensures
            r == self.source_rank_spec(),
    ;

    /// Probe the source for incoming messages with tag `tag`.
    ///
    /// The status it yields describes the incoming message, but does not guarantee its
    /// reception by a later receive; see `matched_probe`.
    fn probe_with_tag(&self, tag: Tag) -> (op: Operation)
        ensures
            op == (Operation::Probe {
                source: self.source_rank_spec(),
                tag,
                comm: self.communicator().raw,
            }),
    {
        Operation::Probe { source: self.source_rank(), tag, comm: self.as_communicator().raw }
    }

    /// Probe the source for incoming messages with any tag.
    fn probe(&self) -> (op: Operation)
        ensures
            op == (Operation::Probe {
                source: self.source_rank_spec(),
                tag: self.communicator().constants.any_tag,
                comm: self.communicator().raw,
            }),
    {
        let tag: Tag = self.as_communicator().constants.any_tag;
        self.probe_with_tag(tag)
    }

    /// Probe the source for incoming messages with tag `tag`, with guaranteed reception.
    ///
    /// The probe yields a `Message` which can and must subsequently be received.
    fn matched_probe_with_tag(&self, tag: Tag) -> (op: Operation)
        ensures
            op == (Operation::MatchedProbe {
                source: self.source_rank_spec(),
                tag,
                comm: self.communicator().raw,
            }),
    {
        Operation::MatchedProbe {
            source: self.source_rank(),
            tag,
            comm: self.as_communicator().raw,
        }
    }

    /// Probe the source for incoming messages with any tag, with guaranteed reception.
    fn matched_probe(&self) -> (op: Operation)
        ensures
            op == (Operation::MatchedProbe {
                source: self.source_rank_spec(),
                tag: self.communicator().constants.any_tag,
                comm: self.communicator().raw,
            }),
    {
        let tag: Tag = self.as_communicator().constants.any_tag;
        self.matched_probe_with_tag(tag)
    }

    /// The message and the status that a matched probe of this source reported.
    fn matched_probe_outcome(&self, message: RawMessage, status: RawStatus) -> (r: (
        Message,
        Status,
    ))
        ensures
            r.0@ == message,
            r.0.constants() == self.communicator().constants,
            r.1@ == status,
    {
        let constants: Constants = self.as_communicator().constants;
        (Message { raw: message, constants }, Status::from_raw(status))
    }

    /// Receive a message from the source, tagged `tag`, containing a single element of
    /// `datatype`.
    fn receive_with_tag(&self, datatype: Datatype, tag: Tag) -> (op: Operation)
        ensures
            op == (Operation::Receive {
                buf: BufferLayout { count: 1, datatype },
                source: self.source_rank_spec(),
                tag,
                comm: self.communicator().raw,
            }),
    {
        self.receive_into_with_tag(BufferLayout::single(datatype), tag)
    }

    /// Receive a message from the source, with any tag, containing a single element of
    /// `datatype`.
    fn receive(&self, datatype: Datatype) -> (op: Operation)
        ensures
            op == (Operation::Receive {
                buf: BufferLayout { count: 1, datatype },
                source: self.source_rank_spec(),
                tag: self.communicator().constants.any_tag,
                comm: self.communicator().raw,
            }),
    {
        let tag: Tag = self.as_communicator().constants.any_tag;
        self.receive_with_tag(datatype, tag)
    }

    /// Receive a message from the source, tagged `tag`, into a buffer laid out as `buf`.
    fn receive_into_with_tag(&self, buf: BufferLayout, tag: Tag) -> (op: Operation)
        ensures
            op == (Operation::Receive {
                buf,
                source: self.source_rank_spec(),
                tag,
                comm: self.communicator().raw,
            }),
    {
        Operation::Receive { buf, source: self.source_rank(), tag, comm: self.as_communicator().raw }
    }

    /// Receive a message from the source, with any tag, into a buffer laid out as `buf`.
    fn receive_into(&self, buf: BufferLayout) -> (op: Operation)
        ensures
            op == (Operation::Receive {
                buf,
                source: self.source_rank_spec(),
                tag: self.communicator().constants.any_tag,
                comm: self.communicator().raw,
            }),
    {
        let tag: Tag = self.as_communicator().constants.any_tag;
        self.receive_into_with_tag(buf, tag)
    }

    /// Receive a message from the source, tagged `tag`, containing any number of elements,
    /// into a `Vec`: it starts with a matched probe, whose outcome `matched_receive_vec`
    /// then receives.
    fn receive_vec_with_tag(&self, tag: Tag) -> (op: Operation)
        ensures
            op == (Operation::MatchedProbe {
                source: self.source_rank_spec(),
                tag,
                comm: self.communicator().raw,
            }),
    {
        self.matched_probe_with_tag(tag)
    }

    /// Receive a message from the source, with any tag, containing any number of elements,
    /// into a `Vec`.
    fn receive_vec(&self) -> (op: Operation)
        ensures
            op == (Operation::MatchedProbe {
                source: self.source_rank_spec(),
                tag: self.communicator().constants.any_tag,
                comm: self.communicator().raw,
            }),
    {
        let tag: Tag = self.as_communicator().constants.any_tag;
        self.receive_vec_with_tag(tag)
    }

    /// Start receiving a message tagged `tag` into a buffer laid out as `buf`.
    fn immediate_receive_into_with_tag(&self, buf: BufferLayout, tag: Tag) -> (op: Operation)
        ensures
            op == (Operation::ImmediateReceive {
                buf,
                source: self.source_rank_spec(),
                tag,
                comm: self.communicator().raw,
            }),
    {
        Operation::ImmediateReceive {
            buf,
            source: self.source_rank(),
            tag,
            comm: self.as_communicator().raw,
        }
    }

    /// Start receiving a message with any tag into a buffer laid out as `buf`.
    fn immediate_receive_into(&self, buf: BufferLayout) -> (op: Operation)
        ensures
            op == (Operation::ImmediateReceive {
                buf,
                source: self.source_rank_spec(),
                tag: self.communicator().constants.any_tag,
                comm: self.communicator().raw,
            }),
    {
        let tag: Tag = self.as_communicator().constants.any_tag;
        self.immediate_receive_into_with_tag(buf, tag)
    }

    /// Start receiving a message tagged `tag` that holds a single element of `datatype`;
    /// `ReceiveFuture::started` then holds the request.
    fn immediate_receive_with_tag(&self, datatype: Datatype, tag: Tag) -> (op: Operation)
        ensures
            op == (Operation::ImmediateReceive {
                buf: BufferLayout { count: 1, datatype },
                source: self.source_rank_spec(),
                tag,
                comm: self.communicator().raw,
            }),
    {
        self.immediate_receive_into_with_tag(BufferLayout::single(datatype), tag)
    }

    /// Start receiving a message with any tag that holds a single element of `datatype`.
    fn immediate_receive(&self, datatype: Datatype) -> (op: Operation)
        ensures
            op == (Operation::ImmediateReceive {
                buf: BufferLayout { count: 1, datatype },
                source: self.source_rank_spec(),
                tag: self.communicator().constants.any_tag,
                comm: self.communicator().raw,
            }),
    {
        let tag: Tag = self.as_communicator().constants.any_tag;
        self.immediate_receive_with_tag(datatype, tag)
    }

    /// Probe the source for incoming messages tagged `tag`; like `probe`, but reports at
    /// once whether there is a message.
    fn immediate_probe_with_tag(&self, tag: Tag) -> (op: Operation)
        ensures
            op == (Operation::ImmediateProbe {
                source: self.source_rank_spec(),
                tag,
                comm: self.communicator().raw,
            }),
    {
        Operation::ImmediateProbe {
            source: self.source_rank(),
            tag,
            comm: self.as_communicator().raw,
        }
    }

    /// Probe the source for incoming messages with any tag, reporting at once.
    fn immediate_probe(&self) -> (op: Operation)
        ensures
            op == (Operation::ImmediateProbe {
                source: self.source_rank_spec(),
                tag: self.communicator().constants.any_tag,
                comm: self.communicator().raw,
            }),
    {
        let tag: Tag = self.as_communicator().constants.any_tag;
        self.immediate_probe_with_tag(tag)
    }

    /// Matching probe of the source for incoming messages tagged `tag`; like
    /// `matched_probe`, but reports at once whether there is a message.
    fn immediate_matched_probe_with_tag(&self, tag: Tag) -> (op: Operation)
        ensures
            op == (Operation::ImmediateMatchedProbe {
                source: self.source_rank_spec(),
                tag,
                comm: self.communicator().raw,
            }),
    {
        Operation::ImmediateMatchedProbe {
            source: self.source_rank(),
            tag,
            comm: self.as_communicator().raw,
        }
    }

    /// Matching probe of the source for incoming messages with any tag, reporting at once.
    fn immediate_matched_probe(&self) -> (op: Operation)
        ensures
            op == (Operation::ImmediateMatchedProbe {
                source: self.source_rank_spec(),
                tag: self.communicator().constants.any_tag,
                comm: self.communicator().raw,
            }),
    {
        let tag: Tag = self.as_communicator().constants.any_tag;
        self.immediate_matched_probe_with_tag(tag)
    }

    /// What an immediate matched probe of this source reported: a message and its status
    /// where the flag is set, nothing otherwise.
    fn immediate_matched_probe_outcome(
        &self,
        flag: i32,
        message: RawMessage,
        status: RawStatus,
    ) -> (r: Option<(Message, Status)>)
        ensures
            r is Some <==> flag != 0,
            r matches Some(p) ==> {
                &&& p.0@ == message
                &&& p.0.constants() == self.communicator().constants
                &&& p.1@ == status
            },
    {
        if flag != 0 {
            Some(self.matched_probe_outcome(message, status))
        } else {
            None
        }
    }
}

/// What an immediate probe reported: the status where the flag is set, nothing otherwise.
pub fn immediate_probe_outcome(flag: i32, status: RawStatus) -> (r: Option<Status>)
    ensures
        r is Some <==> flag != 0,
        r matches Some(s) ==> s@ == status,
{
    if flag != 0 {
        Some(Status::from_raw(status))
    } else {
        None
    }
}

impl Source for AnyProcess {
    open spec fn source_rank_spec(&self) -> Rank {
        self.communicator().constants.any_source
    }

    fn source_rank(&self) -> (r: Rank)
        ensures
            r == self.communicator().constants.any_source,
    {
        self.as_communicator().constants.any_source
    }
}

impl Source for Process {
    open spec fn source_rank_spec(&self) -> Rank {
        self.rank_spec()
    }

    fn source_rank(&self) -> (r: Rank)
        ensures
            r == self.rank_spec(),
    {
        self.rank()
    }
}

/// A process as a source is identified by its own rank, and any process by the source rank
/// that matches every process of its communicator; neither depends on the other's value.
pub proof fn law_source_ranks(p: Process, any: AnyProcess)
    ensures
        p.source_rank_spec() == p.rank_spec(),
        any.source_rank_spec() == any.communicator().constants.any_source,
{
}

// ---------------------------------------------------------------------------------------
// Destination
// ---------------------------------------------------------------------------------------

/// Something that can be used as the destination in a point to point send operation;
/// a `Process` as destination sends data to that specific process.
pub trait Destination: AsCommunicator {
    /// The rank, as the contracts see it.
    spec fn destination_rank_spec(&self) -> Rank;

    /// `Rank` that identifies the destination.
    fn destination_rank(&self) -> (r: Rank)
        ensures
            r == self.destination_rank_spec(),
    ;

    /// The send of a buffer laid out as `buf` to this destination, in mode `mode` and
    /// tagged `tag`, blocking or not.
    fn send_operation(&self, immediate: bool, mode: SendMode, buf: BufferLayout, tag: Tag) -> (op:
        Operation)
        ensures
            op == (if immediate {
                Operation::ImmediateSend {
                    mode,
                    buf,
                    destination: self.destination_rank_spec(),
                    tag,
                    comm: self.communicator().raw,
                }
            } else {
                Operation::Send {
                    mode,
                    buf,
                    destination: self.destination_rank_spec(),
                    tag,
                    comm: self.communicator().raw,
                }
            }),
    {
        let destination: Rank = self.destination_rank();
        let comm: RawComm = self.as_communicator().raw;
        if immediate {
            Operation::ImmediateSend { mode, buf, destination, tag, comm }
        } else {
            Operation::Send { mode, buf, destination, tag, comm }
        }
    }

    /// Blocking standard mode send of a buffer laid out as `buf`, tagged `tag`.
    fn send_with_tag(&self, buf: BufferLayout, tag: Tag) -> (op: Operation)
        ensures
            op == (Operation::Send {
                mode: SendMode::Standard,
                buf,
                destination: self.destination_rank_spec(),
                tag,
                comm: self.communicator().raw,
            }),
    {
        self.send_operation(false, SendMode::Standard, buf, tag)
    }

    /// Blocking standard mode send of a buffer laid out as `buf`, with the default tag.
    fn send(&self, buf: BufferLayout) -> (op: Operation)
        ensures
            op == (Operation::Send {
                mode: SendMode::Standard,
                buf,
                destination: self.destination_rank_spec(),
                tag: DEFAULT_TAG,
                comm: self.communicator().raw,
            }),
    {
        self.send_with_tag(buf, DEFAULT_TAG)
    }

    /// Blocking buffered mode send of a buffer laid out as `buf`, tagged `tag`.
    fn buffered_send_with_tag(&self, buf: BufferLayout, tag: Tag) -> (op: Operation)
        ensures
            op == (Operation::Send {
                mode: SendMode::Buffered,
                buf,
                destination: self.destination_rank_spec(),
                tag,
                comm: self.communicator().raw,
            }),
    {
        self.send_operation(false, SendMode::Buffered, buf, tag)
    }

    /// Blocking buffered mode send of a buffer laid out as `buf`, with the default tag.
    fn buffered_send(&self, buf: BufferLayout) -> (op: Operation)
        ensures
            op == (Operation::Send {
                mode: SendMode::Buffered,
                buf,
                destination: self.destination_rank_spec(),
                tag: DEFAULT_TAG,
                comm: self.communicator().raw,
            }),
    {
        self.buffered_send_with_tag(buf, DEFAULT_TAG)
    }

    /// Blocking synchronous mode send of a buffer laid out as `buf`, tagged `tag`;
    /// completes only once the matching receive operation has started.
    fn synchronous_send_with_tag(&self, buf: BufferLayout, tag: Tag) -> (op: Operation)
        ensures
            op == (Operation::Send {
                mode: SendMode::Synchronous,
                buf,
                destination: self.destination_rank_spec(),
                tag,
                comm: self.communicator().raw,
            }),
    {
        self.send_operation(false, SendMode::Synchronous, buf, tag)
    }

    /// Blocking synchronous mode send of a buffer laid out as `buf`, with the default tag.
    fn synchronous_send(&self, buf: BufferLayout) -> (op: Operation)
        ensures
            op == (Operation::Send {
                mode: SendMode::Synchronous,
                buf,
                destination: self.destination_rank_spec(),
                tag: DEFAULT_TAG,
                comm: self.communicator().raw,
            }),
    {
        self.synchronous_send_with_tag(buf, DEFAULT_TAG)
    }

    /// Blocking ready mode send of a buffer laid out as `buf`, tagged `tag`; fails if the
    /// matching receive operation has not been posted.
    fn ready_send_with_tag(&self, buf: BufferLayout, tag: Tag) -> (op: Operation)
        ensures
            op == (Operation::Send {
                mode: SendMode::Ready,
                buf,
                destination: self.destination_rank_spec(),
                tag,
                comm: self.communicator().raw,
            }),
    {
        self.send_operation(false, SendMode::Ready, buf, tag)
    }

    /// Blocking ready mode send of a buffer laid out as `buf`, with the default tag.
    fn ready_send(&self, buf: BufferLayout) -> (op: Operation)
        ensures
            op == (Operation::Send {
                mode: SendMode::Ready,
                buf,
                destination: self.destination_rank_spec(),
                tag: DEFAULT_TAG,
                comm: self.communicator().raw,
            }),
    {
        self.ready_send_with_tag(buf, DEFAULT_TAG)
    }

    /// Start of a standard mode send of a buffer laid out as `buf`, tagged `tag`.
    fn immediate_send_with_tag(&self, buf: BufferLayout, tag: Tag) -> (op: Operation)
        ensures
            op == (Operation::ImmediateSend {
                mode: SendMode::Standard,
                buf,
                destination: self.destination_rank_spec(),
                tag,
                comm: self.communicator().raw,
            }),
    {
        self.send_operation(true, SendMode::Standard, buf, tag)
    }

    /// Start of a standard mode send of a buffer laid out as `buf`, with the default tag.
    fn immediate_send(&self, buf: BufferLayout) -> (op: Operation)
        ensures
            op == (Operation::ImmediateSend {
                mode: SendMode::Standard,
                buf,
                destination: self.destination_rank_spec(),
                tag: DEFAULT_TAG,
                comm: self.communicator().raw,
            }),
    {
        self.immediate_send_with_tag(buf, DEFAULT_TAG)
    }

    /// Start of a buffered mode send of a buffer laid out as `buf`, tagged `tag`.
    fn immediate_buffered_send_with_tag(&self, buf: BufferLayout, tag: Tag) -> (op: Operation)
        ensures
            op == (Operation::ImmediateSend {
                mode: SendMode::Buffered,
                buf,
                destination: self.destination_rank_spec(),
                tag,
                comm: self.communicator().raw,
            }),
    {
        self.send_operation(true, SendMode::Buffered, buf, tag)
    }

    /// Start of a buffered mode send of a buffer laid out as `buf`, with the default tag.
    fn immediate_buffered_send(&self, buf: BufferLayout) -> (op: Operation)
        ensures
            op == (Operation::ImmediateSend {
                mode: SendMode::Buffered,
                buf,
                destination: self.destination_rank_spec(),
                tag: DEFAULT_TAG,
                comm: self.communicator().raw,
            }),
    {
        self.immediate_buffered_send_with_tag(buf, DEFAULT_TAG)
    }

    /// Start of a synchronous mode send of a buffer laid out as `buf`, tagged `tag`.
    fn immediate_synchronous_send_with_tag(&self, buf: BufferLayout, tag: Tag) -> (op:
        Operation)
        ensures
            op == (Operation::ImmediateSend {
                mode: SendMode::Synchronous,
                buf,
                destination: self.destination_rank_spec(),
                tag,
                comm: self.communicator().raw,
            }),
    {
        self.send_operation(true, SendMode::Synchronous, buf, tag)
    }

    /// Start of a synchronous mode send of a buffer laid out as `buf`, with the default
    /// tag.
    fn immediate_synchronous_send(&self, buf: BufferLayout) -> (op: Operation)
        ensures
            op == (Operation::ImmediateSend {
                mode: SendMode::Synchronous,
                buf,
                destination: self.destination_rank_spec(),
                tag: DEFAULT_TAG,
                comm: self.communicator().raw,
            }),
    {
        self.immediate_synchronous_send_with_tag(buf, DEFAULT_TAG)
    }

    /// Start of a ready mode send of a buffer laid out as `buf`, tagged `tag`.
    fn immediate_ready_send_with_tag(&self, buf: BufferLayout, tag: Tag) -> (op: Operation)
        ensures
            op == (Operation::ImmediateSend {
                mode: SendMode::Ready,
                buf,
                destination: self.destination_rank_spec(),
                tag,
                comm: self.communicator().raw,
            }),
    {
        self.send_operation(true, SendMode::Ready, buf, tag)
    }

    /// Start of a ready mode send of a buffer laid out as `buf`, with the default tag.
    fn immediate_ready_send(&self, buf: BufferLayout) -> (op: Operation)
        ensures
            op == (Operation::ImmediateSend {
                mode: SendMode::Ready,
                buf,
                destination: self.destination_rank_spec(),
                tag: DEFAULT_TAG,
                comm: self.communicator().raw,
            }),
    {
        self.immediate_ready_send_with_tag(buf, DEFAULT_TAG)
    }
}

impl Destination for Process {
    open spec fn destination_rank_spec(&self) -> Rank {
        self.rank_spec()
    }

    fn destination_rank(&self) -> (r: Rank)
        ensures
            r == self.rank_spec(),
    {
        self.rank()
    }
}

/// A process as a destination is identified by its own rank, and it is the same rank by
/// which it is identified as a source.
pub proof fn law_destination_rank(p: Process)
    ensures
        p.destination_rank_spec() == p.rank_spec(),
        p.destination_rank_spec() == p.source_rank_spec(),
{
}

// ---------------------------------------------------------------------------------------
// Message
// ---------------------------------------------------------------------------------------

/// Describes a pending incoming message, probed by a matched probe. It can and must be
/// received once; receiving it sets its handle to the null message.
#[must_use]
#[derive(Debug)]
pub struct Message {
    raw: RawMessage,
    constants: Constants,
}

impl View for Message {
    type V = RawMessage;

    closed spec fn view(&self) -> RawMessage {
        self.raw
    }
}

impl Message {
    /// The special values of the implementation the message was probed with.
    pub closed spec fn constants(&self) -> Constants {
        self.constants
    }

    /// True if the `Source` for the probe was the null process.
    pub fn is_no_proc(&self) -> (b: bool)
        ensures
            b == (self@ == self.constants().message_no_proc),
    {
        self.raw == self.constants.message_no_proc
    }

    /// True once the message has been received, its handle the null message.
    pub fn is_received(&self) -> (b: bool)
        ensures
            b == (self@ == self.constants().message_null),
    {
        self.raw == self.constants.message_null
    }

    /// Receive the message, which contains a single element of `datatype`; the receive
    /// then completes with `received_single`, which refuses an empty message.
    pub fn matched_receive(&self, datatype: Datatype) -> (op: Operation)
        ensures
            op == (Operation::MatchedReceive {
                buf: BufferLayout { count: 1, datatype },
                message: self@,
            }),
    {
        self.matched_receive_into(BufferLayout::single(datatype))
    }

    /// Receive the message into a buffer laid out as `buf`.
    pub fn matched_receive_into(&self, buf: BufferLayout) -> (op: Operation)
        ensures
            op == (Operation::MatchedReceive { buf, message: self@ }),
    {
        Operation::MatchedReceive { buf, message: self.raw }
    }

    /// Start receiving the message into a buffer laid out as `buf`.
    pub fn immediate_matched_receive_into(&self, buf: BufferLayout) -> (op: Operation)
        ensures
            op == (Operation::ImmediateMatchedReceive { buf, message: self@ }),
    {
        Operation::ImmediateMatchedReceive { buf, message: self.raw }
    }

    /// The status of the completed receive of the message, which the receive has set to the
    /// null message; the message is used up.
    pub fn received(self, status: RawStatus) -> (s: Status)
        requires
            self@ == self.constants().message_null,
        ensures
            s@ == status,
    {
        Status::from_raw(status)
    }

    /// The status of the completed receive of the message, which holds a single element of
    /// `datatype`: the receive has set the message to the null message and must not have
    /// received an empty message; the message is used up.
    pub fn received_single(self, status: RawStatus, datatype: Datatype) -> (s: Status)
        requires
            self@ == self.constants().message_null,
            element_count(status.received_bytes, datatype.size) != Some(0 as Count),
        ensures
            s@ == status,
    {
        single_element_status(status, datatype)
    }

    /// The request of the receive of the message that has started, which has set the
    /// message to the null message; the message is used up.
    pub fn receive_started(self, request: RawRequest) -> (r: Request)
        requires
            self@ == self.constants().message_null,
        ensures
            r.raw_spec() == request,
    {
        Request::from_raw(request)
    }
}

impl AsRaw for Message {
    type Raw = RawMessage;

    open spec fn is_raw(&self, raw: RawMessage) -> bool {
        raw == self@
    }

    fn as_raw(&self) -> (r: RawMessage)
        ensures
            r == self@,
    {
        self.raw
    }
}

impl RawAccess for Message {
    open spec fn is_raw_mut(&self, raw: RawMessage) -> bool {
        raw == self@
    }
}

impl AsRawMut for Message {
    fn as_raw_mut(&mut self) -> (r: &mut RawMessage)
        ensures
            *r == old(self)@,
            final(self)@ == *final(r),
            final(self).constants() == old(self).constants(),
    {
        &mut self.raw
    }
}

// ---------------------------------------------------------------------------------------
// Receiving into a vector
// ---------------------------------------------------------------------------------------

/// The error of a count that no `usize` can hold.
#[derive(Clone, Copy, Debug, PartialEq, Eq, Structural)]
pub struct CountRangeError {
    pub count: Count,
}

/// The error of conv's exact conversions for a value below the target type's range.
#[verifier::external_type_specification]
#[verifier::external_body]
#[verifier::reject_recursive_types(T)]
pub struct ExNegOverflow<T>(NegOverflow<T>);

/// Calls `ConvUtil::value_as::<usize>` of the conv crate on a count. For `i32` into
/// `usize` conv's exact conversion fails with `NegOverflow(count)` exactly when the count
/// is negative, and otherwise returns the count unchanged.
#[verifier::external_body]
fn count_value_as_usize(count: Count) -> (r: Result<usize, NegOverflow<i32>>)
    ensures
        r is Ok <==> count >= 0,
        r matches Ok(n) ==> n == count,
{
    count.value_as::<usize>()
}

/// A count as a `usize`: an error for a negative count.
pub fn count_as_usize(count: Count) -> (r: Result<usize, CountRangeError>)
    ensures
        r is Ok <==> count >= 0,
        r matches Ok(n) ==> n == count,
        r matches Err(e) ==> e.count == count,
{
    match count_value_as_usize(count) {
        Ok(n) => Ok(n),
        Err(_) => Err(CountRangeError { count }),
    }
}

/// The receive of a matched message that holds any number of elements into a `Vec`.
#[derive(Clone, Copy, Debug, PartialEq, Eq, Structural)]
pub struct VecReceive {
    /// The number of elements the `Vec` must hold.
    pub len: usize,
    /// The receive of the message into the `Vec`.
    pub operation: Operation,
}

/// Receive a previously probed message containing any number of elements into a `Vec`.
pub trait MatchedReceiveVec {
    /// The number of elements of `datatype` the probed message holds, as the contracts
    /// see it.
    spec fn probed_count(&self, datatype: Datatype) -> Option<Count>;

    /// The message, as the contracts see it.
    spec fn probed_message(&self) -> RawMessage;

    /// The receive of the probed message, whose elements are of `datatype`, into a `Vec`
    /// of as many elements as the message holds.
    fn matched_receive_vec(&self, datatype: Datatype) -> (r: VecReceive)
        requires
            self.probed_count(datatype) is Some,
        ensures
            r.len == self.probed_count(datatype).unwrap(),
            r.operation == (Operation::MatchedReceive {
                buf: BufferLayout { count: self.probed_count(datatype).unwrap(), datatype },
                message: self.probed_message(),
            }),
    ;
}

impl MatchedReceiveVec for (Message, Status) {
    open spec fn probed_count(&self, datatype: Datatype) -> Option<Count> {
        element_count(self.1@.received_bytes, datatype.size)
    }

    open spec fn probed_message(&self) -> RawMessage {
        self.0@
    }

    fn matched_receive_vec(&self, datatype: Datatype) -> (r: VecReceive) {
        let count: Count = match self.1.count(datatype) {
            Some(c) => c,
            None => {
                proof {
                    assert(false);
                }
                0
            },
        };
        let len: usize = match count_as_usize(count) {
            Ok(n) => n,
            Err(_) => {
                proof {
                    assert(false);
                }
                0
            },
        };
        let buf: BufferLayout = BufferLayout { count, datatype };
        VecReceive { len, operation: self.0.matched_receive_into(buf) }
    }
}

// ---------------------------------------------------------------------------------------
// Send and receive at once
// ---------------------------------------------------------------------------------------

/// The send and receive at once of `send_receive_into_with_tags`: the contents of a buffer
/// laid out as `msg` go to `destination` tagged `sendtag`, and a message tagged
/// `receivetag` from `source` comes into a buffer laid out as `buf`.
pub open spec fn send_receive_into_with_tags_operation<D: Destination, S: Source>(
    msg: BufferLayout,
    destination: &D,
    sendtag: Tag,
    buf: BufferLayout,
    source: &S,
    receivetag: Tag,
) -> Operation {
    Operation::SendReceive {
        send_buf: msg,
        destination: destination.destination_rank_spec(),
        send_tag: sendtag,
        receive_buf: buf,
        source: source.source_rank_spec(),
        receive_tag: receivetag,
        comm: source.communicator().raw,
    }
}

/// The send and receive at once of `send_receive_into`: the default tag on the message
/// sent, any tag on the message received.
pub open spec fn send_receive_into_operation<D: Destination, S: Source>(
    msg: BufferLayout,
    destination: &D,
    buf: BufferLayout,
    source: &S,
) -> Operation {
    Operation::SendReceive {
        send_buf: msg,
        destination: destination.destination_rank_spec(),
        send_tag: DEFAULT_TAG,
        receive_buf: buf,
        source: source.source_rank_spec(),
        receive_tag: source.communicator().constants.any_tag,
        comm: source.communicator().raw,
    }
}

/// The send and receive at once of `send_receive_with_tags`: a single element of `msg`
/// sent, a single element of `received` received.
pub open spec fn send_receive_with_tags_operation<D: Destination, S: Source>(
    msg: Datatype,
    destination: &D,
    sendtag: Tag,
    source: &S,
    receivetag: Tag,
    received: Datatype,
) -> Operation {
    Operation::SendReceive {
        send_buf: BufferLayout { count: 1, datatype: msg },
        destination: destination.destination_rank_spec(),
        send_tag: sendtag,
        receive_buf: BufferLayout { count: 1, datatype: received },
        source: source.source_rank_spec(),
        receive_tag: receivetag,
        comm: source.communicator().raw,
    }
}

/// The send and receive at once of `send_receive`: single elements, the default tag on
/// the message sent, any tag on the message received.
pub open spec fn send_receive_operation<D: Destination, S: Source>(
    msg: Datatype,
    destination: &D,
    source: &S,
    received: Datatype,
) -> Operation {
    Operation::SendReceive {
        send_buf: BufferLayout { count: 1, datatype: msg },
        destination: destination.destination_rank_spec(),
        send_tag: DEFAULT_TAG,
        receive_buf: BufferLayout { count: 1, datatype: received },
        source: source.source_rank_spec(),
        receive_tag: source.communicator().constants.any_tag,
        comm: source.communicator().raw,
    }
}

/// The send and receive at once of `send_receive_replace_into_with_tags`: the contents
/// of a buffer laid out as `buf` go to `destination` tagged `sendtag`, and a message
/// tagged `receivetag` from `source` replaces them.
pub open spec fn send_receive_replace_into_with_tags_operation<D: Destination, S: Source>(
    buf: BufferLayout,
    destination: &D,
    sendtag: Tag,
    source: &S,
    receivetag: Tag,
) -> Operation {
    Operation::SendReceiveReplace {
        buf,
        destination: destination.destination_rank_spec(),
        send_tag: sendtag,
        source: source.source_rank_spec(),
        receive_tag: receivetag,
        comm: source.communicator().raw,
    }
}

/// The send and receive at once of `send_receive_replace_into`: the default tag on the
/// message sent, any tag on the message that replaces it.
pub open spec fn send_receive_replace_into_operation<D: Destination, S: Source>(
    buf: BufferLayout,
    destination: &D,
    source: &S,
) -> Operation {
    Operation::SendReceiveReplace {
        buf,
        destination: destination.destination_rank_spec(),
        send_tag: DEFAULT_TAG,
        source: source.source_rank_spec(),
        receive_tag: source.communicator().constants.any_tag,
        comm: source.communicator().raw,
    }
}

/// Whatever the tags and layouts, the send and receive at once into two buffers sends the
/// buffer laid out as `msg` to the destination's rank, tagged `sendtag`, and receives into
/// the buffer laid out as `buf` from the source's rank, tagged `receivetag`, on the
/// source's communicator.
pub proof fn law_send_receive_into_with_tags_arguments<D: Destination, S: Source>(
    msg: BufferLayout,
    destination: &D,
    sendtag: Tag,
    buf: BufferLayout,
    source: &S,
    receivetag: Tag,
)
    ensures
        send_receive_into_with_tags_operation(msg, destination, sendtag, buf, source, receivetag)
            matches Operation::SendReceive {
            send_buf: sb,
            destination: dr,
            send_tag: st,
            receive_buf: rb,
            source: sr,
            receive_tag: rt,
            comm: c,
        } && sb == msg && rb == buf && dr == destination.destination_rank_spec() && sr
            == source.source_rank_spec() && st == sendtag && rt == receivetag && c
            == source.communicator().raw,
{
}

/// Whatever the tags, the send and receive at once of single elements sends one element of
/// `msg` to the destination's rank, tagged `sendtag`, and receives one element of
/// `received` from the source's rank, tagged `receivetag`, on the source's communicator.
pub proof fn law_send_receive_with_tags_arguments<D: Destination, S: Source>(
    msg: Datatype,
    destination: &D,
    sendtag: Tag,
    source: &S,
    receivetag: Tag,
    received: Datatype,
)
    ensures
        send_receive_with_tags_operation(msg, destination, sendtag, source, receivetag, received)
            matches Operation::SendReceive {
            send_buf: sb,
            destination: dr,
            send_tag: st,
            receive_buf: rb,
            source: sr,
            receive_tag: rt,
            comm: c,
        } && sb.count == 1 && sb.datatype == msg && rb.count == 1 && rb.datatype == received
            && dr == destination.destination_rank_spec() && sr == source.source_rank_spec() && st
            == sendtag && rt == receivetag && c == source.communicator().raw,
{
}

/// Whatever the tags, the send and receive at once in one buffer sends the buffer laid out
/// as `buf` to the destination's rank, tagged `sendtag`, and replaces it with what comes
/// from the source's rank, tagged `receivetag`, on the source's communicator.
pub proof fn law_send_receive_replace_into_with_tags_arguments<D: Destination, S: Source>(
    buf: BufferLayout,
    destination: &D,
    sendtag: Tag,
    source: &S,
    receivetag: Tag,
)
    ensures
        send_receive_replace_into_with_tags_operation(buf, destination, sendtag, source, receivetag)
            matches Operation::SendReceiveReplace {
            buf: b,
            destination: dr,
            send_tag: st,
            source: sr,
            receive_tag: rt,
            comm: c,
        } && b == buf && dr == destination.destination_rank_spec() && sr
            == source.source_rank_spec() && st == sendtag && rt == receivetag && c
            == source.communicator().raw,
{
}

/// The untagged send and receive at once into two buffers sends the buffer laid out as
/// `msg` to the destination's rank with the default tag and receives into the buffer laid
/// out as `buf` from the source's rank with any tag.
pub proof fn law_send_receive_into_arguments<D: Destination, S: Source>(
    msg: BufferLayout,
    destination: &D,
    buf: BufferLayout,
    source: &S,
)
    ensures
        send_receive_into_operation(msg, destination, buf, source) matches Operation::SendReceive {
            send_buf: sb,
            destination: dr,
            send_tag: st,
            receive_buf: rb,
            source: sr,
            receive_tag: rt,
            comm: c,
        } && sb == msg && rb == buf && dr == destination.destination_rank_spec() && sr
            == source.source_rank_spec() && st == 0 && rt == source.communicator().constants.any_tag
            && c == source.communicator().raw,
{
}

/// The untagged send and receive at once of single elements sends one element of `msg` to
/// the destination's rank with the default tag and receives one element of `received` from
/// the source's rank with any tag.
pub proof fn law_send_receive_arguments<D: Destination, S: Source>(
    msg: Datatype,
    destination: &D,
    source: &S,
    received: Datatype,
)
    ensures
        send_receive_operation(msg, destination, source, received) matches Operation::SendReceive {
            send_buf: sb,
            destination: dr,
            send_tag: st,
            receive_buf: rb,
            source: sr,
            receive_tag: rt,
            comm: c,
        } && sb.count == 1 && sb.datatype == msg && rb.count == 1 && rb.datatype == received
            && dr == destination.destination_rank_spec() && sr == source.source_rank_spec() && st
            == 0 && rt == source.communicator().constants.any_tag && c == source.communicator().raw,
{
}

/// The untagged send and receive at once in one buffer sends the buffer laid out as `buf`
/// to the destination's rank with the default tag and replaces it with what comes from the
/// source's rank with any tag.
pub proof fn law_send_receive_replace_into_arguments<D: Destination, S: Source>(
    buf: BufferLayout,
    destination: &D,
    source: &S,
)
    ensures
        send_receive_replace_into_operation(buf, destination, source)
            matches Operation::SendReceiveReplace {
            buf: b,
            destination: dr,
            send_tag: st,
            source: sr,
            receive_tag: rt,
            comm: c,
        } && b == buf && dr == destination.destination_rank_spec() && sr
            == source.source_rank_spec() && st == 0 && rt == source.communicator().constants.any_tag
            && c == source.communicator().raw,
{
}

/// `send_receive` is `send_receive_with_tags` with the default tag on the message sent
/// and any tag on the message received.
pub proof fn law_send_receive_default_tags<D: Destination, S: Source>(
    msg: Datatype,
    destination: &D,
    source: &S,
    received: Datatype,
)
    ensures
        send_receive_operation(msg, destination, source, received)
            == send_receive_with_tags_operation(
            msg,
            destination,
            DEFAULT_TAG,
            source,
            source.communicator().constants.any_tag,
            received,
        ),
{
}

/// `send_receive_into` is `send_receive_into_with_tags` with the default tag on the
/// message sent and any tag on the message received.
pub proof fn law_send_receive_into_default_tags<D: Destination, S: Source>(
    msg: BufferLayout,
    destination: &D,
    buf: BufferLayout,
    source: &S,
)
    ensures
        send_receive_into_operation(msg, destination, buf, source)
            == send_receive_into_with_tags_operation(
            msg,
            destination,
            DEFAULT_TAG,
            buf,
            source,
            source.communicator().constants.any_tag,
        ),
{
}

/// `send_receive_replace_into` is `send_receive_replace_into_with_tags` with the default
/// tag on the message sent and any tag on the message that replaces it.
pub proof fn law_send_receive_replace_into_default_tags<D: Destination, S: Source>(
    buf: BufferLayout,
    destination: &D,
    source: &S,
)
    ensures
        send_receive_replace_into_operation(buf, destination, source)
            == send_receive_replace_into_with_tags_operation(
            buf,
            destination,
            DEFAULT_TAG,
            source,
            source.communicator().constants.any_tag,
        ),
{
}

/// Sends a single element of `msg` to `destination` tagged `sendtag` and at once
/// receives a single element of `received` tagged `receivetag` from `source`.
/// Source and destination must belong to one communicator.
pub fn send_receive_with_tags<D: Destination, S: Source>(
    msg: Datatype,
    destination: &D,
    sendtag: Tag,
    source: &S,
    receivetag: Tag,
    received: Datatype,
) -> (op: Operation)
    requires
        source.communicator().raw == destination.communicator().raw,
    ensures
        op == send_receive_with_tags_operation(
            msg,
            destination,
            sendtag,
            source,
            receivetag,
            received,
        ),
        op == (Operation::SendReceive {
            send_buf: BufferLayout { count: 1, datatype: msg },
            destination: destination.destination_rank_spec(),
            send_tag: sendtag,
            receive_buf: BufferLayout { count: 1, datatype: received },
            source: source.source_rank_spec(),
            receive_tag: receivetag,
            comm: source.communicator().raw,
        }),
{
    send_receive_into_with_tags(
        BufferLayout::single(msg),
        destination,
        sendtag,
        BufferLayout::single(received),
        source,
        receivetag,
    )
}

/// Sends a single element of `msg` to `destination` with the default tag and at once
/// receives a single element of `received` with any tag from `source`.
pub fn send_receive<D: Destination, S: Source>(
    msg: Datatype,
    destination: &D,
    source: &S,
    received: Datatype,
) -> (op: Operation)
    requires
        source.communicator().raw == destination.communicator().raw,
    ensures
        op == send_receive_operation(msg, destination, source, received),
        op == (Operation::SendReceive {
            send_buf: BufferLayout { count: 1, datatype: msg },
            destination: destination.destination_rank_spec(),
            send_tag: DEFAULT_TAG,
            receive_buf: BufferLayout { count: 1, datatype: received },
            source: source.source_rank_spec(),
            receive_tag: source.communicator().constants.any_tag,
            comm: source.communicator().raw,
        }),
{
    let any_tag: Tag = source.as_communicator().constants.any_tag;
    send_receive_with_tags(msg, destination, DEFAULT_TAG, source, any_tag, received)
}

/// Sends the contents of a buffer laid out as `msg` to `destination` tagged `sendtag` and
/// at once receives a message tagged `receivetag` from `source` into a buffer laid out as
/// `buf`. Source and destination must belong to one communicator.
pub fn send_receive_into_with_tags<D: Destination, S: Source>(
    msg: BufferLayout,
    destination: &D,
    sendtag: Tag,
    buf: BufferLayout,
    source: &S,
    receivetag: Tag,
) -> (op: Operation)
    requires
        source.communicator().raw == destination.communicator().raw,
    ensures
        op == send_receive_into_with_tags_operation(
            msg,
            destination,
            sendtag,
            buf,
            source,
            receivetag,
        ),
        op == (Operation::SendReceive {
            send_buf: msg,
            destination: destination.destination_rank_spec(),
            send_tag: sendtag,
            receive_buf: buf,
            source: source.source_rank_spec(),
            receive_tag: receivetag,
            comm: source.communicator().raw,
        }),
{
    Operation::SendReceive {
        send_buf: msg,
        destination: destination.destination_rank(),
        send_tag: sendtag,
        receive_buf: buf,
        source: source.source_rank(),
        receive_tag: receivetag,
        comm: source.as_communicator().raw,
    }
}

/// Sends the contents of a buffer laid out as `msg` to `destination` with the default
/// tag and at once receives a message with any tag from `source` into a buffer laid out
/// as `buf`.
pub fn send_receive_into<D: Destination, S: Source>(
    msg: BufferLayout,
    destination: &D,
    buf: BufferLayout,
    source: &S,
) -> (op: Operation)
    requires
        source.communicator().raw == destination.communicator().raw,
    ensures
        op == send_receive_into_operation(msg, destination, buf, source),
        op == (Operation::SendReceive {
            send_buf: msg,
            destination: destination.destination_rank_spec(),
            send_tag: DEFAULT_TAG,
            receive_buf: buf,
            source: source.source_rank_spec(),
            receive_tag: source.communicator().constants.any_tag,
            comm: source.communicator().raw,
        }),
{
    let any_tag: Tag = source.as_communicator().constants.any_tag;
    send_receive_into_with_tags(msg, destination, DEFAULT_TAG, buf, source, any_tag)
}

/// Sends the contents of a buffer laid out as `buf` to `destination` tagged `sendtag` and
/// at once receives a message tagged `receivetag` from `source`, which replaces the
/// contents of the buffer. Source and destination must belong to one communicator.
pub fn send_receive_replace_into_with_tags<D: Destination, S: Source>(
    buf: BufferLayout,
    destination: &D,
    sendtag: Tag,
    source: &S,
    receivetag: Tag,
) -> (op: Operation)
    requires
        source.communicator().raw == destination.communicator().raw,
    ensures
        op == send_receive_replace_into_with_tags_operation(
            buf,
            destination,
            sendtag,
            source,
            receivetag,
        ),
        op == (Operation::SendReceiveReplace {
            buf: buf,
            destination: destination.destination_rank_spec(),
            send_tag: sendtag,
            source: source.source_rank_spec(),
            receive_tag: receivetag,
            comm: source.communicator().raw,
        }),
{
    Operation::SendReceiveReplace {
        buf,
        destination: destination.destination_rank(),
        send_tag: sendtag,
        source: source.source_rank(),
        receive_tag: receivetag,
        comm: source.as_communicator().raw,
    }
}

/// Sends the contents of a buffer laid out as `buf` to `destination` with the default tag
/// and at once receives a message with any tag from `source`, which replaces the contents
/// of the buffer.
pub fn send_receive_replace_into<D: Destination, S: Source>(
    buf: BufferLayout,
    destination: &D,
    source: &S,
) -> (op: Operation)
    requires
        source.communicator().raw == destination.communicator().raw,
    ensures
        op == send_receive_replace_into_operation(buf, destination, source),
        op == (Operation::SendReceiveReplace {
            buf: buf,
            destination: destination.destination_rank_spec(),
            send_tag: DEFAULT_TAG,
            source: source.source_rank_spec(),
            receive_tag: source.communicator().constants.any_tag,
            comm: source.communicator().raw,
        }),
{
    let any_tag: Tag = source.as_communicator().constants.any_tag;
    send_receive_replace_into_with_tags(buf, destination, DEFAULT_TAG, source, any_tag)
}

// ---------------------------------------------------------------------------------------
// ReceiveFuture
// ---------------------------------------------------------------------------------------

/// A started receive of a single element of a datatype, which will yield that element.
#[must_use]
#[derive(Debug)]
pub struct ReceiveFuture {
    datatype: Datatype,
    request: Request,
}

impl ReceiveFuture {
    /// The datatype of the element, as the contracts see it.
    pub closed spec fn datatype_spec(&self) -> Datatype {
        self.datatype
    }

    /// The request of the receive, as the contracts see it.
    pub closed spec fn request_spec(&self) -> RawRequest {
        self.request.raw_spec()
    }

    /// The future of a receive of a single element of `datatype`, started as `request`.
    pub fn started(datatype: Datatype, request: RawRequest) -> (f: ReceiveFuture)
        ensures
            f.datatype_spec() == datatype,
            f.request_spec() == request,
    {
        ReceiveFuture { datatype, request: Request::from_raw(request) }
    }

    /// The request of the receive, to wait for or to test.
    pub fn request(&self) -> (r: &Request)
        ensures
            r.raw_spec() == self.request_spec(),
    {
        &self.request
    }

    /// The status of the finished receive: the receive must not have received an empty
    /// message.
    pub fn get(self, status: RawStatus) -> (s: Status)
        requires
            element_count(status.received_bytes, self.datatype_spec().size) != Some(0 as Count),
        ensures
            s@ == status,
    {
        single_element_status(status, self.datatype)
    }

    /// What a test of the request reported: the status where the receive has finished,
    /// which must not have received an empty message; otherwise the future itself, with
    /// the request that the test handed back.
    pub fn try_get(self, tested: Result<RawStatus, RawRequest>) -> (r: Result<Status, ReceiveFuture>)
        requires
            tested matches Ok(status) ==> element_count(
                status.received_bytes,
                self.datatype_spec().size,
            ) != Some(0 as Count),
        ensures
            r is Ok <==> tested is Ok,
            r matches Ok(s) ==> tested matches Ok(status) && s@ == status,
            r matches Err(f) ==> tested matches Err(request) && f.request_spec() == request
                && f.datatype_spec() == self.datatype_spec(),
    {
        match tested {
            Ok(status) => Ok(single_element_status(status, self.datatype)),
            Err(request) => Err(ReceiveFuture::started(self.datatype, request)),
        }
    }
}

} // verus!
