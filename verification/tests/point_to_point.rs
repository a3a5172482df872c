use mpi::{
    AnyProcess, AsCommunicator, AsRaw, AsRawMut, BufferLayout, Communicator, Constants,
    CountRangeError, Datatype, Destination, MatchedReceiveVec, Message, Operation, Process,
    RawStatus, ReceiveFuture, SendMode, Source, Status, VecReceive, DEFAULT_TAG,
};
use mpi::{
    count_as_usize, immediate_probe_outcome, send_receive, send_receive_into,
    send_receive_into_with_tags, send_receive_replace_into, send_receive_replace_into_with_tags,
    send_receive_with_tags, single_element_status,
};

const ANY_SOURCE: i32 = -2;
const ANY_TAG: i32 = -1;
const MESSAGE_NULL: u64 = 0x2c00_0000;
const MESSAGE_NO_PROC: u64 = 0x6c00_0000;

fn constants() -> Constants {
    Constants {
        any_source: ANY_SOURCE,
        any_tag: ANY_TAG,
        message_null: MESSAGE_NULL,
        message_no_proc: MESSAGE_NO_PROC,
    }
}

fn world() -> Communicator {
    Communicator { raw: 0x4400_0000, constants: constants() }
}

fn int_type() -> Datatype {
    Datatype { raw: 0x4c00_0405, size: 4 }
}

fn double_type() -> Datatype {
    Datatype { raw: 0x4c00_080b, size: 8 }
}

fn raw_status(source: i32, tag: i32, received_bytes: u64) -> RawStatus {
    RawStatus { source, tag, error: 0, received_bytes }
}

fn probed(message: u64, received_bytes: u64) -> (Message, Status) {
    Process::new(world(), 3).matched_probe_outcome(message, raw_status(3, 7, received_bytes))
}

#[test]
fn process_is_identified_by_its_rank() {
    let p = Process::new(world(), 5);
    assert_eq!(p.rank(), 5);
    assert_eq!(p.source_rank(), 5);
    assert_eq!(p.destination_rank(), 5);
    assert_eq!(p.as_communicator(), world());
}

#[test]
fn any_process_matches_any_source() {
    let any = AnyProcess::new(world());
    assert_eq!(any.source_rank(), ANY_SOURCE);
    assert_eq!(any.as_communicator().as_raw(), 0x4400_0000);
}

#[test]
fn probe_with_tag_names_source_tag_and_communicator() {
    let p = Process::new(world(), 2);
    assert_eq!(p.probe_with_tag(9), Operation::Probe { source: 2, tag: 9, comm: 0x4400_0000 });
}

#[test]
fn untagged_probes_match_any_tag() {
    let any = AnyProcess::new(world());
    assert_eq!(any.probe(), Operation::Probe { source: ANY_SOURCE, tag: ANY_TAG, comm: 0x4400_0000 });
    assert_eq!(
        any.matched_probe(),
        Operation::MatchedProbe { source: ANY_SOURCE, tag: ANY_TAG, comm: 0x4400_0000 }
    );
    assert_eq!(
        any.immediate_probe(),
        Operation::ImmediateProbe { source: ANY_SOURCE, tag: ANY_TAG, comm: 0x4400_0000 }
    );
    assert_eq!(
        any.immediate_matched_probe(),
        Operation::ImmediateMatchedProbe { source: ANY_SOURCE, tag: ANY_TAG, comm: 0x4400_0000 }
    );
}

#[test]
fn tagged_probes() {
    let p = Process::new(world(), 1);
    assert_eq!(p.matched_probe_with_tag(4), Operation::MatchedProbe { source: 1, tag: 4, comm: 0x4400_0000 });
    assert_eq!(p.immediate_probe_with_tag(4), Operation::ImmediateProbe { source: 1, tag: 4, comm: 0x4400_0000 });
    assert_eq!(
        p.immediate_matched_probe_with_tag(4),
        Operation::ImmediateMatchedProbe { source: 1, tag: 4, comm: 0x4400_0000 }
    );
}

#[test]
fn receive_of_a_single_element() {
    let p = Process::new(world(), 1);
    let single = BufferLayout { count: 1, datatype: int_type() };
    assert_eq!(
        p.receive_with_tag(int_type(), 3),
        Operation::Receive { buf: single, source: 1, tag: 3, comm: 0x4400_0000 }
    );
    assert_eq!(
        p.receive(int_type()),
        Operation::Receive { buf: single, source: 1, tag: ANY_TAG, comm: 0x4400_0000 }
    );
}

#[test]
fn receive_into_a_buffer() {
    let any = AnyProcess::new(world());
    let buf = BufferLayout { count: 10, datatype: double_type() };
    assert_eq!(
        any.receive_into_with_tag(buf, 12),
        Operation::Receive { buf, source: ANY_SOURCE, tag: 12, comm: 0x4400_0000 }
    );
    assert_eq!(
        any.receive_into(buf),
        Operation::Receive { buf, source: ANY_SOURCE, tag: ANY_TAG, comm: 0x4400_0000 }
    );
}

#[test]
fn receive_vec_starts_with_a_matched_probe() {
    let p = Process::new(world(), 6);
    assert_eq!(p.receive_vec_with_tag(8), p.matched_probe_with_tag(8));
    assert_eq!(p.receive_vec(), p.matched_probe());
}

#[test]
fn immediate_receives() {
    let p = Process::new(world(), 2);
    let buf = BufferLayout { count: 3, datatype: int_type() };
    let single = BufferLayout { count: 1, datatype: double_type() };
    assert_eq!(
        p.immediate_receive_into_with_tag(buf, 5),
        Operation::ImmediateReceive { buf, source: 2, tag: 5, comm: 0x4400_0000 }
    );
    assert_eq!(
        p.immediate_receive_into(buf),
        Operation::ImmediateReceive { buf, source: 2, tag: ANY_TAG, comm: 0x4400_0000 }
    );
    assert_eq!(
        p.immediate_receive_with_tag(double_type(), 5),
        Operation::ImmediateReceive { buf: single, source: 2, tag: 5, comm: 0x4400_0000 }
    );
    assert_eq!(
        p.immediate_receive(double_type()),
        Operation::ImmediateReceive { buf: single, source: 2, tag: ANY_TAG, comm: 0x4400_0000 }
    );
}

#[test]
fn untagged_sends_use_the_default_tag() {
    let p = Process::new(world(), 1);
    let buf = BufferLayout { count: 3, datatype: double_type() };
    let send = |mode| Operation::Send { mode, buf, destination: 1, tag: DEFAULT_TAG, comm: 0x4400_0000 };
    assert_eq!(DEFAULT_TAG, 0);
    assert_eq!(p.send(buf), send(SendMode::Standard));
    assert_eq!(p.buffered_send(buf), send(SendMode::Buffered));
    assert_eq!(p.synchronous_send(buf), send(SendMode::Synchronous));
    assert_eq!(p.ready_send(buf), send(SendMode::Ready));
}

#[test]
fn tagged_sends_carry_their_tag_and_mode() {
    let p = Process::new(world(), 4);
    let buf = BufferLayout { count: 2, datatype: int_type() };
    let send = |mode| Operation::Send { mode, buf, destination: 4, tag: 11, comm: 0x4400_0000 };
    assert_eq!(p.send_with_tag(buf, 11), send(SendMode::Standard));
    assert_eq!(p.buffered_send_with_tag(buf, 11), send(SendMode::Buffered));
    assert_eq!(p.synchronous_send_with_tag(buf, 11), send(SendMode::Synchronous));
    assert_eq!(p.ready_send_with_tag(buf, 11), send(SendMode::Ready));
}

#[test]
fn immediate_sends() {
    let p = Process::new(world(), 4);
    let buf = BufferLayout { count: 2, datatype: int_type() };
    let start = |mode, tag| Operation::ImmediateSend { mode, buf, destination: 4, tag, comm: 0x4400_0000 };
    assert_eq!(p.immediate_send_with_tag(buf, 11), start(SendMode::Standard, 11));
    assert_eq!(p.immediate_buffered_send_with_tag(buf, 11), start(SendMode::Buffered, 11));
    assert_eq!(p.immediate_synchronous_send_with_tag(buf, 11), start(SendMode::Synchronous, 11));
    assert_eq!(p.immediate_ready_send_with_tag(buf, 11), start(SendMode::Ready, 11));
    assert_eq!(p.immediate_send(buf), start(SendMode::Standard, 0));
    assert_eq!(p.immediate_buffered_send(buf), start(SendMode::Buffered, 0));
    assert_eq!(p.immediate_synchronous_send(buf), start(SendMode::Synchronous, 0));
    assert_eq!(p.immediate_ready_send(buf), start(SendMode::Ready, 0));
    assert_eq!(p.send_operation(true, SendMode::Ready, buf, 11), start(SendMode::Ready, 11));
}

#[test]
fn status_reports_source_and_tag() {
    let s = Status::from_raw(raw_status(3, 17, 8));
    assert_eq!(s.source_rank(), 3);
    assert_eq!(s.tag(), 17);
}

#[test]
fn status_count_divides_received_bytes() {
    let s = Status::from_raw(raw_status(0, 0, 24));
    assert_eq!(s.count(int_type()), Some(6));
    assert_eq!(s.count(double_type()), Some(3));
    assert_eq!(s.count(Datatype { raw: 1, size: 5 }), None);
    assert_eq!(s.count(Datatype { raw: 1, size: 0 }), Some(0));
}

#[test]
fn status_count_too_large_for_a_count_is_missing() {
    let s = Status::from_raw(raw_status(0, 0, 1u64 << 40));
    assert_eq!(s.count(Datatype { raw: 1, size: 1 }), None);
    assert_eq!(s.count(Datatype { raw: 1, size: 1024 }), Some(1 << 30));
}

#[test]
fn status_describes_source_and_tag() {
    assert_eq!(Status::from_raw(raw_status(1, 42, 0)).describe(), "Status { source_rank: 1, tag: 42 }");
    assert_eq!(Status::from_raw(raw_status(0, -1, 0)).describe(), "Status { source_rank: 0, tag: -1 }");
    assert_eq!(
        Status::from_raw(raw_status(i32::MIN, i32::MAX, 0)).describe(),
        "Status { source_rank: -2147483648, tag: 2147483647 }"
    );
    assert_eq!(Status::from_raw(raw_status(10, 100, 0)).describe(), "Status { source_rank: 10, tag: 100 }");
}

#[test]
fn single_element_status_keeps_the_status() {
    let s = single_element_status(raw_status(2, 3, 4), int_type());
    assert_eq!(s.source_rank(), 2);
    assert_eq!(s.tag(), 3);
    assert_eq!(s.count(int_type()), Some(1));
}

#[test]
fn immediate_probe_reports_a_status_only_when_flagged() {
    assert!(immediate_probe_outcome(0, raw_status(1, 2, 3)).is_none());
    let s = immediate_probe_outcome(1, raw_status(1, 2, 3)).unwrap();
    assert_eq!((s.source_rank(), s.tag()), (1, 2));
}

#[test]
fn immediate_matched_probe_reports_a_message_only_when_flagged() {
    let p = Process::new(world(), 3);
    assert!(p.immediate_matched_probe_outcome(0, 77, raw_status(3, 1, 4)).is_none());
    let (message, status) = p.immediate_matched_probe_outcome(5, 77, raw_status(3, 1, 4)).unwrap();
    assert_eq!(message.as_raw(), 77);
    assert_eq!(status.tag(), 1);
    let mut message = message;
    *message.as_raw_mut() = MESSAGE_NULL;
    assert!(message.is_received());
    let _ = message.received(raw_status(3, 1, 4));
}

#[test]
fn matched_message_from_the_null_process() {
    let (message, _) = probed(MESSAGE_NO_PROC, 0);
    assert!(message.is_no_proc());
    assert!(!message.is_received());
    let (other, _) = probed(91, 0);
    assert!(!other.is_no_proc());
    let mut message = message;
    *message.as_raw_mut() = MESSAGE_NULL;
    let _ = message.received(raw_status(0, 0, 0));
    let mut other = other;
    *other.as_raw_mut() = MESSAGE_NULL;
    let _ = other.received(raw_status(0, 0, 0));
}

#[test]
fn matched_receive_addresses_the_probed_message() {
    let (mut message, _) = probed(91, 4);
    let buf = BufferLayout { count: 5, datatype: int_type() };
    assert_eq!(message.matched_receive_into(buf), Operation::MatchedReceive { buf, message: 91 });
    assert_eq!(
        message.matched_receive(int_type()),
        Operation::MatchedReceive { buf: BufferLayout { count: 1, datatype: int_type() }, message: 91 }
    );
    assert_eq!(
        message.immediate_matched_receive_into(buf),
        Operation::ImmediateMatchedReceive { buf, message: 91 }
    );
    *message.as_raw_mut() = MESSAGE_NULL;
    let status = message.received(raw_status(3, 7, 4));
    assert_eq!(status.source_rank(), 3);
}

#[test]
fn started_matched_receive_yields_its_request() {
    let (mut message, _) = probed(91, 4);
    *message.as_raw_mut() = MESSAGE_NULL;
    assert_eq!(message.receive_started(500).as_raw(), 500);
}

#[test]
fn matched_receive_vec_sizes_the_vector_by_the_count() {
    let pair = probed(55, 40);
    let r = pair.matched_receive_vec(int_type());
    assert_eq!(
        r,
        VecReceive {
            len: 10,
            operation: Operation::MatchedReceive {
                buf: BufferLayout { count: 10, datatype: int_type() },
                message: 55,
            },
        }
    );
    let (mut message, _) = pair;
    *message.as_raw_mut() = MESSAGE_NULL;
    let _ = message.received(raw_status(3, 7, 40));
}

#[test]
fn matched_receive_vec_of_an_empty_message() {
    let pair = probed(56, 0);
    assert_eq!(pair.matched_receive_vec(double_type()).len, 0);
    let (mut message, _) = pair;
    *message.as_raw_mut() = MESSAGE_NULL;
    let _ = message.received(raw_status(3, 7, 0));
}

#[test]
fn count_as_usize_refuses_negative_counts() {
    assert_eq!(count_as_usize(12), Ok(12));
    assert_eq!(count_as_usize(0), Ok(0));
    assert_eq!(count_as_usize(-32766), Err(CountRangeError { count: -32766 }));
}

#[test]
fn send_receive_with_tags_sends_and_receives_single_elements() {
    let dest = Process::new(world(), 1);
    let src = Process::new(world(), 2);
    assert_eq!(
        send_receive_with_tags(int_type(), &dest, 4, &src, 5, double_type()),
        Operation::SendReceive {
            send_buf: BufferLayout { count: 1, datatype: int_type() },
            destination: 1,
            send_tag: 4,
            receive_buf: BufferLayout { count: 1, datatype: double_type() },
            source: 2,
            receive_tag: 5,
            comm: 0x4400_0000,
        }
    );
}

#[test]
fn send_receive_uses_default_and_any_tag() {
    let dest = Process::new(world(), 1);
    let any = AnyProcess::new(world());
    assert_eq!(
        send_receive(int_type(), &dest, &any, int_type()),
        Operation::SendReceive {
            send_buf: BufferLayout { count: 1, datatype: int_type() },
            destination: 1,
            send_tag: 0,
            receive_buf: BufferLayout { count: 1, datatype: int_type() },
            source: ANY_SOURCE,
            receive_tag: ANY_TAG,
            comm: 0x4400_0000,
        }
    );
}

#[test]
fn send_receive_into_buffers() {
    let dest = Process::new(world(), 1);
    let src = Process::new(world(), 0);
    let out = BufferLayout { count: 4, datatype: int_type() };
    let into = BufferLayout { count: 6, datatype: double_type() };
    assert_eq!(
        send_receive_into_with_tags(out, &dest, 8, into, &src, 9),
        Operation::SendReceive {
            send_buf: out,
            destination: 1,
            send_tag: 8,
            receive_buf: into,
            source: 0,
            receive_tag: 9,
            comm: 0x4400_0000,
        }
    );
    assert_eq!(
        send_receive_into(out, &dest, into, &src),
        Operation::SendReceive {
            send_buf: out,
            destination: 1,
            send_tag: 0,
            receive_buf: into,
            source: 0,
            receive_tag: ANY_TAG,
            comm: 0x4400_0000,
        }
    );
}

#[test]
fn send_receive_replace_uses_one_buffer() {
    let dest = Process::new(world(), 1);
    let src = Process::new(world(), 0);
    let buf = BufferLayout { count: 4, datatype: int_type() };
    assert_eq!(
        send_receive_replace_into_with_tags(buf, &dest, 8, &src, 9),
        Operation::SendReceiveReplace { buf, destination: 1, send_tag: 8, source: 0, receive_tag: 9, comm: 0x4400_0000 }
    );
    assert_eq!(
        send_receive_replace_into(buf, &dest, &src),
        Operation::SendReceiveReplace { buf, destination: 1, send_tag: 0, source: 0, receive_tag: ANY_TAG, comm: 0x4400_0000 }
    );
}

#[test]
fn receive_future_get_yields_the_status() {
    let f = ReceiveFuture::started(int_type(), 900);
    assert_eq!(f.request().as_raw(), 900);
    let s = f.get(raw_status(5, 6, 4));
    assert_eq!((s.source_rank(), s.tag()), (5, 6));
}

#[test]
fn receive_future_try_get_hands_back_the_future_until_finished() {
    let f = ReceiveFuture::started(int_type(), 900);
    let f = match f.try_get(Err(901)) {
        Ok(_) => panic!("the receive has not finished"),
        Err(f) => f,
    };
    assert_eq!(f.request().as_raw(), 901);
    match f.try_get(Ok(raw_status(5, 6, 4))) {
        Ok(s) => assert_eq!(s.tag(), 6),
        Err(_) => panic!("the receive has finished"),
    }
}

#[test]
fn raw_values_reach_through_a_pointer() {
    let boxed = Box::new(world());
    assert_eq!(boxed.as_raw(), 0x4400_0000);
    let (message, _) = probed(91, 0);
    let mut boxed = Box::new(message);
    assert_eq!(boxed.as_raw(), 91);
    *boxed.as_raw_mut() = MESSAGE_NULL;
    assert!(boxed.is_received());
    let _ = (*boxed).received(raw_status(0, 0, 0));
}

#[test]
fn matched_receive_of_a_single_element_yields_its_status() {
    let (mut message, _) = probed(91, 4);
    assert_eq!(
        message.matched_receive(int_type()),
        Operation::MatchedReceive { buf: BufferLayout { count: 1, datatype: int_type() }, message: 91 }
    );
    *message.as_raw_mut() = MESSAGE_NULL;
    let status = message.received_single(raw_status(3, 7, 4), int_type());
    assert_eq!((status.source_rank(), status.tag()), (3, 7));
    assert_eq!(status.count(int_type()), Some(1));
}

#[test]
fn untagged_send_receive_is_tagged_with_default_and_any_tag() {
    let dest = Process::new(world(), 1);
    let src = Process::new(world(), 2);
    let out = BufferLayout { count: 4, datatype: int_type() };
    let into = BufferLayout { count: 2, datatype: double_type() };
    assert_eq!(
        send_receive(int_type(), &dest, &src, double_type()),
        send_receive_with_tags(int_type(), &dest, DEFAULT_TAG, &src, ANY_TAG, double_type())
    );
    assert_eq!(
        send_receive_into(out, &dest, into, &src),
        send_receive_into_with_tags(out, &dest, DEFAULT_TAG, into, &src, ANY_TAG)
    );
    assert_eq!(
        send_receive_replace_into(out, &dest, &src),
        send_receive_replace_into_with_tags(out, &dest, DEFAULT_TAG, &src, ANY_TAG)
    );
}

#[test]
fn a_reference_has_the_raw_value_of_its_referent() {
    let comm = world();
    let reference: &Communicator = &comm;
    assert_eq!((&reference).as_raw(), comm.as_raw());
    let (mut message, _) = probed(91, 0);
    assert_eq!((&&message).as_raw(), 91);
    *message.as_raw_mut() = MESSAGE_NULL;
    let _ = message.received(raw_status(0, 0, 0));
}
