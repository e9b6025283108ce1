use plumber_rs::arena::Handle;
use plumber_rs::host::{
    ask_accessor, ask_cntl, ask_define, ask_eof, ask_field_info, ask_instance_read, ask_log,
    ask_read, ask_released, ask_write, accessor_then, cntl_then, define_then, eof_then, field_info_then,
    instance_read_then, read_bytes_then, released_then, write_then, zeroed, ControlReply, FieldInfoReply, Host, PipeControl, ReadReply, HOST_FAILURE,
    NO_ACCESSOR, NO_PIPE, NO_TRANSFER,
};
use plumber_rs::log::LogRecord;
use plumber_rs::pipe::{
    control_outcome, eof_outcome, flags_outcome, has_flags, transfer_outcome, Pipe, PipeDescriptor,
    PipeError, PipeFlags, PIPE_ASYNC, PIPE_DISABLED, PIPE_INPUT, PIPE_OUTPUT, PIPE_PERSIST,
    PIPE_SHADOW,
};
use plumber_rs::protocol::PrimitiveTypeShape;

/// A host whose answers are set by the test and which records what it was
/// asked.
struct FakeHost {
    define_reply: Option<PipeDescriptor>,
    defined: Vec<(Option<Vec<u8>>, PipeFlags, Option<Vec<u8>>)>,
    read_reply: Option<usize>,
    read_data: Vec<u8>,
    write_reply: Option<usize>,
    written: Vec<(PipeDescriptor, Vec<u8>)>,
    eof_reply: Option<i32>,
    has_cntl: bool,
    cntl_status: i32,
    flags: PipeFlags,
    state: u64,
    requests: Vec<(PipeDescriptor, PipeControl)>,
    released: Vec<u64>,
}

impl FakeHost {
    fn new() -> FakeHost {
        FakeHost {
            define_reply: Some(7),
            defined: Vec::new(),
            read_reply: Some(0),
            read_data: Vec::new(),
            write_reply: Some(0),
            written: Vec::new(),
            eof_reply: Some(0),
            has_cntl: true,
            cntl_status: 0,
            flags: 0,
            state: 0,
            requests: Vec::new(),
            released: Vec::new(),
        }
    }
}

impl Host for FakeHost {
    fn pipe_define(
        &mut self,
        name: Option<&Vec<u8>>,
        flags: PipeFlags,
        type_expr: Option<&Vec<u8>>,
    ) -> Option<PipeDescriptor> {
        self.defined.push((name.cloned(), flags, type_expr.cloned()));
        self.define_reply
    }

    fn pipe_read(&mut self, _pipe: PipeDescriptor, buf: &mut [u8]) -> Option<usize> {
        let n = self.read_data.len().min(buf.len());
        buf[..n].copy_from_slice(&self.read_data[..n]);
        self.read_reply
    }

    fn pipe_write(&mut self, pipe: PipeDescriptor, data: &[u8]) -> Option<usize> {
        self.written.push((pipe, data.to_vec()));
        self.write_reply
    }

    fn pipe_eof(&mut self, _pipe: PipeDescriptor) -> Option<i32> {
        self.eof_reply
    }

    fn pipe_cntl(&mut self, pipe: PipeDescriptor, request: PipeControl) -> Option<ControlReply> {
        self.requests.push((pipe, request));
        if !self.has_cntl {
            return None;
        }
        if self.cntl_status == HOST_FAILURE {
            return Some(ControlReply { status: HOST_FAILURE, flags: 0, state: 0 });
        }
        match request {
            PipeControl::GetFlags => Some(ControlReply { status: 0, flags: self.flags, state: 0 }),
            PipeControl::SetFlag(f) => {
                self.flags |= f;
                Some(ControlReply { status: 0, flags: 0, state: 0 })
            }
            PipeControl::ClearFlag(f) => {
                self.flags &= !f;
                Some(ControlReply { status: 0, flags: 0, state: 0 })
            }
            PipeControl::PushState(word) => {
                self.state = word;
                Some(ControlReply { status: 0, flags: 0, state: 0 })
            }
            PipeControl::PopState => Some(ControlReply { status: 0, flags: 0, state: self.state }),
        }
    }

    fn pipe_released_states(&mut self, _pipe: PipeDescriptor) -> Vec<u64> {
        std::mem::take(&mut self.released)
    }

    fn log_write(&mut self, _record: &LogRecord) -> Option<()> {
        None
    }

    fn type_model_get_field_info(
        &mut self,
        _model: usize,
        _pipe: PipeDescriptor,
        _path: Option<&Vec<u8>>,
    ) -> FieldInfoReply {
        FieldInfoReply { status: HOST_FAILURE, shape: PrimitiveTypeShape::default() }
    }

    fn type_model_get_accessor(
        &mut self,
        _model: usize,
        _pipe: PipeDescriptor,
        _path: Option<&Vec<u8>>,
    ) -> u32 {
        NO_ACCESSOR
    }

    fn type_instance_read(&mut self, _instance: usize, _accessor: u32, _size: usize) -> ReadReply {
        ReadReply { count: 0, data: Vec::new() }
    }
}

fn reply(status: i32, flags: PipeFlags, state: u64) -> Option<ControlReply> {
    Some(ControlReply { status, flags, state })
}

fn some_pipe(host: &mut FakeHost) -> Pipe<i32> {
    Pipe::define(host, "input", PIPE_INPUT, None).unwrap()
}

#[test]
fn flag_constants_have_their_bits() {
    assert_eq!(PIPE_INPUT, 0);
    assert_eq!(PIPE_OUTPUT, 0x10000);
    assert_eq!(PIPE_PERSIST, 0x20000);
    assert_eq!(PIPE_ASYNC, 0x40000);
    assert_eq!(PIPE_SHADOW, 0x80000);
    assert_eq!(PIPE_DISABLED, 0x100000);
}

#[test]
fn sentinels_are_all_ones() {
    assert_eq!(HOST_FAILURE, -1);
    assert_eq!(NO_PIPE, u32::MAX);
    assert_eq!(NO_ACCESSOR, u32::MAX);
    assert_eq!(NO_TRANSFER, usize::MAX);
}

#[test]
fn eof_answer_has_three_meanings() {
    assert_eq!(eof_outcome(Some(0)), Some(false));
    assert_eq!(eof_outcome(Some(1)), Some(true));
    assert_eq!(eof_outcome(Some(42)), Some(true));
    assert_eq!(eof_outcome(Some(-1)), None);
    assert_eq!(eof_outcome(Some(-2)), Some(false));
    assert_eq!(eof_outcome(None), None);
}

#[test]
fn transfer_answer_is_a_count_or_an_error() {
    assert_eq!(transfer_outcome(Some(0)), Ok(0));
    assert_eq!(transfer_outcome(Some(512)), Ok(512));
    assert_eq!(transfer_outcome(Some(usize::MAX - 1)), Ok(usize::MAX - 1));
    assert_eq!(transfer_outcome(Some(NO_TRANSFER)), Err(PipeError::HostFailure));
    assert_eq!(transfer_outcome(None), Err(PipeError::Unavailable));
}

#[test]
fn control_answer_is_done_or_not() {
    assert_eq!(control_outcome(reply(0, 0, 0)), Some(()));
    assert_eq!(control_outcome(reply(5, 0, 0)), Some(()));
    assert_eq!(control_outcome(reply(-1, 0, 0)), None);
    assert_eq!(control_outcome(None), None);
}

#[test]
fn flags_answer_carries_the_flags() {
    assert_eq!(flags_outcome(reply(0, 0x30000, 0)), Some(0x30000));
    assert_eq!(flags_outcome(reply(0, 0, 0)), Some(0));
    assert_eq!(flags_outcome(reply(-1, 0x30000, 0)), None);
    assert_eq!(flags_outcome(None), None);
}

#[test]
fn has_flags_asks_for_every_bit() {
    assert!(has_flags(PIPE_OUTPUT | PIPE_PERSIST, PIPE_PERSIST));
    assert!(has_flags(PIPE_OUTPUT | PIPE_PERSIST, PIPE_OUTPUT | PIPE_PERSIST));
    assert!(!has_flags(PIPE_OUTPUT, PIPE_OUTPUT | PIPE_PERSIST));
    assert!(!has_flags(0, PIPE_ASYNC));
    assert!(has_flags(0, PIPE_INPUT));
    assert!(has_flags(PIPE_SHADOW, PIPE_INPUT));
}

#[test]
fn define_hands_c_strings_to_the_host() {
    let mut host = FakeHost::new();
    host.define_reply = Some(3);
    let pipe: Pipe<()> =
        Pipe::define(&mut host, "output", PIPE_OUTPUT | PIPE_ASYNC, Some("graphics/Point2D")).unwrap();
    assert_eq!(pipe.as_descriptor(), 3);
    assert_eq!(
        host.defined,
        vec![(Some(b"output\0".to_vec()), 0x50000, Some(b"graphics/Point2D\0".to_vec()))]
    );
}

#[test]
fn define_without_type_hands_no_type() {
    let mut host = FakeHost::new();
    let pipe: Pipe<()> = Pipe::define(&mut host, "input", PIPE_INPUT, None).unwrap();
    assert_eq!(pipe.as_descriptor(), 7);
    assert_eq!(host.defined, vec![(Some(b"input\0".to_vec()), 0, None)]);
}

#[test]
fn define_with_zero_byte_in_name_hands_nothing_for_it() {
    let mut host = FakeHost::new();
    let _: Option<Pipe<()>> = Pipe::define(&mut host, "in\0put", PIPE_INPUT, Some("a\0b"));
    assert_eq!(host.defined, vec![(None, 0, None)]);
}

#[test]
fn define_fails_on_sentinel_or_missing_entry() {
    let mut host = FakeHost::new();
    host.define_reply = Some(NO_PIPE);
    assert!(Pipe::<()>::define(&mut host, "input", PIPE_INPUT, None).is_none());
    host.define_reply = None;
    assert!(Pipe::<()>::define(&mut host, "input", PIPE_INPUT, None).is_none());
    assert!(Pipe::<()>::define_outcome(Some(NO_PIPE)).is_none());
    assert!(Pipe::<()>::define_outcome(None).is_none());
    assert_eq!(Pipe::<()>::define_outcome(Some(0)).unwrap().as_descriptor(), 0);
    assert_eq!(Pipe::<()>::define_outcome(Some(u32::MAX - 1)).unwrap().as_descriptor(), u32::MAX - 1);
}

#[test]
fn pipe_ref_has_the_descriptor_of_its_pipe() {
    let mut host = FakeHost::new();
    host.define_reply = Some(11);
    let pipe = some_pipe(&mut host);
    assert_eq!(pipe.as_pipe_ref().as_descriptor(), 11);
}

#[test]
fn eof_relays_the_host() {
    let mut host = FakeHost::new();
    let mut pipe = some_pipe(&mut host);
    host.eof_reply = Some(0);
    assert_eq!(pipe.eof(&mut host), Some(false));
    host.eof_reply = Some(1);
    assert_eq!(pipe.eof(&mut host), Some(true));
    host.eof_reply = Some(-1);
    assert_eq!(pipe.eof(&mut host), None);
    host.eof_reply = None;
    assert_eq!(pipe.eof(&mut host), None);
}

#[test]
fn flags_are_set_checked_and_cleared_through_the_host() {
    let mut host = FakeHost::new();
    host.define_reply = Some(5);
    let mut pipe = some_pipe(&mut host);
    assert_eq!(pipe.flags(&mut host), Some(0));
    assert_eq!(pipe.set_flags(&mut host, PIPE_PERSIST), Some(()));
    assert_eq!(pipe.flags(&mut host), Some(PIPE_PERSIST));
    assert_eq!(pipe.check_flag(&mut host, PIPE_PERSIST), Some(true));
    assert_eq!(pipe.check_flag(&mut host, PIPE_PERSIST | PIPE_ASYNC), Some(false));
    assert_eq!(pipe.check_flag(&mut host, PIPE_INPUT), Some(true));
    assert_eq!(pipe.clear_flags(&mut host, PIPE_PERSIST), Some(()));
    assert_eq!(pipe.check_flag(&mut host, PIPE_PERSIST), Some(false));
    assert_eq!(
        host.requests,
        vec![
            (5, PipeControl::GetFlags),
            (5, PipeControl::SetFlag(PIPE_PERSIST)),
            (5, PipeControl::GetFlags),
            (5, PipeControl::GetFlags),
            (5, PipeControl::GetFlags),
            (5, PipeControl::GetFlags),
            (5, PipeControl::ClearFlag(PIPE_PERSIST)),
            (5, PipeControl::GetFlags),
        ]
    );
}

#[test]
fn control_requests_fail_when_the_host_fails() {
    let mut host = FakeHost::new();
    let mut pipe = some_pipe(&mut host);
    host.cntl_status = HOST_FAILURE;
    assert_eq!(pipe.flags(&mut host), None);
    assert_eq!(pipe.check_flag(&mut host, PIPE_PERSIST), None);
    assert_eq!(pipe.set_flags(&mut host, PIPE_PERSIST), None);
    assert_eq!(pipe.clear_flags(&mut host, PIPE_PERSIST), None);
    assert_eq!(pipe.get_state(&mut host), None);
}

#[test]
fn control_requests_fail_without_the_entry() {
    let mut host = FakeHost::new();
    let mut pipe = some_pipe(&mut host);
    host.has_cntl = false;
    assert_eq!(pipe.flags(&mut host), None);
    assert_eq!(pipe.check_flag(&mut host, PIPE_INPUT), None);
    assert_eq!(pipe.set_flags(&mut host, PIPE_PERSIST), None);
    assert_eq!(pipe.clear_flags(&mut host, PIPE_PERSIST), None);
    assert_eq!(pipe.get_state(&mut host), None);
    assert_eq!(pipe.push_state(&mut host, Box::new(1)), None);
}

#[test]
fn read_gives_the_hosts_count_and_bytes() {
    let mut host = FakeHost::new();
    let mut pipe = some_pipe(&mut host);
    host.read_data = b"hello".to_vec();
    host.read_reply = Some(5);
    let mut buf = [0u8; 8];
    assert_eq!(pipe.read(&mut host, &mut buf), Ok(5));
    assert_eq!(&buf[..5], b"hello");
    let mut again = [0u8; 8];
    assert_eq!(pipe.as_pipe_ref().read(&mut host, &mut again), Ok(5));
    assert_eq!(&again[..5], b"hello");
}

#[test]
fn read_and_write_report_both_errors() {
    let mut host = FakeHost::new();
    let mut pipe = some_pipe(&mut host);
    let mut buf = [0u8; 4];
    host.read_reply = Some(NO_TRANSFER);
    assert_eq!(pipe.read(&mut host, &mut buf), Err(PipeError::HostFailure));
    assert_eq!(pipe.as_pipe_ref().read(&mut host, &mut buf), Err(PipeError::HostFailure));
    host.read_reply = None;
    assert_eq!(pipe.read(&mut host, &mut buf), Err(PipeError::Unavailable));
    assert_eq!(pipe.as_pipe_ref().read(&mut host, &mut buf), Err(PipeError::Unavailable));
    host.write_reply = Some(NO_TRANSFER);
    assert_eq!(pipe.write(&mut host, b"x"), Err(PipeError::HostFailure));
    host.write_reply = None;
    assert_eq!(pipe.write(&mut host, b"x"), Err(PipeError::Unavailable));
}

#[test]
fn write_hands_the_bytes_to_the_host() {
    let mut host = FakeHost::new();
    host.define_reply = Some(9);
    let mut pipe = some_pipe(&mut host);
    host.write_reply = Some(3);
    assert_eq!(pipe.write(&mut host, b"abc"), Ok(3));
    assert_eq!(host.written, vec![(9, b"abc".to_vec())]);
    assert_eq!(pipe.flush(), Ok(()));
}

#[test]
fn pushed_state_is_found_in_a_later_activation() {
    let mut host = FakeHost::new();
    let mut pipe = some_pipe(&mut host);
    assert_eq!(pipe.get_state(&mut host), None);
    assert_eq!(pipe.push_state(&mut host, Box::new(41)), Some(()));
    assert_ne!(host.state, 0);
    assert_eq!(pipe.get_state(&mut host), Some(&41));
    assert_eq!(pipe.get_state(&mut host), Some(&41));
}

#[test]
fn word_given_to_the_host_is_that_of_the_handle() {
    let mut host = FakeHost::new();
    host.define_reply = Some(2);
    let mut pipe = some_pipe(&mut host);
    assert_eq!(pipe.push_state(&mut host, Box::new(1)), Some(()));
    let first = Handle { index: 0, generation: 1 };
    assert_eq!(host.requests, vec![(2, PipeControl::PushState(first.to_raw()))]);
    assert_eq!(host.state, 0x1_0000_0000);
}

#[test]
fn each_resource_finds_its_own_state() {
    let mut host = FakeHost::new();
    let mut pipe = some_pipe(&mut host);
    assert_eq!(pipe.push_state(&mut host, Box::new(10)), Some(()));
    let first = host.state;
    assert_eq!(pipe.push_state(&mut host, Box::new(20)), Some(()));
    let second = host.state;
    assert_ne!(first, second);
    assert_eq!(pipe.state_of(reply(0, 0, first)), Some(&10));
    assert_eq!(pipe.state_of(reply(0, 0, second)), Some(&20));
    host.state = first;
    assert_eq!(pipe.get_state(&mut host), Some(&10));
}

#[test]
fn refused_state_is_released_at_once() {
    let mut host = FakeHost::new();
    let mut pipe = some_pipe(&mut host);
    host.cntl_status = HOST_FAILURE;
    assert_eq!(pipe.push_state(&mut host, Box::new(5)), None);
    let word = match host.requests.last() {
        Some((_, PipeControl::PushState(word))) => *word,
        _ => panic!("no push reached the host"),
    };
    assert_eq!(pipe.state_of(reply(0, 0, word)), None);
    assert_eq!(pipe.dispose_state(word), HOST_FAILURE);
}

#[test]
fn disposed_state_is_gone_for_good() {
    let mut host = FakeHost::new();
    let mut pipe = some_pipe(&mut host);
    assert_eq!(pipe.push_state(&mut host, Box::new(5)), Some(()));
    let word = host.state;
    assert_eq!(pipe.dispose_state(word), 0);
    assert_eq!(pipe.get_state(&mut host), None);
    assert_eq!(pipe.dispose_state(word), HOST_FAILURE);
    assert_eq!(pipe.push_state(&mut host, Box::new(6)), Some(()));
    assert_ne!(host.state, word);
    assert_eq!(pipe.state_of(reply(0, 0, word)), None);
    assert_eq!(pipe.get_state(&mut host), Some(&6));
}

#[test]
fn disposing_one_state_keeps_the_others() {
    let mut host = FakeHost::new();
    let mut pipe = some_pipe(&mut host);
    assert_eq!(pipe.push_state(&mut host, Box::new(1)), Some(()));
    let first = host.state;
    assert_eq!(pipe.push_state(&mut host, Box::new(2)), Some(()));
    let second = host.state;
    assert_eq!(pipe.dispose_state(first), 0);
    assert_eq!(pipe.state_of(reply(0, 0, second)), Some(&2));
    assert_eq!(pipe.state_of(reply(0, 0, first)), None);
}

#[test]
fn state_of_reads_only_good_answers() {
    let mut host = FakeHost::new();
    let mut pipe = some_pipe(&mut host);
    assert_eq!(pipe.push_state(&mut host, Box::new(9)), Some(()));
    let word = host.state;
    assert_eq!(pipe.state_of(reply(0, 0, word)), Some(&9));
    assert_eq!(pipe.state_of(reply(HOST_FAILURE, 0, word)), None);
    assert_eq!(pipe.state_of(reply(0, 0, 0)), None);
    assert_eq!(pipe.state_of(reply(0, 0, word + 1)), None);
    assert_eq!(pipe.state_of(reply(0, 0, word + 0x1_0000_0000)), None);
    assert_eq!(pipe.state_of(None), None);
}

#[test]
fn hold_and_settle_are_the_two_halves_of_a_push() {
    let mut host = FakeHost::new();
    let mut pipe = some_pipe(&mut host);
    let h = pipe.hold_state(Box::new(3)).unwrap();
    assert_eq!(h, Handle { index: 0, generation: 1 });
    assert_eq!(pipe.settle_push(h, reply(0, 0, 0)), Some(()));
    assert_eq!(pipe.state_of(reply(0, 0, h.to_raw())), Some(&3));
    let k = pipe.hold_state(Box::new(4)).unwrap();
    assert_eq!(pipe.settle_push(k, reply(HOST_FAILURE, 0, 0)), None);
    assert_eq!(pipe.state_of(reply(0, 0, k.to_raw())), None);
    let m = pipe.hold_state(Box::new(5)).unwrap();
    assert_eq!(pipe.settle_push(m, None), None);
    assert_eq!(pipe.state_of(reply(0, 0, m.to_raw())), None);
    assert_eq!(pipe.state_of(reply(0, 0, h.to_raw())), Some(&3));
}

#[test]
fn dispose_of_a_word_that_names_nothing_changes_nothing() {
    let mut host = FakeHost::new();
    let mut pipe = some_pipe(&mut host);
    assert_eq!(pipe.push_state(&mut host, Box::new(8)), Some(()));
    assert_eq!(pipe.dispose_state(0), HOST_FAILURE);
    assert_eq!(pipe.dispose_state(77), HOST_FAILURE);
    assert_eq!(pipe.dispose_state(0x9_0000_0000), HOST_FAILURE);
    assert_eq!(pipe.get_state(&mut host), Some(&8));
}

#[test]
fn asking_hands_the_request_over_and_the_answer_back() {
    let mut host = FakeHost::new();
    host.define_reply = Some(12);
    let name = b"n\0".to_vec();
    assert_eq!(ask_define(&mut host, Some(&name), PIPE_OUTPUT, None), Some(12));
    assert_eq!(host.defined, vec![(Some(name), PIPE_OUTPUT, None)]);

    host.read_data = b"xy".to_vec();
    host.read_reply = Some(2);
    let mut buf = [0u8; 4];
    assert_eq!(ask_read(&mut host, 12, &mut buf), Some(2));
    assert_eq!(&buf[..2], b"xy");

    host.write_reply = Some(1);
    assert_eq!(ask_write(&mut host, 12, b"z"), Some(1));
    assert_eq!(host.written, vec![(12, b"z".to_vec())]);

    host.eof_reply = Some(-1);
    assert_eq!(ask_eof(&mut host, 12), Some(-1));

    assert_eq!(
        ask_cntl(&mut host, 12, PipeControl::SetFlag(PIPE_ASYNC)),
        Some(ControlReply { status: 0, flags: 0, state: 0 })
    );
    assert_eq!(
        ask_cntl(&mut host, 12, PipeControl::GetFlags),
        Some(ControlReply { status: 0, flags: PIPE_ASYNC, state: 0 })
    );
    host.has_cntl = false;
    assert_eq!(ask_cntl(&mut host, 12, PipeControl::PopState), None);

    assert_eq!(ask_log(&mut host, &LogRecord::new(1, "f", 2, "m")), None);
    assert_eq!(ask_field_info(&mut host, 1, 12, None).status, HOST_FAILURE);
    assert_eq!(ask_accessor(&mut host, 1, 12, None), NO_ACCESSOR);
    assert_eq!(ask_instance_read(&mut host, 1, 2, 3).count, 0);
}

#[test]
fn read_bytes_gives_the_count_and_the_buffer() {
    let mut host = FakeHost::new();
    let mut pipe = some_pipe(&mut host);
    host.read_data = b"hey".to_vec();
    host.read_reply = Some(3);
    let (got, data) = pipe.read_bytes(&mut host, 5);
    assert_eq!(got, Ok(3));
    assert_eq!(data, b"hey\0\0".to_vec());
    host.read_reply = Some(NO_TRANSFER);
    assert_eq!(pipe.read_bytes(&mut host, 2).0, Err(PipeError::HostFailure));
    host.read_reply = None;
    let (got, data) = pipe.read_bytes(&mut host, 0);
    assert_eq!(got, Err(PipeError::Unavailable));
    assert!(data.is_empty());
    host.read_reply = Some(1);
    assert_eq!(pipe.read_bytes(&mut host, 4), (Ok(1), b"hey\0".to_vec()));
}

#[test]
fn zeroed_buffer_is_all_zeros() {
    assert_eq!(zeroed(0), Vec::<u8>::new());
    assert_eq!(zeroed(3), vec![0u8, 0, 0]);
    assert_eq!(zeroed(4096).len(), 4096);
}

#[test]
fn stepping_calls_hand_the_request_over_and_the_answer_back() {
    let mut host = FakeHost::new();
    host.define_reply = Some(12);
    let name = b"n\0".to_vec();
    assert_eq!(define_then(&mut host, Some(&name), PIPE_INPUT, None).0, Some(12));
    assert_eq!(host.defined, vec![(Some(name), PIPE_INPUT, None)]);

    host.read_data = b"xy".to_vec();
    host.read_reply = Some(2);
    let (got, data, _) = read_bytes_then(&mut host, 12, 3);
    assert_eq!(got, Some(2));
    assert_eq!(data, b"xy\0".to_vec());

    host.write_reply = Some(1);
    assert_eq!(write_then(&mut host, 12, b"z").0, Some(1));
    assert_eq!(host.written, vec![(12, b"z".to_vec())]);

    host.eof_reply = Some(1);
    assert_eq!(eof_then(&mut host, 12).0, Some(1));

    assert_eq!(
        cntl_then(&mut host, 12, PipeControl::SetFlag(PIPE_PERSIST)).0,
        Some(ControlReply { status: 0, flags: 0, state: 0 })
    );
    assert_eq!(
        cntl_then(&mut host, 12, PipeControl::GetFlags).0,
        Some(ControlReply { status: 0, flags: PIPE_PERSIST, state: 0 })
    );
    assert_eq!(host.requests.len(), 2);

    assert_eq!(field_info_then(&mut host, 1, 12, None).0.status, HOST_FAILURE);
    assert_eq!(accessor_then(&mut host, 1, 12, None).0, NO_ACCESSOR);
    assert_eq!(instance_read_then(&mut host, 1, 2, 3).0.count, 0);

    host.released = vec![5, 6];
    assert_eq!(released_then(&mut host, 12).0, vec![5, 6]);
    assert_eq!(released_then(&mut host, 12).0, Vec::<u64>::new());
    host.released = vec![7];
    assert_eq!(ask_released(&mut host, 12), vec![7]);
}

#[test]
fn write_all_hands_over_what_is_left_until_nothing_is() {
    let mut host = FakeHost::new();
    let mut pipe = some_pipe(&mut host);
    let descriptor = pipe.as_descriptor();
    host.write_reply = Some(2);
    assert_eq!(pipe.write_all(&mut host, b"abcdef"), Ok(()));
    assert_eq!(
        host.written,
        vec![
            (descriptor, b"abcdef".to_vec()),
            (descriptor, b"cdef".to_vec()),
            (descriptor, b"ef".to_vec())
        ]
    );
    // a count beyond what was handed over is a failure of the host
    host.written.clear();
    assert_eq!(pipe.write_all(&mut host, b"abc"), Err(PipeError::HostFailure));
    assert_eq!(host.written.len(), 2);
    host.written.clear();
    assert_eq!(pipe.write_all(&mut host, b""), Ok(()));
    assert!(host.written.is_empty());
}

#[test]
fn write_all_gives_up_at_the_first_write_that_fails() {
    let mut host = FakeHost::new();
    let mut pipe = some_pipe(&mut host);
    host.write_reply = Some(0);
    assert_eq!(pipe.write_all(&mut host, b"abc"), Err(PipeError::Stalled));
    assert_eq!(host.written.len(), 1);
    host.write_reply = Some(4);
    assert_eq!(pipe.write_all(&mut host, b"abc"), Err(PipeError::HostFailure));
    host.write_reply = Some(NO_TRANSFER);
    assert_eq!(pipe.write_all(&mut host, b"abc"), Err(PipeError::HostFailure));
    host.write_reply = None;
    assert_eq!(pipe.write_all(&mut host, b"abc"), Err(PipeError::Unavailable));
    assert_eq!(host.written.len(), 4);
}

#[test]
fn states_that_the_host_let_go_are_released() {
    let mut host = FakeHost::new();
    let mut pipe = some_pipe(&mut host);
    assert_eq!(pipe.push_state(&mut host, Box::new(1)), Some(()));
    let first = host.state;
    assert_eq!(pipe.push_state(&mut host, Box::new(2)), Some(()));
    let second = host.state;
    assert_eq!(pipe.push_state(&mut host, Box::new(3)), Some(()));
    let third = host.state;

    // nothing was let go: nothing changes
    pipe.reclaim_states(&mut host);
    assert_eq!(pipe.state_of(reply(0, 0, first)), Some(&1));

    // a word that names nothing, and a word that comes twice, do no harm
    host.released = vec![first, 0, 77, third, first];
    pipe.reclaim_states(&mut host);
    assert!(host.released.is_empty());
    assert_eq!(pipe.state_of(reply(0, 0, first)), None);
    assert_eq!(pipe.state_of(reply(0, 0, second)), Some(&2));
    assert_eq!(pipe.state_of(reply(0, 0, third)), None);
    assert_eq!(pipe.dispose_state(first), HOST_FAILURE);
    assert_eq!(pipe.dispose_state(second), 0);
}
