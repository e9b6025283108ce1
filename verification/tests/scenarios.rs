use plumber_rs::arena::NULL_HANDLE;
use plumber_rs::example::{
    append_brought, end_of_input, number_line, take_line, BootstrapType, EndOfInput, NEWLINE,
    READ_CAPACITY,
};
use plumber_rs::host::{
    ControlReply, FieldInfoReply, Host, PipeControl, ReadReply, HOST_FAILURE, NO_ACCESSOR,
};
use plumber_rs::log::LogRecord;
use plumber_rs::pipe::{Pipe, PipeDescriptor, PipeFlags, PIPE_INPUT, PIPE_OUTPUT, PIPE_PERSIST};
use plumber_rs::protocol::{
    DataModel, Primitive, PrimitiveTypeShape, ProtocolModel, TypeInstanceObject, TypeModelObject,
    Untyped,
};
use plumber_rs::rust_servlet::{
    call_bootstrap_obj, invoke_servlet_cleanup, invoke_servlet_init, invoke_servlet_sync_exec,
    ServletTable, STATUS_FAILED, STATUS_OK,
};
use plumber_rs::scalar::Float32;
use plumber_rs::servlet::{
    fail, success, Bootstrap, BootstrapResult, ServletFuncResult, ServletMode, SyncServlet,
    Unimplemented,
};
use std::collections::{HashMap, VecDeque};
use std::rc::Rc;

/// A host with named pipes, one stream of input, and a small schema.
struct World {
    pipes: Vec<Vec<u8>>,
    input: VecDeque<Vec<u8>>,
    at_end: i32,
    output: Vec<(PipeDescriptor, Vec<u8>)>,
    flags: HashMap<PipeDescriptor, PipeFlags>,
    state: u64,
    fields: Vec<(Vec<u8>, PrimitiveTypeShape, u32)>,
    values: HashMap<u32, Vec<u8>>,
    /// The most that one write takes; everything where there is none.
    write_room: Option<usize>,
    /// The states that were let go and not yet reported, each with its pipe.
    released: Vec<(PipeDescriptor, u64)>,
    asked_for_released: usize,
}

impl World {
    fn new() -> World {
        World {
            pipes: Vec::new(),
            input: VecDeque::new(),
            at_end: 0,
            output: Vec::new(),
            flags: HashMap::new(),
            state: 0,
            fields: Vec::new(),
            values: HashMap::new(),
            write_room: None,
            released: Vec::new(),
            asked_for_released: 0,
        }
    }

    fn float_field(&mut self, path: &str, size: u32, is_float: bool, accessor: u32) {
        let mut bytes = path.as_bytes().to_vec();
        bytes.push(0);
        let shape = PrimitiveTypeShape {
            offset: 0,
            size,
            is_numeric: true,
            is_signed: true,
            is_float,
            is_primitive_token: false,
            is_compound: false,
        };
        self.fields.push((bytes, shape, accessor));
    }

    fn all_written(&self) -> String {
        self.written().concat()
    }

    fn written(&self) -> Vec<String> {
        self.output.iter().map(|(_, bytes)| String::from_utf8(bytes.clone()).unwrap()).collect()
    }
}

impl Host for World {
    fn pipe_define(
        &mut self,
        name: Option<&Vec<u8>>,
        flags: PipeFlags,
        _type_expr: Option<&Vec<u8>>,
    ) -> Option<PipeDescriptor> {
        let descriptor = self.pipes.len() as PipeDescriptor;
        self.pipes.push(name?.clone());
        self.flags.insert(descriptor, flags);
        Some(descriptor)
    }

    fn pipe_read(&mut self, _pipe: PipeDescriptor, buf: &mut [u8]) -> Option<usize> {
        match self.input.pop_front() {
            Some(chunk) => {
                buf[..chunk.len()].copy_from_slice(&chunk);
                Some(chunk.len())
            }
            None => Some(0),
        }
    }

    fn pipe_write(&mut self, pipe: PipeDescriptor, data: &[u8]) -> Option<usize> {
        let taken = self.write_room.map_or(data.len(), |room| room.min(data.len()));
        self.output.push((pipe, data[..taken].to_vec()));
        Some(taken)
    }

    fn pipe_eof(&mut self, _pipe: PipeDescriptor) -> Option<i32> {
        Some(self.at_end)
    }

    fn pipe_cntl(&mut self, pipe: PipeDescriptor, request: PipeControl) -> Option<ControlReply> {
        let done = ControlReply { status: 0, flags: 0, state: 0 };
        let flags = self.flags.entry(pipe).or_insert(0);
        Some(match request {
            PipeControl::GetFlags => ControlReply { flags: *flags, ..done },
            PipeControl::SetFlag(f) => {
                *flags |= f;
                done
            }
            PipeControl::ClearFlag(f) => {
                *flags &= !f;
                done
            }
            PipeControl::PushState(word) => {
                if self.state != 0 {
                    self.released.push((pipe, self.state));
                }
                self.state = word;
                done
            }
            PipeControl::PopState => ControlReply { state: self.state, ..done },
        })
    }

    fn pipe_released_states(&mut self, pipe: PipeDescriptor) -> Vec<u64> {
        self.asked_for_released += 1;
        let (mine, others) = self.released.iter().partition(|(owner, _)| *owner == pipe);
        self.released = others;
        mine.into_iter().map(|(_, word)| word).collect()
    }

    fn log_write(&mut self, _record: &LogRecord) -> Option<()> {
        Some(())
    }

    fn type_model_get_field_info(
        &mut self,
        _model: usize,
        _pipe: PipeDescriptor,
        path: Option<&Vec<u8>>,
    ) -> FieldInfoReply {
        match self.fields.iter().find(|f| Some(&f.0) == path) {
            Some(f) => FieldInfoReply { status: 0, shape: f.1 },
            None => FieldInfoReply { status: HOST_FAILURE, shape: PrimitiveTypeShape::default() },
        }
    }

    fn type_model_get_accessor(
        &mut self,
        _model: usize,
        _pipe: PipeDescriptor,
        path: Option<&Vec<u8>>,
    ) -> u32 {
        match self.fields.iter().find(|f| Some(&f.0) == path) {
            Some(f) => f.2,
            None => NO_ACCESSOR,
        }
    }

    fn type_instance_read(&mut self, _instance: usize, accessor: u32, size: usize) -> ReadReply {
        match self.values.get(&accessor) {
            Some(bytes) if bytes.len() >= size => {
                ReadReply { count: size, data: bytes[..size].to_vec() }
            }
            _ => ReadReply { count: usize::MAX, data: Vec::new() },
        }
    }
}

fn argv(args: &[&str]) -> Vec<Option<Vec<u8>>> {
    args.iter().map(|a| Some(a.as_bytes().to_vec())).collect()
}

fn counter(table: &mut ServletTable<BootstrapType, World>, world: &mut World) -> u64 {
    let raw = call_bootstrap_obj(table, world, &argv(&["counter"]), 0x10);
    assert_ne!(raw, NULL_HANDLE);
    assert_eq!(invoke_servlet_init(table, world, raw, &argv(&["counter"])), STATUS_OK);
    raw
}

#[test]
fn streaming_counter_declares_its_pipes() {
    let mut table = ServletTable::<BootstrapType, World>::new();
    let mut world = World::new();
    counter(&mut table, &mut world);
    assert_eq!(world.pipes, vec![b"input\0".to_vec(), b"output\0".to_vec()]);
    assert_eq!(world.flags[&0], PIPE_INPUT);
    assert_eq!(world.flags[&1], PIPE_OUTPUT);
}

#[test]
fn streaming_counter_numbers_lines_across_activations() {
    let mut table = ServletTable::<BootstrapType, World>::new();
    let mut world = World::new();
    let raw = counter(&mut table, &mut world);

    world.input.extend([b"alpha\n".to_vec(), b"beta\n".to_vec()]);
    world.at_end = 0;
    assert_eq!(invoke_servlet_sync_exec(&mut table, &mut world, raw, 0x20), STATUS_OK);
    assert_eq!(world.written(), vec!["1 alpha\n", "2 beta\n"]);
    assert_eq!(world.flags[&0] & PIPE_PERSIST, PIPE_PERSIST);
    assert_ne!(world.state, 0);

    world.input.extend([b"gamma\n".to_vec()]);
    assert_eq!(invoke_servlet_sync_exec(&mut table, &mut world, raw, 0x20), STATUS_OK);
    assert_eq!(world.written(), vec!["1 alpha\n", "2 beta\n", "3 gamma\n"]);
    assert_eq!(world.flags[&0] & PIPE_PERSIST, PIPE_PERSIST);

    world.input.extend([b"delta\n".to_vec()]);
    world.at_end = 1;
    assert_eq!(invoke_servlet_sync_exec(&mut table, &mut world, raw, 0x20), STATUS_OK);
    assert_eq!(world.written(), vec!["1 alpha\n", "2 beta\n", "3 gamma\n", "4 delta\n"]);
    assert_eq!(world.flags[&0] & PIPE_PERSIST, 0);
    assert!(world.output.iter().all(|(pipe, _)| *pipe == 1));
    assert_eq!(invoke_servlet_cleanup(&mut table, &mut world, raw), STATUS_OK);
}

#[test]
fn streaming_counter_starts_at_one_without_state() {
    let mut table = ServletTable::<BootstrapType, World>::new();
    let mut world = World::new();
    let raw = counter(&mut table, &mut world);
    world.input.extend([b"only\n".to_vec()]);
    world.at_end = 1;
    assert_eq!(invoke_servlet_sync_exec(&mut table, &mut world, raw, 0x20), STATUS_OK);
    assert_eq!(world.written(), vec!["1 only\n"]);
    assert_eq!(world.state, 0);
}

#[test]
fn streaming_counter_with_nothing_to_read_persists_its_count() {
    let mut table = ServletTable::<BootstrapType, World>::new();
    let mut world = World::new();
    let raw = counter(&mut table, &mut world);
    world.at_end = 0;
    assert_eq!(invoke_servlet_sync_exec(&mut table, &mut world, raw, 0x20), STATUS_OK);
    assert!(world.output.is_empty());
    assert_eq!(world.flags[&0] & PIPE_PERSIST, PIPE_PERSIST);
    assert_ne!(world.state, 0);
}

#[test]
fn streaming_counter_fails_when_eof_fails() {
    let mut table = ServletTable::<BootstrapType, World>::new();
    let mut world = World::new();
    let raw = counter(&mut table, &mut world);
    world.input.extend([b"line\n".to_vec()]);
    world.at_end = -1;
    assert_eq!(invoke_servlet_sync_exec(&mut table, &mut world, raw, 0x20), STATUS_FAILED);
    assert_eq!(world.written(), vec!["1 line\n"]);
    assert_eq!(world.flags[&0] & PIPE_PERSIST, 0);
    assert_eq!(world.state, 0);
}

/// The fields of a point, as a schema declaration would spell them out.
struct Point {
    type_model: TypeModelObject,
    x_coord: Primitive<Float32>,
    y_coord: Primitive<Float32>,
}

impl ProtocolModel for Point {
    fn init_model<H: Host>(&mut self, host: &mut H, pipes: HashMap<String, PipeDescriptor>) -> bool {
        let pipe = match pipes.get("input") {
            Some(pipe) => *pipe,
            None => return false,
        };
        self.type_model.assign_primitive(host, pipe, "x", &mut self.x_coord, true)
            && self.type_model.assign_primitive(host, pipe, "y", &mut self.y_coord, true)
    }

    fn new_protocol_model(type_model: TypeModelObject) -> Self {
        Point { type_model, x_coord: Primitive::new(), y_coord: Primitive::new() }
    }
}

struct PointData {
    model: Rc<Point>,
    inst: TypeInstanceObject,
}

impl PointData {
    fn x_coord<H: Host>(&mut self, host: &mut H) -> Option<f32> {
        self.model.x_coord.get(host, &mut self.inst).map(|v| f32::from_bits(v.bits))
    }

    fn y_coord<H: Host>(&mut self, host: &mut H) -> Option<f32> {
        self.model.y_coord.get(host, &mut self.inst).map(|v| f32::from_bits(v.bits))
    }
}

impl DataModel<Point> for PointData {
    fn new_data_model(model: Rc<Point>, type_inst: TypeInstanceObject) -> Self {
        PointData { model, inst: type_inst }
    }
}

/// Writes the distance of a point from the origin.
struct Distance {
    input: Pipe<()>,
    output: Pipe<()>,
    strict: bool,
}

impl<H: Host> SyncServlet<H> for Distance {
    type ProtocolType = Point;
    type DataModelType = PointData;

    fn init(&mut self, host: &mut H, _args: &[&str], model: &mut Point) -> ServletFuncResult {
        let mut pipes = HashMap::new();
        pipes.insert("input".to_string(), self.input.as_descriptor());
        pipes.insert("output".to_string(), self.output.as_descriptor());
        if !model.init_model(host, pipes) && self.strict {
            return fail();
        }
        success()
    }

    fn exec(&mut self, host: &mut H, mut model: PointData) -> ServletFuncResult {
        if let Some(x) = model.x_coord(host) {
            if let Some(y) = model.y_coord(host) {
                let distance = (x * x + y * y).sqrt();
                if self.output.write(host, &distance.to_ne_bytes()).is_ok() {
                    return success();
                }
            }
        }
        fail()
    }

    fn cleanup(&mut self, _host: &mut H) -> ServletFuncResult {
        success()
    }
}

struct DistanceBoot;

impl<H: Host> Bootstrap<H> for DistanceBoot {
    type AsyncServletType = Unimplemented;
    type SyncServletType = Distance;

    fn get(host: &mut H, args: &[&str]) -> BootstrapResult<Self, H> {
        if let Some(input) = Pipe::define(host, "input", PIPE_INPUT, Some("graphics/Point2D")) {
            if let Some(output) = Pipe::define(host, "output", PIPE_OUTPUT, Some("float")) {
                return Self::make_sync(Distance { input, output, strict: !args.contains(&"lenient") });
            }
        }
        Self::fail()
    }
}

fn point_world(x: f32, y: f32, y_size: u32) -> World {
    let mut world = World::new();
    world.float_field("x", 4, true, 100);
    world.float_field("y", y_size, y_size == 4, 101);
    world.values.insert(100, x.to_ne_bytes().to_vec());
    world.values.insert(101, y.to_ne_bytes().to_vec());
    world
}

#[test]
fn typed_computation_writes_the_distance() {
    let mut table = ServletTable::<DistanceBoot, World>::new();
    let mut world = point_world(3.0, 4.0, 4);
    let raw = call_bootstrap_obj(&mut table, &mut world, &argv(&[]), 0x10);
    assert_eq!(invoke_servlet_init(&mut table, &mut world, raw, &argv(&[])), STATUS_OK);
    assert_eq!(invoke_servlet_sync_exec(&mut table, &mut world, raw, 0x20), STATUS_OK);
    assert_eq!(world.output, vec![(1, 5.0f32.to_ne_bytes().to_vec())]);

    world.values.insert(100, 6.0f32.to_ne_bytes().to_vec());
    world.values.insert(101, (-8.0f32).to_ne_bytes().to_vec());
    assert_eq!(invoke_servlet_sync_exec(&mut table, &mut world, raw, 0x20), STATUS_OK);
    assert_eq!(world.output[1], (1, 10.0f32.to_ne_bytes().to_vec()));
}

#[test]
fn typed_computation_fails_its_setup_on_a_field_of_another_shape() {
    let mut table = ServletTable::<DistanceBoot, World>::new();
    let mut world = point_world(3.0, 4.0, 8);
    let raw = call_bootstrap_obj(&mut table, &mut world, &argv(&[]), 0x10);
    assert_eq!(invoke_servlet_init(&mut table, &mut world, raw, &argv(&[])), STATUS_FAILED);
    assert_eq!(invoke_servlet_sync_exec(&mut table, &mut world, raw, 0x20), STATUS_FAILED);
    assert!(world.output.is_empty());
}

#[test]
fn typed_computation_with_an_unbound_field_writes_nothing() {
    let mut table = ServletTable::<DistanceBoot, World>::new();
    let mut world = point_world(3.0, 4.0, 8);
    let raw = call_bootstrap_obj(&mut table, &mut world, &argv(&["lenient"]), 0x10);
    assert_eq!(invoke_servlet_init(&mut table, &mut world, raw, &argv(&[])), STATUS_OK);
    assert_eq!(invoke_servlet_sync_exec(&mut table, &mut world, raw, 0x20), STATUS_FAILED);
    assert!(world.output.is_empty());
}

#[test]
fn typed_computation_with_a_missing_field_writes_nothing() {
    let mut table = ServletTable::<DistanceBoot, World>::new();
    let mut world = World::new();
    world.float_field("x", 4, true, 100);
    world.values.insert(100, 1.0f32.to_ne_bytes().to_vec());
    let raw = call_bootstrap_obj(&mut table, &mut world, &argv(&["lenient"]), 0x10);
    assert_eq!(invoke_servlet_init(&mut table, &mut world, raw, &argv(&[])), STATUS_OK);
    assert_eq!(invoke_servlet_sync_exec(&mut table, &mut world, raw, 0x20), STATUS_FAILED);
    assert!(world.output.is_empty());
}

#[test]
fn typed_computation_fails_when_the_data_cannot_be_read() {
    let mut table = ServletTable::<DistanceBoot, World>::new();
    let mut world = point_world(3.0, 4.0, 4);
    let raw = call_bootstrap_obj(&mut table, &mut world, &argv(&[]), 0x10);
    assert_eq!(invoke_servlet_init(&mut table, &mut world, raw, &argv(&[])), STATUS_OK);
    world.values.insert(101, vec![0, 0]);
    assert_eq!(invoke_servlet_sync_exec(&mut table, &mut world, raw, 0x20), STATUS_FAILED);
    assert!(world.output.is_empty());
}

#[test]
fn streaming_counter_takes_a_read_as_long_as_its_buffer() {
    let mut table = ServletTable::<BootstrapType, World>::new();
    let mut world = World::new();
    let raw = counter(&mut table, &mut world);
    assert_eq!(READ_CAPACITY, 4096);
    world.input.extend([vec![b'x'; READ_CAPACITY]]);
    world.at_end = 1;
    assert_eq!(invoke_servlet_sync_exec(&mut table, &mut world, raw, 0x20), STATUS_OK);
    assert_eq!(world.output.len(), 1);
    assert_eq!(world.output[0].1.len(), READ_CAPACITY + 2);
    assert_eq!(&world.output[0].1[..3], b"1 x");
}

#[test]
fn numbered_line_is_count_space_line() {
    assert_eq!(number_line(1, b"alpha\n"), b"1 alpha\n".to_vec());
    assert_eq!(number_line(0, b""), b"0 ".to_vec());
    assert_eq!(number_line(10, b"x"), b"10 x".to_vec());
    assert_eq!(number_line(907, b"a b"), b"907 a b".to_vec());
    assert_eq!(number_line(i32::MAX, b"!"), b"2147483647 !".to_vec());
    assert_eq!(number_line(-5, b"y"), b"-5 y".to_vec());
    assert_eq!(number_line(i32::MIN, b""), b"-2147483648 ".to_vec());
    for count in [3, 42, 1000, -77, 65536] {
        assert_eq!(number_line(count, b"line"), format!("{} line", count).into_bytes());
    }
}

#[test]
fn empty_read_means_what_eof_says() {
    assert_eq!(end_of_input(Some(false)), EndOfInput::Persist);
    assert_eq!(end_of_input(Some(true)), EndOfInput::Finish);
    assert_eq!(end_of_input(None), EndOfInput::Fail);
}

#[test]
fn streaming_counter_needs_both_pipes() {
    let mut world = World::new();
    assert!(matches!(
        <BootstrapType as Bootstrap<World>>::get(&mut world, &[]),
        BootstrapResult::Success(ServletMode::SyncMode(_))
    ));
    assert_eq!(world.pipes, vec![b"input\0".to_vec(), b"output\0".to_vec()]);

    let mut table = ServletTable::<BootstrapType, Closed>::new();
    let mut nothing = Closed { asked: 0 };
    assert!(matches!(
        <BootstrapType as Bootstrap<Closed>>::get(&mut nothing, &[]),
        BootstrapResult::Fail()
    ));
    assert_eq!(nothing.asked, 1);
    assert_eq!(call_bootstrap_obj(&mut table, &mut nothing, &argv(&[]), 0x10), NULL_HANDLE);
    assert_eq!(nothing.asked, 2);
}

/// A host that defines no pipe.
struct Closed {
    asked: usize,
}

impl Host for Closed {
    fn pipe_define(
        &mut self,
        _name: Option<&Vec<u8>>,
        _flags: PipeFlags,
        _type_expr: Option<&Vec<u8>>,
    ) -> Option<PipeDescriptor> {
        self.asked += 1;
        None
    }

    fn pipe_read(&mut self, _pipe: PipeDescriptor, _buf: &mut [u8]) -> Option<usize> {
        None
    }

    fn pipe_write(&mut self, _pipe: PipeDescriptor, _data: &[u8]) -> Option<usize> {
        None
    }

    fn pipe_eof(&mut self, _pipe: PipeDescriptor) -> Option<i32> {
        None
    }

    fn pipe_cntl(&mut self, _pipe: PipeDescriptor, _request: PipeControl) -> Option<ControlReply> {
        None
    }

    fn pipe_released_states(&mut self, _pipe: PipeDescriptor) -> Vec<u64> {
        Vec::new()
    }

    fn log_write(&mut self, _record: &LogRecord) -> Option<()> {
        None
    }

    fn type_model_get_field_info(
        &mut self,
        _model: usize,
        _pipe: PipeDescriptor,
        _path: Option<&Vec<u8>>,
    ) -> FieldInfoReply {
        FieldInfoReply { status: HOST_FAILURE, shape: PrimitiveTypeShape::default() }
    }

    fn type_model_get_accessor(
        &mut self,
        _model: usize,
        _pipe: PipeDescriptor,
        _path: Option<&Vec<u8>>,
    ) -> u32 {
        NO_ACCESSOR
    }

    fn type_instance_read(&mut self, _instance: usize, _accessor: u32, _size: usize) -> ReadReply {
        ReadReply { count: 0, data: Vec::new() }
    }
}

#[test]
fn streaming_counter_numbers_every_line_of_one_read() {
    let mut table = ServletTable::<BootstrapType, World>::new();
    let mut world = World::new();
    let raw = counter(&mut table, &mut world);
    world.input.extend([b"one\ntwo\nthree\n".to_vec()]);
    world.at_end = 1;
    assert_eq!(invoke_servlet_sync_exec(&mut table, &mut world, raw, 0x20), STATUS_OK);
    assert_eq!(world.written(), vec!["1 one\n", "2 two\n", "3 three\n"]);
}

#[test]
fn streaming_counter_joins_a_line_that_comes_in_pieces() {
    let mut table = ServletTable::<BootstrapType, World>::new();
    let mut world = World::new();
    let raw = counter(&mut table, &mut world);
    world.input.extend([b"al".to_vec(), b"pha\nbe".to_vec(), b"ta\n".to_vec()]);
    world.at_end = 1;
    assert_eq!(invoke_servlet_sync_exec(&mut table, &mut world, raw, 0x20), STATUS_OK);
    assert_eq!(world.written(), vec!["1 alpha\n", "2 beta\n"]);
}

#[test]
fn streaming_counter_takes_what_is_left_as_the_last_line() {
    let mut table = ServletTable::<BootstrapType, World>::new();
    let mut world = World::new();
    let raw = counter(&mut table, &mut world);
    world.input.extend([b"first\nlast".to_vec()]);
    world.at_end = 0;
    assert_eq!(invoke_servlet_sync_exec(&mut table, &mut world, raw, 0x20), STATUS_OK);
    assert_eq!(world.written(), vec!["1 first\n", "2 last"]);
    world.input.extend([b"next\n".to_vec()]);
    world.at_end = 1;
    assert_eq!(invoke_servlet_sync_exec(&mut table, &mut world, raw, 0x20), STATUS_OK);
    assert_eq!(world.written(), vec!["1 first\n", "2 last", "3 next\n"]);
}

#[test]
fn streaming_counter_takes_a_line_of_many_reads() {
    let mut table = ServletTable::<BootstrapType, World>::new();
    let mut world = World::new();
    let raw = counter(&mut table, &mut world);
    for _ in 0..40 {
        world.input.push_back(vec![b'x'; READ_CAPACITY]);
    }
    world.input.push_back(b"\nshort\n".to_vec());
    world.at_end = 1;
    assert_eq!(invoke_servlet_sync_exec(&mut table, &mut world, raw, 0x20), STATUS_OK);
    assert_eq!(world.output.len(), 2);
    assert_eq!(world.output[0].1.len(), 40 * READ_CAPACITY + 3);
    assert!(world.output[0].1.starts_with(b"1 xxx"));
    assert_eq!(world.output[1].1, b"2 short\n".to_vec());
}

#[test]
fn streaming_counter_writes_each_line_until_it_is_out() {
    let mut table = ServletTable::<BootstrapType, World>::new();
    let mut world = World::new();
    let raw = counter(&mut table, &mut world);
    world.write_room = Some(3);
    world.input.extend([b"alpha\nbeta\n".to_vec(), b"gamma".to_vec()]);
    world.at_end = 1;
    assert_eq!(invoke_servlet_sync_exec(&mut table, &mut world, raw, 0x20), STATUS_OK);
    assert_eq!(world.all_written(), "1 alpha\n2 beta\n3 gamma");
    assert_eq!(world.written()[..3], ["1 a", "lph", "a\n"]);
}

#[test]
fn streaming_counter_goes_on_when_a_line_cannot_be_written() {
    let mut table = ServletTable::<BootstrapType, World>::new();
    let mut world = World::new();
    let raw = counter(&mut table, &mut world);
    world.write_room = Some(0);
    world.input.extend([b"a\nb\n".to_vec()]);
    assert_eq!(invoke_servlet_sync_exec(&mut table, &mut world, raw, 0x20), STATUS_OK);
    assert_eq!(world.all_written(), "");
    // one try for each line, and the count goes on all the same
    assert_eq!(world.output.len(), 2);
    world.write_room = None;
    world.input.extend([b"c\n".to_vec()]);
    world.at_end = 1;
    assert_eq!(invoke_servlet_sync_exec(&mut table, &mut world, raw, 0x20), STATUS_OK);
    assert_eq!(world.all_written(), "3 c\n");
}

#[test]
fn take_line_cuts_at_the_first_newline() {
    assert_eq!(NEWLINE, b'\n');
    let mut pending = b"ab\ncd\nef".to_vec();
    assert_eq!(take_line(&mut pending), Some(b"ab\n".to_vec()));
    assert_eq!(pending, b"cd\nef".to_vec());
    assert_eq!(take_line(&mut pending), Some(b"cd\n".to_vec()));
    assert_eq!(pending, b"ef".to_vec());
    assert_eq!(take_line(&mut pending), None);
    assert_eq!(pending, b"ef".to_vec());
    let mut only = b"\n".to_vec();
    assert_eq!(take_line(&mut only), Some(b"\n".to_vec()));
    assert!(only.is_empty());
    let mut empty: Vec<u8> = Vec::new();
    assert_eq!(take_line(&mut empty), None);
    let mut leading = b"\nx".to_vec();
    assert_eq!(take_line(&mut leading), Some(b"\n".to_vec()));
    assert_eq!(leading, b"x".to_vec());
}

#[test]
fn append_brought_takes_the_head_of_the_buffer() {
    let mut pending = b"ab".to_vec();
    append_brought(&mut pending, &b"cdef".to_vec(), 2);
    assert_eq!(pending, b"abcd".to_vec());
    append_brought(&mut pending, &b"xy".to_vec(), 0);
    assert_eq!(pending, b"abcd".to_vec());
    append_brought(&mut pending, &b"z".to_vec(), 3);
    assert_eq!(pending, b"abcdz\0\0".to_vec());
}

#[test]
fn streaming_counter_releases_the_counts_that_the_host_let_go() {
    let mut table = ServletTable::<BootstrapType, World>::new();
    let mut world = World::new();
    let raw = counter(&mut table, &mut world);
    let mut words = Vec::new();
    for round in 1..=4 {
        world.input.extend([b"line\n".to_vec()]);
        assert_eq!(invoke_servlet_sync_exec(&mut table, &mut world, raw, 0x20), STATUS_OK);
        assert_eq!(world.asked_for_released, round);
        words.push(world.state);
    }
    assert_eq!(world.written(), vec!["1 line\n", "2 line\n", "3 line\n", "4 line\n"]);
    // each count took the place of the one before, which the host let go; all but the last
    // two have been reported, and their slot is used again
    assert_eq!(world.released, vec![(0, words[2])]);
    assert_eq!(words[0] & 0xffff_ffff, words[2] & 0xffff_ffff);
    assert_ne!(words[0], words[2]);
}
