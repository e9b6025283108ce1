use plumber_rs::host::{
    ControlReply, FieldInfoReply, Host, PipeControl, ReadReply, HOST_FAILURE, NO_ACCESSOR,
};
use plumber_rs::log::{
    log_write, LogRecord, LOG_DEBUG, LOG_ERROR, LOG_FATAL, LOG_INFO, LOG_NOTICE, LOG_TRACE,
    LOG_WARNING,
};
use plumber_rs::pipe::{PipeDescriptor, PipeFlags};
use plumber_rs::protocol::PrimitiveTypeShape;

struct Sink {
    has_log: bool,
    records: Vec<(i32, Option<Vec<u8>>, Option<Vec<u8>>, i32, Option<Vec<u8>>)>,
}

impl Host for Sink {
    fn pipe_define(
        &mut self,
        _name: Option<&Vec<u8>>,
        _flags: PipeFlags,
        _type_expr: Option<&Vec<u8>>,
    ) -> Option<PipeDescriptor> {
        None
    }

    fn pipe_read(&mut self, _pipe: PipeDescriptor, _buf: &mut [u8]) -> Option<usize> {
        None
    }

    fn pipe_write(&mut self, _pipe: PipeDescriptor, _data: &[u8]) -> Option<usize> {
        None
    }

    fn pipe_eof(&mut self, _pipe: PipeDescriptor) -> Option<i32> {
        None
    }

    fn pipe_cntl(&mut self, _pipe: PipeDescriptor, _request: PipeControl) -> Option<ControlReply> {
        None
    }

    fn pipe_released_states(&mut self, _pipe: PipeDescriptor) -> Vec<u64> {
        Vec::new()
    }

    fn log_write(&mut self, record: &LogRecord) -> Option<()> {
        if !self.has_log {
            return None;
        }
        self.records.push((
            record.level,
            record.file.clone(),
            record.function.clone(),
            record.line,
            record.message.clone(),
        ));
        Some(())
    }

    fn type_model_get_field_info(
        &mut self,
        _model: usize,
        _pipe: PipeDescriptor,
        _path: Option<&Vec<u8>>,
    ) -> FieldInfoReply {
        FieldInfoReply { status: HOST_FAILURE, shape: PrimitiveTypeShape::default() }
    }

    fn type_model_get_accessor(
        &mut self,
        _model: usize,
        _pipe: PipeDescriptor,
        _path: Option<&Vec<u8>>,
    ) -> u32 {
        NO_ACCESSOR
    }

    fn type_instance_read(&mut self, _instance: usize, _accessor: u32, _size: usize) -> ReadReply {
        ReadReply { count: 0, data: Vec::new() }
    }
}

#[test]
fn levels_run_from_fatal_to_debug() {
    assert_eq!(
        [LOG_FATAL, LOG_ERROR, LOG_WARNING, LOG_NOTICE, LOG_INFO, LOG_TRACE, LOG_DEBUG],
        [0, 1, 2, 3, 4, 5, 6]
    );
}

#[test]
fn record_holds_c_strings_and_an_unknown_function() {
    let record = LogRecord::new(LOG_WARNING, "src/lib.rs", 42, "Hello World!");
    assert_eq!(record.level, 2);
    assert_eq!(record.file, Some(b"src/lib.rs\0".to_vec()));
    assert_eq!(record.function, Some(b"????\0".to_vec()));
    assert_eq!(record.line, 42);
    assert_eq!(record.message, Some(b"Hello World!\0".to_vec()));
}

#[test]
fn record_has_nothing_for_text_with_a_zero_byte() {
    let record = LogRecord::new(LOG_ERROR, "a\0b", -1, "m\0");
    assert_eq!(record.file, None);
    assert_eq!(record.message, None);
    assert_eq!(record.function, Some(b"????\0".to_vec()));
    assert_eq!(record.line, -1);
}

#[test]
fn log_write_hands_one_record_to_the_host() {
    let mut host = Sink { has_log: true, records: Vec::new() };
    log_write(&mut host, LOG_DEBUG, "servlet.rs", 7, "started with [\"a\"]");
    assert_eq!(
        host.records,
        vec![(
            6,
            Some(b"servlet.rs\0".to_vec()),
            Some(b"????\0".to_vec()),
            7,
            Some(b"started with [\"a\"]\0".to_vec())
        )]
    );
}

#[test]
fn log_write_without_a_log_is_dropped() {
    let mut host = Sink { has_log: false, records: Vec::new() };
    log_write(&mut host, LOG_FATAL, "servlet.rs", 7, "lost");
    assert!(host.records.is_empty());
}
