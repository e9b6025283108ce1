//! Records for the host's log.

use vstd::prelude::*;
use crate::host::{ask_log, log_answer, Host};
use crate::plumber_api_call::{get_cstr, spec_get_cstr};

verus! {

/// The most severe level.
pub const LOG_FATAL: i32 = 0;

pub const LOG_ERROR: i32 = 1;

pub const LOG_WARNING: i32 = 2;

pub const LOG_NOTICE: i32 = 3;

pub const LOG_INFO: i32 = 4;

pub const LOG_TRACE: i32 = 5;

/// The least severe level.
pub const LOG_DEBUG: i32 = 6;

/// One line for the host's log, as the host takes it: the texts
/// zero-terminated, `None` for a text that cannot be written so.
pub struct LogRecord {
    pub level: i32,
    pub file: Option<Vec<u8>>,
    pub function: Option<Vec<u8>>,
    pub line: i32,
    pub message: Option<Vec<u8>>,
}

impl LogRecord {
    /// The record is the one for a message written at `line` of `file`: the
    /// level and the line as given, the texts zero-terminated, and four
    /// question marks for the name of the function, which is not known.
    pub open spec fn is_for(&self, level: i32, file: &str, line: i32, message: &str) -> bool {
        &&& self.level == level
        &&& self.line == line
        &&& self.file is Some <==> spec_get_cstr(Some(file)) is Some
        &&& self.file matches Some(bytes) ==> spec_get_cstr(Some(file)) == Some(bytes@)
        &&& self.function matches Some(bytes) && bytes@ == seq![63u8, 63u8, 63u8, 63u8, 0u8]
        &&& self.message is Some <==> spec_get_cstr(Some(message)) is Some
        &&& self.message matches Some(bytes) ==> spec_get_cstr(Some(message)) == Some(bytes@)
    }

    /// The record for a message written at `line` of `file`. The name of the
    /// function is not known here and is given as four question marks.
    pub fn new(level: i32, file: &str, line: i32, message: &str) -> (record: LogRecord)
        ensures
            record.is_for(level, file, line, message),
    {
        let mut function: Vec<u8> = Vec::new();
        function.push(63);
        function.push(63);
        function.push(63);
        function.push(63);
        function.push(0);
        assert(function@ =~= seq![63u8, 63u8, 63u8, 63u8, 0u8]);
        LogRecord {
            level,
            file: get_cstr(Some(file)),
            function: Some(function),
            line,
            message: get_cstr(Some(message)),
        }
    }
}

/// Writes a message to the host's log. Nothing is reported back: a host
/// without a log drops the message.
pub fn log_write<H: Host>(host: &mut H, level: i32, file: &str, line: i32, message: &str)
    ensures
        exists|record: LogRecord, reply: Option<()>|
            record.is_for(level, file, line, message) && #[trigger] log_answer(
                *old(host),
                record,
                reply,
            ),
        exists|h: &mut H, record: LogRecord, reply: Option<()>|
            *h == *old(host) && *final(h) == *final(host) && record.is_for(
                level,
                file,
                line,
                message,
            ) && #[trigger] call_ensures(H::log_write, (h, &record), reply),
{
    let record = LogRecord::new(level, file, line, message);
    let _ = ask_log(host, &record);
}

} // verus!
