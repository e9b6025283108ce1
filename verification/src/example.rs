//! A servlet that numbers the lines it reads.
//!
//! The servlet has one input and one output. Each activation reads the input
//! until a read comes back empty. What the reads bring is cut into lines at
//! each newline, wherever the reads themselves end, and every line is
//! written to the output behind a running count and a space, in as many
//! writes as the host needs to take it; what is left without a newline when
//! the input runs dry is a line too. A line that the host does not take is
//! lost, and the count goes on. The count belongs to the resource behind the
//! input, not to the activation: when the input may bring more, the servlet
//! attaches the count to the resource and asks the host to keep the
//! resource, and the next activation on that resource goes on counting where
//! this one stopped. The counts that the host has let go of in the meantime
//! are released at the start of each activation.

use vstd::prelude::*;
use crate::host::{
    cntl_step, define_step, eof_step, log_answer, read_step, released_step, ControlReply, Host,
    PipeControl,
};
use crate::log::{log_write, LogRecord, LOG_INFO};
use crate::plumber_api_call::spec_get_cstr;
use crate::pipe::{
    makes_room, sent, spec_define_outcome, spec_eof_outcome, spec_transfer_outcome,
    states_without, Pipe, PipeDescriptor,
    PipeError, PIPE_INPUT, PIPE_OUTPUT, PIPE_PERSIST,
};
use crate::protocol::Untyped;
use crate::rust_servlet::{bootstrap_step, exec_step, sync_cleanup_step, sync_setup_step};
use crate::servlet::{
    fail, success, Bootstrap, BootstrapResult, ServletFuncResult, ServletMode, SyncServlet,
    Unimplemented,
};

verus! {

/// The number of bytes that one read can bring.
pub const READ_CAPACITY: usize = 4096;

/// The byte that ends a line.
pub const NEWLINE: u8 = 10;

/// What an activation does when a read came back empty.
#[derive(Clone, Copy, Debug, PartialEq, Eq, Structural)]
pub enum EndOfInput {
    /// More may come: keep the count with the resource and the resource
    /// with the host.
    Persist,
    /// No more can come: let the resource go.
    Finish,
    /// The host could not tell: let the resource go and fail.
    Fail,
}

/// What an empty read means, given the host's answer to `eof`.
pub open spec fn spec_end_of_input(eof: Option<bool>) -> EndOfInput {
    match eof {
        Some(false) => EndOfInput::Persist,
        Some(true) => EndOfInput::Finish,
        None => EndOfInput::Fail,
    }
}

/// See [`spec_end_of_input`].
pub fn end_of_input(eof: Option<bool>) -> (r: EndOfInput)
    ensures
        r == spec_end_of_input(eof),
{
    match eof {
        Some(false) => EndOfInput::Persist,
        Some(true) => EndOfInput::Finish,
        None => EndOfInput::Fail,
    }
}

/// The decimal digits of `n` in ASCII, without leading zeros.
pub open spec fn decimal(n: nat) -> Seq<u8>
    decreases n,
{
    if n < 10 {
        seq![(48 + n) as u8]
    } else {
        decimal(n / 10).push((48 + n % 10) as u8)
    }
}

/// `count` as text: its decimal digits, behind a minus sign where it is
/// negative.
pub open spec fn count_text(count: i32) -> Seq<u8> {
    if count < 0 {
        seq![45u8] + decimal((-count) as nat)
    } else {
        decimal(count as nat)
    }
}

/// What is written for the line `line` when its number is `count`: the
/// number, a space, and `line`.
pub open spec fn numbered(count: i32, line: Seq<u8>) -> Seq<u8> {
    count_text(count) + seq![32u8] + line
}

/// Appends the decimal digits of `n` to `out`.
fn push_decimal(out: &mut Vec<u8>, n: u32)
    ensures
        final(out)@ == old(out)@ + decimal(n as nat),
    decreases n,
{
    if n >= 10 {
        push_decimal(out, n / 10);
    }
    let digit: u8 = 48 + (n % 10) as u8;
    out.push(digit);
    proof {
        if n >= 10 {
            assert(final(out)@ =~= old(out)@ + decimal((n / 10) as nat).push(digit));
        } else {
            assert(final(out)@ =~= old(out)@ + seq![digit]);
        }
    }
}

/// The bytes to write for the line `line` when its number is `count`.
pub fn number_line(count: i32, line: &[u8]) -> (out: Vec<u8>)
    ensures
        out@ == numbered(count, line@),
{
    let mut out: Vec<u8> = Vec::new();
    if count < 0 {
        out.push(45);
        let magnitude: u32 = if count == i32::MIN {
            0x8000_0000
        } else {
            (-count) as u32
        };
        push_decimal(&mut out, magnitude);
        assert(out@ =~= count_text(count));
    } else {
        push_decimal(&mut out, count as u32);
        assert(out@ =~= count_text(count));
    }
    out.push(32);
    let mut i: usize = 0;
    while i < line.len()
        invariant
            i <= line@.len(),
            out@ == count_text(count) + seq![32u8] + line@.subrange(0, i as int),
        decreases line@.len() - i,
    {
        out.push(line[i]);
        assert(line@.subrange(0, i + 1) =~= line@.subrange(0, i as int).push(line@[i as int]));
        assert(out@ =~= count_text(count) + seq![32u8] + line@.subrange(0, i + 1));
        i += 1;
    }
    assert(line@.subrange(0, line@.len() as int) =~= line@);
    out
}

/// The count that an activation starts from, given the host's answer to
/// `PopState`: the count that an earlier activation attached to the
/// resource, or zero where there is none.
pub open spec fn start_count(input: Pipe<i32>, reply: Option<ControlReply>) -> i32 {
    match input.spec_state_of(reply) {
        Some(count) => count,
        None => 0,
    }
}

/// How an activation ends once the host, then in the state `host`, has been
/// asked whether the input has come to its end, with the count at `count`;
/// what becomes of the input pipe; and the state `last` that the host is
/// left in. Where more may come, the host is asked to keep the resource and,
/// if the pipe has room, is handed the count as the state of the resource;
/// the pipe keeps the count if the host takes it. Where no more can come, or
/// the host cannot tell, the host is asked to let the resource go, and the
/// pipe keeps what it kept. The result is a failure only where the host
/// could not tell.
pub open spec fn ends_as<H: Host>(
    input: Pipe<i32>,
    input_after: Pipe<i32>,
    host: H,
    last: H,
    count: i32,
    end: EndOfInput,
    r: ServletFuncResult,
) -> bool {
    match end {
        EndOfInput::Persist => {
            &&& r is Ok
            &&& exists|set: Option<ControlReply>, kept: H|
                {
                    &&& #[trigger] cntl_step(
                        host,
                        input.descriptor(),
                        PipeControl::SetFlag(PIPE_PERSIST),
                        set,
                        kept,
                    )
                    &&& if input.has_room() {
                        exists|h: crate::arena::Handle, push: Option<ControlReply>|
                            {
                                &&& !input.states().dom().contains(h)
                                &&& #[trigger] cntl_step(
                                    kept,
                                    input.descriptor(),
                                    PipeControl::PushState(h.spec_to_raw()),
                                    push,
                                    last,
                                )
                                &&& input_after.states() == if crate::pipe::control_accepted(push) {
                                    input.states().insert(h, count)
                                } else {
                                    input.states()
                                }
                            }
                    } else {
                        input_after.states() == input.states() && last == kept
                    }
                }
        },
        EndOfInput::Finish => {
            &&& r is Ok
            &&& input_after == input
            &&& exists|cleared: Option<ControlReply>| #[trigger]
                cntl_step(
                    host,
                    input.descriptor(),
                    PipeControl::ClearFlag(PIPE_PERSIST),
                    cleared,
                    last,
                )
        },
        EndOfInput::Fail => {
            &&& r is Err
            &&& input_after == input
            &&& exists|cleared: Option<ControlReply>| #[trigger]
                cntl_step(
                    host,
                    input.descriptor(),
                    PipeControl::ClearFlag(PIPE_PERSIST),
                    cleared,
                    last,
                )
        },
    }
}

/// Where the first newline of `bytes` stands, or the length of `bytes` where
/// there is none.
pub open spec fn newline_at(bytes: Seq<u8>) -> int
    decreases bytes.len(),
{
    if bytes.len() == 0 {
        0
    } else if bytes[0] == NEWLINE {
        0
    } else {
        1 + newline_at(bytes.drop_first())
    }
}

/// `bytes` hold a newline, and so at least one whole line.
pub open spec fn has_line(bytes: Seq<u8>) -> bool {
    newline_at(bytes) < bytes.len()
}

/// The first line of `bytes`, with its newline.
pub open spec fn first_line(bytes: Seq<u8>) -> Seq<u8> {
    bytes.subrange(0, newline_at(bytes) + 1)
}

/// What follows the first line of `bytes`.
pub open spec fn after_first_line(bytes: Seq<u8>) -> Seq<u8> {
    bytes.subrange(newline_at(bytes) + 1, bytes.len() as int)
}

/// What a read that claims `size` bytes has brought, where `data` is the
/// buffer as the host left it: the first `size` bytes of the buffer.
pub open spec fn brought(data: Seq<u8>, size: usize) -> Seq<u8> {
    Seq::new(
        size as nat,
        |i: int|
            if i < data.len() {
                data[i]
            } else {
                0u8
            },
    )
}

/// The first newline stands at `at` where no byte before `at` is a newline
/// and the byte at `at` is one, or `at` is the end.
pub proof fn lemma_newline_at(bytes: Seq<u8>, at: int)
    requires
        0 <= at <= bytes.len(),
        forall|j: int| 0 <= j < at ==> bytes[j] != NEWLINE,
        at < bytes.len() ==> bytes[at] == NEWLINE,
    ensures
        newline_at(bytes) == at,
    decreases at,
{
    if at > 0 {
        let rest = bytes.drop_first();
        assert forall|j: int| 0 <= j < at - 1 implies rest[j] != NEWLINE by {
            assert(rest[j] == bytes[j + 1]);
        }
        lemma_newline_at(rest, at - 1);
    }
}

/// Takes the first line, with its newline, off the front of `pending`, if
/// `pending` holds a newline.
pub fn take_line(pending: &mut Vec<u8>) -> (line: Option<Vec<u8>>)
    ensures
        line is Some <==> has_line(old(pending)@),
        line matches Some(bytes) ==> bytes@ == first_line(old(pending)@) && final(pending)@
            == after_first_line(old(pending)@),
        line is None ==> final(pending)@ == old(pending)@,
{
    let mut at: usize = 0;
    while at < pending.len() && pending[at] != NEWLINE
        invariant
            *pending == *old(pending),
            at <= pending@.len(),
            forall|j: int| 0 <= j < at ==> pending@[j] != NEWLINE,
        decreases pending@.len() - at,
    {
        at += 1;
    }
    proof {
        lemma_newline_at(pending@, at as int);
    }
    if at >= pending.len() {
        return None;
    }
    let mut line: Vec<u8> = Vec::new();
    let mut rest: Vec<u8> = Vec::new();
    let mut i: usize = 0;
    while i < pending.len()
        invariant
            *pending == *old(pending),
            at < pending@.len(),
            i <= pending@.len(),
            i <= at ==> line@ == pending@.subrange(0, i as int) && rest@.len() == 0,
            i > at ==> line@ == pending@.subrange(0, at + 1) && rest@ == pending@.subrange(
                at + 1,
                i as int,
            ),
        decreases pending@.len() - i,
    {
        if i <= at {
            line.push(pending[i]);
            assert(line@ =~= pending@.subrange(0, i + 1));
            assert(i == at ==> rest@ =~= pending@.subrange(at + 1, i + 1));
        } else {
            rest.push(pending[i]);
            assert(rest@ =~= pending@.subrange(at + 1, i + 1));
        }
        i += 1;
    }
    *pending = rest;
    Some(line)
}

/// Puts what a read has brought behind `pending`.
pub fn append_brought(pending: &mut Vec<u8>, data: &Vec<u8>, size: usize)
    ensures
        final(pending)@ == old(pending)@ + brought(data@, size),
{
    let mut i: usize = 0;
    while i < size
        invariant
            i <= size,
            pending@ == old(pending)@ + brought(data@, i),
        decreases size - i,
    {
        let byte: u8 = if i < data.len() {
            data[i]
        } else {
            0
        };
        pending.push(byte);
        assert(pending@ =~= old(pending)@ + brought(data@, (i + 1) as usize));
        i += 1;
    }
    assert(brought(data@, 0) =~= Seq::<u8>::empty());
}

/// How an activation ends once a read has come back empty, with the host
/// in the state `host`, the count at `count`, and `pending` not yet ended by
/// a newline. What is pending is the last line: it is counted and written
/// until it is out or the host gives up on it, as [`sent`] says,
/// unless the count cannot go further, which fails the activation. Then the
/// host is asked whether the input has come to its end, and the activation
/// ends as [`ends_as`] says.
pub open spec fn last_round<H: Host>(
    input: Pipe<i32>,
    input_after: Pipe<i32>,
    output: PipeDescriptor,
    host: H,
    last: H,
    count: i32,
    pending: Seq<u8>,
    r: ServletFuncResult,
) -> bool {
    if pending.len() == 0 {
        exists|eof: Option<i32>, asked: H|
            (#[trigger] eof_step(host, input.descriptor(), eof, asked)) && ends_as(
                input,
                input_after,
                asked,
                last,
                count,
                spec_end_of_input(spec_eof_outcome(eof)),
                r,
            )
    } else if count >= i32::MAX {
        r is Err && input_after == input && last == host
    } else {
        exists|written: Result<(), PipeError>, wrote: H, eof: Option<i32>, asked: H|
            {
                &&& #[trigger] sent(
                    host,
                    output,
                    numbered((count + 1) as i32, pending),
                    wrote,
                    written,
                )
                &&& #[trigger] eof_step(wrote, input.descriptor(), eof, asked)
                &&& ends_as(
                    input,
                    input_after,
                    asked,
                    last,
                    (count + 1) as i32,
                    spec_end_of_input(spec_eof_outcome(eof)),
                    r,
                )
            }
    }
}

/// What an activation comes to from the point where the host is in the
/// state `host`, the count stands at `count`, and the bytes `pending` have
/// been read and not yet written; `last` is the state that the host is left
/// in. While `pending` holds a whole line, the first line is counted and
/// written behind its number until it is out or the host gives up on it, as
/// [`sent`] says, and the activation goes on with the rest, whatever became
/// of the line, the host in the state that it was left in. Else the input is read into
/// a fresh buffer. A read that fails, or that claims more bytes than the
/// buffer has, fails the activation. An empty read ends it as [`last_round`]
/// says. Any other read puts what it brought behind `pending`, and the
/// activation goes on from there, the host in the state that the read left
/// it in. An activation that cannot count any further, or whose pending
/// bytes leave no room in memory for another read, fails.
pub open spec fn run_from<H: Host>(
    input: Pipe<i32>,
    input_after: Pipe<i32>,
    output: PipeDescriptor,
    host: H,
    last: H,
    count: i32,
    pending: Seq<u8>,
    r: ServletFuncResult,
) -> bool
    decreases i32::MAX - count, usize::MAX + 1 - pending.len(),
{
    if has_line(pending) {
        if count >= i32::MAX {
            r is Err && input_after == input && last == host
        } else {
            exists|written: Result<(), PipeError>, next: H|
                (#[trigger] sent(
                    host,
                    output,
                    numbered((count + 1) as i32, first_line(pending)),
                    next,
                    written,
                )) && run_from(
                    input,
                    input_after,
                    output,
                    next,
                    last,
                    (count + 1) as i32,
                    after_first_line(pending),
                    r,
                )
        }
    } else if pending.len() > usize::MAX - READ_CAPACITY {
        r is Err && input_after == input && last == host
    } else {
        exists|reply: Option<usize>, data: Seq<u8>, next: H|
            (#[trigger] read_step(host, input.descriptor(), READ_CAPACITY, reply, data, next))
                && match spec_transfer_outcome(reply) {
                Err(_) => r is Err && input_after == input && last == next,
                Ok(size) => if size > READ_CAPACITY {
                    r is Err && input_after == input && last == next
                } else if size == 0 {
                    last_round(input, input_after, output, next, last, count, pending, r)
                } else {
                    run_from(
                        input,
                        input_after,
                        output,
                        next,
                        last,
                        count,
                        pending + brought(data, size),
                        r,
                    )
                },
            }
    }
}

/// A line written behind its number takes an activation one step on: what
/// the activation comes to with the rest of the pending bytes, from the
/// state that the write left the host in, it comes to with all of them.
pub proof fn lemma_line_goes_on<H: Host>(
    input: Pipe<i32>,
    input_after: Pipe<i32>,
    output: PipeDescriptor,
    host: H,
    last: H,
    count: i32,
    pending: Seq<u8>,
    r: ServletFuncResult,
    written: Result<(), PipeError>,
    next: H,
)
    requires
        has_line(pending),
        count < i32::MAX,
        sent(host, output, numbered((count + 1) as i32, first_line(pending)), next, written),
        run_from(
            input,
            input_after,
            output,
            next,
            last,
            (count + 1) as i32,
            after_first_line(pending),
            r,
        ),
    ensures
        run_from(input, input_after, output, host, last, count, pending, r),
{
}

/// A read that brought bytes takes an activation one step on: what the
/// activation comes to with those bytes behind the pending ones, from the
/// state that the read left the host in, it comes to from before the read.
pub proof fn lemma_read_goes_on<H: Host>(
    input: Pipe<i32>,
    input_after: Pipe<i32>,
    output: PipeDescriptor,
    host: H,
    last: H,
    count: i32,
    pending: Seq<u8>,
    r: ServletFuncResult,
    reply: Option<usize>,
    data: Seq<u8>,
    size: usize,
    next: H,
)
    requires
        !has_line(pending),
        pending.len() <= usize::MAX - READ_CAPACITY,
        read_step(host, input.descriptor(), READ_CAPACITY, reply, data, next),
        spec_transfer_outcome(reply) == Ok::<usize, PipeError>(size),
        0 < size <= READ_CAPACITY,
        run_from(
            input,
            input_after,
            output,
            next,
            last,
            count,
            pending + brought(data, size),
            r,
        ),
    ensures
        run_from(input, input_after, output, host, last, count, pending, r),
{
}

/// The servlet: its two pipes.
pub struct Servlet {
    input: Pipe<i32>,
    output: Pipe<()>,
}

impl Servlet {
    /// The pipe that is read.
    pub closed spec fn input(&self) -> Pipe<i32> {
        self.input
    }

    /// The pipe that is written.
    pub closed spec fn output(&self) -> Pipe<()> {
        self.output
    }
}

/// The pipe `cleaned` is the pipe `input` after the states that the words
/// `words` name were let go: it has the same descriptor and the states that
/// are left, and it has room where `input` had room or room was made.
pub open spec fn is_swept(input: Pipe<i32>, cleaned: Pipe<i32>, words: Seq<u64>) -> bool {
    &&& cleaned.descriptor() == input.descriptor()
    &&& cleaned.states() == states_without(input.states(), words)
    &&& cleaned.has_room() <==> input.has_room() || makes_room(input.states(), words)
}

/// What an activation of the servlet `before` comes to, with the host in
/// the state `host` at first and in the state `last` at the end. The host is
/// asked which states of the input it has let go of, and they are let go
/// here. Then the host is asked for the state of the resource at hand, and
/// the lines are numbered from the count that it names, as [`run_from`]
/// says.
pub open spec fn activation<H: Host>(
    before: Servlet,
    after: Servlet,
    host: H,
    last: H,
    r: ServletFuncResult,
) -> bool {
    exists|words: Seq<u64>, cleaned: Pipe<i32>, swept: H, state: Option<ControlReply>, then: H|
        {
            &&& #[trigger] released_step(host, before.input().descriptor(), words, swept)
            &&& #[trigger] is_swept(before.input(), cleaned, words)
            &&& #[trigger] cntl_step(
                swept,
                before.input().descriptor(),
                PipeControl::PopState,
                state,
                then,
            )
            &&& run_from(
                cleaned,
                after.input(),
                before.output().descriptor(),
                then,
                last,
                start_count(cleaned, state),
                Seq::<u8>::empty(),
                r,
            )
        }
}

/// What the bootstrap comes to when the host answers `first` to the
/// definition of the input and, where it is asked at all, `second` to that
/// of the output: a synchronous servlet on the two pipes where both were
/// defined, and a failure where either was not. The output is only asked for
/// once the input is there.
pub open spec fn bootstrap_result<H: Host>(
    first: Option<PipeDescriptor>,
    second: Option<PipeDescriptor>,
    r: BootstrapResult<BootstrapType, H>,
) -> bool {
    match (spec_define_outcome(first), spec_define_outcome(second)) {
        (Some(input), Some(output)) => r matches BootstrapResult::Success(
            ServletMode::SyncMode(servlet),
        ) && servlet.input().descriptor() == input && servlet.output().descriptor() == output
            && servlet.input().states() == Map::<crate::arena::Handle, i32>::empty(),
        _ => r is Fail,
    }
}

impl Servlet {
    /// Numbers the lines of one activation, from the count that the host has
    /// kept for the resource; see [`run_from`].
    pub fn count_lines<H: Host>(&mut self, host: &mut H) -> (r: ServletFuncResult)
        ensures
            final(self).output() == old(self).output(),
            final(self).input().descriptor() == old(self).input().descriptor(),
            exists|state: Option<ControlReply>, then: H|
                {
                    &&& #[trigger] cntl_step(
                        *old(host),
                        old(self).input().descriptor(),
                        PipeControl::PopState,
                        state,
                        then,
                    )
                    &&& run_from(
                        old(self).input(),
                        final(self).input(),
                        old(self).output().descriptor(),
                        then,
                        *final(host),
                        start_count(old(self).input(), state),
                        Seq::<u8>::empty(),
                        r,
                    )
                },
    {
        let ghost input = self.input;
        let ghost output = self.output.descriptor();
        let found = self.input.get_state(host);
        let ghost start = *host;
        let ghost state = choose|reply: Option<ControlReply>|
            (#[trigger] cntl_step(
                *old(host),
                input.descriptor(),
                PipeControl::PopState,
                reply,
                start,
            )) && (found is Some <==> input.spec_state_of(reply) is Some) && (found matches Some(
                count,
            ) ==> input.spec_state_of(reply) == Some(*count));
        let mut count: i32 = match found {
            Some(state) => *state,
            None => 0,
        };
        let mut pending: Vec<u8> = Vec::new();
        let ghost first = count;
        assert(first == start_count(input, state));
        let failed: ServletFuncResult = Err(());
        loop
            invariant
                *self == *old(self),
                input == old(self).input(),
                output == old(self).output().descriptor(),
                failed == Err::<(), ()>(()),
                cntl_step(*old(host), input.descriptor(), PipeControl::PopState, state, start),
                first == start_count(input, state),
                forall|end: ServletFuncResult, after: Pipe<i32>, last: H| #[trigger]
                    run_from(input, after, output, *host, last, count, pending@, end) ==> run_from(
                        input,
                        after,
                        output,
                        start,
                        last,
                        first,
                        Seq::<u8>::empty(),
                        end,
                    ),
            decreases i32::MAX - count, usize::MAX + 1 - pending@.len(),
        {
            let ghost here = *host;
            let ghost counted = count;
            let ghost held = pending@;
            match take_line(&mut pending) {
                Some(line) => {
                    if count == i32::MAX {
                        assert(run_from(input, self.input, output, here, here, counted, held, failed));
                        return fail();
                    }
                    count = count + 1;
                    let text = number_line(count, line.as_slice());
                    let written = self.output.write_all(host, text.as_slice());
                    proof {
                        let next = *host;
                        assert forall|end: ServletFuncResult, after: Pipe<i32>, last: H| #[trigger]
                            run_from(
                                input,
                                after,
                                output,
                                next,
                                last,
                                count,
                                pending@,
                                end,
                            ) implies run_from(
                            input,
                            after,
                            output,
                            start,
                            last,
                            first,
                            Seq::<u8>::empty(),
                            end,
                        ) by {
                            lemma_line_goes_on(
                                input,
                                after,
                                output,
                                here,
                                last,
                                counted,
                                held,
                                end,
                                written,
                                next,
                            );
                        }
                    }
                },
                None => {
                    if pending.len() > usize::MAX - READ_CAPACITY {
                        assert(run_from(input, self.input, output, here, here, counted, held, failed));
                        return fail();
                    }
                    let (got, data) = self.input.read_bytes(host, READ_CAPACITY);
                    let ghost read = *host;
                    let ghost read_reply = choose|reply: Option<usize>|
                        (#[trigger] read_step(
                            here,
                            input.descriptor(),
                            READ_CAPACITY,
                            reply,
                            data@,
                            read,
                        )) && got == spec_transfer_outcome(reply);
                    match got {
                        Ok(size) => {
                            if size > READ_CAPACITY {
                                assert(run_from(
                                    input,
                                    self.input,
                                    output,
                                    here,
                                    read,
                                    counted,
                                    held,
                                    failed,
                                ));
                                return fail();
                            }
                            if size == 0 {
                                if pending.len() > 0 {
                                    if count == i32::MAX {
                                        assert(last_round(
                                            input,
                                            self.input,
                                            output,
                                            read,
                                            read,
                                            counted,
                                            held,
                                            failed,
                                        ));
                                        assert(run_from(
                                            input,
                                            self.input,
                                            output,
                                            here,
                                            read,
                                            counted,
                                            held,
                                            failed,
                                        ));
                                        return fail();
                                    }
                                    count = count + 1;
                                    let text = number_line(count, pending.as_slice());
                                    let _ = self.output.write_all(host, text.as_slice());
                                }
                                let ghost asking = *host;
                                let end = end_of_input(self.input.eof(host));
                                let ghost asked = *host;
                                let r = match end {
                                    EndOfInput::Persist => {
                                        let _ = self.input.set_flags(host, PIPE_PERSIST);
                                        let _ = self.input.push_state(host, Box::new(count));
                                        success()
                                    },
                                    EndOfInput::Finish => {
                                        let _ = self.input.clear_flags(host, PIPE_PERSIST);
                                        success()
                                    },
                                    EndOfInput::Fail => {
                                        let _ = self.input.clear_flags(host, PIPE_PERSIST);
                                        fail()
                                    },
                                };
                                assert(ends_as(input, self.input, asked, *host, count, end, r));
                                assert(last_round(
                                    input,
                                    self.input,
                                    output,
                                    read,
                                    *host,
                                    counted,
                                    held,
                                    r,
                                ));
                                assert(run_from(
                                    input,
                                    self.input,
                                    output,
                                    here,
                                    *host,
                                    counted,
                                    held,
                                    r,
                                ));
                                assert(run_from(
                                    input,
                                    self.input,
                                    output,
                                    start,
                                    *host,
                                    first,
                                    Seq::<u8>::empty(),
                                    r,
                                ));
                                assert(self.input() == self.input);
                                return r;
                            }
                            append_brought(&mut pending, &data, size);
                            proof {
                                assert forall|end: ServletFuncResult, after: Pipe<i32>, last: H| #[trigger]
                                    run_from(
                                        input,
                                        after,
                                        output,
                                        read,
                                        last,
                                        count,
                                        pending@,
                                        end,
                                    ) implies run_from(
                                    input,
                                    after,
                                    output,
                                    start,
                                    last,
                                    first,
                                    Seq::<u8>::empty(),
                                    end,
                                ) by {
                                    lemma_read_goes_on(
                                        input,
                                        after,
                                        output,
                                        here,
                                        last,
                                        counted,
                                        held,
                                        end,
                                        read_reply,
                                        data@,
                                        size,
                                        read,
                                    );
                                }
                            }
                        },
                        Err(_) => {
                            assert(run_from(
                                input,
                                self.input,
                                output,
                                here,
                                read,
                                counted,
                                held,
                                failed,
                            ));
                            return fail();
                        },
                    }
                },
            }
        }
    }
}

impl<H: Host> SyncServlet<H> for Servlet {
    type ProtocolType = Untyped;

    type DataModelType = Untyped;

    /// Sets the servlet up: writes a line to the host's log. It cannot fail.
    fn init(&mut self, host: &mut H, args: &[&str], proto_model: &mut Untyped) -> (r: ServletFuncResult)
        ensures
            r is Ok,
            *final(self) == *old(self),
            exists|record: LogRecord, reply: Option<()>|
                record.is_for(LOG_INFO, "example", 0, "The servlet has been started")
                    && #[trigger] log_answer(*old(host), record, reply),
            exists|h: &mut H, record: LogRecord, reply: Option<()>|
                *h == *old(host) && *final(h) == *final(host) && record.is_for(
                    LOG_INFO,
                    "example",
                    0,
                    "The servlet has been started",
                ) && #[trigger] call_ensures(H::log_write, (h, &record), reply),
    {
        log_write(host, LOG_INFO, "example", 0, "The servlet has been started");
        success()
    }

    /// Does the work of one activation. The states that the host has let
    /// go of since the last activation are released first; then the lines
    /// are numbered from the count that the host has kept for the resource:
    /// see [`activation`].
    fn exec(&mut self, host: &mut H, data_model: Untyped) -> (r: ServletFuncResult)
        ensures
            final(self).output() == old(self).output(),
            final(self).input().descriptor() == old(self).input().descriptor(),
            activation(*old(self), *final(self), *old(host), *final(host), r),
    {
        let ghost before = self.input;
        assert(self.input() == self.input);
        self.input.reclaim_states(host);
        let ghost cleaned = self.input;
        let ghost swept = *host;
        let ghost words = choose|words: Seq<u64>|
            (#[trigger] released_step(*old(host), before.descriptor(), words, swept))
                && cleaned.states() == states_without(before.states(), words) && (
            cleaned.has_room() <==> before.has_room() || makes_room(before.states(), words));
        let ghost midway = *self;
        assert(midway.input() == cleaned);
        let r = self.count_lines(host);
        proof {
            assert(released_step(*old(host), old(self).input().descriptor(), words, swept)
                && is_swept(old(self).input(), cleaned, words));
        }
        r
    }

    /// Takes the servlet down. There is nothing to do, and it cannot fail.
    fn cleanup(&mut self, host: &mut H) -> (r: ServletFuncResult)
        ensures
            r is Ok,
            *final(self) == *old(self),
            *final(host) == *old(host),
    {
        success()
    }
}

/// The bootstrap of the servlet. The servlet runs in the synchronous mode
/// only.
pub struct BootstrapType {}

impl<H: Host> Bootstrap<H> for BootstrapType {
    type AsyncServletType = Unimplemented;

    type SyncServletType = Servlet;

    /// Defines the two pipes and makes the servlet on them: the input first,
    /// and the output only where the input is there.
    fn get(host: &mut H, args: &[&str]) -> (r: BootstrapResult<BootstrapType, H>)
        ensures
            exists|first: Option<PipeDescriptor>, then: H|
                {
                    &&& #[trigger] define_step(
                        *old(host),
                        spec_get_cstr(Some("input")),
                        PIPE_INPUT,
                        None,
                        first,
                        then,
                    )
                    &&& if spec_define_outcome(first) is Some {
                        exists|second: Option<PipeDescriptor>|
                            (#[trigger] define_step(
                                then,
                                spec_get_cstr(Some("output")),
                                PIPE_OUTPUT,
                                None,
                                second,
                                *final(host),
                            )) && bootstrap_result(first, second, r)
                    } else {
                        r is Fail && *final(host) == then
                    }
                },
    {
        match Pipe::define(host, "input", PIPE_INPUT, None) {
            Some(input) => match Pipe::define(host, "output", PIPE_OUTPUT, None) {
                Some(output) => BootstrapResult::Success(
                    ServletMode::SyncMode(Servlet { input, output }),
                ),
                None => BootstrapResult::Fail(),
            },
            None => BootstrapResult::Fail(),
        }
    }
}

/// The servlet behind the adapter is the servlet: whatever an activation
/// through [`exec_step`] comes to, it is an activation as [`activation`]
/// describes it, from the count that the host had kept for the resource.
pub proof fn lemma_activation_numbers_lines<H: Host>(
    servlet: Servlet,
    host: H,
    type_inst: usize,
    result: ServletFuncResult,
    after: (Servlet, H),
)
    requires
        exec_step::<Servlet, H>(servlet, host, (), type_inst, result, after),
    ensures
        after.0.output() == servlet.output(),
        after.0.input().descriptor() == servlet.input().descriptor(),
        activation(servlet, after.0, host, after.1, result),
{
}

/// The servlet's setup and cleanup behind the adapter succeed and leave the
/// servlet as it was; the cleanup leaves the host as it was too.
pub proof fn lemma_setup_and_cleanup_succeed<H: Host>(
    servlet: Servlet,
    host: H,
    args: Seq<&str>,
    result: ServletFuncResult,
    after: (Servlet, H, ()),
)
    requires
        sync_setup_step::<Servlet, H>(servlet, host, args, (), result, after)
            || sync_cleanup_step::<Servlet, H>(servlet, host, result, after.1) && after.1 == host,
    ensures
        result is Ok,
        sync_setup_step::<Servlet, H>(servlet, host, args, (), result, after) ==> after.0
            == servlet,
{
}

/// The bootstrap behind the adapter is the bootstrap: it defines the input,
/// then the output, and makes the servlet on the two pipes.
pub proof fn lemma_bootstrap_defines_the_pipes<H: Host>(
    host: H,
    args: Seq<&str>,
    result: BootstrapResult<BootstrapType, H>,
    after: H,
)
    requires
        bootstrap_step::<BootstrapType, H>(host, args, result, after),
    ensures
        exists|first: Option<PipeDescriptor>, then: H|
            {
                &&& #[trigger] define_step(
                    host,
                    spec_get_cstr(Some("input")),
                    PIPE_INPUT,
                    None,
                    first,
                    then,
                )
                &&& if spec_define_outcome(first) is Some {
                    exists|second: Option<PipeDescriptor>|
                        (#[trigger] define_step(
                            then,
                            spec_get_cstr(Some("output")),
                            PIPE_OUTPUT,
                            None,
                            second,
                            after,
                        )) && bootstrap_result(first, second, result)
                } else {
                    result is Fail && after == then
                }
            },
{
}

} // verus!
