//! The host's side of the boundary.
//!
//! A servlet runs inside a host that owns scheduling, the pipes and the
//! schema database. All that the host offers is gathered in the [`Host`]
//! trait, one method for each entry of its address table and for each call
//! into its type library. A value that implements it is threaded through
//! every entry point of this crate; nothing here keeps one in global state.
//!
//! The methods carry no contract of this crate's making. Whatever is proved
//! of a function that calls the host holds for every answer that the host
//! may give. The contract of such a function says which request the host
//! was handed and that the result is what one of the host's possible
//! answers to that request means; the predicates `*_answer` below speak of
//! those answers. What an answer means is said by the functions that take
//! the answer as an argument (`eof_outcome`, `transfer_outcome` and their
//! like). Such a contract also says that the host is left in the state that
//! this one call left it in: no other call was made behind it. Where one
//! function makes several calls, the predicates `*_step` carry the state of
//! the host from each call to the next. A host that is itself verified can promise more of its answers in
//! its own `ensures`, and what it promises carries over.

use vstd::prelude::*;
use crate::log::LogRecord;
use crate::pipe::{PipeDescriptor, PipeFlags};
use crate::protocol::PrimitiveTypeShape;

verus! {

/// The status with which the host reports that a call failed.
pub const HOST_FAILURE: i32 = -1;

/// The descriptor with which the host reports that no pipe was defined.
pub const NO_PIPE: PipeDescriptor = 0xFFFF_FFFF;

/// The accessor with which the host reports that a field was not found.
pub const NO_ACCESSOR: u32 = 0xFFFF_FFFF;

/// The byte count with which the host reports that a transfer failed.
pub const NO_TRANSFER: usize = usize::MAX;

/// An out-of-band request on a pipe.
#[derive(Clone, Copy, Debug, PartialEq, Eq, Structural)]
pub enum PipeControl {
    /// Report the flags of the pipe.
    GetFlags,
    /// Set the given flags.
    SetFlag(PipeFlags),
    /// Clear the given flags.
    ClearFlag(PipeFlags),
    /// Attach the state named by the given word to the resource behind the
    /// pipe. The host owns the state from then on and asks for its disposal
    /// when the resource goes away.
    PushState(u64),
    /// Report the word of the state attached to the resource behind the
    /// pipe.
    PopState,
}

/// The host's answer to a [`PipeControl`] request.
#[derive(Clone, Copy, Debug, PartialEq, Eq, Structural)]
pub struct ControlReply {
    /// [`HOST_FAILURE`] if the request failed.
    pub status: i32,
    /// What `GetFlags` reported; zero for the other requests.
    pub flags: PipeFlags,
    /// What `PopState` reported, zero for "no state"; zero for the other
    /// requests.
    pub state: u64,
}

/// The host's answer to a request for the shape of a field.
#[derive(Clone, Copy, Debug, PartialEq, Eq, Structural)]
pub struct FieldInfoReply {
    /// [`HOST_FAILURE`] if the field could not be resolved.
    pub status: i32,
    /// The shape of the field as the schema has it.
    pub shape: PrimitiveTypeShape,
}

/// The host's answer to a read from a type instance.
pub struct ReadReply {
    /// The number of bytes that the host says it has read.
    pub count: usize,
    /// The bytes.
    pub data: Vec<u8>,
}

/// What the host offers to a servlet.
///
/// The methods that return an `Option` stand for entries of the address
/// table, each of which may be empty: `None` is the answer of an empty entry.
/// The methods `type_model_*` and `type_instance_read` stand for the type
/// library, which is always there.
pub trait Host {
    /// Defines a pipe. `name` and `type_expr` are zero-terminated; `None`
    /// stands for the null address. The answer is the descriptor, or
    /// [`NO_PIPE`].
    fn pipe_define(
        &mut self,
        name: Option<&Vec<u8>>,
        flags: PipeFlags,
        type_expr: Option<&Vec<u8>>,
    ) -> Option<PipeDescriptor>;

    /// Reads from a pipe into `buf`. The answer is the number of bytes read,
    /// or [`NO_TRANSFER`].
    fn pipe_read(&mut self, pipe: PipeDescriptor, buf: &mut [u8]) -> Option<usize>;

    /// Writes `data` to a pipe. The answer is the number of bytes written,
    /// or [`NO_TRANSFER`].
    fn pipe_write(&mut self, pipe: PipeDescriptor, data: &[u8]) -> Option<usize>;

    /// Asks whether a pipe has come to its end. The answer is
    /// [`HOST_FAILURE`], or positive when no more data can come, or zero.
    fn pipe_eof(&mut self, pipe: PipeDescriptor) -> Option<i32>;

    /// Makes an out-of-band request on a pipe.
    fn pipe_cntl(&mut self, pipe: PipeDescriptor, request: PipeControl) -> Option<ControlReply>;

    /// Asks the host which states of `pipe` it has let go of since it was
    /// last asked. A state is let go of when the resource that it was
    /// attached to goes away, or takes another state. The answer holds the
    /// word of each, as it was handed over with `PushState`.
    fn pipe_released_states(&mut self, pipe: PipeDescriptor) -> Vec<u64>;

    /// Hands a record to the host's log.
    fn log_write(&mut self, record: &LogRecord) -> Option<()>;

    /// Asks the type model at address `model` for the shape of the field at
    /// `path` of the type of `pipe`.
    fn type_model_get_field_info(
        &mut self,
        model: usize,
        pipe: PipeDescriptor,
        path: Option<&Vec<u8>>,
    ) -> FieldInfoReply;

    /// Asks the type model at address `model` for an accessor to the field at
    /// `path` of the type of `pipe`. The answer is the accessor, or
    /// [`NO_ACCESSOR`].
    fn type_model_get_accessor(
        &mut self,
        model: usize,
        pipe: PipeDescriptor,
        path: Option<&Vec<u8>>,
    ) -> u32;

    /// Reads `size` bytes through `accessor` from the type instance at
    /// address `instance`.
    fn type_instance_read(&mut self, instance: usize, accessor: u32, size: usize) -> ReadReply;
}

/// The bytes of a text on its way to the host; `None` for the null address.
pub open spec fn text_of(arg: Option<&Vec<u8>>) -> Option<Seq<u8>> {
    match arg {
        Some(bytes) => Some(bytes@),
        None => None,
    }
}

/// The host in the state `before` may answer `reply` when asked to define a
/// pipe with this name, these flags and this type.
pub open spec fn define_answer<H: Host>(
    before: H,
    name: Option<Seq<u8>>,
    flags: PipeFlags,
    type_expr: Option<Seq<u8>>,
    reply: Option<PipeDescriptor>,
) -> bool {
    exists|h: &mut H, n: Option<&Vec<u8>>, t: Option<&Vec<u8>>|
        *h == before && text_of(n) == name && text_of(t) == type_expr && #[trigger] call_ensures(
            H::pipe_define,
            (h, n, flags, t),
            reply,
        )
}

/// The host in the state `before` may answer `reply` when asked to read from
/// `pipe` into a buffer of `room` bytes.
pub open spec fn read_answer<H: Host>(
    before: H,
    pipe: PipeDescriptor,
    room: nat,
    reply: Option<usize>,
) -> bool {
    exists|h: &mut H, b: &mut [u8]|
        *h == before && b@.len() == room && #[trigger] call_ensures(
            H::pipe_read,
            (h, pipe, b),
            reply,
        )
}

/// The host in the state `before` may answer `reply` when asked to write
/// `data` to `pipe`.
pub open spec fn write_answer<H: Host>(
    before: H,
    pipe: PipeDescriptor,
    data: Seq<u8>,
    reply: Option<usize>,
) -> bool {
    exists|h: &mut H, d: &[u8]|
        *h == before && d@ == data && #[trigger] call_ensures(H::pipe_write, (h, pipe, d), reply)
}

/// The host in the state `before` may answer `reply` when asked whether
/// `pipe` has come to its end.
pub open spec fn eof_answer<H: Host>(before: H, pipe: PipeDescriptor, reply: Option<i32>) -> bool {
    exists|h: &mut H| *h == before && #[trigger] call_ensures(H::pipe_eof, (h, pipe), reply)
}

/// The host in the state `before` may answer `reply` to the out-of-band
/// `request` on `pipe`.
pub open spec fn cntl_answer<H: Host>(
    before: H,
    pipe: PipeDescriptor,
    request: PipeControl,
    reply: Option<ControlReply>,
) -> bool {
    exists|h: &mut H|
        *h == before && #[trigger] call_ensures(H::pipe_cntl, (h, pipe, request), reply)
}

/// The host in the state `before` may answer `reply` when handed `record`
/// for its log.
pub open spec fn log_answer<H: Host>(before: H, record: LogRecord, reply: Option<()>) -> bool {
    exists|h: &mut H| *h == before && #[trigger] call_ensures(H::log_write, (h, &record), reply)
}

/// The host in the state `before` may answer `reply` when asked for the shape
/// of the field at `path` of the type of `pipe`.
pub open spec fn field_info_answer<H: Host>(
    before: H,
    model: usize,
    pipe: PipeDescriptor,
    path: Option<Seq<u8>>,
    reply: FieldInfoReply,
) -> bool {
    exists|h: &mut H, p: Option<&Vec<u8>>|
        *h == before && text_of(p) == path && #[trigger] call_ensures(
            H::type_model_get_field_info,
            (h, model, pipe, p),
            reply,
        )
}

/// The host in the state `before` may answer `reply` when asked for an
/// accessor to the field at `path` of the type of `pipe`.
pub open spec fn accessor_answer<H: Host>(
    before: H,
    model: usize,
    pipe: PipeDescriptor,
    path: Option<Seq<u8>>,
    reply: u32,
) -> bool {
    exists|h: &mut H, p: Option<&Vec<u8>>|
        *h == before && text_of(p) == path && #[trigger] call_ensures(
            H::type_model_get_accessor,
            (h, model, pipe, p),
            reply,
        )
}

/// The host in the state `before` may answer `reply` when asked to read
/// `size` bytes through `accessor` from the type instance at `instance`.
pub open spec fn instance_read_answer<H: Host>(
    before: H,
    instance: usize,
    accessor: u32,
    size: usize,
    reply: ReadReply,
) -> bool {
    exists|h: &mut H|
        *h == before && #[trigger] call_ensures(
            H::type_instance_read,
            (h, instance, accessor, size),
            reply,
        )
}

/// Asks the host to define a pipe.
pub fn ask_define<H: Host>(
    host: &mut H,
    name: Option<&Vec<u8>>,
    flags: PipeFlags,
    type_expr: Option<&Vec<u8>>,
) -> (reply: Option<PipeDescriptor>)
    ensures
        define_step(*old(host), text_of(name), flags, text_of(type_expr), reply, *final(host)),
        define_answer(*old(host), text_of(name), flags, text_of(type_expr), reply),
        exists|h: &mut H|
            *h == *old(host) && *final(h) == *final(host) && #[trigger] call_ensures(
                H::pipe_define,
                (h, name, flags, type_expr),
                reply,
            ),
{
    let call = define_then::<H>;
    let (reply, seen) = call(host, name, flags, type_expr);
    assert(seen@ == *host);
    assert(define_step(*old(host), text_of(name), flags, text_of(type_expr), reply, *host));
    reply
}

/// Asks the host to define a pipe and notes the state that the call leaves
/// the host in.
pub fn define_then<H: Host>(
    host: &mut H,
    name: Option<&Vec<u8>>,
    flags: PipeFlags,
    type_expr: Option<&Vec<u8>>,
) -> (r: (Option<PipeDescriptor>, Ghost<H>))
    ensures
        r.1@ == *final(host),
        define_answer(*old(host), text_of(name), flags, text_of(type_expr), r.0),
        exists|h: &mut H|
            *h == *old(host) && *final(h) == *final(host) && #[trigger] call_ensures(
                H::pipe_define,
                (h, name, flags, type_expr),
                r.0,
            ),
{
    let call = H::pipe_define;
    let reply = call(host, name, flags, type_expr);
    (reply, Ghost(*host))
}

/// The host in the state `before`, asked to define a pipe with this name,
/// these flags and this type, may answer `reply` and be in the state `after`
/// by then.
pub open spec fn define_step<H: Host>(
    before: H,
    name: Option<Seq<u8>>,
    flags: PipeFlags,
    type_expr: Option<Seq<u8>>,
    reply: Option<PipeDescriptor>,
    after: H,
) -> bool {
    exists|h: &mut H, n: Option<&Vec<u8>>, t: Option<&Vec<u8>>, seen: Ghost<H>|
        *h == before && text_of(n) == name && text_of(t) == type_expr && seen@ == after
            && #[trigger] call_ensures(define_then::<H>, (h, n, flags, t), (reply, seen))
}

/// Asks the host to read from `pipe` into `buf`. The buffer is left as the
/// host left it.
pub fn ask_read<H: Host>(host: &mut H, pipe: PipeDescriptor, buf: &mut [u8]) -> (reply: Option<
    usize,
>)
    ensures
        read_answer(*old(host), pipe, old(buf)@.len(), reply),
        exists|h: &mut H, b: &mut [u8]|
            *h == *old(host) && *final(h) == *final(host) && b@ == old(buf)@ && final(b)@
                == final(buf)@ && #[trigger] call_ensures(H::pipe_read, (h, pipe, b), reply),
{
    let call = H::pipe_read;
    call(host, pipe, buf)
}

/// Asks the host to write `data` to `pipe`.
pub fn ask_write<H: Host>(host: &mut H, pipe: PipeDescriptor, data: &[u8]) -> (reply: Option<usize>)
    ensures
        write_step(*old(host), pipe, data@, reply, *final(host)),
        write_answer(*old(host), pipe, data@, reply),
        exists|h: &mut H|
            *h == *old(host) && *final(h) == *final(host) && #[trigger] call_ensures(
                H::pipe_write,
                (h, pipe, data),
                reply,
            ),
{
    let call = write_then::<H>;
    let (reply, seen) = call(host, pipe, data);
    assert(seen@ == *host);
    assert(write_step(*old(host), pipe, data@, reply, *host));
    reply
}

/// Asks the host to write `data` to `pipe` and notes the state that the call
/// leaves the host in.
pub fn write_then<H: Host>(host: &mut H, pipe: PipeDescriptor, data: &[u8]) -> (r: (
    Option<usize>,
    Ghost<H>,
))
    ensures
        r.1@ == *final(host),
        write_answer(*old(host), pipe, data@, r.0),
        exists|h: &mut H|
            *h == *old(host) && *final(h) == *final(host) && #[trigger] call_ensures(
                H::pipe_write,
                (h, pipe, data),
                r.0,
            ),
{
    let call = H::pipe_write;
    let reply = call(host, pipe, data);
    (reply, Ghost(*host))
}

/// The host in the state `before`, asked to write `data` to `pipe`, may
/// answer `reply` and be in the state `after` by then.
pub open spec fn write_step<H: Host>(
    before: H,
    pipe: PipeDescriptor,
    data: Seq<u8>,
    reply: Option<usize>,
    after: H,
) -> bool {
    exists|h: &mut H, d: &[u8], seen: Ghost<H>|
        *h == before && d@ == data && seen@ == after && #[trigger] call_ensures(
            write_then::<H>,
            (h, pipe, d),
            (reply, seen),
        )
}

/// Asks the host whether `pipe` has come to its end.
pub fn ask_eof<H: Host>(host: &mut H, pipe: PipeDescriptor) -> (reply: Option<i32>)
    ensures
        eof_step(*old(host), pipe, reply, *final(host)),
        eof_answer(*old(host), pipe, reply),
        exists|h: &mut H|
            *h == *old(host) && *final(h) == *final(host) && #[trigger] call_ensures(
                H::pipe_eof,
                (h, pipe),
                reply,
            ),
{
    let call = eof_then::<H>;
    let (reply, seen) = call(host, pipe);
    assert(seen@ == *host);
    assert(eof_step(*old(host), pipe, reply, *host));
    reply
}

/// Asks the host whether `pipe` has come to its end and notes the state that
/// the call leaves the host in.
pub fn eof_then<H: Host>(host: &mut H, pipe: PipeDescriptor) -> (r: (Option<i32>, Ghost<H>))
    ensures
        r.1@ == *final(host),
        eof_answer(*old(host), pipe, r.0),
        exists|h: &mut H|
            *h == *old(host) && *final(h) == *final(host) && #[trigger] call_ensures(
                H::pipe_eof,
                (h, pipe),
                r.0,
            ),
{
    let call = H::pipe_eof;
    let reply = call(host, pipe);
    (reply, Ghost(*host))
}

/// The host in the state `before`, asked whether `pipe` has come to its end,
/// may answer `reply` and be in the state `after` by then.
pub open spec fn eof_step<H: Host>(before: H, pipe: PipeDescriptor, reply: Option<i32>, after: H) -> bool {
    exists|h: &mut H, seen: Ghost<H>|
        *h == before && seen@ == after && #[trigger] call_ensures(
            eof_then::<H>,
            (h, pipe),
            (reply, seen),
        )
}

/// Makes an out-of-band request on `pipe`.
pub fn ask_cntl<H: Host>(host: &mut H, pipe: PipeDescriptor, request: PipeControl) -> (reply: Option<
    ControlReply,
>)
    ensures
        cntl_step(*old(host), pipe, request, reply, *final(host)),
        cntl_answer(*old(host), pipe, request, reply),
        exists|h: &mut H|
            *h == *old(host) && *final(h) == *final(host) && #[trigger] call_ensures(
                H::pipe_cntl,
                (h, pipe, request),
                reply,
            ),
{
    let call = cntl_then::<H>;
    let (reply, seen) = call(host, pipe, request);
    assert(seen@ == *host);
    assert(cntl_step(*old(host), pipe, request, reply, *host));
    reply
}

/// Makes an out-of-band request on `pipe` and notes the state that the call
/// leaves the host in.
pub fn cntl_then<H: Host>(host: &mut H, pipe: PipeDescriptor, request: PipeControl) -> (r: (
    Option<ControlReply>,
    Ghost<H>,
))
    ensures
        r.1@ == *final(host),
        cntl_answer(*old(host), pipe, request, r.0),
        exists|h: &mut H|
            *h == *old(host) && *final(h) == *final(host) && #[trigger] call_ensures(
                H::pipe_cntl,
                (h, pipe, request),
                r.0,
            ),
{
    let call = H::pipe_cntl;
    let reply = call(host, pipe, request);
    (reply, Ghost(*host))
}

/// The host in the state `before` may answer `reply` to the out-of-band
/// `request` on `pipe` and be in the state `after` by then.
pub open spec fn cntl_step<H: Host>(
    before: H,
    pipe: PipeDescriptor,
    request: PipeControl,
    reply: Option<ControlReply>,
    after: H,
) -> bool {
    exists|h: &mut H, seen: Ghost<H>|
        *h == before && seen@ == after && #[trigger] call_ensures(
            cntl_then::<H>,
            (h, pipe, request),
            (reply, seen),
        )
}

/// Hands `record` to the host's log.
pub fn ask_log<H: Host>(host: &mut H, record: &LogRecord) -> (reply: Option<()>)
    ensures
        log_answer(*old(host), *record, reply),
        exists|h: &mut H|
            *h == *old(host) && *final(h) == *final(host) && #[trigger] call_ensures(
                H::log_write,
                (h, record),
                reply,
            ),
{
    let call = H::log_write;
    call(host, record)
}

/// Asks the host for the shape of a field.
pub fn ask_field_info<H: Host>(
    host: &mut H,
    model: usize,
    pipe: PipeDescriptor,
    path: Option<&Vec<u8>>,
) -> (reply: FieldInfoReply)
    ensures
        field_info_step(*old(host), model, pipe, text_of(path), reply, *final(host)),
        field_info_answer(*old(host), model, pipe, text_of(path), reply),
        exists|h: &mut H|
            *h == *old(host) && *final(h) == *final(host) && #[trigger] call_ensures(
                H::type_model_get_field_info,
                (h, model, pipe, path),
                reply,
            ),
{
    let call = field_info_then::<H>;
    let (reply, seen) = call(host, model, pipe, path);
    assert(seen@ == *host);
    assert(field_info_step(*old(host), model, pipe, text_of(path), reply, *host));
    reply
}

/// Asks the host for the shape of a field and notes the state that the call
/// leaves the host in.
pub fn field_info_then<H: Host>(
    host: &mut H,
    model: usize,
    pipe: PipeDescriptor,
    path: Option<&Vec<u8>>,
) -> (r: (FieldInfoReply, Ghost<H>))
    ensures
        r.1@ == *final(host),
        field_info_answer(*old(host), model, pipe, text_of(path), r.0),
        exists|h: &mut H|
            *h == *old(host) && *final(h) == *final(host) && #[trigger] call_ensures(
                H::type_model_get_field_info,
                (h, model, pipe, path),
                r.0,
            ),
{
    let call = H::type_model_get_field_info;
    let reply = call(host, model, pipe, path);
    (reply, Ghost(*host))
}

/// The host in the state `before`, asked for the shape of the field at
/// `path` of the type of `pipe`, may answer `reply` and be in the state
/// `after` by then.
pub open spec fn field_info_step<H: Host>(
    before: H,
    model: usize,
    pipe: PipeDescriptor,
    path: Option<Seq<u8>>,
    reply: FieldInfoReply,
    after: H,
) -> bool {
    exists|h: &mut H, p: Option<&Vec<u8>>, seen: Ghost<H>|
        *h == before && text_of(p) == path && seen@ == after && #[trigger] call_ensures(
            field_info_then::<H>,
            (h, model, pipe, p),
            (reply, seen),
        )
}

/// Asks the host for an accessor to a field.
pub fn ask_accessor<H: Host>(
    host: &mut H,
    model: usize,
    pipe: PipeDescriptor,
    path: Option<&Vec<u8>>,
) -> (reply: u32)
    ensures
        accessor_step(*old(host), model, pipe, text_of(path), reply, *final(host)),
        accessor_answer(*old(host), model, pipe, text_of(path), reply),
        exists|h: &mut H|
            *h == *old(host) && *final(h) == *final(host) && #[trigger] call_ensures(
                H::type_model_get_accessor,
                (h, model, pipe, path),
                reply,
            ),
{
    let call = accessor_then::<H>;
    let (reply, seen) = call(host, model, pipe, path);
    assert(seen@ == *host);
    assert(accessor_step(*old(host), model, pipe, text_of(path), reply, *host));
    reply
}

/// Asks the host for an accessor to a field and notes the state that the
/// call leaves the host in.
pub fn accessor_then<H: Host>(
    host: &mut H,
    model: usize,
    pipe: PipeDescriptor,
    path: Option<&Vec<u8>>,
) -> (r: (u32, Ghost<H>))
    ensures
        r.1@ == *final(host),
        accessor_answer(*old(host), model, pipe, text_of(path), r.0),
        exists|h: &mut H|
            *h == *old(host) && *final(h) == *final(host) && #[trigger] call_ensures(
                H::type_model_get_accessor,
                (h, model, pipe, path),
                r.0,
            ),
{
    let call = H::type_model_get_accessor;
    let reply = call(host, model, pipe, path);
    (reply, Ghost(*host))
}

/// The host in the state `before`, asked for an accessor to the field at
/// `path` of the type of `pipe`, may answer `reply` and be in the state
/// `after` by then.
pub open spec fn accessor_step<H: Host>(
    before: H,
    model: usize,
    pipe: PipeDescriptor,
    path: Option<Seq<u8>>,
    reply: u32,
    after: H,
) -> bool {
    exists|h: &mut H, p: Option<&Vec<u8>>, seen: Ghost<H>|
        *h == before && text_of(p) == path && seen@ == after && #[trigger] call_ensures(
            accessor_then::<H>,
            (h, model, pipe, p),
            (reply, seen),
        )
}

/// Asks the host which states of `pipe` it has let go of and notes the state
/// that the call leaves the host in.
pub fn released_then<H: Host>(host: &mut H, pipe: PipeDescriptor) -> (r: (Vec<u64>, Ghost<H>))
    ensures
        r.1@ == *final(host),
        exists|h: &mut H|
            *h == *old(host) && *final(h) == *final(host) && #[trigger] call_ensures(
                H::pipe_released_states,
                (h, pipe),
                r.0,
            ),
{
    let call = H::pipe_released_states;
    let reply = call(host, pipe);
    assert(exists|h: &mut H|
        *h == *old(host) && *final(h) == *host && #[trigger] call_ensures(
            H::pipe_released_states,
            (h, pipe),
            reply,
        ));
    let r = (reply, Ghost(*host));
    assert(r.0 == reply);
    r
}

/// The host in the state `before`, asked which states of `pipe` it has let
/// go of, may answer with the words `words` and be in the state `after` by
/// then.
pub open spec fn released_step<H: Host>(
    before: H,
    pipe: PipeDescriptor,
    words: Seq<u64>,
    after: H,
) -> bool {
    exists|h: &mut H, reply: Vec<u64>, seen: Ghost<H>|
        *h == before && reply@ == words && seen@ == after && #[trigger] call_ensures(
            released_then::<H>,
            (h, pipe),
            (reply, seen),
        )
}

/// Asks the host which states of `pipe` it has let go of.
pub fn ask_released<H: Host>(host: &mut H, pipe: PipeDescriptor) -> (reply: Vec<u64>)
    ensures
        released_step(*old(host), pipe, reply@, *final(host)),
        exists|h: &mut H|
            *h == *old(host) && *final(h) == *final(host) && #[trigger] call_ensures(
                H::pipe_released_states,
                (h, pipe),
                reply,
            ),
{
    let call = released_then::<H>;
    let (reply, seen) = call(host, pipe);
    assert(seen@ == *host);
    assert(released_step(*old(host), pipe, reply@, *host));
    reply
}

/// Asks the host to read from a type instance.
pub fn ask_instance_read<H: Host>(
    host: &mut H,
    instance: usize,
    accessor: u32,
    size: usize,
) -> (reply: ReadReply)
    ensures
        instance_read_step(*old(host), instance, accessor, size, reply, *final(host)),
        instance_read_answer(*old(host), instance, accessor, size, reply),
        exists|h: &mut H|
            *h == *old(host) && *final(h) == *final(host) && #[trigger] call_ensures(
                H::type_instance_read,
                (h, instance, accessor, size),
                reply,
            ),
{
    let call = instance_read_then::<H>;
    let (reply, seen) = call(host, instance, accessor, size);
    assert(seen@ == *host);
    assert(instance_read_step(*old(host), instance, accessor, size, reply, *host));
    reply
}

/// Asks the host to read from a type instance and notes the state that the
/// call leaves the host in.
pub fn instance_read_then<H: Host>(
    host: &mut H,
    instance: usize,
    accessor: u32,
    size: usize,
) -> (r: (ReadReply, Ghost<H>))
    ensures
        r.1@ == *final(host),
        instance_read_answer(*old(host), instance, accessor, size, r.0),
        exists|h: &mut H|
            *h == *old(host) && *final(h) == *final(host) && #[trigger] call_ensures(
                H::type_instance_read,
                (h, instance, accessor, size),
                r.0,
            ),
{
    let call = H::type_instance_read;
    let reply = call(host, instance, accessor, size);
    (reply, Ghost(*host))
}

/// The host in the state `before`, asked to read `size` bytes through
/// `accessor` from the type instance at `instance`, may answer `reply` and
/// be in the state `after` by then.
pub open spec fn instance_read_step<H: Host>(
    before: H,
    instance: usize,
    accessor: u32,
    size: usize,
    reply: ReadReply,
    after: H,
) -> bool {
    exists|h: &mut H, seen: Ghost<H>|
        *h == before && seen@ == after && #[trigger] call_ensures(
            instance_read_then::<H>,
            (h, instance, accessor, size),
            (reply, seen),
        )
}

/// `len` zero bytes.
pub open spec fn zeros(len: nat) -> Seq<u8> {
    Seq::new(len, |i: int| 0u8)
}

/// A buffer of `len` zero bytes.
pub fn zeroed(len: usize) -> (buf: Vec<u8>)
    ensures
        buf@ == zeros(len as nat),
{
    let mut buf: Vec<u8> = Vec::new();
    while buf.len() < len
        invariant
            buf@.len() <= len,
            forall|i: int| 0 <= i < buf@.len() ==> buf@[i] == 0,
        decreases len - buf@.len(),
    {
        buf.push(0);
    }
    assert(buf@ =~= zeros(len as nat));
    buf
}

/// Asks the host to read from `pipe` into a fresh buffer of `room` zero
/// bytes and notes the state that the call leaves the host in. The answer
/// is the host's, and with it the buffer as the host left it.
pub fn read_bytes_then<H: Host>(host: &mut H, pipe: PipeDescriptor, room: usize) -> (r: (
    Option<usize>,
    Vec<u8>,
    Ghost<H>,
))
    ensures
        r.2@ == *final(host),
        read_answer(*old(host), pipe, room as nat, r.0),
        exists|h: &mut H, b: &mut [u8]|
            *h == *old(host) && *final(h) == *final(host) && b@ == zeros(room as nat) && final(b)@
                == r.1@ && #[trigger] call_ensures(H::pipe_read, (h, pipe, b), r.0),
{
    let mut buf = zeroed(room);
    let reply = ask_read(host, pipe, buf.as_mut_slice());
    (reply, buf, Ghost(*host))
}

/// The host in the state `before`, asked to read from `pipe` into a fresh
/// buffer of `room` zero bytes, may answer `reply`, leave `data` in the
/// buffer, and be in the state `after` by then.
pub open spec fn read_step<H: Host>(
    before: H,
    pipe: PipeDescriptor,
    room: usize,
    reply: Option<usize>,
    data: Seq<u8>,
    after: H,
) -> bool {
    exists|h: &mut H, bytes: Vec<u8>, seen: Ghost<H>|
        *h == before && bytes@ == data && seen@ == after && #[trigger] call_ensures(
            read_bytes_then::<H>,
            (h, pipe, room),
            (reply, bytes, seen),
        )
}

} // verus!
