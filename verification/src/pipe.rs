//! Pipes.
//!
//! A pipe is a cheap handle: the descriptor that the host gave when the pipe
//! was defined. Reading, writing and the out-of-band requests are the host's
//! work; this module hands the requests over and says what each answer
//! means. The one thing a pipe keeps itself is the state that a servlet
//! attaches to the resource behind it, so that progress made in one
//! activation is found again in the next: the state stays in the pipe's own
//! store and the host holds the word that names it.

use vstd::prelude::*;
use vstd::slice::slice_subrange;
use crate::arena::{Arena, Handle};
use crate::host::{
    ask_cntl, ask_define, ask_eof, ask_read, ask_released, ask_write, cntl_step, define_step,
    eof_step, released_step,
    read_answer, read_bytes_then, read_step, text_of, write_step, ControlReply, Host, PipeControl,
    HOST_FAILURE, NO_PIPE, NO_TRANSFER,
};
use crate::plumber_api_call::{get_cstr, spec_get_cstr};

verus! {

/// The flags of a pipe, as one word of bits.
pub type PipeFlags = u32;

/// The small integer by which the host knows a pipe.
pub type PipeDescriptor = u32;

/// The pipe is an input.
pub const PIPE_INPUT: PipeFlags = 0;

/// The pipe is an output.
pub const PIPE_OUTPUT: PipeFlags = 0x10000;

/// The resource behind the pipe is kept for further events after the
/// current one is done.
pub const PIPE_PERSIST: PipeFlags = 0x20000;

/// The host may write from another thread, as for a large file.
pub const PIPE_ASYNC: PipeFlags = 0x40000;

/// The output is a copy of an input: a fork of the data flow.
pub const PIPE_SHADOW: PipeFlags = 0x80000;

/// Nothing is forwarded to this fork.
pub const PIPE_DISABLED: PipeFlags = 0x100000;

/// Why a read or a write gave no byte count.
#[derive(Clone, Copy, Debug, PartialEq, Eq, Structural)]
pub enum PipeError {
    /// The host reported a failure.
    HostFailure,
    /// The host offers no such call.
    Unavailable,
    /// The host took none of the bytes that it was handed.
    Stalled,
}

/// The descriptor in the host's answer to a definition: there is none when
/// the host offers no such call or answered [`NO_PIPE`].
pub open spec fn spec_define_outcome(reply: Option<PipeDescriptor>) -> Option<PipeDescriptor> {
    match reply {
        Some(descriptor) => if descriptor == NO_PIPE {
            None
        } else {
            Some(descriptor)
        },
        None => None,
    }
}

/// What the host's answer to `eof` means: `Some(true)` when no more data can
/// come, `Some(false)` when more data may still come (which does not say
/// that any is there now), `None` when the host failed or offers no such
/// call.
pub open spec fn spec_eof_outcome(reply: Option<i32>) -> Option<bool> {
    match reply {
        Some(status) => if status == HOST_FAILURE {
            None
        } else {
            Some(status > 0)
        },
        None => None,
    }
}

/// What the host's answer to a read or a write means.
pub open spec fn spec_transfer_outcome(reply: Option<usize>) -> Result<usize, PipeError> {
    match reply {
        Some(count) => if count == NO_TRANSFER {
            Err(PipeError::HostFailure)
        } else {
            Ok(count)
        },
        None => Err(PipeError::Unavailable),
    }
}

/// What becomes of `data` when it is handed to the host, in the state
/// `host`, for the pipe `pipe` until all of it is taken: `r` is what the
/// sender learns and `after` the state that the host is left in. The host
/// is handed what is left of `data` as long as anything is left. When it
/// takes some of it, what it took is off. When it reports a failure, or
/// offers no such call, that ends the sending with the error; when it takes
/// nothing, the sending has stalled; and a count beyond what it was handed
/// is a failure of the host.
pub open spec fn sent_from<H: Host>(
    host: H,
    pipe: PipeDescriptor,
    data: Seq<u8>,
    after: H,
    r: Result<(), PipeError>,
) -> bool
    decreases data.len(),
{
    if data.len() == 0 {
        r is Ok && after == host
    } else {
        exists|reply: Option<usize>, next: H|
            (#[trigger] write_step(host, pipe, data, reply, next)) && match spec_transfer_outcome(
                reply,
            ) {
                Ok(taken) => if taken == 0 {
                    r == Err::<(), PipeError>(PipeError::Stalled) && after == next
                } else if taken > data.len() {
                    r == Err::<(), PipeError>(PipeError::HostFailure) && after == next
                } else {
                    sent_from(next, pipe, data.subrange(taken as int, data.len() as int), after, r)
                },
                Err(e) => r == Err::<(), PipeError>(e) && after == next,
            }
    }
}

/// `data`, handed to the host in the state `host` for the pipe `pipe` until
/// all of it is taken, may leave the sender with `r` and the host in the
/// state `after`; see [`sent_from`].
pub open spec fn sent<H: Host>(
    host: H,
    pipe: PipeDescriptor,
    data: Seq<u8>,
    after: H,
    r: Result<(), PipeError>,
) -> bool {
    sent_from(host, pipe, data, after, r)
}

/// One of the words `words` names `h`.
pub open spec fn is_released(words: Seq<u64>, h: Handle) -> bool {
    exists|i: int| 0 <= i < words.len() && Handle::spec_from_raw(#[trigger] words[i]) == Some(h)
}

/// What is left of the states `states` when those that the words `words`
/// name are let go.
pub open spec fn states_without<ST>(states: Map<Handle, ST>, words: Seq<u64>) -> Map<Handle, ST> {
    Map::new(|h: Handle| states.dom().contains(h) && !is_released(words, h), |h: Handle| states[h])
}

/// Letting go the states of `states` that the words `words` name makes room
/// for another state: one of them stands in a place that can be used again.
pub open spec fn makes_room<ST>(states: Map<Handle, ST>, words: Seq<u64>) -> bool {
    exists|h: Handle|
        states.dom().contains(h) && #[trigger] is_released(words, h) && h.generation < u32::MAX
}

/// Where the host has let nothing go, the states are as they were, and no
/// room is made.
pub proof fn lemma_nothing_released<ST>(states: Map<Handle, ST>)
    ensures
        states_without(states, Seq::<u64>::empty()) == states,
        !makes_room(states, Seq::<u64>::empty()),
{
    assert(states_without(states, Seq::<u64>::empty()) =~= states);
}

/// The host carried out an out-of-band request.
pub open spec fn control_accepted(reply: Option<ControlReply>) -> bool {
    reply matches Some(r) && r.status != HOST_FAILURE
}

/// The flags in the host's answer to `GetFlags`.
pub open spec fn spec_flags_outcome(reply: Option<ControlReply>) -> Option<PipeFlags> {
    match reply {
        Some(r) => if r.status != HOST_FAILURE {
            Some(r.flags)
        } else {
            None
        },
        None => None,
    }
}

/// All bits of `flag` are set in `current`.
pub open spec fn spec_has_flags(current: PipeFlags, flag: PipeFlags) -> bool {
    (current & flag) == flag
}

/// Whether all bits of `flag` are set, going by the host's answer to
/// `GetFlags`.
pub open spec fn spec_check_flag_outcome(reply: Option<ControlReply>, flag: PipeFlags) -> Option<
    bool,
> {
    match spec_flags_outcome(reply) {
        Some(current) => Some(spec_has_flags(current, flag)),
        None => None,
    }
}

/// See [`spec_eof_outcome`].
pub fn eof_outcome(reply: Option<i32>) -> (r: Option<bool>)
    ensures
        r == spec_eof_outcome(reply),
{
    match reply {
        Some(status) => if status == HOST_FAILURE {
            None
        } else {
            Some(status > 0)
        },
        None => None,
    }
}

/// See [`spec_transfer_outcome`].
pub fn transfer_outcome(reply: Option<usize>) -> (r: Result<usize, PipeError>)
    ensures
        r == spec_transfer_outcome(reply),
{
    match reply {
        Some(count) => if count == NO_TRANSFER {
            Err(PipeError::HostFailure)
        } else {
            Ok(count)
        },
        None => Err(PipeError::Unavailable),
    }
}

/// `Some(())` when the host carried out the request, `None` when it failed
/// or offers no such call.
pub fn control_outcome(reply: Option<ControlReply>) -> (r: Option<()>)
    ensures
        r is Some <==> control_accepted(reply),
{
    match reply {
        Some(r) => if r.status != HOST_FAILURE {
            Some(())
        } else {
            None
        },
        None => None,
    }
}

/// See [`spec_flags_outcome`].
pub fn flags_outcome(reply: Option<ControlReply>) -> (r: Option<PipeFlags>)
    ensures
        r == spec_flags_outcome(reply),
{
    match reply {
        Some(r) => if r.status != HOST_FAILURE {
            Some(r.flags)
        } else {
            None
        },
        None => None,
    }
}

/// Whether all bits of `flag` are set in `current`.
pub fn has_flags(current: PipeFlags, flag: PipeFlags) -> (r: bool)
    ensures
        r == spec_has_flags(current, flag),
{
    (current & flag) == flag
}

/// Every word has the flags of an input, which are none.
pub proof fn lemma_input_flags_always_set(current: PipeFlags)
    ensures
        spec_has_flags(current, PIPE_INPUT),
{
    assert((current & 0) == 0) by (bit_vector);
}

/// A pipe of the servlet, with the states of type `ST` that the servlet has
/// attached to the resources behind it.
pub struct Pipe<ST> {
    /// The descriptor that the host gave.
    pipe: PipeDescriptor,
    /// The states that the host holds words for.
    states: Arena<ST>,
}

/// A pipe without its states, for reading where the pipe itself cannot be
/// given away.
#[derive(Clone, Copy, Debug, PartialEq, Eq, Structural)]
pub struct PipeRef {
    /// The descriptor that the host gave.
    pipe: PipeDescriptor,
}

impl PipeRef {
    /// The descriptor of the pipe.
    pub closed spec fn descriptor(&self) -> PipeDescriptor {
        self.pipe
    }

    /// The descriptor of the pipe.
    pub fn as_descriptor(&self) -> (descriptor: PipeDescriptor)
        ensures
            descriptor == self.descriptor(),
    {
        self.pipe
    }

    /// Reads from the pipe into `buf`. The count is the host's; an empty
    /// entry in the host's table and a failure reported by the host each
    /// give their error.
    pub fn read<H: Host>(&mut self, host: &mut H, buf: &mut [u8]) -> (r: Result<usize, PipeError>)
        ensures
            *final(self) == *old(self),
            exists|reply: Option<usize>|
                (#[trigger] read_answer(*old(host), old(self).descriptor(), old(buf)@.len(), reply))
                    && r == spec_transfer_outcome(reply),
            exists|h: &mut H, b: &mut [u8], reply: Option<usize>|
                *h == *old(host) && *final(h) == *final(host) && b@ == old(buf)@ && final(b)@
                    == final(buf)@ && #[trigger] call_ensures(
                    H::pipe_read,
                    (h, old(self).descriptor(), b),
                    reply,
                ) && r == spec_transfer_outcome(reply),
    {
        assert(self.descriptor() == self.pipe);
        let reply = ask_read(host, self.pipe, buf);
        transfer_outcome(reply)
    }
}

impl<ST> Pipe<ST> {
    /// The descriptor of the pipe.
    pub closed spec fn descriptor(&self) -> PipeDescriptor {
        self.pipe
    }

    /// The states attached through this pipe that the host has not yet asked
    /// to dispose of, by the handle whose word the host holds.
    pub closed spec fn states(&self) -> Map<Handle, ST> {
        self.states@
    }

    /// The invariant of the pipe's store of states. It holds of every pipe
    /// that a program has in hand.
    #[verifier::type_invariant]
    pub closed spec fn wf(&self) -> bool {
        self.states.wf()
    }

    /// `h` can never again name a state of this pipe.
    pub closed spec fn retired(&self, h: Handle) -> bool {
        self.states.retired(h)
    }

    /// The pipe can take one more state.
    pub closed spec fn has_room(&self) -> bool {
        self.states.has_room()
    }

    /// The word `state` names a state that the pipe keeps.
    pub open spec fn names_state(&self, state: u64) -> bool {
        Handle::spec_from_raw(state) matches Some(h) && self.states().dom().contains(h)
    }

    /// What [`Pipe::state_of`] returns: the state that the host's answer to
    /// `PopState` names, if the host answered at all, named a state, and the
    /// state is still kept.
    pub open spec fn spec_state_of(&self, reply: Option<ControlReply>) -> Option<ST> {
        match reply {
            Some(r) => if r.status == HOST_FAILURE {
                None
            } else {
                match Handle::spec_from_raw(r.state) {
                    Some(h) => if self.states().dom().contains(h) {
                        Some(self.states()[h])
                    } else {
                        None
                    },
                    None => None,
                }
            },
            None => None,
        }
    }

    /// A retired handle names no state.
    pub proof fn lemma_retired_names_nothing(&self, h: Handle)
        requires
            self.wf(),
            self.retired(h),
        ensures
            !self.states().dom().contains(h),
    {
        self.states.lemma_retired_not_live(h);
    }

    /// A state that the pipe keeps is the one found when the host answers
    /// `PopState` with the word of its handle.
    pub proof fn lemma_kept_state_is_found(&self, h: Handle, reply: ControlReply)
        requires
            self.wf(),
            self.states().dom().contains(h),
            reply.status != HOST_FAILURE,
            reply.state == h.spec_to_raw(),
        ensures
            self.spec_state_of(Some(reply)) == Some(self.states()[h]),
    {
        self.states.lemma_live_round_trip(h);
    }

    /// A state that was pushed is found again. Where `after` is `before` with
    /// `value` kept under `h`, as [`Pipe::hold_state`] leaves it, and the
    /// host answers `PopState` with the word of `h`, as it does for the
    /// resource that the state was attached to, `after` yields `value`.
    pub proof fn lemma_pushed_state_is_found(
        before: Self,
        after: Self,
        h: Handle,
        value: ST,
        reply: ControlReply,
    )
        requires
            after.wf(),
            after.states() == before.states().insert(h, value),
            reply.status != HOST_FAILURE,
            reply.state == h.spec_to_raw(),
        ensures
            after.spec_state_of(Some(reply)) == Some(value),
    {
        after.lemma_kept_state_is_found(h, reply);
    }

    /// `r` is the pipe that the host's answer to a definition stands for:
    /// none where the host gave no descriptor, and else a pipe with that
    /// descriptor and no states.
    pub open spec fn is_defined_by(r: Option<Pipe<ST>>, reply: Option<PipeDescriptor>) -> bool {
        &&& r is Some <==> spec_define_outcome(reply) is Some
        &&& r matches Some(pipe) ==> {
            &&& Some(pipe.descriptor()) == spec_define_outcome(reply)
            &&& pipe.states() == Map::<Handle, ST>::empty()
            &&& pipe.has_room()
        }
    }

    /// The pipe that the host's answer to a definition stands for.
    pub fn define_outcome(reply: Option<PipeDescriptor>) -> (r: Option<Pipe<ST>>)
        ensures
            Self::is_defined_by(r, reply),
    {
        match reply {
            Some(descriptor) => if descriptor == NO_PIPE {
                None
            } else {
                Some(Pipe { pipe: descriptor, states: Arena::new() })
            },
            None => None,
        }
    }

    /// Defines a pipe of the servlet. The host accepts definitions while the
    /// servlet is being set up and refuses them later; nothing is checked
    /// here. `name` and `type_expr` go to the host zero-terminated; for a
    /// text with a zero byte in it the host is handed nothing.
    pub fn define<H: Host>(
        host: &mut H,
        name: &str,
        flags: PipeFlags,
        type_expr: Option<&str>,
    ) -> (r: Option<Pipe<ST>>)
        ensures
            exists|reply: Option<PipeDescriptor>|
                (#[trigger] define_step(
                    *old(host),
                    spec_get_cstr(Some(name)),
                    flags,
                    spec_get_cstr(type_expr),
                    reply,
                    *final(host),
                )) && Self::is_defined_by(r, reply),
            exists|h: &mut H, n: Option<&Vec<u8>>, t: Option<&Vec<u8>>, reply: Option<PipeDescriptor>|
                {
                    &&& *h == *old(host) && *final(h) == *final(host)
                    &&& text_of(n) == spec_get_cstr(Some(name))
                    &&& text_of(t) == spec_get_cstr(type_expr)
                    &&& #[trigger] call_ensures(H::pipe_define, (h, n, flags, t), reply)
                    &&& Self::is_defined_by(r, reply)
                },
    {
        let name_bytes = get_cstr(Some(name));
        let type_bytes = get_cstr(type_expr);
        let reply = ask_define(host, name_bytes.as_ref(), flags, type_bytes.as_ref());
        Pipe::define_outcome(reply)
    }

    /// A reference to the pipe for reading.
    pub fn as_pipe_ref(&self) -> (r: PipeRef)
        ensures
            r.descriptor() == self.descriptor(),
    {
        PipeRef { pipe: self.pipe }
    }

    /// The descriptor of the pipe.
    pub fn as_descriptor(&self) -> (descriptor: PipeDescriptor)
        ensures
            descriptor == self.descriptor(),
    {
        self.pipe
    }

    /// Asks the host whether the pipe has come to its end; see
    /// [`spec_eof_outcome`] for the three answers.
    pub fn eof<H: Host>(&mut self, host: &mut H) -> (r: Option<bool>)
        ensures
            *final(self) == *old(self),
            exists|reply: Option<i32>|
                (#[trigger] eof_step(*old(host), old(self).descriptor(), reply, *final(host)))
                    && r == spec_eof_outcome(reply),
            exists|h: &mut H, reply: Option<i32>|
                *h == *old(host) && *final(h) == *final(host) && #[trigger] call_ensures(
                    H::pipe_eof,
                    (h, old(self).descriptor()),
                    reply,
                ) && r == spec_eof_outcome(reply),
    {
        assert(self.descriptor() == self.pipe);
        let reply = ask_eof(host, self.pipe);
        eof_outcome(reply)
    }

    /// Asks the host for the flags of the pipe as they are now.
    pub fn flags<H: Host>(&mut self, host: &mut H) -> (r: Option<PipeFlags>)
        ensures
            *final(self) == *old(self),
            exists|reply: Option<ControlReply>|
                (#[trigger] cntl_step(
                    *old(host),
                    old(self).descriptor(),
                    PipeControl::GetFlags,
                    reply,
                    *final(host),
                )) && r == spec_flags_outcome(reply),
            exists|h: &mut H, reply: Option<ControlReply>|
                *h == *old(host) && *final(h) == *final(host) && #[trigger] call_ensures(
                    H::pipe_cntl,
                    (h, old(self).descriptor(), PipeControl::GetFlags),
                    reply,
                ) && r == spec_flags_outcome(reply),
    {
        assert(self.descriptor() == self.pipe);
        let reply = ask_cntl(host, self.pipe, PipeControl::GetFlags);
        flags_outcome(reply)
    }

    /// Asks the host whether all bits of `flag` are set on the pipe.
    pub fn check_flag<H: Host>(&mut self, host: &mut H, flag: PipeFlags) -> (r: Option<bool>)
        ensures
            *final(self) == *old(self),
            exists|reply: Option<ControlReply>|
                (#[trigger] cntl_step(
                    *old(host),
                    old(self).descriptor(),
                    PipeControl::GetFlags,
                    reply,
                    *final(host),
                )) && r == spec_check_flag_outcome(reply, flag),
            exists|h: &mut H, reply: Option<ControlReply>|
                *h == *old(host) && *final(h) == *final(host) && #[trigger] call_ensures(
                    H::pipe_cntl,
                    (h, old(self).descriptor(), PipeControl::GetFlags),
                    reply,
                ) && r == spec_check_flag_outcome(reply, flag),
            flag == PIPE_INPUT ==> r != Some(false),
    {
        match self.flags(host) {
            Some(current) => {
                proof {
                    lemma_input_flags_always_set(current);
                }
                Some(has_flags(current, flag))
            },
            None => None,
        }
    }

    /// Asks the host to set the bits of `flag` on the pipe.
    pub fn set_flags<H: Host>(&mut self, host: &mut H, flag: PipeFlags) -> (r: Option<()>)
        ensures
            *final(self) == *old(self),
            exists|reply: Option<ControlReply>|
                (#[trigger] cntl_step(
                    *old(host),
                    old(self).descriptor(),
                    PipeControl::SetFlag(flag),
                    reply,
                    *final(host),
                )) && (r is Some <==> control_accepted(reply)),
            exists|h: &mut H, reply: Option<ControlReply>|
                *h == *old(host) && *final(h) == *final(host) && #[trigger] call_ensures(
                    H::pipe_cntl,
                    (h, old(self).descriptor(), PipeControl::SetFlag(flag)),
                    reply,
                ) && (r is Some <==> control_accepted(reply)),
    {
        assert(self.descriptor() == self.pipe);
        let reply = ask_cntl(host, self.pipe, PipeControl::SetFlag(flag));
        control_outcome(reply)
    }

    /// Asks the host to clear the bits of `flag` on the pipe.
    pub fn clear_flags<H: Host>(&mut self, host: &mut H, flag: PipeFlags) -> (r: Option<()>)
        ensures
            *final(self) == *old(self),
            exists|reply: Option<ControlReply>|
                (#[trigger] cntl_step(
                    *old(host),
                    old(self).descriptor(),
                    PipeControl::ClearFlag(flag),
                    reply,
                    *final(host),
                )) && (r is Some <==> control_accepted(reply)),
            exists|h: &mut H, reply: Option<ControlReply>|
                *h == *old(host) && *final(h) == *final(host) && #[trigger] call_ensures(
                    H::pipe_cntl,
                    (h, old(self).descriptor(), PipeControl::ClearFlag(flag)),
                    reply,
                ) && (r is Some <==> control_accepted(reply)),
    {
        assert(self.descriptor() == self.pipe);
        let reply = ask_cntl(host, self.pipe, PipeControl::ClearFlag(flag));
        control_outcome(reply)
    }

    /// Takes the state under `h` out of the store. The store is out of the
    /// pipe while it is changed, so that the pipe is never left with a store
    /// in between two states.
    fn release(&mut self, h: Handle) -> (r: Option<ST>)
        ensures
            final(self).descriptor() == old(self).descriptor(),
            r is Some <==> old(self).states().dom().contains(h),
            r matches Some(state) ==> state == old(self).states()[h] && final(self).retired(h),
            r is None ==> *final(self) == *old(self),
            final(self).states() == old(self).states().remove(h),
            forall|k: Handle| old(self).retired(k) ==> final(self).retired(k),
            final(self).has_room() <==> old(self).has_room() || (r is Some && h.generation
                < u32::MAX),
    {
        proof {
            use_type_invariant(&*self);
        }
        let mut states = Arena::new();
        core::mem::swap(&mut self.states, &mut states);
        let r = states.remove(h);
        core::mem::swap(&mut self.states, &mut states);
        r
    }

    /// Releases the state named by the word `state`. The host calls for this
    /// when the resource that the state was attached to goes away. The
    /// answer is zero when a state was released, and [`HOST_FAILURE`] when
    /// the word names none: then nothing changes.
    pub fn dispose_state(&mut self, state: u64) -> (status: i32)
        ensures
            final(self).descriptor() == old(self).descriptor(),
            status == 0 || status == HOST_FAILURE,
            status == 0 <==> old(self).names_state(state),
            status == 0 ==> final(self).states() == old(self).states().remove(
                Handle::spec_from_raw(state)->0,
            ),
            status == 0 ==> final(self).retired(Handle::spec_from_raw(state)->0),
            status != 0 ==> *final(self) == *old(self),
            forall|k: Handle| old(self).retired(k) ==> final(self).retired(k),
            final(self).has_room() <==> old(self).has_room() || (status == 0
                && Handle::spec_from_raw(state)->0.generation < u32::MAX),
    {
        match Handle::from_raw(state) {
            Some(h) => match self.release(h) {
                Some(_) => 0,
                None => HOST_FAILURE,
            },
            None => HOST_FAILURE,
        }
    }

    /// Releases the states of this pipe that the host has let go of since
    /// it was last asked. A word in the host's answer that names no state of
    /// the pipe changes nothing.
    pub fn reclaim_states<H: Host>(&mut self, host: &mut H)
        ensures
            final(self).descriptor() == old(self).descriptor(),
            exists|words: Seq<u64>|
                (#[trigger] released_step(
                    *old(host),
                    old(self).descriptor(),
                    words,
                    *final(host),
                )) && final(self).states() == states_without(old(self).states(), words)
                    && final(self).has_room() == (old(self).has_room() || makes_room(
                    old(self).states(),
                    words,
                )) && forall|h: Handle|
                    old(self).states().dom().contains(h) && #[trigger] is_released(words, h)
                        ==> final(self).retired(h),
            forall|k: Handle| old(self).retired(k) ==> final(self).retired(k),
    {
        assert(self.descriptor() == self.pipe);
        let words = ask_released(host, self.pipe);
        let mut at: usize = 0;
        assert(self.states() =~= states_without(old(self).states(), words@.take(0)));
        assert(!makes_room(old(self).states(), words@.take(0)));
        while at < words.len()
            invariant
                at <= words@.len(),
                self.descriptor() == old(self).descriptor(),
                self.states() == states_without(old(self).states(), words@.take(at as int)),
                forall|k: Handle| old(self).retired(k) ==> self.retired(k),
                forall|h: Handle|
                    old(self).states().dom().contains(h) && #[trigger] is_released(
                        words@.take(at as int),
                        h,
                    ) ==> self.retired(h),
                self.has_room() <==> old(self).has_room() || makes_room(
                    old(self).states(),
                    words@.take(at as int),
                ),
            decreases words@.len() - at,
        {
            let ghost before = *self;
            let status = self.dispose_state(words[at]);
            proof {
                let seen = words@.take(at as int);
                let more = words@.take(at + 1);
                assert forall|h: Handle| is_released(more, h) <==> is_released(seen, h)
                    || Handle::spec_from_raw(words@[at as int]) == Some(h) by {
                    if is_released(more, h) {
                        let i = choose|i: int|
                            0 <= i < more.len() && Handle::spec_from_raw(#[trigger] more[i])
                                == Some(h);
                        if i < at {
                            assert(Handle::spec_from_raw(seen[i]) == Some(h));
                        }
                    }
                    if is_released(seen, h) {
                        let i = choose|i: int|
                            0 <= i < seen.len() && Handle::spec_from_raw(#[trigger] seen[i])
                                == Some(h);
                        assert(Handle::spec_from_raw(more[i]) == Some(h));
                    }
                    if Handle::spec_from_raw(words@[at as int]) == Some(h) {
                        assert(Handle::spec_from_raw(more[at as int]) == Some(h));
                    }
                }
                assert(self.states() =~= states_without(old(self).states(), more));
                let named = Handle::spec_from_raw(words@[at as int]);
                if makes_room(old(self).states(), more) && !makes_room(old(self).states(), seen) {
                    let h = choose|h: Handle|
                        old(self).states().dom().contains(h) && #[trigger] is_released(more, h)
                            && h.generation < u32::MAX;
                    assert(!is_released(seen, h));
                    assert(named == Some(h));
                    assert(before.states().dom().contains(h));
                }
                if makes_room(old(self).states(), seen) {
                    let h = choose|h: Handle|
                        old(self).states().dom().contains(h) && #[trigger] is_released(seen, h)
                            && h.generation < u32::MAX;
                    assert(is_released(more, h));
                }
                if status == 0 && named->0.generation < u32::MAX {
                    assert(before.states().dom().contains(named->0));
                    assert(is_released(more, named->0));
                }
                assert forall|h: Handle|
                    old(self).states().dom().contains(h) && #[trigger] is_released(
                        more,
                        h,
                    ) implies self.retired(h) by {
                    if is_released(seen, h) {
                        assert(before.retired(h));
                    } else {
                        assert(named == Some(h));
                        assert(before.states().dom().contains(h));
                    }
                }
            }
            at = at + 1;
        }
        assert(words@.take(words@.len() as int) =~= words@);
    }

    /// The state that the host's answer to `PopState` names; see
    /// [`Pipe::spec_state_of`].
    pub fn state_of(&self, reply: Option<ControlReply>) -> (r: Option<&ST>)
        ensures
            r is Some <==> self.spec_state_of(reply) is Some,
            r matches Some(state) ==> self.spec_state_of(reply) == Some(*state),
    {
        match reply {
            Some(r) => if r.status == HOST_FAILURE {
                None
            } else {
                match Handle::from_raw(r.state) {
                    Some(h) => self.states.get(h),
                    None => None,
                }
            },
            None => None,
        }
    }

    /// The state attached to the resource that the pipe stands for in this
    /// activation, if the host knows of one. The state stays where it is:
    /// what is returned is a view of it.
    pub fn get_state<H: Host>(&self, host: &mut H) -> (r: Option<&ST>)
        ensures
            exists|reply: Option<ControlReply>|
                (#[trigger] cntl_step(
                    *old(host),
                    self.descriptor(),
                    PipeControl::PopState,
                    reply,
                    *final(host),
                )) && (r is Some <==> self.spec_state_of(reply) is Some) && (r matches Some(state)
                    ==> self.spec_state_of(reply) == Some(*state)),
            exists|h: &mut H, reply: Option<ControlReply>|
                *h == *old(host) && *final(h) == *final(host) && #[trigger] call_ensures(
                    H::pipe_cntl,
                    (h, self.descriptor(), PipeControl::PopState),
                    reply,
                ) && (r is Some <==> self.spec_state_of(reply) is Some),
    {
        assert(self.descriptor() == self.pipe);
        let reply = ask_cntl(host, self.pipe, PipeControl::PopState);
        self.state_of(reply)
    }

    /// Takes `obj` into the pipe's store. The handle is the one whose word
    /// the host is to be given. Without room the state is dropped.
    pub fn hold_state(&mut self, obj: Box<ST>) -> (r: Option<Handle>)
        ensures
            final(self).descriptor() == old(self).descriptor(),
            r is Some <==> old(self).has_room(),
            r matches Some(h) ==> {
                &&& h.generation >= 1
                &&& !old(self).states().dom().contains(h)
                &&& !old(self).retired(h)
                &&& !final(self).retired(h)
                &&& final(self).states() == old(self).states().insert(h, *obj)
            },
            r is None ==> final(self).states() == old(self).states(),
            forall|k: Handle| old(self).retired(k) <==> final(self).retired(k),
    {
        proof {
            use_type_invariant(&*self);
        }
        let mut states = Arena::new();
        core::mem::swap(&mut self.states, &mut states);
        let r = states.insert(*obj);
        core::mem::swap(&mut self.states, &mut states);
        r
    }

    /// Ends a push of the state under `h` according to the host's answer. If
    /// the host took the state, it stays in the store for the host to find.
    /// If the host refused, the state is released here: it is never left
    /// without an owner.
    pub fn settle_push(&mut self, h: Handle, reply: Option<ControlReply>) -> (r: Option<()>)
        ensures
            final(self).descriptor() == old(self).descriptor(),
            r is Some <==> control_accepted(reply),
            r is Some ==> *final(self) == *old(self),
            r is None ==> final(self).states() == old(self).states().remove(h),
            r is None && old(self).states().dom().contains(h) ==> final(self).retired(h),
            forall|k: Handle| old(self).retired(k) ==> final(self).retired(k),
    {
        match control_outcome(reply) {
            Some(done) => Some(done),
            None => {
                let _ = self.release(h);
                None
            },
        }
    }

    /// Attaches `obj` to the resource behind the pipe, so that a later
    /// activation on the same resource finds it with [`Pipe::get_state`].
    /// The state is taken in every case: when the host refuses it, or the
    /// pipe has no room for it, it is released at once.
    pub fn push_state<H: Host>(&mut self, host: &mut H, obj: Box<ST>) -> (r: Option<()>)
        ensures
            final(self).descriptor() == old(self).descriptor(),
            !old(self).has_room() ==> r is None && *final(host) == *old(host),
            !old(self).has_room() ==> final(self).states() == old(self).states(),
            old(self).has_room() ==> exists|h: Handle, reply: Option<ControlReply>|
                {
                    &&& !old(self).states().dom().contains(h)
                    &&& !old(self).retired(h)
                    &&& #[trigger] cntl_step(
                        *old(host),
                        old(self).descriptor(),
                        PipeControl::PushState(h.spec_to_raw()),
                        reply,
                        *final(host),
                    )
                    &&& r is Some <==> control_accepted(reply)
                    &&& r is Some ==> final(self).states() == old(self).states().insert(h, *obj)
                    &&& r is None ==> final(self).states() == old(self).states()
                    &&& r is None ==> final(self).retired(h)
                },
            old(self).has_room() ==> exists|
                held: &mut H,
                h: Handle,
                reply: Option<ControlReply>,
            |
                *held == *old(host) && *final(held) == *final(host) && #[trigger] call_ensures(
                    H::pipe_cntl,
                    (held, old(self).descriptor(), PipeControl::PushState(h.spec_to_raw())),
                    reply,
                ) && (r is Some <==> control_accepted(reply)),
            forall|k: Handle| old(self).retired(k) ==> final(self).retired(k),
    {
        match self.hold_state(obj) {
            Some(h) => {
                let reply = ask_cntl(host, self.pipe, PipeControl::PushState(h.to_raw()));
                let r = self.settle_push(h, reply);
                proof {
                    if r is None {
                        assert(self.states() =~= old(self).states());
                    }
                }
                r
            },
            None => None,
        }
    }

    /// Reads from the pipe into `buf`; see [`PipeRef::read`].
    pub fn read<H: Host>(&mut self, host: &mut H, buf: &mut [u8]) -> (r: Result<usize, PipeError>)
        ensures
            *final(self) == *old(self),
            exists|reply: Option<usize>|
                (#[trigger] read_answer(*old(host), old(self).descriptor(), old(buf)@.len(), reply))
                    && r == spec_transfer_outcome(reply),
            exists|h: &mut H, b: &mut [u8], reply: Option<usize>|
                *h == *old(host) && *final(h) == *final(host) && b@ == old(buf)@ && final(b)@
                    == final(buf)@ && #[trigger] call_ensures(
                    H::pipe_read,
                    (h, old(self).descriptor(), b),
                    reply,
                ) && r == spec_transfer_outcome(reply),
    {
        assert(self.descriptor() == self.pipe);
        let reply = ask_read(host, self.pipe, buf);
        transfer_outcome(reply)
    }

    /// Reads from the pipe into a fresh buffer of `room` zero bytes. The
    /// answer is the count, as [`Pipe::read`] gives it, and the buffer as the
    /// host left it.
    pub fn read_bytes<H: Host>(&mut self, host: &mut H, room: usize) -> (r: (
        Result<usize, PipeError>,
        Vec<u8>,
    ))
        ensures
            *final(self) == *old(self),
            exists|reply: Option<usize>|
                (#[trigger] read_step(
                    *old(host),
                    old(self).descriptor(),
                    room,
                    reply,
                    r.1@,
                    *final(host),
                )) && r.0 == spec_transfer_outcome(reply),
    {
        assert(self.descriptor() == self.pipe);
        let call = read_bytes_then::<H>;
        let (reply, data, seen) = call(host, self.pipe, room);
        assert(seen@ == *host);
        let got = transfer_outcome(reply);
        let r = (got, data);
        assert(read_step(*old(host), old(self).descriptor(), room, reply, r.1@, *host));
        assert(r.0 == spec_transfer_outcome(reply));
        r
    }

    /// Writes `buf` to the pipe. The count is the host's; an empty entry in
    /// the host's table and a failure reported by the host each give their
    /// error.
    pub fn write<H: Host>(&mut self, host: &mut H, buf: &[u8]) -> (r: Result<usize, PipeError>)
        ensures
            *final(self) == *old(self),
            exists|reply: Option<usize>|
                (#[trigger] write_step(
                    *old(host),
                    old(self).descriptor(),
                    buf@,
                    reply,
                    *final(host),
                )) && r == spec_transfer_outcome(reply),
            exists|h: &mut H, reply: Option<usize>|
                *h == *old(host) && *final(h) == *final(host) && #[trigger] call_ensures(
                    H::pipe_write,
                    (h, old(self).descriptor(), buf),
                    reply,
                ) && r == spec_transfer_outcome(reply),
    {
        assert(self.descriptor() == self.pipe);
        let reply = ask_write(host, self.pipe, buf);
        transfer_outcome(reply)
    }

    /// Writes all of `buf` to the pipe: hands the host what is left of it
    /// until nothing is left, and gives up at the first write that fails or
    /// takes nothing.
    pub fn write_all<H: Host>(&mut self, host: &mut H, buf: &[u8]) -> (r: Result<(), PipeError>)
        ensures
            *final(self) == *old(self),
            sent(*old(host), old(self).descriptor(), buf@, *final(host), r),
    {
        let ghost start = *host;
        let ghost pipe = self.descriptor();
        let mut at: usize = 0;
        assert(buf@.subrange(0, buf@.len() as int) =~= buf@);
        while at < buf.len()
            invariant
                *self == *old(self),
                pipe == self.descriptor(),
                start == *old(host),
                at <= buf@.len(),
                forall|after: H, end: Result<(), PipeError>| #[trigger]
                    sent_from(*host, pipe, buf@.subrange(at as int, buf@.len() as int), after, end)
                        ==> sent_from(start, pipe, buf@, after, end),
            decreases buf@.len() - at,
        {
            let ghost here = *host;
            let rest = slice_subrange(buf, at, buf.len());
            let wrote = self.write(host, rest);
            let ghost reply = choose|reply: Option<usize>|
                (#[trigger] write_step(here, pipe, rest@, reply, *host)) && wrote
                    == spec_transfer_outcome(reply);
            match wrote {
                Ok(taken) => {
                    if taken == 0 {
                        assert(sent_from(
                            here,
                            pipe,
                            rest@,
                            *host,
                            Err::<(), PipeError>(PipeError::Stalled),
                        ));
                        return Err(PipeError::Stalled);
                    }
                    if taken > buf.len() - at {
                        assert(sent_from(
                            here,
                            pipe,
                            rest@,
                            *host,
                            Err::<(), PipeError>(PipeError::HostFailure),
                        ));
                        return Err(PipeError::HostFailure);
                    }
                    proof {
                        assert(rest@.subrange(taken as int, rest@.len() as int) =~= buf@.subrange(
                            at + taken,
                            buf@.len() as int,
                        ));
                        assert forall|after: H, end: Result<(), PipeError>| #[trigger]
                            sent_from(
                                *host,
                                pipe,
                                buf@.subrange(at + taken, buf@.len() as int),
                                after,
                                end,
                            ) implies sent_from(start, pipe, buf@, after, end) by {
                            assert(sent_from(here, pipe, rest@, after, end));
                        }
                    }
                    at = at + taken;
                },
                Err(e) => {
                    assert(sent_from(here, pipe, rest@, *host, Err::<(), PipeError>(e)));
                    return Err(e);
                },
            }
        }
        assert(sent_from(
            *host,
            pipe,
            buf@.subrange(at as int, buf@.len() as int),
            *host,
            Ok::<(), PipeError>(()),
        ));
        Ok(())
    }

    /// Nothing is buffered on this side, so there is nothing to flush.
    pub fn flush(&mut self) -> (r: Result<(), PipeError>)
        ensures
            r is Ok,
            *final(self) == *old(self),
    {
        Ok(())
    }
}

} // verus!
