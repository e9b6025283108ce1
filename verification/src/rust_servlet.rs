//! The entry points that the host calls.
//!
//! The host knows a servlet instance, and the private data of a task, by one
//! word each. Every entry point takes the words as they come from the host,
//! finds the objects they name, calls the servlet, and turns what the
//! servlet says into a status. A word that names nothing, a call for the
//! wrong mode or out of its turn, and arguments that are not text all end in
//! the failure status before any code of the servlet runs.
//!
//! An instance goes through its phases in one direction: it is created, set
//! up once, activated any number of times, and cleaned up once.

use vstd::prelude::*;
use vstd::string::StringSliceAdditionalSpecFns;
use vstd::utf8::{decode_utf8, encode_utf8_decode_utf8, valid_utf8};
use std::rc::Rc;
use crate::arena::{Arena, Handle, NULL_HANDLE};
use crate::host::Host;
use crate::protocol::{DataModel, ProtocolModel, TypeInstanceObject, TypeModelObject};
use crate::servlet::{
    AsyncServlet, AsyncTaskHandle, AsyncWork, Bootstrap, BootstrapResult, ServletFuncResult, ServletMode,
    SyncServlet, Unimplemented,
};

verus! {

/// The status of a synchronous servlet that was set up, and of any call that
/// did its work.
pub const STATUS_OK: i32 = 0;

/// The status of an asynchronous servlet that was set up.
pub const STATUS_ASYNC_OK: i32 = 1;

/// The status of a call that failed or was refused.
pub const STATUS_FAILED: i32 = -1;

/// The status for the result of a servlet's function: `success` where the
/// servlet did its work, [`STATUS_FAILED`] where it failed.
pub open spec fn spec_status_of(result: ServletFuncResult, success: i32) -> i32 {
    match result {
        Ok(_) => success,
        Err(_) => STATUS_FAILED,
    }
}

/// See [`spec_status_of`].
pub fn status_of(result: ServletFuncResult, success: i32) -> (status: i32)
    ensures
        status == spec_status_of(result, success),
{
    match result {
        Ok(_) => success,
        Err(_) => STATUS_FAILED,
    }
}

/// `core::str::from_utf8` of std: the text whose UTF-8 encoding `bytes` are,
/// where they are the encoding of a text, and nothing where they are not.
/// The text has exactly the bytes that were given.
#[verifier::external_body]
fn str_from_utf8(bytes: &[u8]) -> (r: Option<&str>)
    ensures
        r is Some <==> valid_utf8(bytes@),
        r matches Some(text) ==> text.spec_bytes() == bytes@,
{
    match core::str::from_utf8(bytes) {
        Ok(text) => Some(text),
        Err(_) => None,
    }
}

/// Every argument is there and is the UTF-8 encoding of a text.
pub open spec fn arguments_decode(argv: Seq<Option<Vec<u8>>>) -> bool {
    forall|i: int| 0 <= i < argv.len() ==> (#[trigger] argv[i]) is Some && valid_utf8(argv[i]->0@)
}

/// `args` are the arguments `argv` as texts: as many, in the same order,
/// each with the bytes and so the characters of its argument.
pub open spec fn arguments_are(argv: Seq<Option<Vec<u8>>>, args: Seq<&str>) -> bool {
    &&& args.len() == argv.len()
    &&& forall|i: int|
        0 <= i < argv.len() ==> (#[trigger] argv[i]) is Some && args[i].spec_bytes() == argv[i]->0@
            && args[i]@ == decode_utf8(argv[i]->0@)
}

/// Two lists of texts that are both the arguments `argv` are the same list.
pub proof fn lemma_arguments_are_unique(
    argv: Seq<Option<Vec<u8>>>,
    first: Seq<&str>,
    second: Seq<&str>,
)
    requires
        arguments_are(argv, first),
        arguments_are(argv, second),
    ensures
        first.len() == second.len(),
        forall|i: int| 0 <= i < first.len() ==> (#[trigger] first[i])@ == second[i]@,
{
    assert forall|i: int| 0 <= i < first.len() implies (#[trigger] first[i])@ == second[i]@ by {
        assert(argv[i] is Some);
    }
}

/// The arguments of an instance as texts. `argv` holds the bytes of each
/// argument up to its closing zero, and `None` for an argument that is not
/// there. One argument that is missing or is not UTF-8 fails the whole list:
/// nothing is cut short and nothing is put in its place.
pub fn make_argument_list<'a>(argv: &'a Vec<Option<Vec<u8>>>) -> (r: Option<Vec<&'a str>>)
    ensures
        r is Some <==> arguments_decode(argv@),
        r matches Some(args) ==> arguments_are(argv@, args@),
{
    let mut args: Vec<&'a str> = Vec::new();
    let mut idx: usize = 0;
    while idx < argv.len()
        invariant
            idx <= argv@.len(),
            args@.len() == idx,
            forall|i: int|
                0 <= i < idx ==> (#[trigger] argv@[i]) is Some && valid_utf8(argv@[i]->0@)
                    && args@[i].spec_bytes() == argv@[i]->0@ && args@[i]@ == decode_utf8(
                    argv@[i]->0@,
                ),
        decreases argv@.len() - idx,
    {
        match &argv[idx] {
            Some(bytes) => match str_from_utf8(bytes.as_slice()) {
                Some(text) => {
                    proof {
                        encode_utf8_decode_utf8(text@);
                    }
                    args.push(text);
                },
                None => {
                    assert(!valid_utf8(argv@[idx as int]->0@));
                    return None;
                },
            },
            None => {
                assert(argv@[idx as int] is None);
                return None;
            },
        }
        idx += 1;
    }
    Some(args)
}

/// Where an instance stands in its life. An instance that was cleaned up is
/// no longer there and has no phase.
#[derive(Clone, Copy, Debug, PartialEq, Eq, Structural)]
pub enum Phase {
    /// Made, and not yet set up.
    Created,
    /// Set up, and not yet activated.
    Initialized,
    /// Activated at least once.
    Active,
}

/// `std::rc::Rc::clone`: one more reference to the value that `rc` refers
/// to.
#[verifier::external_body]
fn share_rc<T>(rc: &Rc<T>) -> (r: Rc<T>)
    ensures
        r == *rc,
{
    Rc::clone(rc)
}

/// The protocol model of an instance. While the servlet is set up the model
/// is owned here alone and can be changed. With the first activation it
/// becomes shared with the accessors of the activations and is never changed
/// again.
pub struct ProtocolCell<P> {
    /// The model while it can still be changed.
    building: Option<P>,
    /// The model once it is shared.
    shared: Option<Rc<P>>,
}

impl<P> ProtocolCell<P> {
    /// The model is in exactly one of its two places.
    pub closed spec fn wf(&self) -> bool {
        self.building is Some <==> self.shared is None
    }

    /// The model is shared with accessors, and so is fixed.
    pub closed spec fn is_shared(&self) -> bool {
        self.shared is Some
    }

    /// The model.
    pub closed spec fn model(&self) -> P {
        match self.shared {
            Some(rc) => *rc,
            None => self.building->0,
        }
    }

    /// A cell for a model that no one else refers to.
    fn new(model: P) -> (cell: Self)
        ensures
            cell.wf(),
            !cell.is_shared(),
            cell.model() == model,
    {
        ProtocolCell { building: Some(model), shared: None }
    }

    /// One more reference to the model, which is shared from now on.
    fn share(&mut self) -> (rc: Rc<P>)
        requires
            old(self).wf(),
        ensures
            final(self).wf(),
            final(self).is_shared(),
            final(self).model() == old(self).model(),
            *rc == old(self).model(),
    {
        if self.shared.is_none() {
            let model = self.building.take().unwrap();
            self.shared = Some(Rc::new(model));
        }
        share_rc(self.shared.as_ref().unwrap())
    }
}

/// An instance in the synchronous mode.
pub struct SyncServletObject<BT: Bootstrap<H>, H: Host> {
    protocol_model: ProtocolCell<<BT::SyncServletType as SyncServlet<H>>::ProtocolType>,
    servlet_context: BT::SyncServletType,
    phase: Phase,
}

/// An instance in the asynchronous mode.
pub struct AsyncServletObject<BT: Bootstrap<H>, H: Host> {
    protocol_model: ProtocolCell<<BT::AsyncServletType as AsyncServlet<H>>::ProtocolType>,
    servlet_context: BT::AsyncServletType,
    phase: Phase,
}

/// An instance of a servlet: the servlet in the mode chosen at bootstrap,
/// with its protocol model. The mode is fixed for the life of the instance.
pub enum ServletObject<BT: Bootstrap<H>, H: Host> {
    SYNC(SyncServletObject<BT, H>),
    ASYNC(AsyncServletObject<BT, H>),
}

impl<BT: Bootstrap<H>, H: Host> SyncServletObject<BT, H> {
    /// The servlet.
    pub closed spec fn servlet(&self) -> BT::SyncServletType {
        self.servlet_context
    }

    /// The protocol model of the instance.
    pub closed spec fn model(&self) -> <BT::SyncServletType as SyncServlet<H>>::ProtocolType {
        self.protocol_model.model()
    }

    /// The protocol model is shared with accessors.
    pub closed spec fn shares_model(&self) -> bool {
        self.protocol_model.is_shared()
    }
}

impl<BT: Bootstrap<H>, H: Host> AsyncServletObject<BT, H> {
    /// The servlet.
    pub closed spec fn servlet(&self) -> BT::AsyncServletType {
        self.servlet_context
    }

    /// The protocol model of the instance.
    pub closed spec fn model(&self) -> <BT::AsyncServletType as AsyncServlet<H>>::ProtocolType {
        self.protocol_model.model()
    }

    /// The protocol model is shared with accessors.
    pub closed spec fn shares_model(&self) -> bool {
        self.protocol_model.is_shared()
    }
}

/// The servlet `servlet`, set up on the arguments `args` with the host in the
/// state `host` and the protocol model `model`, may answer `result`.
pub open spec fn sync_setup_answer<S: SyncServlet<H>, H: Host>(
    servlet: S,
    host: H,
    args: Seq<&str>,
    model: S::ProtocolType,
    result: ServletFuncResult,
) -> bool {
    exists|s: &mut S, h: &mut H, a: &[&str], m: &mut S::ProtocolType|
        *s == servlet && *h == host && a@ == args && *m == model && #[trigger] call_ensures(
            S::init,
            (s, h, a, m),
            result,
        )
}

/// The servlet `servlet`, set up on the arguments `args` with the host in the
/// state `host` and the protocol model `model`, may answer `result`.
pub open spec fn async_setup_answer<A: AsyncServlet<H>, H: Host>(
    servlet: A,
    host: H,
    args: Seq<&str>,
    model: A::ProtocolType,
    result: ServletFuncResult,
) -> bool {
    exists|s: &mut A, h: &mut H, a: &[&str], m: &mut A::ProtocolType|
        *s == servlet && *h == host && a@ == args && *m == model && #[trigger] call_ensures(
            A::init,
            (s, h, a, m),
            result,
        )
}

/// The accessors `data` are what the servlet's data model may make of the
/// protocol model `model` and the type instance at the address `type_inst`.
pub open spec fn data_model_answer<P: ProtocolModel, D: DataModel<P>>(
    model: P,
    type_inst: usize,
    data: D,
) -> bool {
    exists|shared: Rc<P>, instance: TypeInstanceObject|
        *shared == model && instance.address() == type_inst && #[trigger] call_ensures(
            D::new_data_model,
            (shared, instance),
            data,
        )
}

/// The servlet `servlet`, activated with the host in the state `host` on
/// accessors over `model` and the type instance at `type_inst`, may answer
/// `result`.
pub open spec fn exec_answer<S: SyncServlet<H>, H: Host>(
    servlet: S,
    host: H,
    model: S::ProtocolType,
    type_inst: usize,
    result: ServletFuncResult,
) -> bool {
    exists|s: &mut S, h: &mut H, data: S::DataModelType|
        *s == servlet && *h == host && data_model_answer(model, type_inst, data)
            && #[trigger] call_ensures(S::exec, (s, h, data), result)
}

/// The servlet `servlet`, taken down with the host in the state `host`, may
/// answer `result`.
pub open spec fn sync_cleanup_answer<S: SyncServlet<H>, H: Host>(
    servlet: S,
    host: H,
    result: ServletFuncResult,
) -> bool {
    exists|s: &mut S, h: &mut H|
        *s == servlet && *h == host && #[trigger] call_ensures(S::cleanup, (s, h), result)
}

/// The servlet `servlet`, taken down with the host in the state `host`, may
/// answer `result`.
pub open spec fn async_cleanup_answer<A: AsyncServlet<H>, H: Host>(
    servlet: A,
    host: H,
    result: ServletFuncResult,
) -> bool {
    exists|s: &mut A, h: &mut H|
        *s == servlet && *h == host && #[trigger] call_ensures(A::cleanup, (s, h), result)
}

/// The servlet `servlet`, asked to start a task for the host's task handle
/// at `handle` with the host in the state `host`, on accessors over `model`
/// and the type instance at `type_inst`, may answer `started`.
pub open spec fn task_start_answer<A: AsyncServlet<H>, H: Host>(
    servlet: A,
    host: H,
    handle: usize,
    model: A::ProtocolType,
    type_inst: usize,
    started: Option<Box<A::AsyncTaskData>>,
) -> bool {
    exists|s: &mut A, h: &mut H, task: &AsyncTaskHandle, data: A::DataModelType|
        *s == servlet && *h == host && task.address() == handle && data_model_answer(
            model,
            type_inst,
            data,
        ) && #[trigger] call_ensures(A::async_init, (s, h, task, data), started)
}

/// The slow work of a servlet of the type `A`, done for the host's task
/// handle at `handle` on the task's data `data`, may answer `result`.
pub open spec fn slow_work_answer<A: AsyncWork>(
    handle: usize,
    data: A::AsyncTaskData,
    result: ServletFuncResult,
) -> bool {
    exists|task: &AsyncTaskHandle, d: &mut A::AsyncTaskData|
        task.address() == handle && *d == data && #[trigger] call_ensures(
            A::async_exec,
            (task, d),
            result,
        )
}

/// The servlet `servlet`, asked to end the task with the data `task_data`
/// for the host's task handle at `handle`, with the host in the state
/// `host`, on accessors over `model` and the type instance at `type_inst`,
/// may answer `result`.
pub open spec fn task_end_answer<A: AsyncServlet<H>, H: Host>(
    servlet: A,
    host: H,
    handle: usize,
    task_data: A::AsyncTaskData,
    model: A::ProtocolType,
    type_inst: usize,
    result: ServletFuncResult,
) -> bool {
    exists|
        s: &mut A,
        h: &mut H,
        task: &AsyncTaskHandle,
        d: &mut A::AsyncTaskData,
        data: A::DataModelType,
    |
        *s == servlet && *h == host && task.address() == handle && *d == task_data
            && data_model_answer(model, type_inst, data) && #[trigger] call_ensures(
            A::async_cleanup,
            (s, h, task, d, data),
            result,
        )
}

impl<BT: Bootstrap<H>, H: Host> ServletObject<BT, H> {
    /// The instance runs in the synchronous mode.
    pub open spec fn is_sync(&self) -> bool {
        self is SYNC
    }

    /// Where the instance stands in its life.
    pub closed spec fn phase(&self) -> Phase {
        match self {
            ServletObject::SYNC(object) => object.phase,
            ServletObject::ASYNC(object) => object.phase,
        }
    }

    /// The invariant of an instance: its protocol model is shared exactly
    /// from the first activation on.
    pub closed spec fn wf(&self) -> bool {
        match self {
            ServletObject::SYNC(object) => {
                &&& object.protocol_model.wf()
                &&& object.protocol_model.is_shared() <==> object.phase == Phase::Active
            },
            ServletObject::ASYNC(object) => {
                &&& object.protocol_model.wf()
                &&& object.protocol_model.is_shared() <==> object.phase == Phase::Active
            },
        }
    }

    /// The instance has the mode and the protocol model of `before`. The
    /// fields of a protocol model are bound while the servlet is set up; no
    /// activation changes them.
    pub closed spec fn keeps_model_of(&self, before: Self) -> bool {
        match (*self, before) {
            (ServletObject::SYNC(now), ServletObject::SYNC(then)) => now.protocol_model.model()
                == then.protocol_model.model(),
            (ServletObject::ASYNC(now), ServletObject::ASYNC(then)) => now.protocol_model.model()
                == then.protocol_model.model(),
            _ => false,
        }
    }

    /// The instance is in the mode that the bootstrap chose and holds the
    /// servlet that the bootstrap made.
    pub open spec fn holds(&self, chosen: ServletMode<BT::AsyncServletType, BT::SyncServletType>) -> bool {
        match (*self, chosen) {
            (ServletObject::SYNC(object), ServletMode::SyncMode(servlet)) => object.servlet()
                == servlet,
            (ServletObject::ASYNC(object), ServletMode::AsyncMode(servlet)) => object.servlet()
                == servlet,
            _ => false,
        }
    }

    /// The protocol model of the instance is one made of the type model at
    /// `type_model`, and no accessor shares it.
    pub open spec fn has_fresh_model_over(&self, type_model: usize) -> bool {
        match *self {
            ServletObject::SYNC(object) => !object.shares_model() && protocol_model_answer(
                type_model,
                object.model(),
            ),
            ServletObject::ASYNC(object) => !object.shares_model() && protocol_model_answer(
                type_model,
                object.model(),
            ),
        }
    }

    /// The servlet of the instance, set up on `args` with the host in the
    /// state `host`, may answer `result`, leave the host in the state
    /// `host_after`, and leave itself and the protocol model as the instance
    /// `after` has them.
    pub open spec fn setup_step(
        &self,
        host: H,
        args: Seq<&str>,
        result: ServletFuncResult,
        after: Self,
        host_after: H,
    ) -> bool {
        match (*self, after) {
            (ServletObject::SYNC(then), ServletObject::SYNC(now)) => sync_setup_step(
                then.servlet(),
                host,
                args,
                then.model(),
                result,
                (now.servlet(), host_after, now.model()),
            ),
            (ServletObject::ASYNC(then), ServletObject::ASYNC(now)) => async_setup_step(
                then.servlet(),
                host,
                args,
                then.model(),
                result,
                (now.servlet(), host_after, now.model()),
            ),
            _ => false,
        }
    }

    /// The servlet of the instance, a synchronous one, activated on the type
    /// instance at `type_inst` with the host in the state `host`, may answer
    /// `result`, leave the host in the state `host_after`, and leave itself
    /// as the instance `after` has it.
    pub open spec fn activation_step(
        &self,
        host: H,
        type_inst: usize,
        result: ServletFuncResult,
        after: Self,
        host_after: H,
    ) -> bool {
        match (*self, after) {
            (ServletObject::SYNC(then), ServletObject::SYNC(now)) => exec_step(
                then.servlet(),
                host,
                then.model(),
                type_inst,
                result,
                (now.servlet(), host_after),
            ),
            _ => false,
        }
    }

    /// The servlet of the instance, taken down with the host in the state
    /// `host`, may answer `result` and leave the host in the state
    /// `host_after`.
    pub open spec fn cleanup_step(
        &self,
        host: H,
        result: ServletFuncResult,
        host_after: H,
    ) -> bool {
        match *self {
            ServletObject::SYNC(object) => sync_cleanup_step(
                object.servlet(),
                host,
                result,
                host_after,
            ),
            ServletObject::ASYNC(object) => async_cleanup_step(
                object.servlet(),
                host,
                result,
                host_after,
            ),
        }
    }

    /// The servlet of the instance, an asynchronous one, asked to start a
    /// task, may answer `started`, leave the host in the state `host_after`,
    /// and leave itself as the instance `after` has it.
    pub open spec fn start_step(
        &self,
        host: H,
        handle: usize,
        type_inst: usize,
        started: Option<Box<<BT::AsyncServletType as AsyncWork>::AsyncTaskData>>,
        after: Self,
        host_after: H,
    ) -> bool {
        match (*self, after) {
            (ServletObject::ASYNC(then), ServletObject::ASYNC(now)) => task_start_step(
                then.servlet(),
                host,
                handle,
                then.model(),
                type_inst,
                started,
                (now.servlet(), host_after),
            ),
            _ => false,
        }
    }

    /// The servlet of the instance, an asynchronous one, asked to end the
    /// task with the data `task_data`, may answer `result`, leave the host in
    /// the state `host_after`, and leave itself as the instance `after` has
    /// it.
    pub open spec fn end_step(
        &self,
        host: H,
        handle: usize,
        task_data: <BT::AsyncServletType as AsyncWork>::AsyncTaskData,
        type_inst: usize,
        result: ServletFuncResult,
        after: Self,
        host_after: H,
    ) -> bool {
        match (*self, after) {
            (ServletObject::ASYNC(then), ServletObject::ASYNC(now)) => task_end_step(
                then.servlet(),
                host,
                handle,
                task_data,
                then.model(),
                type_inst,
                result,
                (now.servlet(), host_after),
            ),
            _ => false,
        }
    }

    /// The phase of an instance after a setup that the servlet answered with
    /// `result`: set up, where the servlet did its work on an instance that
    /// was not set up yet, and else as before.
    pub open spec fn phase_after_setup(&self, result: ServletFuncResult) -> Phase {
        if result is Ok && self.phase() == Phase::Created {
            Phase::Initialized
        } else {
            self.phase()
        }
    }

    /// The instance is as `before` but for its phase.
    pub closed spec fn differs_in_phase_only(&self, before: Self) -> bool {
        match (*self, before) {
            (ServletObject::SYNC(now), ServletObject::SYNC(then)) => now.servlet_context
                == then.servlet_context && now.protocol_model == then.protocol_model,
            (ServletObject::ASYNC(now), ServletObject::ASYNC(then)) => now.servlet_context
                == then.servlet_context && now.protocol_model == then.protocol_model,
            _ => false,
        }
    }

    /// Ends a setup with the servlet's answer. The status is that of the
    /// instance's mode where the servlet did its work, and [`STATUS_FAILED`]
    /// where it failed; the instance is set up from then on exactly where the
    /// servlet did its work.
    pub fn settle_init(&mut self, result: ServletFuncResult) -> (status: i32)
        ensures
            status == spec_status_of(result, old(self).init_status()),
            final(self).phase() == old(self).phase_after_setup(result),
            final(self).differs_in_phase_only(*old(self)),
            final(self).is_sync() == old(self).is_sync(),
            old(self).wf() ==> final(self).wf(),
    {
        match self {
            ServletObject::SYNC(object) => {
                if result.is_ok() {
                    match object.phase {
                        Phase::Created => {
                            object.phase = Phase::Initialized;
                        },
                        _ => {},
                    }
                }
                status_of(result, STATUS_OK)
            },
            ServletObject::ASYNC(object) => {
                if result.is_ok() {
                    match object.phase {
                        Phase::Created => {
                            object.phase = Phase::Initialized;
                        },
                        _ => {},
                    }
                }
                status_of(result, STATUS_ASYNC_OK)
            },
        }
    }

    /// The status with which the setup of this instance succeeds: it tells
    /// the host the mode of the instance.
    pub open spec fn init_status(&self) -> i32 {
        if self.is_sync() {
            STATUS_OK
        } else {
            STATUS_ASYNC_OK
        }
    }

    /// Where the instance stands in its life.
    pub fn current_phase(&self) -> (phase: Phase)
        ensures
            phase == self.phase(),
    {
        match self {
            ServletObject::SYNC(object) => object.phase,
            ServletObject::ASYNC(object) => object.phase,
        }
    }

    /// Whether the instance runs in the synchronous mode.
    pub fn runs_sync(&self) -> (r: bool)
        ensures
            r == self.is_sync(),
    {
        match self {
            ServletObject::SYNC(_) => true,
            ServletObject::ASYNC(_) => false,
        }
    }
}

/// The protocol model `model` is one that the servlet's protocol may make of
/// the type model at the address `type_model`.
pub open spec fn protocol_model_answer<P: ProtocolModel>(type_model: usize, model: P) -> bool {
    exists|given: TypeModelObject|
        given.address() == type_model && #[trigger] call_ensures(
            P::new_protocol_model,
            (given,),
            model,
        )
}

/// Makes the protocol model of a new instance.
fn ask_protocol_model<P: ProtocolModel>(type_model: TypeModelObject) -> (model: P)
    ensures
        protocol_model_answer(type_model.address(), model),
{
    let call = P::new_protocol_model;
    call(type_model)
}

/// Makes the accessors for one activation.
fn ask_data_model<P: ProtocolModel, D: DataModel<P>>(
    model: Rc<P>,
    type_inst: TypeInstanceObject,
) -> (data: D)
    ensures
        data_model_answer(*model, type_inst.address(), data),
{
    let call = D::new_data_model;
    call(model, type_inst)
}

/// Sets a synchronous servlet up and notes what the call leaves behind: the
/// servlet, the host and the protocol model.
pub fn sync_setup_then<S: SyncServlet<H>, H: Host>(
    servlet: &mut S,
    host: &mut H,
    args: &[&str],
    model: &mut S::ProtocolType,
) -> (r: (ServletFuncResult, Ghost<(S, H, S::ProtocolType)>))
    ensures
        sync_setup_answer(*old(servlet), *old(host), args@, *old(model), r.0),
        r.1@ == (*final(servlet), *final(host), *final(model)),
        exists|s: &mut S, h: &mut H, a: &[&str], m: &mut S::ProtocolType|
            *s == *old(servlet) && *final(s) == *final(servlet) && *h == *old(host) && *final(h)
                == *final(host) && a@ == args@ && *m == *old(model) && *final(m) == *final(model)
                && #[trigger] call_ensures(S::init, (s, h, a, m), r.0),
{
    let call = S::init;
    let result = call(servlet, host, args, model);
    assert(exists|s: &mut S, h: &mut H, a: &[&str], m: &mut S::ProtocolType|
        *s == *old(servlet) && *final(s) == *servlet && *h == *old(host) && *final(h) == *host
            && a@ == args@ && *m == *old(model) && *final(m) == *model && #[trigger] call_ensures(
            S::init,
            (s, h, a, m),
            result,
        ));
    (result, Ghost((*servlet, *host, *model)))
}

/// The servlet `servlet`, set up on the arguments `args` with the host in the
/// state `host` and the protocol model `model`, may answer `result` and leave
/// itself, the host and the model as `after` has them.
pub open spec fn sync_setup_step<S: SyncServlet<H>, H: Host>(
    servlet: S,
    host: H,
    args: Seq<&str>,
    model: S::ProtocolType,
    result: ServletFuncResult,
    after: (S, H, S::ProtocolType),
) -> bool {
    exists|
        s: &mut S,
        h: &mut H,
        a: &[&str],
        m: &mut S::ProtocolType,
        seen: Ghost<(S, H, S::ProtocolType)>,
    |
        *s == servlet && *h == host && a@ == args && *m == model && seen@ == after
            && #[trigger] call_ensures(sync_setup_then::<S, H>, (s, h, a, m), (result, seen))
}

/// Sets an asynchronous servlet up and notes what the call leaves behind:
/// the servlet, the host and the protocol model.
pub fn async_setup_then<A: AsyncServlet<H>, H: Host>(
    servlet: &mut A,
    host: &mut H,
    args: &[&str],
    model: &mut A::ProtocolType,
) -> (r: (ServletFuncResult, Ghost<(A, H, A::ProtocolType)>))
    ensures
        async_setup_answer(*old(servlet), *old(host), args@, *old(model), r.0),
        r.1@ == (*final(servlet), *final(host), *final(model)),
        exists|s: &mut A, h: &mut H, a: &[&str], m: &mut A::ProtocolType|
            *s == *old(servlet) && *final(s) == *final(servlet) && *h == *old(host) && *final(h)
                == *final(host) && a@ == args@ && *m == *old(model) && *final(m) == *final(model)
                && #[trigger] call_ensures(A::init, (s, h, a, m), r.0),
{
    let call = A::init;
    let result = call(servlet, host, args, model);
    assert(exists|s: &mut A, h: &mut H, a: &[&str], m: &mut A::ProtocolType|
        *s == *old(servlet) && *final(s) == *servlet && *h == *old(host) && *final(h) == *host
            && a@ == args@ && *m == *old(model) && *final(m) == *model && #[trigger] call_ensures(
            A::init,
            (s, h, a, m),
            result,
        ));
    (result, Ghost((*servlet, *host, *model)))
}

/// The servlet `servlet`, set up on the arguments `args` with the host in the
/// state `host` and the protocol model `model`, may answer `result` and leave
/// itself, the host and the model as `after` has them.
pub open spec fn async_setup_step<A: AsyncServlet<H>, H: Host>(
    servlet: A,
    host: H,
    args: Seq<&str>,
    model: A::ProtocolType,
    result: ServletFuncResult,
    after: (A, H, A::ProtocolType),
) -> bool {
    exists|
        s: &mut A,
        h: &mut H,
        a: &[&str],
        m: &mut A::ProtocolType,
        seen: Ghost<(A, H, A::ProtocolType)>,
    |
        *s == servlet && *h == host && a@ == args && *m == model && seen@ == after
            && #[trigger] call_ensures(async_setup_then::<A, H>, (s, h, a, m), (result, seen))
}

/// Activates a synchronous servlet on fresh accessors and notes what the
/// call leaves behind: the servlet and the host.
pub fn exec_then<S: SyncServlet<H>, H: Host>(
    servlet: &mut S,
    host: &mut H,
    model: Rc<S::ProtocolType>,
    type_inst: TypeInstanceObject,
) -> (r: (ServletFuncResult, Ghost<(S, H)>))
    ensures
        exec_answer(*old(servlet), *old(host), *model, type_inst.address(), r.0),
        r.1@ == (*final(servlet), *final(host)),
        exists|s: &mut S, h: &mut H, data: S::DataModelType|
            *s == *old(servlet) && *final(s) == *final(servlet) && *h == *old(host) && *final(h)
                == *final(host) && data_model_answer(*model, type_inst.address(), data)
                && #[trigger] call_ensures(S::exec, (s, h, data), r.0),
{
    let data = ask_data_model::<S::ProtocolType, S::DataModelType>(model, type_inst);
    let call = S::exec;
    let result = call(servlet, host, data);
    assert(exists|s: &mut S, h: &mut H, made: S::DataModelType|
        *s == *old(servlet) && *final(s) == *servlet && *h == *old(host) && *final(h) == *host
            && data_model_answer(*model, type_inst.address(), made) && #[trigger] call_ensures(
            S::exec,
            (s, h, made),
            result,
        ));
    (result, Ghost((*servlet, *host)))
}

/// The servlet `servlet`, activated with the host in the state `host` on
/// accessors over `model` and the type instance at `type_inst`, may answer
/// `result` and leave itself and the host as `after` has them.
pub open spec fn exec_step<S: SyncServlet<H>, H: Host>(
    servlet: S,
    host: H,
    model: S::ProtocolType,
    type_inst: usize,
    result: ServletFuncResult,
    after: (S, H),
) -> bool {
    exists|
        s: &mut S,
        h: &mut H,
        shared: Rc<S::ProtocolType>,
        instance: TypeInstanceObject,
        seen: Ghost<(S, H)>,
    |
        *s == servlet && *h == host && *shared == model && instance.address() == type_inst
            && seen@ == after && #[trigger] call_ensures(
            exec_then::<S, H>,
            (s, h, shared, instance),
            (result, seen),
        )
}

/// Takes a synchronous servlet down and notes the state that the call
/// leaves the host in.
pub fn sync_cleanup_then<S: SyncServlet<H>, H: Host>(servlet: &mut S, host: &mut H) -> (r: (
    ServletFuncResult,
    Ghost<H>,
))
    ensures
        sync_cleanup_answer(*old(servlet), *old(host), r.0),
        r.1@ == *final(host),
        exists|s: &mut S, h: &mut H|
            *s == *old(servlet) && *final(s) == *final(servlet) && *h == *old(host) && *final(h)
                == *final(host) && #[trigger] call_ensures(S::cleanup, (s, h), r.0),
{
    let call = S::cleanup;
    let result = call(servlet, host);
    assert(exists|s: &mut S, h: &mut H|
        *s == *old(servlet) && *final(s) == *servlet && *h == *old(host) && *final(h) == *host
            && #[trigger] call_ensures(S::cleanup, (s, h), result));
    (result, Ghost(*host))
}

/// The servlet `servlet`, taken down with the host in the state `host`, may
/// answer `result` and leave the host in the state `after`.
pub open spec fn sync_cleanup_step<S: SyncServlet<H>, H: Host>(
    servlet: S,
    host: H,
    result: ServletFuncResult,
    after: H,
) -> bool {
    exists|s: &mut S, h: &mut H, seen: Ghost<H>|
        *s == servlet && *h == host && seen@ == after && #[trigger] call_ensures(
            sync_cleanup_then::<S, H>,
            (s, h),
            (result, seen),
        )
}

/// Takes an asynchronous servlet down and notes the state that the call
/// leaves the host in.
pub fn async_cleanup_then<A: AsyncServlet<H>, H: Host>(servlet: &mut A, host: &mut H) -> (r: (
    ServletFuncResult,
    Ghost<H>,
))
    ensures
        async_cleanup_answer(*old(servlet), *old(host), r.0),
        r.1@ == *final(host),
        exists|s: &mut A, h: &mut H|
            *s == *old(servlet) && *final(s) == *final(servlet) && *h == *old(host) && *final(h)
                == *final(host) && #[trigger] call_ensures(A::cleanup, (s, h), r.0),
{
    let call = A::cleanup;
    let result = call(servlet, host);
    assert(exists|s: &mut A, h: &mut H|
        *s == *old(servlet) && *final(s) == *servlet && *h == *old(host) && *final(h) == *host
            && #[trigger] call_ensures(A::cleanup, (s, h), result));
    (result, Ghost(*host))
}

/// The servlet `servlet`, taken down with the host in the state `host`, may
/// answer `result` and leave the host in the state `after`.
pub open spec fn async_cleanup_step<A: AsyncServlet<H>, H: Host>(
    servlet: A,
    host: H,
    result: ServletFuncResult,
    after: H,
) -> bool {
    exists|s: &mut A, h: &mut H, seen: Ghost<H>|
        *s == servlet && *h == host && seen@ == after && #[trigger] call_ensures(
            async_cleanup_then::<A, H>,
            (s, h),
            (result, seen),
        )
}

/// Asks an asynchronous servlet to start a task, on fresh accessors, and
/// notes what the call leaves behind: the servlet and the host.
pub fn task_start_then<A: AsyncServlet<H>, H: Host>(
    servlet: &mut A,
    host: &mut H,
    handle: &AsyncTaskHandle,
    model: Rc<A::ProtocolType>,
    type_inst: TypeInstanceObject,
) -> (r: (Option<Box<A::AsyncTaskData>>, Ghost<(A, H)>))
    ensures
        task_start_answer(
            *old(servlet),
            *old(host),
            handle.address(),
            *model,
            type_inst.address(),
            r.0,
        ),
        r.1@ == (*final(servlet), *final(host)),
        exists|s: &mut A, h: &mut H, task: &AsyncTaskHandle, data: A::DataModelType|
            *s == *old(servlet) && *final(s) == *final(servlet) && *h == *old(host) && *final(h)
                == *final(host) && task.address() == handle.address() && data_model_answer(
                *model,
                type_inst.address(),
                data,
            ) && #[trigger] call_ensures(A::async_init, (s, h, task, data), r.0),
{
    let data = ask_data_model::<A::ProtocolType, A::DataModelType>(model, type_inst);
    let call = A::async_init;
    let started = call(servlet, host, handle, data);
    assert(exists|s: &mut A, h: &mut H, task: &AsyncTaskHandle, made: A::DataModelType|
        *s == *old(servlet) && *final(s) == *servlet && *h == *old(host) && *final(h) == *host
            && task.address() == handle.address() && data_model_answer(
            *model,
            type_inst.address(),
            made,
        ) && #[trigger] call_ensures(A::async_init, (s, h, task, made), started));
    (started, Ghost((*servlet, *host)))
}

/// The servlet `servlet`, asked to start a task for the host's task handle
/// at `handle` with the host in the state `host`, on accessors over `model`
/// and the type instance at `type_inst`, may answer `started` and leave
/// itself and the host as `after` has them.
pub open spec fn task_start_step<A: AsyncServlet<H>, H: Host>(
    servlet: A,
    host: H,
    handle: usize,
    model: A::ProtocolType,
    type_inst: usize,
    started: Option<Box<A::AsyncTaskData>>,
    after: (A, H),
) -> bool {
    exists|
        s: &mut A,
        h: &mut H,
        task: &AsyncTaskHandle,
        shared: Rc<A::ProtocolType>,
        instance: TypeInstanceObject,
        seen: Ghost<(A, H)>,
    |
        *s == servlet && *h == host && task.address() == handle && *shared == model
            && instance.address() == type_inst && seen@ == after && #[trigger] call_ensures(
            task_start_then::<A, H>,
            (s, h, task, shared, instance),
            (started, seen),
        )
}

/// Has the slow work of a task done and notes the data of the task as the
/// work leaves it.
pub fn slow_work_then<A: AsyncWork>(handle: &AsyncTaskHandle, data: &mut A::AsyncTaskData) -> (r:
    (ServletFuncResult, Ghost<A::AsyncTaskData>))
    ensures
        slow_work_answer::<A>(handle.address(), *old(data), r.0),
        r.1@ == *final(data),
        exists|task: &AsyncTaskHandle, d: &mut A::AsyncTaskData|
            task.address() == handle.address() && *d == *old(data) && *final(d) == *final(data)
                && #[trigger] call_ensures(A::async_exec, (task, d), r.0),
{
    let call = A::async_exec;
    let result = call(handle, data);
    assert(exists|task: &AsyncTaskHandle, d: &mut A::AsyncTaskData|
        task.address() == handle.address() && *d == *old(data) && *final(d) == *data
            && #[trigger] call_ensures(A::async_exec, (task, d), result));
    (result, Ghost(*data))
}

/// The slow work of a servlet of the type `A`, done for the host's task
/// handle at `handle` on the task's data `data`, may answer `result` and
/// leave the data as `after`.
pub open spec fn slow_work_step<A: AsyncWork>(
    handle: usize,
    data: A::AsyncTaskData,
    result: ServletFuncResult,
    after: A::AsyncTaskData,
) -> bool {
    exists|task: &AsyncTaskHandle, d: &mut A::AsyncTaskData, seen: Ghost<A::AsyncTaskData>|
        task.address() == handle && *d == data && seen@ == after && #[trigger] call_ensures(
            slow_work_then::<A>,
            (task, d),
            (result, seen),
        )
}

/// Asks an asynchronous servlet to end a task, on fresh accessors, and notes
/// what the call leaves behind: the servlet and the host.
pub fn task_end_then<A: AsyncServlet<H>, H: Host>(
    servlet: &mut A,
    host: &mut H,
    handle: &AsyncTaskHandle,
    task_data: &mut A::AsyncTaskData,
    model: Rc<A::ProtocolType>,
    type_inst: TypeInstanceObject,
) -> (r: (ServletFuncResult, Ghost<(A, H)>))
    ensures
        task_end_answer(
            *old(servlet),
            *old(host),
            handle.address(),
            *old(task_data),
            *model,
            type_inst.address(),
            r.0,
        ),
        r.1@ == (*final(servlet), *final(host)),
        exists|
            s: &mut A,
            h: &mut H,
            task: &AsyncTaskHandle,
            d: &mut A::AsyncTaskData,
            data: A::DataModelType,
        |
            *s == *old(servlet) && *final(s) == *final(servlet) && *h == *old(host) && *final(h)
                == *final(host) && task.address() == handle.address() && *d == *old(task_data)
                && data_model_answer(*model, type_inst.address(), data) && #[trigger] call_ensures(
                A::async_cleanup,
                (s, h, task, d, data),
                r.0,
            ),
{
    let data = ask_data_model::<A::ProtocolType, A::DataModelType>(model, type_inst);
    let call = A::async_cleanup;
    let result = call(servlet, host, handle, task_data, data);
    assert(exists|
        s: &mut A,
        h: &mut H,
        task: &AsyncTaskHandle,
        d: &mut A::AsyncTaskData,
        made: A::DataModelType,
    |
        *s == *old(servlet) && *final(s) == *servlet && *h == *old(host) && *final(h) == *host
            && task.address() == handle.address() && *d == *old(task_data) && data_model_answer(
            *model,
            type_inst.address(),
            made,
        ) && #[trigger] call_ensures(A::async_cleanup, (s, h, task, d, made), result));
    (result, Ghost((*servlet, *host)))
}

/// The servlet `servlet`, asked to end the task with the data `task_data`
/// for the host's task handle at `handle`, with the host in the state
/// `host`, on accessors over `model` and the type instance at `type_inst`,
/// may answer `result` and leave itself and the host as `after` has them.
pub open spec fn task_end_step<A: AsyncServlet<H>, H: Host>(
    servlet: A,
    host: H,
    handle: usize,
    task_data: A::AsyncTaskData,
    model: A::ProtocolType,
    type_inst: usize,
    result: ServletFuncResult,
    after: (A, H),
) -> bool {
    exists|
        s: &mut A,
        h: &mut H,
        task: &AsyncTaskHandle,
        d: &mut A::AsyncTaskData,
        shared: Rc<A::ProtocolType>,
        instance: TypeInstanceObject,
        seen: Ghost<(A, H)>,
    |
        *s == servlet && *h == host && task.address() == handle && *d == task_data && *shared
            == model && instance.address() == type_inst && seen@ == after
            && #[trigger] call_ensures(
            task_end_then::<A, H>,
            (s, h, task, d, shared, instance),
            (result, seen),
        )
}

/// Makes the instance for the servlet that the bootstrap chose: the servlet
/// with a protocol model over the given type model, all fields unbound.
pub fn create_servlet_object<BT: Bootstrap<H>, H: Host>(
    bs_result: ServletMode<BT::AsyncServletType, BT::SyncServletType>,
    type_model_obj: TypeModelObject,
) -> (object: ServletObject<BT, H>)
    ensures
        object.wf(),
        object.phase() == Phase::Created,
        object.holds(bs_result),
        object.has_fresh_model_over(type_model_obj.address()),
        bs_result matches ServletMode::SyncMode(servlet) ==> object matches ServletObject::SYNC(
            sync,
        ) && sync.servlet() == servlet,
        bs_result matches ServletMode::AsyncMode(servlet) ==> object matches ServletObject::ASYNC(
            asynchronous,
        ) && asynchronous.servlet() == servlet,
{
    match bs_result {
        ServletMode::SyncMode(servlet) => {
            let protocol_model = ask_protocol_model::<
                <BT::SyncServletType as SyncServlet<H>>::ProtocolType,
            >(type_model_obj);
            ServletObject::SYNC(
                SyncServletObject {
                    protocol_model: ProtocolCell::new(protocol_model),
                    servlet_context: servlet,
                    phase: Phase::Created,
                },
            )
        },
        ServletMode::AsyncMode(servlet) => {
            let protocol_model = ask_protocol_model::<
                <BT::AsyncServletType as AsyncServlet<H>>::ProtocolType,
            >(type_model_obj);
            ServletObject::ASYNC(
                AsyncServletObject {
                    protocol_model: ProtocolCell::new(protocol_model),
                    servlet_context: servlet,
                    phase: Phase::Created,
                },
            )
        },
    }
}

/// The instances of one servlet that the host holds words for.
///
/// An entry point takes the instances out of the table while it works on
/// them and puts them back when it is done, so that the table is never seen
/// half-changed: should a servlet panic in the middle, what is left behind
/// is an empty table.
pub struct ServletTable<BT: Bootstrap<H>, H: Host> {
    instances: Arena<ServletObject<BT, H>>,
}

impl<BT: Bootstrap<H>, H: Host> ServletTable<BT, H> {
    /// The instances, by handle.
    pub closed spec fn view(&self) -> Map<Handle, ServletObject<BT, H>> {
        self.instances@
    }

    /// The invariant of the table and of every instance in it. It holds of
    /// every table that a program has in hand.
    #[verifier::type_invariant]
    pub closed spec fn wf(&self) -> bool {
        &&& self.instances.wf()
        &&& forall|h: Handle| #[trigger] self.instances@.dom().contains(h) ==> self.instances@[h].wf()
    }

    /// `h` can never again name an instance of this table.
    pub closed spec fn retired(&self, h: Handle) -> bool {
        self.instances.retired(h)
    }

    /// The table can take one more instance.
    pub closed spec fn has_room(&self) -> bool {
        self.instances.has_room()
    }

    /// The instance that the word `raw` names, if it names one.
    pub open spec fn instance(&self, raw: u64) -> Option<ServletObject<BT, H>> {
        match Handle::spec_from_raw(raw) {
            Some(h) => if self@.dom().contains(h) {
                Some(self@[h])
            } else {
                None
            },
            None => None,
        }
    }

    /// A retired handle names no instance.
    pub proof fn lemma_retired_names_nothing(&self, h: Handle)
        requires
            self.wf(),
            self.retired(h),
        ensures
            !self@.dom().contains(h),
    {
        self.instances.lemma_retired_not_live(h);
    }

    /// A table without instances.
    pub fn new() -> (table: Self)
        ensures
            table.wf(),
            table@ == Map::<Handle, ServletObject<BT, H>>::empty(),
            table.has_room(),
    {
        ServletTable { instances: Arena::new() }
    }

    /// Whether the word `raw` names an instance.
    pub fn is_live(&self, raw: u64) -> (r: bool)
        ensures
            r == self.instance(raw) is Some,
    {
        match Handle::from_raw(raw) {
            Some(h) => self.instances.contains(h),
            None => false,
        }
    }
}

/// The phase and the mode of the instance under `h`, if there is one.
fn phase_of<BT: Bootstrap<H>, H: Host>(instances: &Arena<ServletObject<BT, H>>, h: Handle) -> (r: Option<Phase>)
    ensures
        r is Some <==> instances@.dom().contains(h),
        r matches Some(phase) ==> phase == instances@[h].phase(),
{
    match instances.get(h) {
        Some(object) => Some(object.current_phase()),
        None => None,
    }
}

/// Whether the instance under `h`, if there is one, runs in the synchronous
/// mode.
fn mode_of<BT: Bootstrap<H>, H: Host>(instances: &Arena<ServletObject<BT, H>>, h: Handle) -> (r: Option<bool>)
    ensures
        r is Some <==> instances@.dom().contains(h),
        r matches Some(sync) ==> sync == instances@[h].is_sync(),
{
    match instances.get(h) {
        Some(object) => Some(object.runs_sync()),
        None => None,
    }
}

/// `after` is `before` with one more instance, named by the word `raw`,
/// which has not been set up yet. The word is not null and has never named
/// an instance of the table before.
pub open spec fn instance_was_added<BT: Bootstrap<H>, H: Host>(
    before: ServletTable<BT, H>,
    after: ServletTable<BT, H>,
    raw: u64,
) -> bool {
    &&& raw != NULL_HANDLE
    &&& Handle::spec_from_raw(raw) matches Some(h) && {
        &&& !before@.dom().contains(h)
        &&& !before.retired(h)
        &&& after@.dom().contains(h)
        &&& after@ == before@.insert(h, after@[h])
        &&& after@[h].phase() == Phase::Created
    }
}

/// `after` differs from `before` in nothing but the state of the instance
/// named by `raw`, which is still there and still in its mode.
pub open spec fn only_instance_changed<BT: Bootstrap<H>, H: Host>(
    before: ServletTable<BT, H>,
    after: ServletTable<BT, H>,
    raw: u64,
) -> bool {
    Handle::spec_from_raw(raw) matches Some(h) && {
        &&& before@.dom().contains(h)
        &&& after@.dom().contains(h)
        &&& after@ == before@.insert(h, after@[h])
        &&& after@[h].is_sync() == before@[h].is_sync()
    }
}

/// The bootstrap of `BT`, run on the arguments `args` with the host in the
/// state `before`, may come to `result`.
pub open spec fn bootstrap_answer<BT: Bootstrap<H>, H: Host>(
    before: H,
    args: Seq<&str>,
    result: BootstrapResult<BT, H>,
) -> bool {
    exists|h: &mut H, a: &[&str]|
        *h == before && a@ == args && #[trigger] call_ensures(BT::get, (h, a), result)
}

/// Runs the bootstrap of `BT` and notes the state that it leaves the host
/// in.
pub fn bootstrap_then<BT: Bootstrap<H>, H: Host>(host: &mut H, args: &[&str]) -> (r: (
    BootstrapResult<BT, H>,
    Ghost<H>,
))
    ensures
        bootstrap_answer::<BT, H>(*old(host), args@, r.0),
        r.1@ == *final(host),
        exists|h: &mut H, a: &[&str]|
            *h == *old(host) && *final(h) == *final(host) && a@ == args@ && #[trigger] call_ensures(
                BT::get,
                (h, a),
                r.0,
            ),
{
    let call = BT::get;
    let result = call(host, args);
    assert(exists|h: &mut H, a: &[&str]|
        *h == *old(host) && *final(h) == *host && a@ == args@ && #[trigger] call_ensures(
            BT::get,
            (h, a),
            result,
        ));
    (result, Ghost(*host))
}

/// The bootstrap of `BT`, run on the arguments `args` with the host in the
/// state `before`, may come to `result` and leave the host in the state
/// `after`.
pub open spec fn bootstrap_step<BT: Bootstrap<H>, H: Host>(
    before: H,
    args: Seq<&str>,
    result: BootstrapResult<BT, H>,
    after: H,
) -> bool {
    exists|h: &mut H, a: &[&str], seen: Ghost<H>|
        *h == before && a@ == args && seen@ == after && #[trigger] call_ensures(
            bootstrap_then::<BT, H>,
            (h, a),
            (result, seen),
        )
}

/// What the result of a bootstrap makes of the table. A servlet, where the
/// table has room, becomes a new instance in the mode that was chosen, with
/// a protocol model made of the type model at `type_model` and shared with
/// no one, named by the word `raw`. A failed bootstrap, and a servlet for which there is
/// no room, leave the table as it was, and `raw` is the null word.
pub open spec fn bootstrap_outcome<BT: Bootstrap<H>, H: Host>(
    before: ServletTable<BT, H>,
    after: ServletTable<BT, H>,
    result: BootstrapResult<BT, H>,
    type_model: usize,
    raw: u64,
) -> bool {
    match result {
        BootstrapResult::Success(chosen) => if before.has_room() {
            &&& instance_was_added(before, after, raw)
            &&& after.instance(raw)->0.holds(chosen)
            &&& after.instance(raw)->0.has_fresh_model_over(type_model)
        } else {
            raw == NULL_HANDLE && after@ == before@
        },
        BootstrapResult::Fail() => raw == NULL_HANDLE && after == before,
    }
}

/// Makes an instance of the servlet `BT` and returns the word that names
/// it, or the null word. The type model is looked at first, then the
/// arguments, and only then the servlet's bootstrap is run. Whatever fails,
/// the table is left as it was.
pub fn call_bootstrap_obj<BT: Bootstrap<H>, H: Host>(
    table: &mut ServletTable<BT, H>,
    host: &mut H,
    argv: &Vec<Option<Vec<u8>>>,
    type_model_ptr: usize,
) -> (raw: u64)
    ensures
        type_model_ptr == 0 || !arguments_decode(argv@) ==> raw == NULL_HANDLE && *final(table)
            == *old(table) && *final(host) == *old(host),
        type_model_ptr != 0 && arguments_decode(argv@) ==> exists|
            args: Seq<&str>,
            result: BootstrapResult<BT, H>,
        |
            arguments_are(argv@, args) && (#[trigger] bootstrap_step::<BT, H>(
                *old(host),
                args,
                result,
                *final(host),
            )) && bootstrap_outcome(*old(table), *final(table), result, type_model_ptr, raw),
        raw == NULL_HANDLE ==> final(table)@ == old(table)@,
        raw != NULL_HANDLE ==> instance_was_added(*old(table), *final(table), raw),
        !old(table).has_room() ==> raw == NULL_HANDLE,
        forall|k: Handle| old(table).retired(k) <==> final(table).retired(k),
{
    proof {
        use_type_invariant(&*table);
    }
    let mut instances = Arena::new();
    core::mem::swap(&mut table.instances, &mut instances);
    let ghost mut answer: Option<BootstrapResult<BT, H>> = None;
    let raw = match TypeModelObject::from_raw(type_model_ptr) {
        Some(type_model) => match make_argument_list(argv) {
            Some(args) => {
                let call = bootstrap_then::<BT, H>;
                let (result, seen) = call(host, args.as_slice());
                proof {
                    answer = Some(result);
                    assert(seen@ == *host);
                    assert(arguments_are(argv@, args@));
                    assert(bootstrap_step::<BT, H>(*old(host), args@, result, *host));
                }
                match result {
                    BootstrapResult::Success(servlet_mode) => {
                        let object = create_servlet_object::<BT, H>(servlet_mode, type_model);
                        match instances.insert(object) {
                            Some(h) => {
                                proof {
                                    crate::arena::lemma_raw_round_trip(h);
                                    assert(instances@ =~= old(table)@.insert(h, instances@[h]));
                                }
                                h.to_raw()
                            },
                            None => NULL_HANDLE,
                        }
                    },
                    BootstrapResult::Fail() => NULL_HANDLE,
                }
            },
            None => NULL_HANDLE,
        },
        None => NULL_HANDLE,
    };
    core::mem::swap(&mut table.instances, &mut instances);
    proof {
        if type_model_ptr != 0 && arguments_decode(argv@) {
            assert(bootstrap_outcome(*old(table), *table, answer->0, type_model_ptr, raw));
        }
    }
    raw
}

/// The setup of the instance named by `raw` is in its turn: the arguments
/// are texts, the word names an instance, and the instance has not been set
/// up yet.
pub open spec fn init_admitted<BT: Bootstrap<H>, H: Host>(
    table: ServletTable<BT, H>,
    raw: u64,
    argv: Seq<Option<Vec<u8>>>,
) -> bool {
    &&& arguments_decode(argv)
    &&& table.instance(raw) matches Some(object) && object.phase() == Phase::Created
}

/// How a setup that was in its turn ends: either the servlet did its work,
/// the instance is set up and the status is that of its mode, or the servlet
/// failed, the instance is as little set up as before and the status is
/// [`STATUS_FAILED`].
pub open spec fn init_outcome<BT: Bootstrap<H>, H: Host>(after: ServletObject<BT, H>, status: i32) -> bool {
    ||| status == after.init_status() && after.phase() == Phase::Initialized
    ||| status == STATUS_FAILED && after.phase() == Phase::Created
}

/// Sets up the instance named by `obj_ptr` with the arguments `argv`. The
/// status tells the host the mode of the instance: [`STATUS_OK`] for a
/// synchronous servlet that was set up, [`STATUS_ASYNC_OK`] for an
/// asynchronous one, [`STATUS_FAILED`] otherwise. The protocol model of the
/// instance is handed to the servlet for binding, which is in order because
/// no accessor to it exists before the first activation.
pub fn invoke_servlet_init<BT: Bootstrap<H>, H: Host>(
    table: &mut ServletTable<BT, H>,
    host: &mut H,
    obj_ptr: u64,
    argv: &Vec<Option<Vec<u8>>>,
) -> (status: i32)
    ensures
        forall|k: Handle| old(table).retired(k) <==> final(table).retired(k),
        final(table).has_room() == old(table).has_room(),
        !init_admitted(*old(table), obj_ptr, argv@) ==> status == STATUS_FAILED && *final(table)
            == *old(table) && *final(host) == *old(host),
        init_admitted(*old(table), obj_ptr, argv@) ==> {
            &&& only_instance_changed(*old(table), *final(table), obj_ptr)
            &&& init_outcome(final(table).instance(obj_ptr)->0, status)
        },
        init_admitted(*old(table), obj_ptr, argv@) ==> exists|
            args: Seq<&str>,
            result: ServletFuncResult,
        |
            {
                &&& arguments_are(argv@, args)
                &&& #[trigger] old(table).instance(obj_ptr)->0.setup_step(
                    *old(host),
                    args,
                    result,
                    final(table).instance(obj_ptr)->0,
                    *final(host),
                )
                &&& status == spec_status_of(
                    result,
                    old(table).instance(obj_ptr)->0.init_status(),
                )
                &&& final(table).instance(obj_ptr)->0.phase() == old(table).instance(
                    obj_ptr,
                )->0.phase_after_setup(result)
            },
{
    proof {
        use_type_invariant(&*table);
    }
    let mut instances = Arena::new();
    core::mem::swap(&mut table.instances, &mut instances);
    let status = match make_argument_list(argv) {
        Some(args) => match Handle::from_raw(obj_ptr) {
            Some(h) => if phase_of(&instances, h) == Some(Phase::Created) {
                let ghost before = instances@[h];
                let ghost mut answer: ServletFuncResult = Err(());
                let status = match instances.get_mut(h) {
                    Some(object) => {
                        let result = match object {
                            ServletObject::SYNC(servlet) => {
                                let mut model = servlet.protocol_model.building.take().unwrap();
                                let call = sync_setup_then::<BT::SyncServletType, H>;
                                let (result, seen) = call(
                                    &mut servlet.servlet_context,
                                    host,
                                    args.as_slice(),
                                    &mut model,
                                );
                                servlet.protocol_model.building = Some(model);
                                assert(seen@ == (servlet.servlet(), *host, servlet.model()));
                                result
                            },
                            ServletObject::ASYNC(servlet) => {
                                let mut model = servlet.protocol_model.building.take().unwrap();
                                let call = async_setup_then::<BT::AsyncServletType, H>;
                                let (result, seen) = call(
                                    &mut servlet.servlet_context,
                                    host,
                                    args.as_slice(),
                                    &mut model,
                                );
                                servlet.protocol_model.building = Some(model);
                                assert(seen@ == (servlet.servlet(), *host, servlet.model()));
                                result
                            },
                        };
                        proof {
                            answer = result;
                            assert(arguments_are(argv@, args@));
                            assert(before.setup_step(*old(host), args@, result, *object, *host));
                        }
                        let status = object.settle_init(result);
                        assert(before.setup_step(*old(host), args@, result, *object, *host));
                        status
                    },
                    None => STATUS_FAILED,
                };
                assert(before.setup_step(*old(host), args@, answer, instances@[h], *host));
                status
            } else {
                STATUS_FAILED
            },
            None => STATUS_FAILED,
        },
        None => STATUS_FAILED,
    };
    core::mem::swap(&mut table.instances, &mut instances);
    status
}

/// An activation of the synchronous instance named by `raw` is in its
/// turn: there is data to work on, the word names an instance, the instance
/// is synchronous and has been set up.
pub open spec fn exec_admitted<BT: Bootstrap<H>, H: Host>(
    table: ServletTable<BT, H>,
    raw: u64,
    type_inst: usize,
) -> bool {
    &&& type_inst != 0
    &&& table.instance(raw) matches Some(object) && object.is_sync() && object.phase()
        != Phase::Created
}

/// Activates the synchronous instance named by `obj_ptr` on the data at
/// `type_inst`. The servlet is given fresh accessors over that data, bound
/// to the protocol model of the instance.
pub fn invoke_servlet_sync_exec<BT: Bootstrap<H>, H: Host>(
    table: &mut ServletTable<BT, H>,
    host: &mut H,
    obj_ptr: u64,
    type_inst: usize,
) -> (status: i32)
    ensures
        forall|k: Handle| old(table).retired(k) <==> final(table).retired(k),
        final(table).has_room() == old(table).has_room(),
        status == STATUS_OK || status == STATUS_FAILED,
        !exec_admitted(*old(table), obj_ptr, type_inst) ==> status == STATUS_FAILED && *final(table)
            == *old(table) && *final(host) == *old(host),
        exec_admitted(*old(table), obj_ptr, type_inst) ==> {
            &&& only_instance_changed(*old(table), *final(table), obj_ptr)
            &&& final(table).instance(obj_ptr)->0.phase() == Phase::Active
            &&& final(table).instance(obj_ptr)->0.keeps_model_of(old(table).instance(obj_ptr)->0)
        },
        exec_admitted(*old(table), obj_ptr, type_inst) ==> exists|result: ServletFuncResult|
            (#[trigger] old(table).instance(obj_ptr)->0.activation_step(
                *old(host),
                type_inst,
                result,
                final(table).instance(obj_ptr)->0,
                *final(host),
            )) && status == spec_status_of(result, STATUS_OK),
{
    proof {
        use_type_invariant(&*table);
    }
    let mut instances = Arena::new();
    core::mem::swap(&mut table.instances, &mut instances);
    let status = match TypeInstanceObject::from_raw(type_inst) {
        Some(type_inst_obj) => match Handle::from_raw(obj_ptr) {
            Some(h) => if mode_of(&instances, h) == Some(true) && phase_of(&instances, h) != Some(
                Phase::Created,
            ) {
                let ghost whole = instances@[h];
                match instances.get_mut(h) {
                    Some(object) => match object {
                        ServletObject::SYNC(servlet) => {
                            let ghost before = *servlet;
                            assert(whole == ServletObject::<BT, H>::SYNC(before));
                            let model = servlet.protocol_model.share();
                            servlet.phase = Phase::Active;
                            let call = exec_then::<BT::SyncServletType, H>;
                            let (result, seen) = call(
                                &mut servlet.servlet_context,
                                host,
                                model,
                                type_inst_obj,
                            );
                            assert(seen@ == (servlet.servlet(), *host));
                            assert(ServletObject::<BT, H>::SYNC(before).activation_step(
                                *old(host),
                                type_inst,
                                result,
                                ServletObject::<BT, H>::SYNC(*servlet),
                                *host,
                            ));
                            status_of(result, STATUS_OK)
                        },
                        ServletObject::ASYNC(_) => STATUS_FAILED,
                    },
                    None => STATUS_FAILED,
                }
            } else {
                STATUS_FAILED
            },
            None => STATUS_FAILED,
        },
        None => STATUS_FAILED,
    };
    core::mem::swap(&mut table.instances, &mut instances);
    status
}

/// Takes down the instance named by `obj_ptr`: lets the servlet clean up and
/// then releases the instance, whatever the servlet said. The word names
/// nothing from then on.
pub fn invoke_servlet_cleanup<BT: Bootstrap<H>, H: Host>(
    table: &mut ServletTable<BT, H>,
    host: &mut H,
    obj_ptr: u64,
) -> (status: i32)
    ensures
        forall|k: Handle| old(table).retired(k) ==> final(table).retired(k),
        status == STATUS_OK || status == STATUS_FAILED,
        old(table).instance(obj_ptr) is None ==> status == STATUS_FAILED,
        old(table).instance(obj_ptr) is None ==> *final(table) == *old(table),
        old(table).instance(obj_ptr) is None ==> *final(host) == *old(host),
        old(table).instance(obj_ptr) is Some ==> {
            &&& final(table)@ == old(table)@.remove(Handle::spec_from_raw(obj_ptr)->0)
            &&& final(table).retired(Handle::spec_from_raw(obj_ptr)->0)
            &&& final(table).instance(obj_ptr) is None
        },
        old(table).instance(obj_ptr) is Some ==> exists|result: ServletFuncResult|
            (#[trigger] old(table).instance(obj_ptr)->0.cleanup_step(
                *old(host),
                result,
                *final(host),
            )) && status == spec_status_of(result, STATUS_OK),
{
    proof {
        use_type_invariant(&*table);
    }
    let mut instances = Arena::new();
    core::mem::swap(&mut table.instances, &mut instances);
    let released = match Handle::from_raw(obj_ptr) {
        Some(h) => instances.remove(h),
        None => None,
    };
    core::mem::swap(&mut table.instances, &mut instances);
    match released {
        Some(object) => {
            let ghost before = object;
            let result = match object {
                ServletObject::SYNC(mut servlet) => {
                    let call = sync_cleanup_then::<BT::SyncServletType, H>;
                    let (result, seen) = call(&mut servlet.servlet_context, host);
                    assert(seen@ == *host);
                    result
                },
                ServletObject::ASYNC(mut servlet) => {
                    let call = async_cleanup_then::<BT::AsyncServletType, H>;
                    let (result, seen) = call(&mut servlet.servlet_context, host);
                    assert(seen@ == *host);
                    result
                },
            };
            assert(before.cleanup_step(*old(host), result, *host));
            status_of(result, STATUS_OK)
        },
        None => STATUS_FAILED,
    }
}

/// Where a task stands between its start and its end. A task that was ended
/// is no longer there and has no phase.
#[derive(Clone, Copy, Debug, PartialEq, Eq, Structural)]
pub enum TaskPhase {
    /// Started, and its slow work not yet called for.
    Created,
    /// Its slow work has been called for.
    Executing,
}

/// One task of an asynchronous servlet: the data that the task keeps for
/// itself, owned here from the start of the task to its end, but for the
/// time of the slow work, for which it is lent out.
pub struct Task<D> {
    phase: TaskPhase,
    data: Option<D>,
}

impl<D> Task<D> {
    /// Where the task stands.
    pub closed spec fn phase(&self) -> TaskPhase {
        self.phase
    }

    /// The data of the task is out for the slow work.
    pub closed spec fn is_lent(&self) -> bool {
        self.data is None
    }

    /// The data that the task keeps for itself, while it is not lent out.
    pub closed spec fn data(&self) -> D {
        self.data->0
    }
}

/// The tasks of one servlet that the host holds words for. The tasks are
/// kept apart from the instances: the slow work of a task runs away from
/// the thread of its instance and is given nothing but the data of the
/// task, which the table lends out for that time ([`TaskTable::lend`],
/// [`slow_work`], [`TaskTable::take_back`]), so that the table itself need
/// not be held while the work is done.
pub struct TaskTable<BT: Bootstrap<H>, H: Host> {
    tasks: Arena<Task<<BT::AsyncServletType as AsyncWork>::AsyncTaskData>>,
}

impl<BT: Bootstrap<H>, H: Host> TaskTable<BT, H> {
    /// The tasks, by handle.
    pub closed spec fn view(&self) -> Map<
        Handle,
        Task<<BT::AsyncServletType as AsyncWork>::AsyncTaskData>,
    > {
        self.tasks@
    }

    /// The invariant of the table. It holds of every table that a program
    /// has in hand.
    #[verifier::type_invariant]
    pub closed spec fn wf(&self) -> bool {
        self.tasks.wf()
    }

    /// `h` can never again name a task of this table.
    pub closed spec fn retired(&self, h: Handle) -> bool {
        self.tasks.retired(h)
    }

    /// The table can take one more task.
    pub closed spec fn has_room(&self) -> bool {
        self.tasks.has_room()
    }

    /// The task that the word `raw` names, if it names one.
    pub open spec fn task(&self, raw: u64) -> Option<
        Task<<BT::AsyncServletType as AsyncWork>::AsyncTaskData>,
    > {
        match Handle::spec_from_raw(raw) {
            Some(h) => if self@.dom().contains(h) {
                Some(self@[h])
            } else {
                None
            },
            None => None,
        }
    }

    /// What is left of the table when the task named by `raw` is ended: the
    /// other tasks. A word that names no task ends none.
    pub open spec fn without(&self, raw: u64) -> Map<
        Handle,
        Task<<BT::AsyncServletType as AsyncWork>::AsyncTaskData>,
    > {
        match Handle::spec_from_raw(raw) {
            Some(h) => self@.remove(h),
            None => self@,
        }
    }

    /// A retired handle names no task.
    pub proof fn lemma_retired_names_nothing(&self, h: Handle)
        requires
            self.wf(),
            self.retired(h),
        ensures
            !self@.dom().contains(h),
    {
        self.tasks.lemma_retired_not_live(h);
    }

    /// A table without tasks.
    pub fn new() -> (table: Self)
        ensures
            table.wf(),
            table@ == Map::<
                Handle,
                Task<<BT::AsyncServletType as AsyncWork>::AsyncTaskData>,
            >::empty(),
            table.has_room(),
    {
        TaskTable { tasks: Arena::new() }
    }

    /// What the servlet's answer to the start of a task makes of the table:
    /// no data, no task; data without room for it, no task, and the data is
    /// dropped; data with room, a new task that holds exactly that data,
    /// named by the word `raw`.
    pub open spec fn start_outcome(
        before: Self,
        after: Self,
        started: Option<Box<<BT::AsyncServletType as AsyncWork>::AsyncTaskData>>,
        raw: u64,
    ) -> bool {
        match started {
            Some(data) => if before.has_room() {
                task_was_added(before, after, raw) && after.task(raw)->0.data() == *data
                    && !after.task(raw)->0.is_lent()
            } else {
                raw == NULL_HANDLE && after@ == before@
            },
            None => raw == NULL_HANDLE && after == before,
        }
    }

    /// Takes the data of a task that the servlet has started into the table
    /// and gives the word that names the task from now on, or the null word
    /// where no task was started or the table has no room.
    pub fn start(
        &mut self,
        started: Option<Box<<BT::AsyncServletType as AsyncWork>::AsyncTaskData>>,
    ) -> (raw: u64)
        ensures
            Self::start_outcome(*old(self), *final(self), started, raw),
            raw != NULL_HANDLE <==> started is Some && old(self).has_room(),
            forall|k: Handle| old(self).retired(k) <==> final(self).retired(k),
    {
        match started {
            Some(task_data) => {
                proof {
                    use_type_invariant(&*self);
                }
                let mut running = Arena::new();
                core::mem::swap(&mut self.tasks, &mut running);
                let raw = match running.insert(
                    Task { phase: TaskPhase::Created, data: Some(*task_data) },
                ) {
                    Some(th) => {
                        proof {
                            crate::arena::lemma_raw_round_trip(th);
                            assert(running@ =~= old(self)@.insert(th, running@[th]));
                        }
                        th.to_raw()
                    },
                    None => NULL_HANDLE,
                };
                core::mem::swap(&mut self.tasks, &mut running);
                raw
            },
            None => NULL_HANDLE,
        }
    }

    /// Hands out the data of the task named by `raw` for the slow work of
    /// the task, where that work is in its turn; the task is marked as
    /// worked on, and its data is out of the table until it is taken back.
    /// Where the work is not in its turn, nothing is handed out and nothing
    /// changes.
    pub fn lend(&mut self, handle_ptr: usize, raw: u64) -> (r: Option<
        <BT::AsyncServletType as AsyncWork>::AsyncTaskData,
    >)
        ensures
            forall|k: Handle| old(self).retired(k) <==> final(self).retired(k),
            final(self).has_room() == old(self).has_room(),
            r is Some <==> async_exec_admitted(*old(self), handle_ptr, raw),
            r is None ==> *final(self) == *old(self),
            r matches Some(data) ==> {
                &&& data == old(self).task(raw)->0.data()
                &&& only_task_changed(*old(self), *final(self), raw)
                &&& final(self).task(raw)->0.phase() == TaskPhase::Executing
                &&& final(self).task(raw)->0.is_lent()
            },
    {
        proof {
            use_type_invariant(&*self);
        }
        if handle_ptr == 0 {
            return None;
        }
        let mut running = Arena::new();
        core::mem::swap(&mut self.tasks, &mut running);
        let lent = match Handle::from_raw(raw) {
            Some(th) => if task_is_ready(&running, th) {
                match running.get_mut(th) {
                    Some(task) => {
                        task.phase = TaskPhase::Executing;
                        task.data.take()
                    },
                    None => None,
                }
            } else {
                None
            },
            None => None,
        };
        core::mem::swap(&mut self.tasks, &mut running);
        lent
    }

    /// Takes the data of the task named by `raw` back after the slow work.
    /// Where the word names no task whose data is out, the data is dropped
    /// and nothing changes.
    pub fn take_back(&mut self, raw: u64, data: <BT::AsyncServletType as AsyncWork>::AsyncTaskData)
        ensures
            forall|k: Handle| old(self).retired(k) <==> final(self).retired(k),
            final(self).has_room() == old(self).has_room(),
            old(self).task(raw) is Some && old(self).task(raw)->0.is_lent() ==> {
                &&& only_task_changed(*old(self), *final(self), raw)
                &&& final(self).task(raw)->0.phase() == old(self).task(raw)->0.phase()
                &&& final(self).task(raw)->0.data() == data
                &&& !final(self).task(raw)->0.is_lent()
            },
            !(old(self).task(raw) is Some && old(self).task(raw)->0.is_lent()) ==> *final(self)
                == *old(self),
    {
        proof {
            use_type_invariant(&*self);
        }
        let mut running = Arena::new();
        core::mem::swap(&mut self.tasks, &mut running);
        match Handle::from_raw(raw) {
            Some(th) => if task_is_lent(&running, th) {
                match running.get_mut(th) {
                    Some(task) => {
                        task.data = Some(data);
                    },
                    None => {},
                }
            },
            None => {},
        }
        core::mem::swap(&mut self.tasks, &mut running);
    }

    /// Whether the word `raw` names a task.
    pub fn is_live(&self, raw: u64) -> (r: bool)
        ensures
            r == self.task(raw) is Some,
    {
        match Handle::from_raw(raw) {
            Some(h) => self.tasks.contains(h),
            None => false,
        }
    }
}

/// Whether there is a task under `h` whose slow work has not been called
/// for and whose data is in the table.
fn task_is_ready<D>(tasks: &Arena<Task<D>>, h: Handle) -> (r: bool)
    ensures
        r <==> tasks@.dom().contains(h) && tasks@[h].phase() == TaskPhase::Created
            && !tasks@[h].is_lent(),
{
    match tasks.get(h) {
        Some(task) => match task.phase {
            TaskPhase::Created => task.data.is_some(),
            TaskPhase::Executing => false,
        },
        None => false,
    }
}

/// Whether there is a task under `h` whose data is out for the slow work.
fn task_is_lent<D>(tasks: &Arena<Task<D>>, h: Handle) -> (r: bool)
    ensures
        r <==> tasks@.dom().contains(h) && tasks@[h].is_lent(),
{
    match tasks.get(h) {
        Some(task) => task.data.is_none(),
        None => false,
    }
}

/// `after` is `before` with one more task, named by the word `raw`, whose
/// slow work has not been called for yet. The word is not null and has never
/// named a task of the table before.
pub open spec fn task_was_added<BT: Bootstrap<H>, H: Host>(
    before: TaskTable<BT, H>,
    after: TaskTable<BT, H>,
    raw: u64,
) -> bool {
    &&& raw != NULL_HANDLE
    &&& Handle::spec_from_raw(raw) matches Some(h) && {
        &&& !before@.dom().contains(h)
        &&& !before.retired(h)
        &&& after@.dom().contains(h)
        &&& after@ == before@.insert(h, after@[h])
        &&& after@[h].phase() == TaskPhase::Created
    }
}

/// `after` differs from `before` in nothing but the state of the task named
/// by `raw`, which is still there.
pub open spec fn only_task_changed<BT: Bootstrap<H>, H: Host>(
    before: TaskTable<BT, H>,
    after: TaskTable<BT, H>,
    raw: u64,
) -> bool {
    Handle::spec_from_raw(raw) matches Some(h) && {
        &&& before@.dom().contains(h)
        &&& after@.dom().contains(h)
        &&& after@ == before@.insert(h, after@[h])
    }
}

/// A step of a task on the asynchronous instance named by `raw` is in its
/// turn: there is data to work on, the host has named the task, the word
/// names an instance, the instance is asynchronous and has been set up.
pub open spec fn async_admitted<BT: Bootstrap<H>, H: Host>(
    table: ServletTable<BT, H>,
    raw: u64,
    handle_ptr: usize,
    type_inst: usize,
) -> bool {
    &&& type_inst != 0
    &&& handle_ptr != 0
    &&& table.instance(raw) matches Some(object) && !object.is_sync() && object.phase()
        != Phase::Created
}

/// Starts a task on the asynchronous instance named by `obj_ptr`, for the
/// host's task handle at `handle_ptr` and the data at `type_inst`. The
/// answer is the word that names the data that the task keeps for itself,
/// or the null word where no task was started. The data is owned by `tasks`
/// until the task is ended.
pub fn invoke_servlet_async_init<BT: Bootstrap<H>, H: Host>(
    table: &mut ServletTable<BT, H>,
    tasks: &mut TaskTable<BT, H>,
    host: &mut H,
    obj_ptr: u64,
    handle_ptr: usize,
    type_inst: usize,
) -> (raw: u64)
    ensures
        forall|k: Handle| old(table).retired(k) <==> final(table).retired(k),
        forall|k: Handle| old(tasks).retired(k) <==> final(tasks).retired(k),
        final(table).has_room() == old(table).has_room(),
        !async_admitted(*old(table), obj_ptr, handle_ptr, type_inst) ==> raw == NULL_HANDLE,
        !async_admitted(*old(table), obj_ptr, handle_ptr, type_inst) ==> *final(table) == *old(
            table,
        ) && *final(tasks) == *old(tasks) && *final(host) == *old(host),
        async_admitted(*old(table), obj_ptr, handle_ptr, type_inst) ==> {
            &&& only_instance_changed(*old(table), *final(table), obj_ptr)
            &&& final(table).instance(obj_ptr)->0.phase() == Phase::Active
            &&& final(table).instance(obj_ptr)->0.keeps_model_of(old(table).instance(obj_ptr)->0)
        },
        raw == NULL_HANDLE ==> final(tasks)@ == old(tasks)@,
        raw != NULL_HANDLE ==> task_was_added(*old(tasks), *final(tasks), raw),
        async_admitted(*old(table), obj_ptr, handle_ptr, type_inst) ==> exists|
            started: Option<Box<<BT::AsyncServletType as AsyncWork>::AsyncTaskData>>,
        |
            {
                &&& #[trigger] old(table).instance(obj_ptr)->0.start_step(
                    *old(host),
                    handle_ptr,
                    type_inst,
                    started,
                    final(table).instance(obj_ptr)->0,
                    *final(host),
                )
                &&& TaskTable::start_outcome(*old(tasks), *final(tasks), started, raw)
                &&& raw != NULL_HANDLE <==> started is Some && old(tasks).has_room()
            },
{
    proof {
        use_type_invariant(&*table);
        use_type_invariant(&*tasks);
    }
    let mut instances = Arena::new();
    core::mem::swap(&mut table.instances, &mut instances);
    let ghost whole = old(table).instance(obj_ptr);
    let ghost mut asked = false;
    let started = match TypeInstanceObject::from_raw(type_inst) {
        Some(type_inst_obj) => match Handle::from_raw(obj_ptr) {
            Some(h) => match AsyncTaskHandle::from_raw(handle_ptr) {
                Some(handle) => if mode_of(&instances, h) == Some(false) && phase_of(&instances, h)
                    != Some(Phase::Created) {
                    match instances.get_mut(h) {
                        Some(object) => match object {
                            ServletObject::ASYNC(servlet) => {
                                let ghost before = *servlet;
                                assert(whole == Some(ServletObject::<BT, H>::ASYNC(before)));
                                let model = servlet.protocol_model.share();
                                servlet.phase = Phase::Active;
                                let call = task_start_then::<BT::AsyncServletType, H>;
                                let (started, seen) = call(
                                    &mut servlet.servlet_context,
                                    host,
                                    &handle,
                                    model,
                                    type_inst_obj,
                                );
                                proof {
                                    asked = true;
                                    assert(seen@ == (servlet.servlet(), *host));
                                    assert(ServletObject::<BT, H>::ASYNC(before).start_step(
                                        *old(host),
                                        handle_ptr,
                                        type_inst,
                                        started,
                                        ServletObject::<BT, H>::ASYNC(*servlet),
                                        *host,
                                    ));
                                }
                                started
                            },
                            ServletObject::SYNC(_) => None,
                        },
                        None => None,
                    }
                } else {
                    None
                },
                None => None,
            },
            None => None,
        },
        None => None,
    };
    core::mem::swap(&mut table.instances, &mut instances);
    assert(asked == async_admitted(*old(table), obj_ptr, handle_ptr, type_inst));
    assert(asked ==> whole->0.start_step(
        *old(host),
        handle_ptr,
        type_inst,
        started,
        table.instance(obj_ptr)->0,
        *host,
    ));
    tasks.start(started)
}

/// The data of a task that has left the table, if the task was there and its
/// data was not out for the slow work.
fn task_data_of<D>(ended: Option<Task<D>>) -> (r: Option<D>)
    ensures
        r is Some <==> ended is Some && !ended->0.is_lent(),
        r matches Some(data) ==> data == ended->0.data(),
{
    match ended {
        Some(task) => task.data,
        None => None,
    }
}

/// The slow work of the task named by `raw` is in its turn: the host has
/// named the task, the word names a task, and the work of that task has not
/// been called for before.
pub open spec fn async_exec_admitted<BT: Bootstrap<H>, H: Host>(
    tasks: TaskTable<BT, H>,
    handle_ptr: usize,
    raw: u64,
) -> bool {
    &&& handle_ptr != 0
    &&& tasks.task(raw) matches Some(task) && task.phase() == TaskPhase::Created
        && !task.is_lent()
}

/// Does the slow work of a task on the task's data, for the host's task
/// handle at `handle_ptr`. The servlet is given the handle and the data, and
/// nothing of the instance, the pipes or the host. Without a handle the
/// work is not done.
pub fn slow_work<A: AsyncWork>(handle_ptr: usize, data: &mut A::AsyncTaskData) -> (status: i32)
    ensures
        status == STATUS_OK || status == STATUS_FAILED,
        handle_ptr == 0 ==> status == STATUS_FAILED && *final(data) == *old(data),
        handle_ptr != 0 ==> exists|result: ServletFuncResult|
            (#[trigger] slow_work_step::<A>(handle_ptr, *old(data), result, *final(data)))
                && status == spec_status_of(result, STATUS_OK),
{
    match AsyncTaskHandle::from_raw(handle_ptr) {
        Some(handle) => {
            let call = slow_work_then::<A>;
            let (result, seen) = call(&handle, data);
            assert(seen@ == *data);
            assert(slow_work_step::<A>(handle_ptr, *old(data), result, *data));
            status_of(result, STATUS_OK)
        },
        None => STATUS_FAILED,
    }
}

/// Does the slow work of the task named by `task_data_ptr`. The servlet is
/// given the host's task handle and the data of the task, and nothing of
/// the instance, the pipes or the host.
pub fn invoke_servlet_async_exec<BT: Bootstrap<H>, H: Host>(
    tasks: &mut TaskTable<BT, H>,
    handle_ptr: usize,
    task_data_ptr: u64,
) -> (status: i32)
    ensures
        forall|k: Handle| old(tasks).retired(k) <==> final(tasks).retired(k),
        final(tasks).has_room() == old(tasks).has_room(),
        status == STATUS_OK || status == STATUS_FAILED,
        !async_exec_admitted(*old(tasks), handle_ptr, task_data_ptr) ==> status == STATUS_FAILED
            && *final(tasks) == *old(tasks),
        async_exec_admitted(*old(tasks), handle_ptr, task_data_ptr) ==> {
            &&& only_task_changed(*old(tasks), *final(tasks), task_data_ptr)
            &&& final(tasks).task(task_data_ptr)->0.phase() == TaskPhase::Executing
        },
        async_exec_admitted(*old(tasks), handle_ptr, task_data_ptr) ==> exists|
            result: ServletFuncResult,
        |
            (#[trigger] slow_work_step::<BT::AsyncServletType>(
                handle_ptr,
                old(tasks).task(task_data_ptr)->0.data(),
                result,
                final(tasks).task(task_data_ptr)->0.data(),
            )) && status == spec_status_of(result, STATUS_OK),
        async_exec_admitted(*old(tasks), handle_ptr, task_data_ptr) ==> !final(tasks).task(
            task_data_ptr,
        )->0.is_lent(),
{
    match tasks.lend(handle_ptr, task_data_ptr) {
        Some(mut data) => {
            let status = slow_work::<BT::AsyncServletType>(handle_ptr, &mut data);
            tasks.take_back(task_data_ptr, data);
            proof {
                let h = Handle::spec_from_raw(task_data_ptr)->0;
                assert(tasks@ =~= old(tasks)@.insert(h, tasks@[h]));
            }
            status
        },
        None => STATUS_FAILED,
    }
}

/// The end of the task named by `task` on the asynchronous instance named
/// by `raw` is in its turn: there is data to work on, the host has named the
/// task, the word `raw` names an asynchronous instance on which tasks have
/// been started, and the word `task` names a task whose data is not out for
/// the slow work.
pub open spec fn async_cleanup_admitted<BT: Bootstrap<H>, H: Host>(
    table: ServletTable<BT, H>,
    tasks: TaskTable<BT, H>,
    raw: u64,
    handle_ptr: usize,
    task: u64,
    type_inst: usize,
) -> bool {
    &&& type_inst != 0
    &&& handle_ptr != 0
    &&& table.instance(raw) matches Some(object) && !object.is_sync() && object.phase()
        == Phase::Active
    &&& tasks.task(task) matches Some(named) && !named.is_lent()
}

/// Ends the task named by `task_data_ptr` on the asynchronous instance named
/// by `obj_ptr`. The data of the task leaves `tasks` and is released in
/// every case: where the servlet did its work, where it failed, and where
/// the call was refused and the servlet never ran.
pub fn invoke_servlet_async_cleanup<BT: Bootstrap<H>, H: Host>(
    table: &mut ServletTable<BT, H>,
    tasks: &mut TaskTable<BT, H>,
    host: &mut H,
    obj_ptr: u64,
    handle_ptr: usize,
    task_data_ptr: u64,
    type_inst: usize,
) -> (status: i32)
    ensures
        forall|k: Handle| old(table).retired(k) <==> final(table).retired(k),
        forall|k: Handle| old(tasks).retired(k) ==> final(tasks).retired(k),
        final(table).has_room() == old(table).has_room(),
        status == STATUS_OK || status == STATUS_FAILED,
        final(tasks)@ == old(tasks).without(task_data_ptr),
        final(tasks).task(task_data_ptr) is None,
        old(tasks).task(task_data_ptr) is Some ==> final(tasks).retired(
            Handle::spec_from_raw(task_data_ptr)->0,
        ),
        old(tasks).task(task_data_ptr) is None ==> *final(tasks) == *old(tasks),
        !async_cleanup_admitted(
            *old(table),
            *old(tasks),
            obj_ptr,
            handle_ptr,
            task_data_ptr,
            type_inst,
        ) ==> status == STATUS_FAILED && *final(table) == *old(table) && *final(host) == *old(host),
        async_cleanup_admitted(
            *old(table),
            *old(tasks),
            obj_ptr,
            handle_ptr,
            task_data_ptr,
            type_inst,
        ) ==> {
            &&& only_instance_changed(*old(table), *final(table), obj_ptr)
            &&& final(table).instance(obj_ptr)->0.phase() == Phase::Active
            &&& final(table).instance(obj_ptr)->0.keeps_model_of(old(table).instance(obj_ptr)->0)
        },
        async_cleanup_admitted(
            *old(table),
            *old(tasks),
            obj_ptr,
            handle_ptr,
            task_data_ptr,
            type_inst,
        ) ==> exists|result: ServletFuncResult|
            (#[trigger] old(table).instance(obj_ptr)->0.end_step(
                *old(host),
                handle_ptr,
                old(tasks).task(task_data_ptr)->0.data(),
                type_inst,
                result,
                final(table).instance(obj_ptr)->0,
                *final(host),
            )) && status == spec_status_of(result, STATUS_OK),
{
    proof {
        use_type_invariant(&*table);
        use_type_invariant(&*tasks);
    }
    let ghost whole = old(table).instance(obj_ptr);
    let mut running = Arena::new();
    core::mem::swap(&mut tasks.tasks, &mut running);
    let ended = match Handle::from_raw(task_data_ptr) {
        Some(th) => running.remove(th),
        None => None,
    };
    core::mem::swap(&mut tasks.tasks, &mut running);
    let mut instances = Arena::new();
    core::mem::swap(&mut table.instances, &mut instances);
    let status = match TypeInstanceObject::from_raw(type_inst) {
        Some(type_inst_obj) => match Handle::from_raw(obj_ptr) {
            Some(h) => match AsyncTaskHandle::from_raw(handle_ptr) {
                Some(handle) => match task_data_of(ended) {
                    Some(mut task_data) => if mode_of(&instances, h) == Some(false) && phase_of(
                        &instances,
                        h,
                    ) == Some(Phase::Active) {
                        match instances.get_mut(h) {
                            Some(object) => match object {
                                ServletObject::ASYNC(servlet) => {
                                    let ghost before = *servlet;
                                    assert(whole == Some(ServletObject::<BT, H>::ASYNC(before)));
                                    let ghost kept = task_data;
                                    assert(old(tasks).task(task_data_ptr)->0.data() == kept);
                                    let model = servlet.protocol_model.share();
                                    let call = task_end_then::<BT::AsyncServletType, H>;
                                    let (result, seen) = call(
                                        &mut servlet.servlet_context,
                                        host,
                                        &handle,
                                        &mut task_data,
                                        model,
                                        type_inst_obj,
                                    );
                                    assert(seen@ == (servlet.servlet(), *host));
                                    assert(ServletObject::<BT, H>::ASYNC(before).end_step(
                                        *old(host),
                                        handle_ptr,
                                        kept,
                                        type_inst,
                                        result,
                                        ServletObject::<BT, H>::ASYNC(*servlet),
                                        *host,
                                    ));
                                    status_of(result, STATUS_OK)
                                },
                                ServletObject::SYNC(_) => STATUS_FAILED,
                            },
                            None => STATUS_FAILED,
                        }
                    } else {
                        STATUS_FAILED
                    },
                    None => STATUS_FAILED,
                },
                None => STATUS_FAILED,
            },
            None => STATUS_FAILED,
        },
        None => STATUS_FAILED,
    };
    core::mem::swap(&mut table.instances, &mut instances);
    status
}

/// The mode of an instance decides which calls reach its servlet. On a
/// synchronous instance no step of a task is in its turn, whatever the other
/// arguments are; on an asynchronous instance no synchronous activation is.
/// A call that is not in its turn ends in [`STATUS_FAILED`], or the null
/// word, with the tables and the host untouched.
pub proof fn lemma_mode_decides_dispatch<BT: Bootstrap<H>, H: Host>(
    table: ServletTable<BT, H>,
    tasks: TaskTable<BT, H>,
    raw: u64,
    handle_ptr: usize,
    task: u64,
    type_inst: usize,
)
    requires
        table.instance(raw) is Some,
    ensures
        table.instance(raw)->0.is_sync() ==> !async_admitted(table, raw, handle_ptr, type_inst)
            && !async_cleanup_admitted(table, tasks, raw, handle_ptr, task, type_inst),
        !table.instance(raw)->0.is_sync() ==> !exec_admitted(table, raw, type_inst),
{
}

/// The placeholder fails its setup, in either mode, and leaves the host and
/// the protocol model as they were.
pub proof fn lemma_placeholder_fails_setup<H: Host>(
    host: H,
    args: Seq<&str>,
    result: ServletFuncResult,
    after: (Unimplemented, H, ()),
)
    requires
        sync_setup_step::<Unimplemented, H>(Unimplemented {  }, host, args, (), result, after)
            || async_setup_step::<Unimplemented, H>(
            Unimplemented {  },
            host,
            args,
            (),
            result,
            after,
        ),
    ensures
        result is Err,
        after.1 == host,
{
}

/// The placeholder fails every activation and leaves the host as it was, so
/// the status of [`invoke_servlet_sync_exec`] on it is [`STATUS_FAILED`].
pub proof fn lemma_placeholder_fails_activation<H: Host>(
    host: H,
    type_inst: usize,
    result: ServletFuncResult,
    after: (Unimplemented, H),
)
    requires
        exec_step::<Unimplemented, H>(Unimplemented {  }, host, (), type_inst, result, after),
    ensures
        result is Err,
        spec_status_of(result, STATUS_OK) == STATUS_FAILED,
        after.1 == host,
{
}

/// The placeholder starts no task and leaves the host as it was, so the word
/// of [`invoke_servlet_async_init`] on it is the null word.
pub proof fn lemma_placeholder_starts_no_task<H: Host>(
    host: H,
    handle: usize,
    type_inst: usize,
    started: Option<Box<()>>,
    after: (Unimplemented, H),
)
    requires
        task_start_step::<Unimplemented, H>(
            Unimplemented {  },
            host,
            handle,
            (),
            type_inst,
            started,
            after,
        ),
    ensures
        started is None,
        after.1 == host,
{
}

/// Where the asynchronous side of a servlet is the placeholder, the slow
/// work of a task fails whatever it is handed: every answer that the
/// placeholder may give is a failure, so the status of
/// [`invoke_servlet_async_exec`] is [`STATUS_FAILED`] also where the call is
/// in its turn.
pub proof fn lemma_placeholder_fails_slow_work(handle: usize, data: (), result: ServletFuncResult)
    requires
        slow_work_answer::<Unimplemented>(handle, data, result) || exists|after: ()|
            slow_work_step::<Unimplemented>(handle, data, result, after),
    ensures
        result is Err,
        spec_status_of(result, STATUS_OK) == STATUS_FAILED,
{
}

/// The placeholder fails the end of a task and leaves the host as it was.
pub proof fn lemma_placeholder_fails_task_end<H: Host>(
    host: H,
    handle: usize,
    type_inst: usize,
    result: ServletFuncResult,
    after: (Unimplemented, H),
)
    requires
        task_end_step::<Unimplemented, H>(
            Unimplemented {  },
            host,
            handle,
            (),
            (),
            type_inst,
            result,
            after,
        ),
    ensures
        result is Err,
        after.1 == host,
{
}

/// The placeholder fails its cleanup, in either mode, and leaves the host as
/// it was.
pub proof fn lemma_placeholder_fails_cleanup<H: Host>(host: H, result: ServletFuncResult, after: H)
    requires
        sync_cleanup_step::<Unimplemented, H>(Unimplemented {  }, host, result, after)
            || async_cleanup_step::<Unimplemented, H>(Unimplemented {  }, host, result, after),
    ensures
        result is Err,
        after == host,
{
}

/// An instance is released once. After its cleanup the word that named it
/// is retired, and for a retired word no call is in its turn: a second
/// cleanup finds no instance, and neither does any other entry point.
pub proof fn lemma_released_instance_admits_nothing<BT: Bootstrap<H>, H: Host>(
    table: ServletTable<BT, H>,
    tasks: TaskTable<BT, H>,
    raw: u64,
    argv: Seq<Option<Vec<u8>>>,
    handle_ptr: usize,
    task: u64,
    type_inst: usize,
)
    requires
        table.wf(),
        Handle::spec_from_raw(raw) matches Some(h) && table.retired(h),
    ensures
        table.instance(raw) is None,
        !init_admitted(table, raw, argv),
        !exec_admitted(table, raw, type_inst),
        !async_admitted(table, raw, handle_ptr, type_inst),
        !async_cleanup_admitted(table, tasks, raw, handle_ptr, task, type_inst),
{
    table.lemma_retired_names_nothing(Handle::spec_from_raw(raw)->0);
}

/// The data of a task is disposed of once. After the end of the task the
/// word that named it is retired, and a retired word names no task: neither
/// the slow work nor a second end finds anything to work on.
pub proof fn lemma_ended_task_admits_nothing<BT: Bootstrap<H>, H: Host>(
    table: ServletTable<BT, H>,
    tasks: TaskTable<BT, H>,
    raw: u64,
    handle_ptr: usize,
    task: u64,
    type_inst: usize,
)
    requires
        tasks.wf(),
        Handle::spec_from_raw(task) matches Some(h) && tasks.retired(h),
    ensures
        tasks.task(task) is None,
        !async_exec_admitted(tasks, handle_ptr, task),
        !async_cleanup_admitted(table, tasks, raw, handle_ptr, task, type_inst),
        tasks.without(task) == tasks@,
{
    tasks.lemma_retired_names_nothing(Handle::spec_from_raw(task)->0);
    assert(tasks@.remove(Handle::spec_from_raw(task)->0) =~= tasks@);
}

} // verus!
