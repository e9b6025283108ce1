//! What a servlet is.
//!
//! A servlet is made in two phases. Its [`Bootstrap`] type chooses, once and
//! before any state of execution exists, whether the instance runs as a
//! [`SyncServlet`] or as an [`AsyncServlet`]; from then on the instance is
//! set up once, activated any number of times, and cleaned up once.
//!
//! A synchronous servlet does all the work of an activation in `exec`, on
//! the thread that the host activates it on. An asynchronous servlet splits
//! an activation in three: `async_init` and `async_cleanup` run on that
//! thread and see the pipes and the typed data; `async_exec` runs on a
//! thread of its own and sees nothing but the task's handle and the task's
//! private data, so that it cannot race with anything. That step stands in
//! a trait of its own, [`AsyncWork`], because it is the same whatever the
//! host is.
//!
//! The servlet traits take the type of the host as their parameter. What a
//! servlet's functions state of themselves can then be followed through
//! the entry points that call them: see the laws on the placeholder in
//! `rust_servlet` and on the line counter in `example`.

use vstd::prelude::*;
use crate::host::Host;
use crate::protocol::{DataModel, ProtocolModel};

mod async_placeholder;
mod sync_placeholder;

verus! {

/// The result of a servlet's function.
pub type ServletFuncResult = Result<(), ()>;

/// The result of a function that did its work.
pub fn success() -> (r: ServletFuncResult)
    ensures
        r == Ok::<(), ()>(()),
{
    Ok(())
}

/// The result of a function that failed.
pub fn fail() -> (r: ServletFuncResult)
    ensures
        r == Err::<(), ()>(()),
{
    Err(())
}

/// The host's name for one asynchronous task. Nothing in it is read on this
/// side.
pub struct AsyncTaskHandle {
    /// The address of the host's object, never zero.
    raw: usize,
}

impl AsyncTaskHandle {
    /// The address of the host's object.
    pub closed spec fn address(&self) -> usize {
        self.raw
    }

    /// The task handle at the address `raw`; none at the null address.
    pub fn from_raw(raw: usize) -> (r: Option<AsyncTaskHandle>)
        ensures
            r is Some <==> raw != 0,
            r matches Some(handle) ==> handle.address() == raw,
    {
        if raw != 0 {
            Some(AsyncTaskHandle { raw })
        } else {
            None
        }
    }
}

/// The servlet to name for the mode that a servlet does not support. Every
/// function of it fails, so that a dispatch that should not have happened
/// ends in an error and in nothing worse.
pub struct Unimplemented {}

/// A servlet that holds the host's thread while it works.
pub trait SyncServlet<H: Host> {
    /// The fields of the schema that the servlet reads.
    type ProtocolType: ProtocolModel;

    /// The accessors to those fields for one activation.
    type DataModelType: DataModel<Self::ProtocolType>;

    /// Sets the servlet up. The host calls for this once, before the
    /// application starts. The pipes are defined and the fields bound here.
    fn init(
        &mut self,
        host: &mut H,
        args: &[&str],
        proto_model: &mut Self::ProtocolType,
    ) -> ServletFuncResult;

    /// Does the work of one activation.
    fn exec(&mut self, host: &mut H, data_model: Self::DataModelType) -> ServletFuncResult;

    /// Takes the servlet down. The host calls for this once, when the
    /// application ends.
    fn cleanup(&mut self, host: &mut H) -> ServletFuncResult;
}

/// The slow work of an asynchronous servlet. It runs on a thread of its own
/// and is handed neither the servlet nor the host, so it is the same for
/// every host.
pub trait AsyncWork {
    /// What one task keeps for itself from `async_init` to `async_cleanup`:
    /// all that `async_exec` may use, shared with no one.
    type AsyncTaskData: Sized;

    /// Does the slow work of a task, away from the servlet and the host. The
    /// outcome goes into the task's data for `async_cleanup` to pick up.
    fn async_exec(handle: &AsyncTaskHandle, task_data: &mut Self::AsyncTaskData) -> ServletFuncResult;
}

/// A servlet that gives the host's thread back while it works.
pub trait AsyncServlet<H: Host>: AsyncWork {
    /// The fields of the schema that the servlet reads.
    type ProtocolType: ProtocolModel;

    /// The accessors to those fields for one step of one task.
    type DataModelType: DataModel<Self::ProtocolType>;

    /// Sets the servlet up. The host calls for this once, before the
    /// application starts. The pipes are defined and the fields bound here.
    fn init(
        &mut self,
        host: &mut H,
        args: &[&str],
        proto_model: &mut Self::ProtocolType,
    ) -> ServletFuncResult;

    /// Starts a task: makes the data that the task keeps for itself. `None`
    /// says that the task could not be started.
    fn async_init(
        &mut self,
        host: &mut H,
        handle: &AsyncTaskHandle,
        data_model: Self::DataModelType,
    ) -> Option<Box<Self::AsyncTaskData>>;

    /// Ends a task: writes what `async_exec` left in the task's data to the
    /// pipes.
    fn async_cleanup(
        &mut self,
        host: &mut H,
        handle: &AsyncTaskHandle,
        task_data: &mut Self::AsyncTaskData,
        data_model: Self::DataModelType,
    ) -> ServletFuncResult;

    /// Takes the servlet down. The host calls for this once, when the
    /// application ends.
    fn cleanup(&mut self, host: &mut H) -> ServletFuncResult;
}

/// The servlet of an instance, in the mode that was chosen for the instance.
pub enum ServletMode<AsyncType, SyncType> {
    /// The instance runs synchronously.
    SyncMode(SyncType),
    /// The instance runs asynchronously.
    AsyncMode(AsyncType),
}

/// What a bootstrap came to.
pub enum BootstrapResult<BT: Bootstrap<H>, H: Host> {
    /// The servlet of the new instance.
    Success(ServletMode<BT::AsyncServletType, BT::SyncServletType>),
    /// No instance can be made.
    Fail(),
}

/// The type that stands for a servlet towards the loader: it names the
/// servlet's two implementations and makes the servlet of each instance.
pub trait Bootstrap<H: Host>: Sized {
    /// The asynchronous implementation; [`Unimplemented`] where there is
    /// none.
    type AsyncServletType: AsyncServlet<H>;

    /// The synchronous implementation; [`Unimplemented`] where there is
    /// none.
    type SyncServletType: SyncServlet<H>;

    /// Makes the servlet of a new instance from the instance's arguments,
    /// and with it chooses the mode of the instance.
    fn get(host: &mut H, args: &[&str]) -> BootstrapResult<Self, H>;

    /// The result of a bootstrap that chose the asynchronous mode.
    fn make_async(servlet: Self::AsyncServletType) -> (r: BootstrapResult<Self, H>)
        ensures
            r == BootstrapResult::<Self, H>::Success(ServletMode::AsyncMode(servlet)),
    {
        BootstrapResult::Success(ServletMode::AsyncMode(servlet))
    }

    /// The result of a bootstrap that chose the synchronous mode.
    fn make_sync(servlet: Self::SyncServletType) -> (r: BootstrapResult<Self, H>)
        ensures
            r == BootstrapResult::<Self, H>::Success(ServletMode::SyncMode(servlet)),
    {
        BootstrapResult::Success(ServletMode::SyncMode(servlet))
    }

    /// The result of a bootstrap that failed.
    fn fail() -> (r: BootstrapResult<Self, H>)
        ensures
            r == BootstrapResult::<Self, H>::Fail(),
    {
        BootstrapResult::Fail()
    }
}

} // verus!
