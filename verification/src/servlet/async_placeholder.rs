//! The placeholder as an asynchronous servlet.

use vstd::prelude::*;
use crate::host::Host;
use crate::protocol::Untyped;
use crate::servlet::{AsyncServlet, AsyncTaskHandle, AsyncWork, ServletFuncResult, Unimplemented};

verus! {

impl AsyncWork for Unimplemented {
    type AsyncTaskData = ();

    fn async_exec(handle: &AsyncTaskHandle, task_data: &mut ()) -> (r: ServletFuncResult)
        ensures
            r is Err,
            *final(task_data) == *old(task_data),
    {
        Err(())
    }
}

impl<H: Host> AsyncServlet<H> for Unimplemented {
    type ProtocolType = Untyped;

    type DataModelType = Untyped;

    fn init(&mut self, host: &mut H, args: &[&str], proto_model: &mut Untyped) -> (r: ServletFuncResult)
        ensures
            r is Err,
            *final(self) == *old(self),
            *final(host) == *old(host),
    {
        Err(())
    }

    fn async_init(
        &mut self,
        host: &mut H,
        handle: &AsyncTaskHandle,
        data_model: Untyped,
    ) -> (r: Option<Box<()>>)
        ensures
            r is None,
            *final(self) == *old(self),
            *final(host) == *old(host),
    {
        None
    }

    fn async_cleanup(
        &mut self,
        host: &mut H,
        handle: &AsyncTaskHandle,
        task_data: &mut (),
        data_model: Untyped,
    ) -> (r: ServletFuncResult)
        ensures
            r is Err,
            *final(self) == *old(self),
            *final(host) == *old(host),
    {
        Err(())
    }

    fn cleanup(&mut self, host: &mut H) -> (r: ServletFuncResult)
        ensures
            r is Err,
            *final(self) == *old(self),
            *final(host) == *old(host),
    {
        Err(())
    }
}

} // verus!
