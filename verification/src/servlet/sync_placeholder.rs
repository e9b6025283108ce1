//! The placeholder as a synchronous servlet.

use vstd::prelude::*;
use crate::host::Host;
use crate::protocol::Untyped;
use crate::servlet::{ServletFuncResult, SyncServlet, Unimplemented};

verus! {

impl<H: Host> SyncServlet<H> for Unimplemented {
    type ProtocolType = Untyped;

    type DataModelType = Untyped;

    fn init(&mut self, host: &mut H, args: &[&str], proto_model: &mut Untyped) -> (r: ServletFuncResult)
        ensures
            r is Err,
            *final(self) == *old(self),
            *final(host) == *old(host),
    {
        Err(())
    }

    fn exec(&mut self, host: &mut H, data_model: Untyped) -> (r: ServletFuncResult)
        ensures
            r is Err,
            *final(self) == *old(self),
            *final(host) == *old(host),
    {
        Err(())
    }

    fn cleanup(&mut self, host: &mut H) -> (r: ServletFuncResult)
        ensures
            r is Err,
            *final(self) == *old(self),
            *final(host) == *old(host),
    {
        Err(())
    }
}

} // verus!
