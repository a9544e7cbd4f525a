use vstd::prelude::*;

use crate::status::{wrap_status, Status};
use crate::user_data::UserData;

verus! {

/// Root internal object: the connection to the bus from which every domain
/// facade is derived. The bus transport behind it is an external
/// collaborator; what the boundary keeps of it is the administrative
/// verbose-diagnostics toggle, carried here in place of a process-global
/// logger, which verified code cannot hold.
pub struct Handler {
    pub verbose: bool,
}

impl Handler {
    /// Construct-from-config: diagnostics start quiet.
    pub fn new() -> (r: Handler)
        ensures
            r.verbose == false,
    {
        Handler { verbose: false }
    }
}

/// Opaque root handle: owns one heap-boxed handler behind a single
/// pointer-sized value, plus the caller's context word. Valid strictly
/// between construction and the one `destroy` call; that it is not used
/// after `destroy` is enforced by ownership rather than left as a caller
/// obligation.
pub struct CProtocolHandler {
    pub handler: Box<Handler>,
    pub user_data: UserData,
}

impl CProtocolHandler {
    /// Wrap a handler and the caller's context word into a root handle. The
    /// word is taken by value and never interpreted.
    pub fn new(handler: Box<Handler>, user_data: u64) -> (r: Self)
        ensures
            r.handler == handler,
            r.user_data.0 == user_data,
    {
        CProtocolHandler { handler, user_data: UserData(user_data) }
    }

    /// Borrow the wrapped handler for the duration of one call.
    pub fn extract(&self) -> (r: &Handler)
        ensures
            *r == *self.handler,
    {
        &*self.handler
    }

    /// Borrow the context carrier.
    pub fn user_data(&self) -> (r: &UserData)
        ensures
            r.0 == self.user_data.0,
    {
        &self.user_data
    }

    /// Destructor engine for the root handle: reclaim and drop the boxed
    /// handler exactly once. Destruction cannot fail.
    pub fn destroy(self) {
    }
}

/// Administrative entry point: switch verbose diagnostics on. Always
/// succeeds and changes nothing else about the handle.
pub fn enable_debug_logs(handle: &mut CProtocolHandler) -> (s: Status)
    ensures
        s == Status::Success,
        final(handle).handler.verbose == true,
        final(handle).user_data.0 == old(handle).user_data.0,
{
    handle.handler = Box::new(Handler { verbose: true });
    wrap_status(Ok(()))
}

} // verus!
