//! The process-wide application object and its event loop.
use vstd::prelude::*;
use crate::native::{Call, NativeCall};

verus! {

/// The native application object, owned by exactly one engine handle.
///
/// It exists from [`ApplicationHost::create`] until [`ApplicationHost::destroy`];
/// each method gives the native call that carries it out.
pub struct ApplicationHost {
    live: bool,
}

impl ApplicationHost {
    /// Whether the application object exists.
    pub closed spec fn is_live(&self) -> bool {
        self.live
    }

    /// Creates the application object.
    pub fn create() -> (r: (ApplicationHost, NativeCall))
        ensures
            r.0.is_live(),
            r.1@ == Call::AppCreate,
    {
        (ApplicationHost { live: true }, NativeCall::AppCreate)
    }

    /// Enters the event loop, which returns once it is asked to stop.
    pub fn run_loop(&self) -> (r: NativeCall)
        requires
            self.is_live(),
        ensures
            r@ == Call::AppExec,
    {
        NativeCall::AppExec
    }

    /// Asks a running event loop to return; with none running it does nothing.
    pub fn request_stop(&self) -> (r: NativeCall)
        requires
            self.is_live(),
        ensures
            r@ == Call::AppQuit,
    {
        NativeCall::AppQuit
    }

    /// Releases the application object; nothing may be asked of it after.
    pub fn destroy(&mut self) -> (r: NativeCall)
        requires
            old(self).is_live(),
        ensures
            !final(self).is_live(),
            r@ == Call::AppDelete,
    {
        self.live = false;
        NativeCall::AppDelete
    }
}

} // verus!
