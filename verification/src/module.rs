//! The callback surface a module author implements.

use crate::api::preserves_window;
use crate::api::ZygiskApi;
use vstd::prelude::*;

verus! {

/// Java-side specialization arguments for an application process.  This
/// layer treats them as an opaque bundle passed through to the callbacks;
/// their marshaling is outside its scope.
pub struct AppSpecializeArgs;

/// Java-side specialization arguments for the system-server process;
/// opaque to this layer, as [`AppSpecializeArgs`] is.
pub struct ServerSpecializeArgs;

/// The five lifecycle hooks of a module.
///
/// The bridge invokes each hook with a capability handle scoped to that one
/// invocation; the handle records what the host observes during the call.
/// Every hook has a default empty body, so an author implements only the
/// windows they care about.  Each hook promises to leave the handle's
/// window alone: a callback uses the table the bridge scoped for it and
/// never rewires the handle onto another table or phase.
pub trait ZygiskModule {
    /// Called once, right after the host has accepted the module's
    /// registration.  Never called when registration is refused.
    fn on_load(&self, _api: &mut ZygiskApi)
        ensures
            preserves_window(*old(_api), *final(_api)),
    {
    }

    /// Called before an application process is specialized.
    fn pre_app_specialize(&self, _api: &mut ZygiskApi, _args: &mut AppSpecializeArgs)
        ensures
            preserves_window(*old(_api), *final(_api)),
    {
    }

    /// Called after an application process has been specialized.  The
    /// handle passed here is the last one this process ever sees.
    fn post_app_specialize(&self, _api: &mut ZygiskApi, _args: &AppSpecializeArgs)
        ensures
            preserves_window(*old(_api), *final(_api)),
    {
    }

    /// Called before the system-server process is specialized.
    fn pre_server_specialize(&self, _api: &mut ZygiskApi, _args: &mut ServerSpecializeArgs)
        ensures
            preserves_window(*old(_api), *final(_api)),
    {
    }

    /// Called after the system-server process has been specialized.
    fn post_server_specialize(&self, _api: &mut ZygiskApi, _args: &ServerSpecializeArgs)
        ensures
            preserves_window(*old(_api), *final(_api)),
    {
    }
}

} // verus!
