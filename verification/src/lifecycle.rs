//! The entry/registration bridge: the per-process state machine that gates
//! the module's callbacks, and the module-entry protocol itself.

use crate::api::LifecyclePhase;
use crate::api::ZygiskApi;
use crate::binding::RawApiTable;
use crate::module::AppSpecializeArgs;
use crate::module::ServerSpecializeArgs;
use crate::module::ZygiskModule;
use vstd::prelude::*;

verus! {

/// Where one worker process stands in the bridge's lifecycle.
#[derive(Clone, Copy, PartialEq, Eq, Structural, Debug)]
pub enum BridgeState {
    /// The module entry has not run; no callback table is registered.
    Unregistered,
    /// The entry is running the registration handshake with the host.
    Registering,
    /// The host accepted registration and the load callback has run.
    Loaded,
    /// A pre-specialize callback is pending or running.
    PreSpecializing,
    /// Specialization is complete; the capability table is invalid.
    Specialized,
}

/// What the host does next to drive the bridge.
#[derive(Clone, Copy, PartialEq, Eq, Structural, Debug)]
pub enum BridgeEvent {
    /// The host called the native module-entry symbol.
    EntryInvoked,
    /// The host accepted the registered callback table.
    RegistrationAccepted,
    /// The host refused the registered callback table.
    RegistrationRejected,
    /// The host is about to specialize and calls the pre hook.
    PreSpecialize,
    /// Specialization finished and the host calls the post hook.
    PostSpecialize,
}

/// What the bridge does in answer to an event.
#[derive(Clone, Copy, PartialEq, Eq, Structural, Debug)]
pub enum BridgeAction {
    /// Nothing to dispatch.
    Idle,
    /// Invoke the author's load callback with a fresh handle.
    InvokeOnLoad,
    /// Invoke the matching specialize callback with a fresh handle.
    InvokeCallback,
    /// The host drove the protocol out of order; terminate the process
    /// rather than continue in an unknown state.
    Abort,
}

/// The bridge's transition relation: next state and dispatched action for
/// each state and host event.  Any event outside the protocol order keeps
/// the state and demands termination.
pub open spec fn spec_bridge_step(s: BridgeState, e: BridgeEvent) -> (BridgeState, BridgeAction) {
    match (s, e) {
        (BridgeState::Unregistered, BridgeEvent::EntryInvoked) => (
            BridgeState::Registering,
            BridgeAction::Idle,
        ),
        (BridgeState::Registering, BridgeEvent::RegistrationAccepted) => (
            BridgeState::Loaded,
            BridgeAction::InvokeOnLoad,
        ),
        (BridgeState::Registering, BridgeEvent::RegistrationRejected) => (
            BridgeState::Unregistered,
            BridgeAction::Idle,
        ),
        (BridgeState::Loaded, BridgeEvent::PreSpecialize) => (
            BridgeState::PreSpecializing,
            BridgeAction::InvokeCallback,
        ),
        (BridgeState::PreSpecializing, BridgeEvent::PostSpecialize) => (
            BridgeState::Specialized,
            BridgeAction::InvokeCallback,
        ),
        (_, _) => (s, BridgeAction::Abort),
    }
}

/// One step of the bridge's state machine.
pub fn bridge_step(s: BridgeState, e: BridgeEvent) -> (r: (BridgeState, BridgeAction))
    ensures
        r == spec_bridge_step(s, e),
{
    match (s, e) {
        (BridgeState::Unregistered, BridgeEvent::EntryInvoked) => (
            BridgeState::Registering,
            BridgeAction::Idle,
        ),
        (BridgeState::Registering, BridgeEvent::RegistrationAccepted) => (
            BridgeState::Loaded,
            BridgeAction::InvokeOnLoad,
        ),
        (BridgeState::Registering, BridgeEvent::RegistrationRejected) => (
            BridgeState::Unregistered,
            BridgeAction::Idle,
        ),
        (BridgeState::Loaded, BridgeEvent::PreSpecialize) => (
            BridgeState::PreSpecializing,
            BridgeAction::InvokeCallback,
        ),
        (BridgeState::PreSpecializing, BridgeEvent::PostSpecialize) => (
            BridgeState::Specialized,
            BridgeAction::InvokeCallback,
        ),
        (_, _) => (s, BridgeAction::Abort),
    }
}

/// Law of the registration gate: the bridge dispatches the load callback
/// for exactly one transition — a pending registration that the host
/// accepts.  A refused registration never reaches the author's code.
pub proof fn lemma_on_load_needs_acceptance(s: BridgeState, e: BridgeEvent)
    ensures
        spec_bridge_step(s, e).1 == BridgeAction::InvokeOnLoad <==> (s == BridgeState::Registering
            && e == BridgeEvent::RegistrationAccepted),
{
}

/// The module entry: runs the registration handshake against `table` and,
/// only when the host accepts, invokes the author's load callback with a
/// handle scoped to the load window, then returns that spent handle so the
/// caller can read what the host observed through it.
///
/// A refused registration yields `None`: the load callback is never
/// invoked and nothing is ever observed.  So does an absent registration
/// slot — a host too old to register this module is unsupported, the
/// documented fallback of every optional slot, never a failure.
pub fn module_entry<M: ZygiskModule>(module: &M, table: RawApiTable) -> (r: Option<ZygiskApi>)
    ensures
        r is Some <==> table.register_module == Some(true),
        r matches Some(api) ==> api.inner == table && api.phase == LifecyclePhase::Load,
{
    let accepted = matches!(table.register_module, Some(true));
    if accepted {
        let mut api = ZygiskApi::from_raw(table, LifecyclePhase::Load);
        module.on_load(&mut api);
        Some(api)
    } else {
        None
    }
}

/// Trampoline for the pre-app-specialize window: builds a handle scoped to
/// that window, dispatches the author's callback, and returns the spent
/// handle so the caller can read what the host observed through it.
pub fn dispatch_pre_app_specialize<M: ZygiskModule>(
    module: &M,
    table: RawApiTable,
    args: &mut AppSpecializeArgs,
) -> (r: ZygiskApi)
    ensures
        r.inner == table,
        r.phase == LifecyclePhase::PreAppSpecialize,
{
    let mut api = ZygiskApi::from_raw(table, LifecyclePhase::PreAppSpecialize);
    module.pre_app_specialize(&mut api, args);
    api
}

/// Trampoline for the post-app-specialize window.  The handle it builds is
/// the last valid one for this process: the host may invalidate the table
/// as soon as the callback returns.
pub fn dispatch_post_app_specialize<M: ZygiskModule>(
    module: &M,
    table: RawApiTable,
    args: &AppSpecializeArgs,
) -> (r: ZygiskApi)
    ensures
        r.inner == table,
        r.phase == LifecyclePhase::PostAppSpecialize,
{
    let mut api = ZygiskApi::from_raw(table, LifecyclePhase::PostAppSpecialize);
    module.post_app_specialize(&mut api, args);
    api
}

/// Trampoline for the pre-server-specialize window.
pub fn dispatch_pre_server_specialize<M: ZygiskModule>(
    module: &M,
    table: RawApiTable,
    args: &mut ServerSpecializeArgs,
) -> (r: ZygiskApi)
    ensures
        r.inner == table,
        r.phase == LifecyclePhase::PreServerSpecialize,
{
    let mut api = ZygiskApi::from_raw(table, LifecyclePhase::PreServerSpecialize);
    module.pre_server_specialize(&mut api, args);
    api
}

/// Trampoline for the post-server-specialize window; as with the app-side
/// post window, no later handle may exist for this process.
pub fn dispatch_post_server_specialize<M: ZygiskModule>(
    module: &M,
    table: RawApiTable,
    args: &ServerSpecializeArgs,
) -> (r: ZygiskApi)
    ensures
        r.inner == table,
        r.phase == LifecyclePhase::PostServerSpecialize,
{
    let mut api = ZygiskApi::from_raw(table, LifecyclePhase::PostServerSpecialize);
    module.post_server_specialize(&mut api, args);
    api
}

} // verus!
