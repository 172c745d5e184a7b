//! A verified model of a Zygisk-style module ABI boundary.
//!
//! A host daemon forks worker processes and lets a dynamically loaded module
//! observe and modify them in a narrow specialization window, through a
//! versioned table of optional capability slots.  This crate models that
//! boundary: the raw capability table, the safe handle derived from it, the
//! two hooking subsystems (native-method rewrite and PLT patch-and-commit),
//! the companion connection, and the registration bridge that gates the
//! module's lifecycle callbacks.
//!
//! Every operation states exactly what the host observes and what the caller
//! gets back, for present and for absent capability slots alike.

mod api;
mod binding;
mod error;
mod hooks;
mod lifecycle;
mod module;

pub use api::preserves_window;
pub use api::HostEffects;
pub use api::LifecyclePhase;
pub use api::ZygiskApi;
pub use binding::JniHostMethod;
pub use binding::RawApiTable;
pub use binding::StateFlags;
pub use binding::ZygiskOption;
pub use binding::API_VERSION;
pub use binding::PROCESS_GRANTED_ROOT;
pub use binding::PROCESS_ON_DENYLIST;
pub use binding::STATE_FLAG_MASK;
pub use binding::lemma_flags_version_skew;
pub use error::ZygiskError;
pub use hooks::count_matched;
pub use hooks::count_nonnull;
pub use hooks::jni_binding_matches;
pub use hooks::jni_hook_result;
pub use hooks::jni_lookup;
pub use hooks::jni_rewritten;
pub use hooks::lemma_hook_populates_matches;
pub use hooks::lemma_jni_lookup_nonnull;
pub use hooks::lemma_plt_register_run_appends;
pub use hooks::plt_register_run;
pub use hooks::JniNativeMethod;
pub use hooks::PltHookEntry;
pub use lifecycle::bridge_step;
pub use lifecycle::lemma_on_load_needs_acceptance;
pub use lifecycle::spec_bridge_step;
pub use lifecycle::dispatch_post_app_specialize;
pub use lifecycle::dispatch_post_server_specialize;
pub use lifecycle::dispatch_pre_app_specialize;
pub use lifecycle::dispatch_pre_server_specialize;
pub use lifecycle::module_entry;
pub use lifecycle::BridgeAction;
pub use lifecycle::BridgeEvent;
pub use lifecycle::BridgeState;
pub use module::AppSpecializeArgs;
pub use module::ServerSpecializeArgs;
pub use module::ZygiskModule;
