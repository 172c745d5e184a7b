//! The capability handle: every host operation as a typed, fallible or
//! best-effort call, each degrading to its documented fallback when the
//! underlying slot is absent.

use crate::binding::RawApiTable;
use crate::binding::StateFlags;
use crate::binding::ZygiskOption;
use crate::error::ZygiskError;
use crate::hooks::find_binding;
use crate::hooks::jni_hook_result;
use crate::hooks::jni_rewritten;
use crate::hooks::JniNativeMethod;
use crate::hooks::PltHookEntry;
use vstd::prelude::*;

verus! {

/// The lifecycle window a handle was built for.  A handle is scoped to one
/// callback invocation; the bridge constructs a fresh one per call.
#[derive(Clone, Copy, PartialEq, Eq, Structural, Debug)]
pub enum LifecyclePhase {
    /// The load callback, right after registration succeeded.
    Load,
    /// Before an application process is specialized.
    PreAppSpecialize,
    /// After an application process was specialized.
    PostAppSpecialize,
    /// Before the system-server process is specialized.
    PreServerSpecialize,
    /// After the system-server process was specialized.
    PostServerSpecialize,
}

impl LifecyclePhase {
    /// The two windows that run with the forking daemon's own privilege,
    /// before process confinement is tightened.
    pub open spec fn is_pre_specialize(self) -> bool {
        self == LifecyclePhase::PreAppSpecialize || self == LifecyclePhase::PreServerSpecialize
    }
}

/// Everything the host observes through one capability handle: delivered
/// options, effective descriptor exemptions, and the two sides of the PLT
/// hook protocol — the entries still buffered and the entries applied by
/// successful commits.
pub struct HostEffects {
    /// Options delivered through the option slot, oldest first.
    pub options: Vec<ZygiskOption>,
    /// Descriptors whose exemption took effect, oldest first.
    pub exempted_fds: Vec<i32>,
    /// PLT hook entries registered but not yet committed, oldest first.
    pub plt_buffer: Vec<PltHookEntry>,
    /// PLT hook entries applied by successful commits, oldest first.
    pub plt_applied: Vec<PltHookEntry>,
}

impl HostEffects {
    /// Nothing observed yet.
    pub open spec fn is_empty(self) -> bool {
        &&& self.options@.len() == 0
        &&& self.exempted_fds@.len() == 0
        &&& self.plt_buffer@.len() == 0
        &&& self.plt_applied@.len() == 0
    }

    /// A fresh, empty observation record.
    pub fn new() -> (r: HostEffects)
        ensures
            r.is_empty(),
    {
        HostEffects {
            options: Vec::new(),
            exempted_fds: Vec::new(),
            plt_buffer: Vec::new(),
            plt_applied: Vec::new(),
        }
    }
}

/// A handle to the host's capability table, scoped to one lifecycle
/// callback of one worker process.
///
/// The handle pairs the table with the phase it was built for and with the
/// record of what the host has observed through it.  The bridge constructs
/// one per callback via [`ZygiskApi::from_raw`]; once the callback returns,
/// the window is over and the handle must not outlive it.
pub struct ZygiskApi {
    /// The host's capability table for this window.
    pub inner: RawApiTable,
    /// The callback window this handle belongs to.
    pub phase: LifecyclePhase,
    /// What the host has observed through this handle.
    pub effects: HostEffects,
}

/// Frame: a handle operation never changes the table it borrows from the
/// host, nor the window it was built for.
pub open spec fn preserves_window(pre: ZygiskApi, post: ZygiskApi) -> bool {
    &&& post.inner == pre.inner
    &&& post.phase == pre.phase
}

impl ZygiskApi {
    /// Build the handle for one callback window.  Only the bridge has a
    /// validated table in hand; module authors receive the handle ready-made.
    pub fn from_raw(inner: RawApiTable, phase: LifecyclePhase) -> (r: ZygiskApi)
        ensures
            r.inner == inner,
            r.phase == phase,
            r.effects.is_empty(),
    {
        ZygiskApi { inner, phase, effects: HostEffects::new() }
    }

    /// Connect to the privileged companion process.
    ///
    /// Succeeds exactly when this is a pre-specialize window and the host's
    /// connection slot is present and yields a non-negative descriptor;
    /// every other case — absent slot, host-side failure, or any window
    /// after specialization, where process confinement forbids the call —
    /// collapses into the single failure marker.
    pub fn connect_companion(&self) -> (r: Result<i32, ZygiskError>)
        ensures
            r is Ok <==> (self.phase.is_pre_specialize() && (self.inner.connect_companion
                matches Some(fd) && fd >= 0)),
            r matches Ok(fd) ==> self.inner.connect_companion == Some(fd),
    {
        if matches!(self.phase, LifecyclePhase::PreAppSpecialize | LifecyclePhase::PreServerSpecialize) {
            match self.inner.connect_companion {
                Some(fd) => {
                    if fd >= 0 {
                        Ok(fd)
                    } else {
                        Err(ZygiskError)
                    }
                },
                None => Err(ZygiskError),
            }
        } else {
            Err(ZygiskError)
        }
    }

    /// Descriptor of the module's own directory, or the invalid-descriptor
    /// sentinel when the slot is absent.  A host-side failure arrives as
    /// the same sentinel from the slot itself.
    pub fn get_module_dir(&self) -> (r: i32)
        ensures
            r == (match self.inner.get_module_dir {
                Some(fd) => fd,
                None => -1i32,
            }),
    {
        match self.inner.get_module_dir {
            Some(fd) => fd,
            None => -1,
        }
    }

    /// Send one option to the host: delivered when the slot is present,
    /// silently dropped when it is absent.
    pub fn set_option(&mut self, option: ZygiskOption)
        ensures
            preserves_window(*old(self), *final(self)),
            final(self).effects.options@ == (if old(self).inner.set_option {
                old(self).effects.options@.push(option)
            } else {
                old(self).effects.options@
            }),
            final(self).effects.exempted_fds@ == old(self).effects.exempted_fds@,
            final(self).effects.plt_buffer@ == old(self).effects.plt_buffer@,
            final(self).effects.plt_applied@ == old(self).effects.plt_applied@,
    {
        if self.inner.set_option {
            self.effects.options.push(option);
        }
    }

    /// The host's state flags for this process, decoded.
    ///
    /// An absent slot reports the empty flag set.  A present slot must
    /// report a recognized bit pattern: an unrecognized bit is version skew
    /// this layer cannot reason about, and the process boundary turns it
    /// into termination instead of calling here — see
    /// [`ZygiskApi::try_get_flags`] for the total variant it uses.
    pub fn get_flags(&self) -> (r: StateFlags)
        requires
            self.inner.get_flags matches Some(bits) ==> StateFlags::recognized(bits),
        ensures
            r.bits == (match self.inner.get_flags {
                Some(bits) => bits,
                None => 0u32,
            }),
            r.wf(),
    {
        match self.inner.get_flags {
            Some(bits) => {
                let decoded = StateFlags::from_bits(bits);
                match decoded {
                    Some(flags) => flags,
                    None => {
                        proof {
                            assert(false);
                        }
                        StateFlags::empty()
                    },
                }
            },
            None => StateFlags::empty(),
        }
    }

    /// The host's state flags, decoded without a precondition: `None`
    /// exactly when the slot reports an unrecognized bit pattern, the case
    /// the process boundary must treat as fatal.
    pub fn try_get_flags(&self) -> (r: Option<StateFlags>)
        ensures
            r == (match self.inner.get_flags {
                Some(bits) => StateFlags::decoded(bits),
                None => Some((StateFlags { bits: 0u32 })),
            }),
            r is None <==> (self.inner.get_flags matches Some(bits)
                && !StateFlags::recognized(bits)),
            r matches Some(f) ==> f.wf() && f.bits == (match self.inner.get_flags {
                Some(bits) => bits,
                None => 0u32,
            }),
    {
        match self.inner.get_flags {
            Some(bits) => StateFlags::from_bits(bits),
            None => Some(StateFlags::empty()),
        }
    }

    /// Exempt a descriptor from the host's automatic close.  The exemption
    /// takes effect only in the pre-app-specialize window with the slot
    /// present; in every other case the forwarded call is a harmless no-op.
    pub fn exempt_fd(&mut self, fd: i32)
        ensures
            preserves_window(*old(self), *final(self)),
            final(self).effects.exempted_fds@ == (if old(self).inner.exempt_fd && old(
                self,
            ).phase == LifecyclePhase::PreAppSpecialize {
                old(self).effects.exempted_fds@.push(fd)
            } else {
                old(self).effects.exempted_fds@
            }),
            final(self).effects.options@ == old(self).effects.options@,
            final(self).effects.plt_buffer@ == old(self).effects.plt_buffer@,
            final(self).effects.plt_applied@ == old(self).effects.plt_applied@,
    {
        if self.inner.exempt_fd && matches!(self.phase, LifecyclePhase::PreAppSpecialize) {
            self.effects.exempted_fds.push(fd);
        }
    }

    /// Rewrite the native-method bindings of one Java class.
    ///
    /// With the slot present, every descriptor's function-pointer slot is
    /// overwritten by the host's lookup-and-swap: the original entry point
    /// where class, name and signature match a registered binding, the null
    /// sentinel where nothing matches.  With the slot absent the list is
    /// left untouched.
    pub fn hook_jni_native_methods(&self, class_name: &Vec<u8>, methods: &mut Vec<JniNativeMethod>)
        ensures
            final(methods)@.len() == old(methods)@.len(),
            !self.inner.hook_jni_native_methods ==> final(methods)@ == old(methods)@,
            self.inner.hook_jni_native_methods ==> jni_rewritten(
                self.inner.jni_registry@,
                class_name@,
                old(methods)@,
                final(methods)@,
            ),
    {
        if !self.inner.hook_jni_native_methods {
            return ;
        }
        let mut rewritten: Vec<JniNativeMethod> = Vec::new();
        while methods.len() > 0
            invariant
                self.inner.hook_jni_native_methods,
                rewritten@.len() + methods@.len() == old(methods)@.len(),
                methods@ == old(methods)@.skip(rewritten@.len() as int),
                forall|j: int|
                    0 <= j < rewritten@.len() ==> (#[trigger] rewritten@[j]).name@ == old(
                        methods,
                    )@[j].name@ && rewritten@[j].signature@ == old(methods)@[j].signature@
                        && rewritten@[j].fn_ptr == jni_hook_result(
                        self.inner.jni_registry@,
                        class_name@,
                        old(methods)@[j].name@,
                        old(methods)@[j].signature@,
                    ),
            decreases methods@.len(),
        {
            let ghost k = rewritten@.len() as int;
            proof {
                assert(methods@[0] == old(methods)@[k]);
            }
            let m = methods.remove(0);
            let ghost m_name = m.name@;
            let ghost m_signature = m.signature@;
            let looked_up = find_binding(&self.inner.jni_registry, class_name, &m.name, &m.signature);
            let fn_ptr: u64 = match looked_up {
                Some(original) => original,
                None => 0,
            };
            rewritten.push(JniNativeMethod { name: m.name, signature: m.signature, fn_ptr });
            proof {
                assert(old(methods)@.skip(k).remove(0) =~= old(methods)@.skip(k + 1));
            }
        }
        proof {
            assert(rewritten@.len() == old(methods)@.len());
        }
        *methods = rewritten;
    }

    /// Buffer one PLT hook registration: the (device, inode) pair naming a
    /// mapped ELF image, the symbol to patch, and the replacement entry
    /// point.  Nothing takes effect before a commit.  With the slot absent
    /// the registration is dropped.
    pub fn plt_hook_register(
        &mut self,
        device: u64,
        inode: u64,
        symbol: Vec<u8>,
        replacement_fn: u64,
        wants_original: bool,
    )
        ensures
            preserves_window(*old(self), *final(self)),
            final(self).effects.plt_buffer@ == (if old(self).inner.plt_hook_register {
                old(self).effects.plt_buffer@.push(
                    (PltHookEntry { device, inode, symbol, replacement_fn, wants_original }),
                )
            } else {
                old(self).effects.plt_buffer@
            }),
            final(self).effects.options@ == old(self).effects.options@,
            final(self).effects.exempted_fds@ == old(self).effects.exempted_fds@,
            final(self).effects.plt_applied@ == old(self).effects.plt_applied@,
    {
        if self.inner.plt_hook_register {
            self.effects.plt_buffer.push(
                PltHookEntry { device, inode, symbol, replacement_fn, wants_original },
            );
        }
    }

    /// Commit every buffered PLT hook registration in one batch.
    ///
    /// Success — a present commit slot whose apply goes through — applies
    /// the whole buffer at once, in registration order.  On failure the
    /// caller learns only the single boolean: the buffer is consumed
    /// either way, and no per-entry outcome is promised.
    pub fn plt_hook_commit(&mut self) -> (r: bool)
        ensures
            preserves_window(*old(self), *final(self)),
            r == (old(self).inner.plt_hook_commit == Some(true)),
            final(self).effects.plt_buffer@.len() == 0,
            r ==> final(self).effects.plt_applied@ == old(self).effects.plt_applied@ + old(
                self,
            ).effects.plt_buffer@,
            !r ==> final(self).effects.plt_applied@ == old(self).effects.plt_applied@,
            final(self).effects.options@ == old(self).effects.options@,
            final(self).effects.exempted_fds@ == old(self).effects.exempted_fds@,
    {
        let ok = matches!(self.inner.plt_hook_commit, Some(true));
        if ok {
            self.effects.plt_applied.append(&mut self.effects.plt_buffer);
        } else {
            self.effects.plt_buffer.clear();
        }
        ok
    }
}

} // verus!
