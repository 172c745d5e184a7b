//! The raw ABI surface: state flags, module options, and the capability
//! table a host hands to a freshly loaded module.

use vstd::prelude::*;

verus! {

/// Version of the module ABI this crate speaks.  A host that does not
/// support this version refuses the registration handshake, and the
/// module's callbacks are never invoked.
pub const API_VERSION: u32 = 2;

/// State bit: the current process was granted elevated privilege.
pub const PROCESS_GRANTED_ROOT: u32 = 1;

/// State bit: the current process is on the host's denylist.
pub const PROCESS_ON_DENYLIST: u32 = 2;

/// Every state bit this crate recognizes.  A host that reports a bit
/// outside this mask is a version the crate cannot safely reason about.
pub const STATE_FLAG_MASK: u32 = 3;

/// Decoded facts about the current process, as reported by the host.
///
/// A well-formed value never holds a bit outside [`STATE_FLAG_MASK`]:
/// the only constructors are [`StateFlags::empty`] and
/// [`StateFlags::from_bits`], and the latter rejects unrecognized bits.
#[derive(Clone, Copy, PartialEq, Eq, Structural, Debug)]
pub struct StateFlags {
    pub bits: u32,
}

impl StateFlags {
    /// A raw bit pattern is recognized when every set bit lies inside
    /// [`STATE_FLAG_MASK`].
    pub open spec fn recognized(bits: u32) -> bool {
        bits & STATE_FLAG_MASK == bits
    }

    /// Well-formedness: the pattern this value carries is recognized.
    pub open spec fn wf(self) -> bool {
        Self::recognized(self.bits)
    }

    /// What decoding a raw host pattern yields: exactly the reported bits
    /// when every one is recognized, and nothing otherwise.
    pub open spec fn decoded(bits: u32) -> Option<StateFlags> {
        if Self::recognized(bits) {
            Some(StateFlags { bits })
        } else {
            None
        }
    }

    /// The empty flag set: no fact is known about the process.
    pub fn empty() -> (r: StateFlags)
        ensures
            r.bits == 0,
            r.wf(),
    {
        proof {
            assert(0u32 & 3u32 == 0u32) by (bit_vector);
        }
        StateFlags { bits: 0 }
    }

    /// Decode a raw host bit pattern.  Returns `Some` exactly when every
    /// bit is recognized; an unrecognized bit signals version skew and
    /// yields `None`, which callers at the process boundary treat as fatal.
    pub fn from_bits(bits: u32) -> (r: Option<StateFlags>)
        ensures
            r == Self::decoded(bits),
            r is Some <==> Self::recognized(bits),
            r matches Some(f) ==> f.bits == bits && f.wf(),
    {
        if bits & STATE_FLAG_MASK == bits {
            Some(StateFlags { bits })
        } else {
            None
        }
    }

    /// Whether every bit of `other` is set in `self`.
    pub fn contains(&self, other: StateFlags) -> (r: bool)
        ensures
            r == (self.bits & other.bits == other.bits),
    {
        self.bits & other.bits == other.bits
    }
}

/// Law of version skew: every raw pattern falls on exactly one side of the
/// decoder.  A pattern of recognized bits always decodes, to exactly the
/// bits the host reported, so querying the flags never ends the process;
/// a pattern with any unrecognized bit never decodes, and that refusal is
/// the one case the process boundary turns into termination.
pub proof fn lemma_flags_version_skew(bits: u32)
    ensures
        StateFlags::recognized(bits) <==> StateFlags::decoded(bits) is Some,
        StateFlags::decoded(bits) matches Some(f) ==> f.bits == bits && f.wf(),
{
}

/// An enumerated request the module sends to the host, one value per call.
#[derive(Clone, Copy, PartialEq, Eq, Structural, Debug)]
pub enum ZygiskOption {
    /// Ask the host to force-unmount module mounts for denylisted processes.
    ForceDenylistUnmount,
    /// Ask the host to unload the module library once specialization is done.
    DlcloseModuleLibrary,
}

impl ZygiskOption {
    /// The option's value on the C wire: the host receives one plain
    /// integer per call.
    pub open spec fn spec_code(self) -> i32 {
        match self {
            ZygiskOption::ForceDenylistUnmount => 0,
            ZygiskOption::DlcloseModuleLibrary => 1,
        }
    }

    /// Encode the option for the C boundary.
    pub fn code(&self) -> (r: i32)
        ensures
            r == self.spec_code(),
    {
        match self {
            ZygiskOption::ForceDenylistUnmount => 0,
            ZygiskOption::DlcloseModuleLibrary => 1,
        }
    }
}

/// One native-method binding the host's runtime knows about: a class, a
/// method name, a type signature, and the currently registered entry point.
///
/// A well-formed binding never carries a null entry point: the runtime only
/// records methods that are actually registered.
pub struct JniHostMethod {
    /// Mangled name of the Java class owning the method.
    pub class_name: Vec<u8>,
    /// Method name as the runtime stores it.
    pub name: Vec<u8>,
    /// Method type signature as the runtime stores it.
    pub signature: Vec<u8>,
    /// Address of the currently registered native implementation; never null.
    pub original_fn: u64,
}

impl JniHostMethod {
    /// Well-formedness: a registered implementation is never the null sentinel.
    pub open spec fn wf(self) -> bool {
        self.original_fn != 0
    }
}

/// The host-owned capability table, as one lifecycle window of one process
/// observes it.
///
/// Each slot of the real table is an optional function pointer; an older
/// host leaves slots absent.  Here a slot is modelled by what calling it
/// in this window would yield: `None` (or `false`) for an absent slot, and
/// otherwise the host's response.  The table also carries the host-side
/// native-method registry that the hooking slot consults, so that the
/// outcome of a rewrite is a function of the table alone.
///
/// The table describes one callback window: within it every slot answers
/// the same, while state the host may change between callbacks — the
/// state flags, say — arrives as a fresh table in the next window's
/// handle.
pub struct RawApiTable {
    /// Companion-connection slot: the descriptor the host would hand out,
    /// negative for a host-side connection failure, `None` when absent.
    pub connect_companion: Option<i32>,
    /// Module-directory slot: the directory descriptor the host would
    /// return, `None` when absent.
    pub get_module_dir: Option<i32>,
    /// Whether the option-delivery slot is present.
    pub set_option: bool,
    /// State-flag slot: the raw bit pattern the host would report, `None`
    /// when absent.
    pub get_flags: Option<u32>,
    /// Whether the descriptor-exemption slot is present.
    pub exempt_fd: bool,
    /// Whether the native-method rewrite slot is present.
    pub hook_jni_native_methods: bool,
    /// Whether the PLT-hook registration slot is present.
    pub plt_hook_register: bool,
    /// PLT commit slot: whether the batch apply would succeed, `None` when
    /// absent.
    pub plt_hook_commit: Option<bool>,
    /// Registration slot: whether the host accepts the module's callback
    /// table, `None` when absent.
    pub register_module: Option<bool>,
    /// The native-method bindings the host's runtime currently knows.
    pub jni_registry: Vec<JniHostMethod>,
}

impl RawApiTable {
    /// Every binding in the host registry is well formed.
    pub open spec fn jni_registry_wf(self) -> bool {
        forall|i: int| 0 <= i < self.jni_registry@.len() ==> (#[trigger] self.jni_registry@[i]).wf()
    }
}

impl Default for RawApiTable {
    /// The table of an oldest-version host: every capability slot absent,
    /// nothing registered in the runtime.
    fn default() -> (r: RawApiTable)
        ensures
            r.connect_companion is None,
            r.get_module_dir is None,
            !r.set_option,
            r.get_flags is None,
            !r.exempt_fd,
            !r.hook_jni_native_methods,
            !r.plt_hook_register,
            r.plt_hook_commit is None,
            r.register_module is None,
            r.jni_registry@ == Seq::<JniHostMethod>::empty(),
    {
        RawApiTable {
            connect_companion: None,
            get_module_dir: None,
            set_option: false,
            get_flags: None,
            exempt_fd: false,
            hook_jni_native_methods: false,
            plt_hook_register: false,
            plt_hook_commit: None,
            register_module: None,
            jni_registry: Vec::new(),
        }
    }
}

} // verus!
