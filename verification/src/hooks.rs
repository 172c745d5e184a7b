//! The two hooking subsystems: native-method rewrite and PLT patch-and-commit.
//!
//! Native-method rewrite is a lookup-and-swap against the host's runtime
//! registry: matched descriptors receive the previously registered entry
//! point, unmatched ones the null sentinel.  PLT hooks follow a two-phase
//! batch protocol: registrations are buffered and only a separate commit
//! applies them, all at once.

use crate::binding::JniHostMethod;
use vstd::prelude::*;

verus! {

/// One buffered PLT hook registration: the (device, inode) pair naming a
/// mapped ELF image, the symbol to patch, the replacement entry point, and
/// whether the caller asked to capture the original one at commit time.
pub struct PltHookEntry {
    /// Device number of the mapped image, as the memory-map table reports it.
    pub device: u64,
    /// Inode of the mapped image.
    pub inode: u64,
    /// Name of the resolved symbol to replace.
    pub symbol: Vec<u8>,
    /// Address of the replacement function.
    pub replacement_fn: u64,
    /// Whether the original resolved address should be captured on commit.
    pub wants_original: bool,
}

/// One native-method descriptor handed to the rewrite operation: method
/// name, type signature, and a function-pointer slot.  On entry the slot
/// holds the replacement; after a rewrite it holds the original entry point
/// for a matched descriptor and the null sentinel (zero) for an unmatched
/// one.
pub struct JniNativeMethod {
    /// Method name to look up.
    pub name: Vec<u8>,
    /// Method type signature to look up.
    pub signature: Vec<u8>,
    /// Function-pointer slot: replacement in, original-or-null out.
    pub fn_ptr: u64,
}

/// Whether one host binding matches a (class, name, signature) query.
pub open spec fn jni_binding_matches(
    b: JniHostMethod,
    class_name: Seq<u8>,
    name: Seq<u8>,
    signature: Seq<u8>,
) -> bool {
    b.class_name@ == class_name && b.name@ == name && b.signature@ == signature
}

/// The host's lookup over its registry: the entry point of the first
/// binding matching the query, or `None` when no binding matches.
pub open spec fn jni_lookup(
    registry: Seq<JniHostMethod>,
    class_name: Seq<u8>,
    name: Seq<u8>,
    signature: Seq<u8>,
) -> Option<u64>
    decreases registry.len(),
{
    if registry.len() == 0 {
        None
    } else if jni_binding_matches(registry[0], class_name, name, signature) {
        Some(registry[0].original_fn)
    } else {
        jni_lookup(registry.skip(1), class_name, name, signature)
    }
}

/// What the rewrite writes into one descriptor's function-pointer slot:
/// the matched entry point, or the null sentinel when nothing matches.
pub open spec fn jni_hook_result(
    registry: Seq<JniHostMethod>,
    class_name: Seq<u8>,
    name: Seq<u8>,
    signature: Seq<u8>,
) -> u64 {
    match jni_lookup(registry, class_name, name, signature) {
        Some(original) => original,
        None => 0,
    }
}

/// The pointwise outcome of one native-method rewrite: the list keeps its
/// length, every descriptor keeps its name and signature, and every
/// function-pointer slot is overwritten with the host's lookup result —
/// an original entry point or the null sentinel.
pub open spec fn jni_rewritten(
    registry: Seq<JniHostMethod>,
    class_name: Seq<u8>,
    before: Seq<JniNativeMethod>,
    after: Seq<JniNativeMethod>,
) -> bool {
    &&& after.len() == before.len()
    &&& forall|i: int| 0 <= i < before.len() ==> (#[trigger] after[i]).name@ == before[i].name@
    &&& forall|i: int|
        0 <= i < before.len() ==> (#[trigger] after[i]).signature@ == before[i].signature@
    &&& forall|i: int|
        0 <= i < before.len() ==> (#[trigger] after[i]).fn_ptr == jni_hook_result(
            registry,
            class_name,
            before[i].name@,
            before[i].signature@,
        )
}

/// Byte-string equality, with the view equality it decides.
pub fn bytes_eq(a: &Vec<u8>, b: &Vec<u8>) -> (r: bool)
    ensures
        r <==> a@ == b@,
{
    if a.len() != b.len() {
        return false;
    }
    let n: usize = a.len();
    let mut i: usize = 0;
    while i < n
        invariant
            n == a@.len(),
            n == b@.len(),
            0 <= i <= n,
            forall|j: int| 0 <= j < i ==> a@[j] == b@[j],
        decreases n - i,
    {
        if a[i] != b[i] {
            return false;
        }
        i = i + 1;
    }
    proof {
        assert(a@ =~= b@);
    }
    true
}

/// The host's registry lookup, executed: finds the first matching binding.
pub fn find_binding(
    registry: &Vec<JniHostMethod>,
    class_name: &Vec<u8>,
    name: &Vec<u8>,
    signature: &Vec<u8>,
) -> (r: Option<u64>)
    ensures
        r == jni_lookup(registry@, class_name@, name@, signature@),
{
    let n: usize = registry.len();
    let mut i: usize = 0;
    proof {
        assert(registry@.skip(0) =~= registry@);
    }
    while i < n
        invariant
            n == registry@.len(),
            0 <= i <= n,
            jni_lookup(registry@.skip(i as int), class_name@, name@, signature@)
                == jni_lookup(registry@, class_name@, name@, signature@),
        decreases n - i,
    {
        let b = &registry[i];
        proof {
            assert(registry@.skip(i as int)[0] == registry@[i as int]);
            assert(registry@.skip(i as int).skip(1) =~= registry@.skip(i as int + 1));
        }
        if bytes_eq(&b.class_name, class_name) && bytes_eq(&b.name, name)
            && bytes_eq(&b.signature, signature) {
            return Some(b.original_fn);
        }
        i = i + 1;
    }
    proof {
        assert(registry@.skip(n as int) =~= Seq::<JniHostMethod>::empty());
    }
    None
}

/// A lookup over a registry of well-formed bindings never yields the null
/// sentinel: whatever it finds was a registered entry point.
pub proof fn lemma_jni_lookup_nonnull(
    registry: Seq<JniHostMethod>,
    class_name: Seq<u8>,
    name: Seq<u8>,
    signature: Seq<u8>,
)
    requires
        forall|i: int| 0 <= i < registry.len() ==> (#[trigger] registry[i]).wf(),
    ensures
        jni_lookup(registry, class_name, name, signature) matches Some(original)
            ==> original != 0,
    decreases registry.len(),
{
    if registry.len() > 0 && !jni_binding_matches(registry[0], class_name, name, signature) {
        assert(forall|i: int| 0 <= i < registry.skip(1).len()
            ==> (#[trigger] registry.skip(1)[i]).wf());
        lemma_jni_lookup_nonnull(registry.skip(1), class_name, name, signature);
    }
}

/// Number of descriptors whose function-pointer slot is not the null sentinel.
pub open spec fn count_nonnull(ms: Seq<JniNativeMethod>) -> int
    decreases ms.len(),
{
    if ms.len() == 0 {
        0
    } else {
        count_nonnull(ms.drop_last()) + if ms.last().fn_ptr != 0 { 1int } else { 0int }
    }
}

/// Number of descriptors the host's lookup matches.
pub open spec fn count_matched(
    registry: Seq<JniHostMethod>,
    class_name: Seq<u8>,
    ms: Seq<JniNativeMethod>,
) -> int
    decreases ms.len(),
{
    if ms.len() == 0 {
        0
    } else {
        count_matched(registry, class_name, ms.drop_last())
            + if jni_lookup(registry, class_name, ms.last().name@, ms.last().signature@) is Some {
                1int
            } else {
                0int
            }
    }
}

/// The count of matched descriptors never leaves `[0, K]` for a list of
/// size `K`.
pub proof fn lemma_count_matched_bounds(
    registry: Seq<JniHostMethod>,
    class_name: Seq<u8>,
    ms: Seq<JniNativeMethod>,
)
    ensures
        0 <= count_matched(registry, class_name, ms) <= ms.len(),
    decreases ms.len(),
{
    if ms.len() > 0 {
        lemma_count_matched_bounds(registry, class_name, ms.drop_last());
    }
}

/// Law of the native-method rewrite: over a registry of well-formed
/// bindings, a rewritten descriptor list of size `K` with `M` matched
/// entries holds exactly `M` non-null original slots and exactly `K - M`
/// null sentinels.
pub proof fn lemma_hook_populates_matches(
    registry: Seq<JniHostMethod>,
    class_name: Seq<u8>,
    before: Seq<JniNativeMethod>,
    after: Seq<JniNativeMethod>,
)
    requires
        forall|i: int| 0 <= i < registry.len() ==> (#[trigger] registry[i]).wf(),
        jni_rewritten(registry, class_name, before, after),
    ensures
        count_nonnull(after) == count_matched(registry, class_name, before),
        count_nonnull(after) + (before.len() - count_matched(registry, class_name, before))
            == before.len(),
    decreases before.len(),
{
    lemma_count_matched_bounds(registry, class_name, before);
    if before.len() > 0 {
        let i: int = before.len() - 1;
        assert(jni_rewritten(registry, class_name, before.drop_last(), after.drop_last()));
        lemma_jni_lookup_nonnull(registry, class_name, before[i].name@, before[i].signature@);
        lemma_hook_populates_matches(registry, class_name, before.drop_last(), after.drop_last());
    }
}

/// The buffer left by a run of registrations, each made with the
/// registration slot present, starting from `buffer`.
pub open spec fn plt_register_run(
    buffer: Seq<PltHookEntry>,
    entries: Seq<PltHookEntry>,
) -> Seq<PltHookEntry>
    decreases entries.len(),
{
    if entries.len() == 0 {
        buffer
    } else {
        plt_register_run(buffer.push(entries[0]), entries.skip(1))
    }
}

/// Law of the two-phase hook protocol: a run of registrations appends its
/// entries to the buffer, in order and losing none.  Together with the
/// commit contract — success applies the whole buffer and empties it —
/// this makes a successful commit all-or-nothing for the registered batch.
pub proof fn lemma_plt_register_run_appends(
    buffer: Seq<PltHookEntry>,
    entries: Seq<PltHookEntry>,
)
    ensures
        plt_register_run(buffer, entries) == buffer + entries,
    decreases entries.len(),
{
    if entries.len() == 0 {
        assert(plt_register_run(buffer, entries) =~= buffer + entries);
    } else {
        lemma_plt_register_run_appends(buffer.push(entries[0]), entries.skip(1));
        assert(buffer.push(entries[0]) + entries.skip(1) =~= buffer + entries);
    }
}

} // verus!
