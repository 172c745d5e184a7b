use zygisk::JniHostMethod;
use zygisk::JniNativeMethod;
use zygisk::LifecyclePhase;
use zygisk::RawApiTable;
use zygisk::ZygiskApi;

fn binding(class: &[u8], name: &[u8], signature: &[u8], original_fn: u64) -> JniHostMethod {
    JniHostMethod {
        class_name: class.to_vec(),
        name: name.to_vec(),
        signature: signature.to_vec(),
        original_fn,
    }
}

fn descriptor(name: &[u8], signature: &[u8], replacement: u64) -> JniNativeMethod {
    JniNativeMethod { name: name.to_vec(), signature: signature.to_vec(), fn_ptr: replacement }
}

#[test]
fn jni_hook_populates_matched_and_nulls_unmatched() {
    let mut table = RawApiTable::default();
    table.hook_jni_native_methods = true;
    table.jni_registry = vec![
        binding(b"com/example/Target", b"nativeOpen", b"()V", 0x1000),
        binding(b"com/example/Target", b"nativeRead", b"(I)I", 0x2000),
        binding(b"com/example/Other", b"nativeOpen", b"()V", 0x3000),
    ];
    let api = ZygiskApi::from_raw(table, LifecyclePhase::PreAppSpecialize);

    let mut methods = vec![
        descriptor(b"nativeOpen", b"()V", 0x9001),
        descriptor(b"nativeRead", b"(I)I", 0x9002),
        descriptor(b"nativeMissing", b"()V", 0x9003),
    ];
    api.hook_jni_native_methods(&b"com/example/Target".to_vec(), &mut methods);

    assert_eq!(methods.len(), 3);
    assert_eq!(methods[0].fn_ptr, 0x1000);
    assert_eq!(methods[1].fn_ptr, 0x2000);
    assert_eq!(methods[2].fn_ptr, 0);
    let populated = methods.iter().filter(|m| m.fn_ptr != 0).count();
    assert_eq!(populated, 2);
    assert_eq!(methods[0].name, b"nativeOpen".to_vec());
    assert_eq!(methods[2].signature, b"()V".to_vec());
}

#[test]
fn jni_hook_respects_class_name() {
    let mut table = RawApiTable::default();
    table.hook_jni_native_methods = true;
    table.jni_registry = vec![binding(b"com/example/Target", b"nativeOpen", b"()V", 0x1000)];
    let api = ZygiskApi::from_raw(table, LifecyclePhase::PreAppSpecialize);

    let mut methods = vec![descriptor(b"nativeOpen", b"()V", 0x9001)];
    api.hook_jni_native_methods(&b"com/example/Elsewhere".to_vec(), &mut methods);
    assert_eq!(methods[0].fn_ptr, 0);
}

#[test]
fn jni_hook_takes_first_matching_binding() {
    let mut table = RawApiTable::default();
    table.hook_jni_native_methods = true;
    table.jni_registry = vec![
        binding(b"com/example/Target", b"nativeOpen", b"()V", 0x1000),
        binding(b"com/example/Target", b"nativeOpen", b"()V", 0x2000),
    ];
    let api = ZygiskApi::from_raw(table, LifecyclePhase::PreAppSpecialize);

    let mut methods = vec![descriptor(b"nativeOpen", b"()V", 0x9001)];
    api.hook_jni_native_methods(&b"com/example/Target".to_vec(), &mut methods);
    assert_eq!(methods[0].fn_ptr, 0x1000);
}

#[test]
fn jni_hook_absent_slot_leaves_descriptors_alone() {
    let mut table = RawApiTable::default();
    table.jni_registry = vec![binding(b"com/example/Target", b"nativeOpen", b"()V", 0x1000)];
    let api = ZygiskApi::from_raw(table, LifecyclePhase::PreAppSpecialize);

    let mut methods = vec![descriptor(b"nativeOpen", b"()V", 0x9001)];
    api.hook_jni_native_methods(&b"com/example/Target".to_vec(), &mut methods);
    assert_eq!(methods[0].fn_ptr, 0x9001);
}

#[test]
fn plt_commit_applies_whole_batch_in_order() {
    let mut table = RawApiTable::default();
    table.plt_hook_register = true;
    table.plt_hook_commit = Some(true);
    let mut api = ZygiskApi::from_raw(table, LifecyclePhase::PreAppSpecialize);

    api.plt_hook_register(0xfe00, 235, b"open".to_vec(), 0x4000, true);
    api.plt_hook_register(0xfe00, 235, b"read".to_vec(), 0x4100, false);
    api.plt_hook_register(0xfe00, 236, b"close".to_vec(), 0x4200, false);
    assert_eq!(api.effects.plt_buffer.len(), 3);
    assert!(api.effects.plt_applied.is_empty());

    assert!(api.plt_hook_commit());
    assert!(api.effects.plt_buffer.is_empty());
    assert_eq!(api.effects.plt_applied.len(), 3);
    assert_eq!(api.effects.plt_applied[0].symbol, b"open".to_vec());
    assert_eq!(api.effects.plt_applied[0].replacement_fn, 0x4000);
    assert!(api.effects.plt_applied[0].wants_original);
    assert_eq!(api.effects.plt_applied[1].symbol, b"read".to_vec());
    assert_eq!(api.effects.plt_applied[2].inode, 236);
}

#[test]
fn plt_commit_failure_applies_nothing_and_consumes_buffer() {
    let mut table = RawApiTable::default();
    table.plt_hook_register = true;
    table.plt_hook_commit = Some(false);
    let mut api = ZygiskApi::from_raw(table, LifecyclePhase::PreAppSpecialize);

    api.plt_hook_register(1, 2, b"open".to_vec(), 0x4000, false);
    assert!(!api.plt_hook_commit());
    assert!(api.effects.plt_buffer.is_empty());
    assert!(api.effects.plt_applied.is_empty());
}

#[test]
fn plt_second_commit_applies_only_new_registrations() {
    let mut table = RawApiTable::default();
    table.plt_hook_register = true;
    table.plt_hook_commit = Some(true);
    let mut api = ZygiskApi::from_raw(table, LifecyclePhase::PreAppSpecialize);

    api.plt_hook_register(1, 2, b"open".to_vec(), 0x4000, false);
    assert!(api.plt_hook_commit());
    api.plt_hook_register(1, 2, b"read".to_vec(), 0x4100, false);
    assert!(api.plt_hook_commit());
    assert_eq!(api.effects.plt_applied.len(), 2);
    assert_eq!(api.effects.plt_applied[0].symbol, b"open".to_vec());
    assert_eq!(api.effects.plt_applied[1].symbol, b"read".to_vec());
}
