use zygisk::LifecyclePhase;
use zygisk::RawApiTable;
use zygisk::StateFlags;
use zygisk::ZygiskApi;
use zygisk::ZygiskError;
use zygisk::ZygiskOption;
use zygisk::PROCESS_GRANTED_ROOT;
use zygisk::PROCESS_ON_DENYLIST;

fn absent_table() -> RawApiTable {
    RawApiTable::default()
}

#[test]
fn absent_slots_fall_back() {
    let api = ZygiskApi::from_raw(absent_table(), LifecyclePhase::PreAppSpecialize);
    assert!(api.connect_companion().is_err());
    assert_eq!(api.get_module_dir(), -1);
    assert_eq!(api.get_flags().bits, 0);
    assert_eq!(api.try_get_flags(), Some(StateFlags { bits: 0 }));

    let mut api = api;
    api.set_option(ZygiskOption::ForceDenylistUnmount);
    assert!(api.effects.options.is_empty());
    api.exempt_fd(11);
    assert!(api.effects.exempted_fds.is_empty());
    api.plt_hook_register(1, 2, b"open".to_vec(), 0x4000, false);
    assert!(api.effects.plt_buffer.is_empty());
    assert!(!api.plt_hook_commit());
    assert!(api.effects.plt_applied.is_empty());
}

#[test]
fn connect_companion_succeeds_pre_specialize() {
    let mut table = absent_table();
    table.connect_companion = Some(7);
    let app = ZygiskApi::from_raw(table, LifecyclePhase::PreAppSpecialize);
    assert_eq!(app.connect_companion(), Ok(7));

    let mut table = absent_table();
    table.connect_companion = Some(9);
    let server = ZygiskApi::from_raw(table, LifecyclePhase::PreServerSpecialize);
    assert_eq!(server.connect_companion(), Ok(9));
}

#[test]
fn connect_companion_fails_outside_pre_specialize() {
    for phase in [
        LifecyclePhase::Load,
        LifecyclePhase::PostAppSpecialize,
        LifecyclePhase::PostServerSpecialize,
    ] {
        let mut table = absent_table();
        table.connect_companion = Some(7);
        let api = ZygiskApi::from_raw(table, phase);
        assert!(api.connect_companion().is_err());
    }
}

#[test]
fn connect_companion_reports_host_failure() {
    let mut table = absent_table();
    table.connect_companion = Some(-1);
    let api = ZygiskApi::from_raw(table, LifecyclePhase::PreAppSpecialize);
    let failed = api.connect_companion();
    assert_eq!(failed, Err(ZygiskError));
    assert_eq!(failed.unwrap_err().message(), "companion connection failed");
}

#[test]
fn companion_connections_are_independent() {
    let mut left_table = absent_table();
    left_table.connect_companion = Some(7);
    let mut right_table = absent_table();
    right_table.connect_companion = Some(9);
    let left = ZygiskApi::from_raw(left_table, LifecyclePhase::PreAppSpecialize);
    let right = ZygiskApi::from_raw(right_table, LifecyclePhase::PreAppSpecialize);
    let left_fd = left.connect_companion().unwrap();
    let right_fd = right.connect_companion().unwrap();
    assert_eq!(left_fd, 7);
    assert_eq!(right_fd, 9);
    assert_ne!(left_fd, right_fd);
    assert_eq!(left.connect_companion().unwrap(), 7);
}

#[test]
fn get_module_dir_returns_host_descriptor() {
    let mut table = absent_table();
    table.get_module_dir = Some(23);
    let api = ZygiskApi::from_raw(table, LifecyclePhase::PreAppSpecialize);
    assert_eq!(api.get_module_dir(), 23);
}

#[test]
fn option_wire_codes_are_stable() {
    assert_eq!(ZygiskOption::ForceDenylistUnmount.code(), 0);
    assert_eq!(ZygiskOption::DlcloseModuleLibrary.code(), 1);
}

#[test]
fn set_option_is_delivered_when_slot_present() {
    let mut table = absent_table();
    table.set_option = true;
    let mut api = ZygiskApi::from_raw(table, LifecyclePhase::Load);
    api.set_option(ZygiskOption::ForceDenylistUnmount);
    api.set_option(ZygiskOption::DlcloseModuleLibrary);
    assert_eq!(
        api.effects.options,
        vec![ZygiskOption::ForceDenylistUnmount, ZygiskOption::DlcloseModuleLibrary]
    );
}

#[test]
fn flags_decode_recognized_patterns() {
    assert_eq!(StateFlags::from_bits(0), Some(StateFlags { bits: 0 }));
    assert_eq!(
        StateFlags::from_bits(PROCESS_GRANTED_ROOT),
        Some(StateFlags { bits: PROCESS_GRANTED_ROOT })
    );
    assert_eq!(
        StateFlags::from_bits(PROCESS_GRANTED_ROOT | PROCESS_ON_DENYLIST),
        Some(StateFlags { bits: 3 })
    );
    let flags = StateFlags::from_bits(3).unwrap();
    assert!(flags.contains(StateFlags { bits: PROCESS_ON_DENYLIST }));
    assert!(flags.contains(StateFlags::empty()));
}

#[test]
fn flags_reject_unrecognized_bits() {
    assert_eq!(StateFlags::from_bits(4), None);
    assert_eq!(StateFlags::from_bits(0x8000_0001), None);

    let mut table = absent_table();
    table.get_flags = Some(5);
    let api = ZygiskApi::from_raw(table, LifecyclePhase::PreAppSpecialize);
    assert_eq!(api.try_get_flags(), None);
}

#[test]
fn get_flags_decodes_host_pattern() {
    let mut table = absent_table();
    table.get_flags = Some(PROCESS_ON_DENYLIST);
    let api = ZygiskApi::from_raw(table, LifecyclePhase::PreAppSpecialize);
    assert_eq!(api.get_flags().bits, PROCESS_ON_DENYLIST);
    assert_eq!(api.try_get_flags(), Some(StateFlags { bits: PROCESS_ON_DENYLIST }));
}

#[test]
fn exempt_fd_takes_effect_only_pre_app_specialize() {
    let mut table = absent_table();
    table.exempt_fd = true;
    let mut api = ZygiskApi::from_raw(table, LifecyclePhase::PreAppSpecialize);
    api.exempt_fd(42);
    assert_eq!(api.effects.exempted_fds, vec![42]);

    let mut table = absent_table();
    table.exempt_fd = true;
    let mut api = ZygiskApi::from_raw(table, LifecyclePhase::PreServerSpecialize);
    api.exempt_fd(42);
    assert!(api.effects.exempted_fds.is_empty());
}
