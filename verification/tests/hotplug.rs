use uefi_input2::hotplug::{initial_scan, plan_pass, HotplugMode, Pass, SearchScope};

#[test]
fn notify_mode_rescans_only_when_dirty() {
    assert_eq!(initial_scan(HotplugMode::Notify), SearchScope::ByProtocol);
    assert_eq!(
        plan_pass(HotplugMode::Notify, true),
        Pass { clear_dirty: true, rescan: Some(SearchScope::ByProtocol), run_update: true, run_tick: true }
    );
    assert_eq!(
        plan_pass(HotplugMode::Notify, false),
        Pass { clear_dirty: false, rescan: None, run_update: false, run_tick: true }
    );
}

#[test]
fn polling_mode_rescans_all_handles_every_pass() {
    assert_eq!(initial_scan(HotplugMode::Polling), SearchScope::AllHandles);
    for dirty in [false, true] {
        assert_eq!(
            plan_pass(HotplugMode::Polling, dirty),
            Pass { clear_dirty: false, rescan: Some(SearchScope::AllHandles), run_update: true, run_tick: true }
        );
    }
}
