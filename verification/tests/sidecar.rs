use hermes_shell::config::{BuildConfig, Platform};
use hermes_shell::lifecycle::{
    main_window_label, on_host_event, plugin_set, sidecar_name, startup_failure_policy,
    startup_plan, window_title, FailurePolicy, HostEvent, Plugin, StartupAction,
};
use hermes_shell::sidecar::SidecarSlot;

/// Stands for a process handle: stopping it records its id.
#[derive(Debug, PartialEq, Eq)]
struct FakeChild {
    id: u32,
}

fn stop(to_stop: Option<FakeChild>, stopped: &mut Vec<u32>) {
    if let Some(child) = to_stop {
        stopped.push(child.id);
    }
}

#[test]
fn new_slot_is_empty() {
    let slot: SidecarSlot<FakeChild> = SidecarSlot::new();
    assert!(!slot.is_present());
}

#[test]
fn store_makes_slot_present() {
    let mut slot = SidecarSlot::new();
    slot.store(FakeChild { id: 7 });
    assert!(slot.is_present());
}

#[test]
fn store_replaces_previous_handle() {
    let mut slot = SidecarSlot::new();
    slot.store(FakeChild { id: 1 });
    slot.store(FakeChild { id: 2 });
    assert_eq!(slot.terminate(), Some(FakeChild { id: 2 }));
}

#[test]
fn terminate_hands_out_the_tracked_handle() {
    let mut slot = SidecarSlot::new();
    slot.store(FakeChild { id: 42 });
    assert_eq!(slot.terminate(), Some(FakeChild { id: 42 }));
    assert!(!slot.is_present());
}

#[test]
fn terminate_on_empty_slot_does_nothing() {
    let mut slot: SidecarSlot<FakeChild> = SidecarSlot::new();
    assert_eq!(slot.terminate(), None);
    assert!(!slot.is_present());
}

#[test]
fn terminate_twice_stops_once() {
    let mut slot = SidecarSlot::new();
    slot.store(FakeChild { id: 5 });
    let mut stopped = Vec::new();
    stop(slot.terminate(), &mut stopped);
    stop(slot.terminate(), &mut stopped);
    assert_eq!(stopped, vec![5]);
    assert!(!slot.is_present());
}

#[test]
fn two_triggers_in_either_order_stop_once() {
    let orders: Vec<(HostEvent<FakeChild>, HostEvent<FakeChild>)> = vec![
        (HostEvent::WindowDestroyed, HostEvent::ExitRequested),
        (HostEvent::ExitRequested, HostEvent::WindowDestroyed),
        (HostEvent::Exit, HostEvent::WindowDestroyed),
        (HostEvent::ExitRequested, HostEvent::Exit),
    ];
    for (first, second) in orders {
        let mut slot = SidecarSlot::new();
        slot.store(FakeChild { id: 9 });
        let mut stopped = Vec::new();
        stop(on_host_event(&mut slot, first), &mut stopped);
        stop(on_host_event(&mut slot, second), &mut stopped);
        assert_eq!(stopped, vec![9]);
        assert!(!slot.is_present());
    }
}

#[test]
fn other_events_leave_the_slot_alone() {
    let mut slot = SidecarSlot::new();
    slot.store(FakeChild { id: 3 });
    assert_eq!(on_host_event(&mut slot, HostEvent::Other), None);
    assert!(slot.is_present());
    let mut empty: SidecarSlot<FakeChild> = SidecarSlot::new();
    assert_eq!(on_host_event(&mut empty, HostEvent::Other), None);
    assert!(!empty.is_present());
}

#[test]
fn spawned_event_populates_without_stopping() {
    let mut slot = SidecarSlot::new();
    assert_eq!(on_host_event(&mut slot, HostEvent::SidecarSpawned(FakeChild { id: 11 })), None);
    assert!(slot.is_present());
}

#[test]
fn shutdown_signal_on_empty_slot_stops_nothing() {
    let mut slot: SidecarSlot<FakeChild> = SidecarSlot::new();
    assert_eq!(on_host_event(&mut slot, HostEvent::WindowDestroyed), None);
    assert_eq!(on_host_event(&mut slot, HostEvent::ExitRequested), None);
    assert_eq!(on_host_event(&mut slot, HostEvent::Exit), None);
    assert!(!slot.is_present());
}

#[test]
fn desktop_plan_spawns_exactly_once() {
    for deep_link in [false, true] {
        let plan = startup_plan(&BuildConfig::new(Platform::Desktop, false, deep_link));
        let spawns = plan.iter().filter(|a| **a == StartupAction::SpawnSidecar).count();
        assert_eq!(spawns, 1);
    }
}

#[test]
fn desktop_plan_without_deep_link() {
    let plan = startup_plan(&BuildConfig::new(Platform::Desktop, true, false));
    assert_eq!(plan, vec![StartupAction::SetWindowTitle, StartupAction::SpawnSidecar]);
}

#[test]
fn desktop_plan_with_deep_link() {
    let plan = startup_plan(&BuildConfig::new(Platform::Desktop, false, true));
    assert_eq!(
        plan,
        vec![
            StartupAction::SetWindowTitle,
            StartupAction::RegisterUrlScheme,
            StartupAction::SpawnSidecar,
        ]
    );
}

#[test]
fn mobile_plan_is_empty() {
    for deep_link in [false, true] {
        let plan = startup_plan(&BuildConfig::new(Platform::Mobile, true, deep_link));
        assert_eq!(plan, Vec::<StartupAction>::new());
    }
}

#[test]
fn config_keeps_its_switches() {
    let config = BuildConfig::new(Platform::Desktop, true, false);
    assert_eq!(config.platform, Platform::Desktop);
    assert!(config.debug_tools);
    assert!(!config.deep_link);
    assert!(config.is_desktop());
    assert!(!BuildConfig::new(Platform::Mobile, false, true).is_desktop());
}

#[test]
fn startup_failures_follow_the_policy() {
    assert_eq!(startup_failure_policy(StartupAction::SetWindowTitle), FailurePolicy::Abort);
    assert_eq!(startup_failure_policy(StartupAction::SpawnSidecar), FailurePolicy::Abort);
    assert_eq!(startup_failure_policy(StartupAction::RegisterUrlScheme), FailurePolicy::Propagate);
}

#[test]
fn fixed_names() {
    assert_eq!(main_window_label(), "main");
    assert_eq!(window_title(), "Hermes");
    assert_eq!(sidecar_name(), "hermes-server");
}

#[test]
fn end_to_end_lifecycle() {
    let config = BuildConfig::new(Platform::Desktop, false, false);
    let mut slot: SidecarSlot<FakeChild> = SidecarSlot::new();
    let mut stopped = Vec::new();
    let mut spawned = 0u32;
    for action in startup_plan(&config) {
        if action == StartupAction::SpawnSidecar {
            spawned += 1;
            let child = FakeChild { id: 100 + spawned };
            stop(on_host_event(&mut slot, HostEvent::SidecarSpawned(child)), &mut stopped);
        }
    }
    assert_eq!(spawned, 1);
    assert!(slot.is_present());
    assert_eq!(stopped, Vec::<u32>::new());

    stop(on_host_event(&mut slot, HostEvent::WindowDestroyed), &mut stopped);
    assert!(!slot.is_present());
    assert_eq!(stopped, vec![101]);

    stop(on_host_event(&mut slot, HostEvent::ExitRequested), &mut stopped);
    assert!(!slot.is_present());
    assert_eq!(stopped, vec![101]);
}

#[test]
fn plugin_set_without_deep_link() {
    let plugins = plugin_set(&BuildConfig::new(Platform::Desktop, false, false));
    assert_eq!(plugins, vec![Plugin::Store, Plugin::Shell, Plugin::Os]);
}

#[test]
fn plugin_set_with_deep_link() {
    let plugins = plugin_set(&BuildConfig::new(Platform::Mobile, true, true));
    assert_eq!(plugins, vec![Plugin::Store, Plugin::Shell, Plugin::Os, Plugin::DeepLink]);
}
