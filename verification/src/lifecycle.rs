//! Startup and shutdown: what the shell does at each moment the host reports.

use vstd::prelude::*;
use crate::config::BuildConfig;
use crate::sidecar::SidecarSlot;

verus! {

/// A capability the host is built with.
#[derive(Clone, Copy, Debug, PartialEq, Eq, Structural)]
pub enum Plugin {
    /// The persistent key-value store.
    Store,
    /// Process execution, which starts the backend server.
    Shell,
    /// Operating-system information.
    Os,
    /// Inbound activation through the custom URL scheme.
    DeepLink,
}

/// The capabilities of a build, in the order they are registered: the
/// store, process execution and system information always, URL activation
/// where it is switched on.
pub open spec fn spec_plugin_set(config: BuildConfig) -> Seq<Plugin> {
    if config.deep_link {
        seq![Plugin::Store, Plugin::Shell, Plugin::Os, Plugin::DeepLink]
    } else {
        seq![Plugin::Store, Plugin::Shell, Plugin::Os]
    }
}

/// The capabilities to register when the host is built.
pub fn plugin_set(config: &BuildConfig) -> (plugins: Vec<Plugin>)
    ensures
        plugins@ == spec_plugin_set(*config),
{
    let mut plugins: Vec<Plugin> = Vec::new();
    plugins.push(Plugin::Store);
    plugins.push(Plugin::Shell);
    plugins.push(Plugin::Os);
    if config.deep_link {
        plugins.push(Plugin::DeepLink);
    }
    assert(plugins@ =~= spec_plugin_set(*config));
    plugins
}

/// A step of the startup sequence, to be carried out by the host.
#[derive(Clone, Copy, Debug, PartialEq, Eq, Structural)]
pub enum StartupAction {
    /// Find the main window by its label and give it the shell's title.
    SetWindowTitle,
    /// Register the custom URL scheme for inbound activation.
    RegisterUrlScheme,
    /// Start the bundled backend server and report its handle.
    SpawnSidecar,
}

/// What a failed startup step leads to.
#[derive(Clone, Copy, Debug, PartialEq, Eq, Structural)]
pub enum FailurePolicy {
    /// Stop the process with a diagnostic.
    Abort,
    /// Hand the failure to the host as the startup's own error.
    Propagate,
}

/// The label by which the main window is found.
pub fn main_window_label() -> (label: &'static str)
    ensures
        label@ == "main"@,
{
    "main"
}

/// The title the main window is given.
pub fn window_title() -> (title: &'static str)
    ensures
        title@ == "Hermes"@,
{
    "Hermes"
}

/// The logical name under which the backend server is bundled.
pub fn sidecar_name() -> (name: &'static str)
    ensures
        name@ == "hermes-server"@,
{
    "hermes-server"
}

/// The startup sequence of a build: nothing on a mobile platform; on a
/// desktop the window title, then the URL scheme where it is switched on,
/// then the backend server.
pub open spec fn spec_startup_plan(config: BuildConfig) -> Seq<StartupAction> {
    if !config.is_desktop() {
        Seq::empty()
    } else if config.deep_link {
        seq![
            StartupAction::SetWindowTitle,
            StartupAction::RegisterUrlScheme,
            StartupAction::SpawnSidecar,
        ]
    } else {
        seq![StartupAction::SetWindowTitle, StartupAction::SpawnSidecar]
    }
}

/// How many times a plan starts the backend server.
pub open spec fn spawn_count(plan: Seq<StartupAction>) -> nat
    decreases plan.len(),
{
    if plan.len() == 0 {
        0
    } else {
        let before = spawn_count(plan.drop_last());
        if plan.last() == StartupAction::SpawnSidecar {
            before + 1
        } else {
            before
        }
    }
}

/// The steps to carry out, in order, once the main window exists.
pub fn startup_plan(config: &BuildConfig) -> (plan: Vec<StartupAction>)
    ensures
        plan@ == spec_startup_plan(*config),
{
    let mut plan: Vec<StartupAction> = Vec::new();
    if config.is_desktop() {
        plan.push(StartupAction::SetWindowTitle);
        if config.deep_link {
            plan.push(StartupAction::RegisterUrlScheme);
        }
        plan.push(StartupAction::SpawnSidecar);
    }
    assert(plan@ =~= spec_startup_plan(*config));
    plan
}

/// What the failure of a startup step leads to: a missing window or a
/// backend server that cannot be started stops the process; a URL scheme
/// that cannot be registered becomes the startup's error.
pub fn startup_failure_policy(action: StartupAction) -> (policy: FailurePolicy)
    ensures
        policy == (if action == StartupAction::RegisterUrlScheme {
            FailurePolicy::Propagate
        } else {
            FailurePolicy::Abort
        }),
{
    match action {
        StartupAction::RegisterUrlScheme => FailurePolicy::Propagate,
        StartupAction::SetWindowTitle => FailurePolicy::Abort,
        StartupAction::SpawnSidecar => FailurePolicy::Abort,
    }
}

/// Every startup starts the backend server once on a desktop, and never on
/// a mobile platform.
pub proof fn lemma_startup_spawns_once(config: BuildConfig)
    ensures
        spawn_count(spec_startup_plan(config)) == (if config.is_desktop() {
            1nat
        } else {
            0nat
        }),
{
    let plan = spec_startup_plan(config);
    reveal_with_fuel(spawn_count, 4);
    if config.is_desktop() {
        if config.deep_link {
            assert(plan.drop_last() =~= seq![
                StartupAction::SetWindowTitle,
                StartupAction::RegisterUrlScheme,
            ]);
            assert(plan.drop_last().drop_last() =~= seq![StartupAction::SetWindowTitle]);
            assert(plan.drop_last().drop_last().drop_last() =~= Seq::<StartupAction>::empty());
        } else {
            assert(plan.drop_last() =~= seq![StartupAction::SetWindowTitle]);
            assert(plan.drop_last().drop_last() =~= Seq::<StartupAction>::empty());
        }
    }
}

/// A moment of the application's life, as the host reports it.
#[derive(Debug)]
pub enum HostEvent<H> {
    /// The backend server was started; this is its handle.
    SidecarSpawned(H),
    /// The window was destroyed.
    WindowDestroyed,
    /// The application was asked to exit.
    ExitRequested,
    /// The application is exiting.
    Exit,
    /// Anything else the host reports.
    Other,
}

/// Whether an event calls for the backend server to be stopped.
pub open spec fn is_shutdown_signal<H>(event: HostEvent<H>) -> bool {
    event is WindowDestroyed || event is ExitRequested || event is Exit
}

/// The slot after an event: a started server is tracked, a shutdown signal
/// empties the slot, anything else leaves it.
pub open spec fn slot_after_event<H>(slot: Option<H>, event: HostEvent<H>) -> Option<H> {
    match event {
        HostEvent::SidecarSpawned(handle) => Some(handle),
        HostEvent::WindowDestroyed | HostEvent::ExitRequested | HostEvent::Exit => None,
        HostEvent::Other => slot,
    }
}

/// The handle that an event has a stop request sent to: the tracked one on
/// a shutdown signal, none otherwise.
pub open spec fn stopped_by_event<H>(slot: Option<H>, event: HostEvent<H>) -> Option<H> {
    if is_shutdown_signal(event) {
        slot
    } else {
        None
    }
}

/// Handles one event: updates the slot and returns the handle to send a
/// stop request to, if the event calls for one and a server is tracked.
pub fn on_host_event<H>(slot: &mut SidecarSlot<H>, event: HostEvent<H>) -> (to_stop: Option<H>)
    ensures
        final(slot)@ == slot_after_event(old(slot)@, event),
        to_stop == stopped_by_event(old(slot)@, event),
{
    match event {
        HostEvent::SidecarSpawned(handle) => {
            slot.store(handle);
            None
        },
        HostEvent::WindowDestroyed | HostEvent::ExitRequested | HostEvent::Exit => slot.terminate(),
        HostEvent::Other => None,
    }
}

/// The slot after a run of events, handled one after the other.
pub open spec fn slot_after_events<H>(slot: Option<H>, events: Seq<HostEvent<H>>) -> Option<H>
    decreases events.len(),
{
    if events.len() == 0 {
        slot
    } else {
        slot_after_event(slot_after_events(slot, events.drop_last()), events.last())
    }
}

/// The handles that a run of events has stop requests sent to, in order.
pub open spec fn stops_issued<H>(slot: Option<H>, events: Seq<HostEvent<H>>) -> Seq<H>
    decreases events.len(),
{
    if events.len() == 0 {
        Seq::empty()
    } else {
        let before = events.drop_last();
        match stopped_by_event(slot_after_events(slot, before), events.last()) {
            Some(handle) => stops_issued(slot, before).push(handle),
            None => stops_issued(slot, before),
        }
    }
}

/// How often a run of events takes the slot from empty to present.
pub open spec fn populations<H>(slot: Option<H>, events: Seq<HostEvent<H>>) -> nat
    decreases events.len(),
{
    if events.len() == 0 {
        0
    } else {
        let before = events.drop_last();
        let was = slot_after_events(slot, before);
        if was is None && slot_after_event(was, events.last()) is Some {
            populations(slot, before) + 1
        } else {
            populations(slot, before)
        }
    }
}

/// How many events of a run report a started server.
pub open spec fn spawn_events<H>(events: Seq<HostEvent<H>>) -> nat
    decreases events.len(),
{
    if events.len() == 0 {
        0
    } else if events.last() is SidecarSpawned {
        spawn_events(events.drop_last()) + 1
    } else {
        spawn_events(events.drop_last())
    }
}

/// Whether a run of events holds a shutdown signal.
pub open spec fn has_shutdown_signal<H>(events: Seq<HostEvent<H>>) -> bool {
    exists|i: int| 0 <= i < events.len() && is_shutdown_signal(#[trigger] events[i])
}

/// Two shutdown signals in a row stop the server once: the first takes the
/// handle, the second finds the slot empty, stops nothing and changes nothing.
pub proof fn lemma_second_signal_stops_nothing<H>(
    slot: Option<H>,
    first: HostEvent<H>,
    second: HostEvent<H>,
)
    requires
        is_shutdown_signal(first),
        is_shutdown_signal(second),
    ensures
        stopped_by_event(slot, first) == slot,
        stopped_by_event(slot_after_event(slot, first), second) is None,
        slot_after_event(slot_after_event(slot, first), second) == slot_after_event(slot, first),
{
}

/// Once the server is started, however many shutdown signals arrive and in
/// whatever order they are handled, exactly one stop request is issued, to
/// the tracked handle, and the slot ends empty. Without a signal nothing is
/// stopped and the slot is untouched; on an empty slot nothing is ever stopped.
pub proof fn lemma_one_stop_per_server<H>(slot: Option<H>, events: Seq<HostEvent<H>>)
    requires
        spawn_events(events) == 0,
    ensures
        has_shutdown_signal(events) ==> slot_after_events(slot, events) is None,
        !has_shutdown_signal(events) ==> slot_after_events(slot, events) == slot,
        has_shutdown_signal(events) && slot is Some ==> stops_issued(slot, events) == seq![
            slot->Some_0,
        ],
        !has_shutdown_signal(events) || slot is None ==> stops_issued(slot, events)
            == Seq::<H>::empty(),
    decreases events.len(),
{
    if events.len() > 0 {
        let before = events.drop_last();
        lemma_one_stop_per_server(slot, before);
        if has_shutdown_signal(before) {
            let i = choose|i: int| 0 <= i < before.len() && is_shutdown_signal(#[trigger] before[i]);
            assert(is_shutdown_signal(events[i]));
        }
        if is_shutdown_signal(events.last()) {
            assert(is_shutdown_signal(events[events.len() - 1]));
        }
        if has_shutdown_signal(events) {
            let i = choose|i: int| 0 <= i < events.len() && is_shutdown_signal(#[trigger] events[i]);
            if i < before.len() {
                assert(is_shutdown_signal(before[i]));
            }
        }
        if has_shutdown_signal(events) && slot is Some {
            assert(stops_issued(slot, events) =~= seq![slot->Some_0]);
        }
    }
}

/// From an empty slot, a run of events in which the server is started once
/// takes the slot from empty to present exactly once; a run in which it is
/// never started leaves the slot empty throughout.
pub proof fn lemma_populated_once<H>(events: Seq<HostEvent<H>>)
    requires
        spawn_events(events) <= 1,
    ensures
        populations(None::<H>, events) == spawn_events(events),
        spawn_events(events) == 0 ==> slot_after_events(None::<H>, events) is None,
    decreases events.len(),
{
    if events.len() > 0 {
        lemma_populated_once(events.drop_last());
    }
}

} // verus!
