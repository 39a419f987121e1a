//! The tasks that hold the radio's controller while collection runs.
//!
//! Each waits for the start signal, takes the controller, and hands it back at the stop
//! signal.

use crate::config::{build_csi_config, driver_config, CSIConfig, CsiConfig};
use crate::ticks::ticks_from_millis;
use vstd::prelude::*;

verus! {

/// Ticks to wait before looking for the start signal again.
pub const START_POLL_TICKS: u64 = 100_000;

/// Where a connection task stands.
#[derive(Debug, Clone, Copy, PartialEq, Eq, Structural)]
pub enum TaskState {
    /// Waiting for the start signal.
    Idle,
    /// Waiting for the controller.
    Acquiring,
    /// Holding the controller, waiting for the CSI configuration.
    Configuring,
    /// Holding the controller while collection runs.
    Active,
}

impl TaskState {
    /// Whether the task holds the controller.
    pub open spec fn holds_controller(self) -> bool {
        self is Configuring || self is Active
    }
}

/// What the radio reports of a link.
#[derive(Debug, Clone, Copy, PartialEq, Eq, Structural)]
pub struct LinkEvents {
    /// A station connected.
    pub connected: bool,
    /// A station, or this one, disconnected.
    pub disconnected: bool,
    /// This station stopped.
    pub stopped: bool,
}

/// What can happen to a connection task.
#[derive(Debug, Clone, Copy, PartialEq, Eq, Structural)]
pub enum TaskEvent {
    /// Collection is to run, or not to run.
    Signal(bool),
    /// The controller was received.
    ControllerReceived,
    /// The CSI configuration was received.
    ConfigReceived(CSIConfig),
    /// The radio reported events.
    Link(LinkEvents),
}

/// What a connection task is to do.
#[derive(Debug, Clone, Copy, PartialEq, Eq, Structural)]
pub enum TaskAction {
    /// Wait for a signal.
    AwaitSignal,
    /// Pause that many ticks, then wait for a signal.
    Pause(u64),
    /// Wait for the controller.
    ReceiveController,
    /// Wait for the CSI configuration.
    ReceiveConfig,
    /// Set the controller to capture CSI like this, then wait for events and signals.
    ApplyConfig(CsiConfig),
    /// Wait for events and signals.
    Listen,
    /// Report these events on the console, then wait for events and signals.
    Report(LinkEvents),
    /// Take the steps of [`return_controller`], then wait for a signal.
    ReturnController,
}

/// A step of handing the controller back.
#[derive(Debug, Clone, Copy, PartialEq, Eq, Structural)]
pub enum ReturnStep {
    /// Put the controller where others can take it.
    SendController,
    /// Tell those who wait for it that collection halted.
    SignalHalted,
}

/// Hands the controller back: the steps to take, in order. Who is told that collection
/// halted finds the controller there to take.
pub fn return_controller() -> (steps: [ReturnStep; 2])
    ensures
        steps@ == seq![ReturnStep::SendController, ReturnStep::SignalHalted],
{
    [ReturnStep::SendController, ReturnStep::SignalHalted]
}

/// What a task in `state` waits for.
pub open spec fn waiting(state: TaskState) -> TaskAction {
    match state {
        TaskState::Idle => TaskAction::AwaitSignal,
        TaskState::Acquiring => TaskAction::ReceiveController,
        TaskState::Configuring => TaskAction::ReceiveConfig,
        TaskState::Active => TaskAction::Listen,
    }
}

fn wait_on(state: TaskState) -> (action: TaskAction)
    ensures
        action == waiting(state),
{
    match state {
        TaskState::Idle => TaskAction::AwaitSignal,
        TaskState::Acquiring => TaskAction::ReceiveController,
        TaskState::Configuring => TaskAction::ReceiveConfig,
        TaskState::Active => TaskAction::Listen,
    }
}

/// What the access point's connection task does. Any signal while it is active halts it.
pub open spec fn ap_connection_step(state: TaskState, event: TaskEvent) -> (
    TaskState,
    TaskAction,
) {
    match (state, event) {
        (TaskState::Idle, TaskEvent::Signal(true)) => (
            TaskState::Acquiring,
            TaskAction::ReceiveController,
        ),
        (TaskState::Idle, TaskEvent::Signal(false)) => (
            TaskState::Idle,
            TaskAction::Pause(START_POLL_TICKS),
        ),
        (TaskState::Acquiring, TaskEvent::ControllerReceived) => (
            TaskState::Active,
            TaskAction::Listen,
        ),
        (TaskState::Active, TaskEvent::Link(events)) => (
            TaskState::Active,
            TaskAction::Report(LinkEvents { stopped: false, ..events }),
        ),
        (TaskState::Active, TaskEvent::Signal(_)) => (
            TaskState::Idle,
            TaskAction::ReturnController,
        ),
        _ => (state, waiting(state)),
    }
}

/// Manages the access point's connections.
pub fn ap_connection(state: TaskState, event: TaskEvent) -> (next: (TaskState, TaskAction))
    ensures
        next == ap_connection_step(state, event),
{
    match (state, event) {
        (TaskState::Idle, TaskEvent::Signal(true)) => (
            TaskState::Acquiring,
            TaskAction::ReceiveController,
        ),
        (TaskState::Idle, TaskEvent::Signal(false)) => (
            TaskState::Idle,
            TaskAction::Pause(ticks_from_millis(100)),
        ),
        (TaskState::Acquiring, TaskEvent::ControllerReceived) => (
            TaskState::Active,
            TaskAction::Listen,
        ),
        (TaskState::Active, TaskEvent::Link(events)) => (
            TaskState::Active,
            TaskAction::Report(
                LinkEvents {
                    connected: events.connected,
                    disconnected: events.disconnected,
                    stopped: false,
                },
            ),
        ),
        (TaskState::Active, TaskEvent::Signal(_)) => (
            TaskState::Idle,
            TaskAction::ReturnController,
        ),
        _ => (state, wait_on(state)),
    }
}

/// What the station's connection task does, in either operation mode. It sets up CSI capture
/// before it waits for events; only the stop signal halts it.
pub open spec fn sta_connection_step(state: TaskState, event: TaskEvent) -> (
    TaskState,
    TaskAction,
) {
    match (state, event) {
        (TaskState::Idle, TaskEvent::Signal(true)) => (
            TaskState::Acquiring,
            TaskAction::ReceiveController,
        ),
        (TaskState::Idle, TaskEvent::Signal(false)) => (
            TaskState::Idle,
            TaskAction::Pause(START_POLL_TICKS),
        ),
        (TaskState::Acquiring, TaskEvent::ControllerReceived) => (
            TaskState::Configuring,
            TaskAction::ReceiveConfig,
        ),
        (TaskState::Configuring, TaskEvent::ConfigReceived(config)) => (
            TaskState::Active,
            TaskAction::ApplyConfig(driver_config(config)),
        ),
        (TaskState::Active, TaskEvent::Link(events)) => (
            TaskState::Active,
            TaskAction::Report(LinkEvents { connected: false, ..events }),
        ),
        (TaskState::Active, TaskEvent::Signal(false)) => (
            TaskState::Idle,
            TaskAction::ReturnController,
        ),
        _ => (state, waiting(state)),
    }
}

/// Manages the station's connection.
pub fn sta_connection(state: TaskState, event: TaskEvent) -> (next: (TaskState, TaskAction))
    ensures
        next == sta_connection_step(state, event),
{
    match (state, event) {
        (TaskState::Idle, TaskEvent::Signal(true)) => (
            TaskState::Acquiring,
            TaskAction::ReceiveController,
        ),
        (TaskState::Idle, TaskEvent::Signal(false)) => (
            TaskState::Idle,
            TaskAction::Pause(ticks_from_millis(100)),
        ),
        (TaskState::Acquiring, TaskEvent::ControllerReceived) => (
            TaskState::Configuring,
            TaskAction::ReceiveConfig,
        ),
        (TaskState::Configuring, TaskEvent::ConfigReceived(config)) => (
            TaskState::Active,
            TaskAction::ApplyConfig(build_csi_config(config)),
        ),
        (TaskState::Active, TaskEvent::Link(events)) => (
            TaskState::Active,
            TaskAction::Report(
                LinkEvents {
                    connected: false,
                    disconnected: events.disconnected,
                    stopped: events.stopped,
                },
            ),
        ),
        (TaskState::Active, TaskEvent::Signal(false)) => (
            TaskState::Idle,
            TaskAction::ReturnController,
        ),
        _ => (state, wait_on(state)),
    }
}

/// What the sniffer's task does. A start signal while it is active makes it take a new CSI
/// configuration; a stop signal halts it.
pub open spec fn sniffer_step(state: TaskState, event: TaskEvent) -> (TaskState, TaskAction) {
    match (state, event) {
        (TaskState::Idle, TaskEvent::Signal(true)) => (
            TaskState::Acquiring,
            TaskAction::ReceiveController,
        ),
        (TaskState::Idle, TaskEvent::Signal(false)) => (
            TaskState::Idle,
            TaskAction::Pause(START_POLL_TICKS),
        ),
        (TaskState::Acquiring, TaskEvent::ControllerReceived) => (
            TaskState::Configuring,
            TaskAction::ReceiveConfig,
        ),
        (TaskState::Configuring, TaskEvent::ConfigReceived(config)) => (
            TaskState::Active,
            TaskAction::ApplyConfig(driver_config(config)),
        ),
        (TaskState::Active, TaskEvent::Signal(true)) => (
            TaskState::Configuring,
            TaskAction::ReceiveConfig,
        ),
        (TaskState::Active, TaskEvent::Signal(false)) => (
            TaskState::Idle,
            TaskAction::ReturnController,
        ),
        _ => (state, waiting(state)),
    }
}

/// Captures CSI of every packet.
pub fn sniffer_task(state: TaskState, event: TaskEvent) -> (next: (TaskState, TaskAction))
    ensures
        next == sniffer_step(state, event),
{
    match (state, event) {
        (TaskState::Idle, TaskEvent::Signal(true)) => (
            TaskState::Acquiring,
            TaskAction::ReceiveController,
        ),
        (TaskState::Idle, TaskEvent::Signal(false)) => (
            TaskState::Idle,
            TaskAction::Pause(ticks_from_millis(100)),
        ),
        (TaskState::Acquiring, TaskEvent::ControllerReceived) => (
            TaskState::Configuring,
            TaskAction::ReceiveConfig,
        ),
        (TaskState::Configuring, TaskEvent::ConfigReceived(config)) => (
            TaskState::Active,
            TaskAction::ApplyConfig(build_csi_config(config)),
        ),
        (TaskState::Active, TaskEvent::Signal(true)) => (
            TaskState::Configuring,
            TaskAction::ReceiveConfig,
        ),
        (TaskState::Active, TaskEvent::Signal(false)) => (
            TaskState::Idle,
            TaskAction::ReturnController,
        ),
        _ => (state, wait_on(state)),
    }
}

/// What a connection task does on an event, for one of the tasks.
pub type Step = spec_fn(TaskState, TaskEvent) -> (TaskState, TaskAction);

/// The state that a task is in after `events`, from the start.
pub open spec fn state_after(step: Step, events: Seq<TaskEvent>) -> TaskState
    decreases events.len(),
{
    if events.len() == 0 {
        TaskState::Idle
    } else {
        step(state_after(step, events.drop_last()), events.last()).0
    }
}

/// How many times a task took the controller in the course of `events`.
pub open spec fn times_taken(step: Step, events: Seq<TaskEvent>) -> int
    decreases events.len(),
{
    if events.len() == 0 {
        0
    } else {
        times_taken(step, events.drop_last()) + if state_after(step, events.drop_last())
            is Acquiring && events.last() is ControllerReceived {
            1int
        } else {
            0int
        }
    }
}

/// How many times a task handed the controller back in the course of `events`.
pub open spec fn times_returned(step: Step, events: Seq<TaskEvent>) -> int
    decreases events.len(),
{
    if events.len() == 0 {
        0
    } else {
        times_returned(step, events.drop_last()) + if step(
            state_after(step, events.drop_last()),
            events.last(),
        ).1 is ReturnController {
            1int
        } else {
            0int
        }
    }
}

/// Whether one step of a task keeps account of the controller: it comes to be held by being
/// received, and ceases to be held by being handed back.
spec fn accounts_for_controller(step: Step) -> bool {
    forall|state: TaskState, event: TaskEvent|
        {
            let next = #[trigger] step(state, event);
            let taken = state is Acquiring && event is ControllerReceived;
            let returned = next.1 is ReturnController;
            &&& taken ==> !state.holds_controller() && next.0.holds_controller() && !returned
            &&& returned ==> state.holds_controller() && !next.0.holds_controller()
            &&& !taken && !returned ==> next.0.holds_controller() == state.holds_controller()
        }
}

/// Whether a task has handed the controller back as often as it took it in the course of
/// `events`, but for the time that it holds it.
pub open spec fn conserves_controller(step: Step, events: Seq<TaskEvent>) -> bool {
    times_taken(step, events) == times_returned(step, events) + if state_after(
        step,
        events,
    ).holds_controller() {
        1int
    } else {
        0int
    }
}

proof fn controller_balance(step: Step, events: Seq<TaskEvent>)
    requires
        accounts_for_controller(step),
    ensures
        conserves_controller(step, events),
    decreases events.len(),
{
    if events.len() > 0 {
        controller_balance(step, events.drop_last());
        let state = state_after(step, events.drop_last());
        assert(step(state, events.last()).0 == state_after(step, events));
    }
}

/// The access point's task.
pub open spec fn ap_task() -> Step {
    |state: TaskState, event: TaskEvent| ap_connection_step(state, event)
}

/// The station's task.
pub open spec fn sta_task() -> Step {
    |state: TaskState, event: TaskEvent| sta_connection_step(state, event)
}

/// The sniffer's task.
pub open spec fn sniffing_task() -> Step {
    |state: TaskState, event: TaskEvent| sniffer_step(state, event)
}

/// Whatever happens, each task hands the controller back as often as it takes it, but for
/// the time that it holds it.
pub proof fn controller_conserved(events: Seq<TaskEvent>)
    ensures
        conserves_controller(ap_task(), events),
        conserves_controller(sta_task(), events),
        conserves_controller(sniffing_task(), events),
{
    controller_balance(ap_task(), events);
    controller_balance(sta_task(), events);
    controller_balance(sniffing_task(), events);
}

/// A station or a sniffer whose task came to hold the controller captures CSI as the
/// configuration that it received says, before it waits for anything else.
pub proof fn capture_set_up(config: CSIConfig)
    ensures
        ({
            let events = seq![
                TaskEvent::Signal(true),
                TaskEvent::ControllerReceived,
                TaskEvent::ConfigReceived(config),
            ];
            let apply = (TaskState::Active, TaskAction::ApplyConfig(driver_config(config)));
            &&& sta_connection_step(
                state_after(sta_task(), events.drop_last()),
                events.last(),
            ) == apply
            &&& sniffer_step(state_after(sniffing_task(), events.drop_last()), events.last())
                == apply
        }),
{
    let events = seq![TaskEvent::Signal(true), TaskEvent::ControllerReceived];
    let all = events.push(TaskEvent::ConfigReceived(config));
    assert(all =~= seq![
        TaskEvent::Signal(true),
        TaskEvent::ControllerReceived,
        TaskEvent::ConfigReceived(config),
    ]);
    assert(all.drop_last() =~= events);
    assert(events.drop_last() =~= seq![TaskEvent::Signal(true)]);
    reveal_with_fuel(state_after, 4);
}

/// A stop signal makes each task hand the controller back if collection runs, and leaves it
/// as it was before the first start.
pub proof fn stop_returns_controller()
    ensures
        ap_connection_step(TaskState::Active, TaskEvent::Signal(false)) == (
            TaskState::Idle,
            TaskAction::ReturnController,
        ),
        sta_connection_step(TaskState::Active, TaskEvent::Signal(false)) == (
            TaskState::Idle,
            TaskAction::ReturnController,
        ),
        sniffer_step(TaskState::Active, TaskEvent::Signal(false)) == (
            TaskState::Idle,
            TaskAction::ReturnController,
        ),
{
}

/// Until the start signal no task does anything but wait: a stop signal makes it look again
/// after 100 milliseconds.
pub proof fn tasks_wait_for_start(event: TaskEvent)
    ensures
        ({
            let expected = match event {
                TaskEvent::Signal(run) => if run {
                    (TaskState::Acquiring, TaskAction::ReceiveController)
                } else {
                    (TaskState::Idle, TaskAction::Pause(100_000))
                },
                _ => (TaskState::Idle, TaskAction::AwaitSignal),
            };
            &&& ap_connection_step(TaskState::Idle, event) == expected
            &&& sta_connection_step(TaskState::Idle, event) == expected
            &&& sniffer_step(TaskState::Idle, event) == expected
        }),
{
}

/// A task that waits for the controller waits until it has it. An access point listens then;
/// a station and a sniffer, which capture CSI, ask for the parameters first.
pub proof fn tasks_wait_for_controller(event: TaskEvent)
    ensures
        event is ControllerReceived ==> {
            &&& ap_connection_step(TaskState::Acquiring, event) == (
                TaskState::Active,
                TaskAction::Listen,
            )
            &&& sta_connection_step(TaskState::Acquiring, event) == (
                TaskState::Configuring,
                TaskAction::ReceiveConfig,
            )
            &&& sniffer_step(TaskState::Acquiring, event) == (
                TaskState::Configuring,
                TaskAction::ReceiveConfig,
            )
        },
        !(event is ControllerReceived) ==> {
            let still = (TaskState::Acquiring, TaskAction::ReceiveController);
            &&& ap_connection_step(TaskState::Acquiring, event) == still
            &&& sta_connection_step(TaskState::Acquiring, event) == still
            &&& sniffer_step(TaskState::Acquiring, event) == still
        },
{
}

/// A task that waits for parameters waits until it has them, and has the driver capture with
/// just these.
pub proof fn tasks_apply_parameters(state: TaskState, event: TaskEvent)
    requires
        state is Configuring,
    ensures
        event matches TaskEvent::ConfigReceived(config) ==> sta_connection_step(state, event)
            == sniffer_step(state, event) && sta_connection_step(state, event).0 is Active
            && sta_connection_step(state, event).1 is ApplyConfig && ({
            let driver = sta_connection_step(state, event).1->ApplyConfig_0;
            &&& driver.lltf_en == config.lltf_enabled
            &&& driver.htltf_en == config.htltf_enabled
            &&& driver.stbc_htltf2_en == config.stbc_htltf2_enabled
            &&& driver.ltf_merge_en == config.ltf_merge_enabled
            &&& driver.channel_filter_en == config.channel_filter_enabled
            &&& driver.manu_scale == config.manu_scale
            &&& driver.shift == config.shift
            &&& driver.dump_ack_en == config.dump_ack_en
        }),
        !(event is ConfigReceived) ==> sta_connection_step(state, event) == (
            state,
            TaskAction::ReceiveConfig,
        ) && sniffer_step(state, event) == (state, TaskAction::ReceiveConfig),
        ap_connection_step(state, event) == (state, TaskAction::ReceiveConfig),
{
}

/// While collection runs, an access point reports the stations that come and go, and a station
/// reports that it was disconnected or stopped; the sniffer reports nothing.
pub proof fn tasks_report(events: LinkEvents)
    ensures
        ({
            let (state, action) = ap_connection_step(TaskState::Active, TaskEvent::Link(events));
            &&& state is Active
            &&& action is Report
            &&& action->Report_0.connected == events.connected
            &&& action->Report_0.disconnected == events.disconnected
            &&& !action->Report_0.stopped
        }),
        ({
            let (state, action) = sta_connection_step(TaskState::Active, TaskEvent::Link(events));
            &&& state is Active
            &&& action is Report
            &&& !action->Report_0.connected
            &&& action->Report_0.disconnected == events.disconnected
            &&& action->Report_0.stopped == events.stopped
        }),
        sniffer_step(TaskState::Active, TaskEvent::Link(events)) == (
            TaskState::Active,
            TaskAction::Listen,
        ),
{
}

/// While collection runs, a start signal halts an access point, changes nothing at a station,
/// and makes a sniffer take new parameters; what no task waits for changes nothing.
pub proof fn tasks_while_running(event: TaskEvent)
    ensures
        event == TaskEvent::Signal(true) ==> {
            &&& ap_connection_step(TaskState::Active, event) == (
                TaskState::Idle,
                TaskAction::ReturnController,
            )
            &&& sta_connection_step(TaskState::Active, event) == (
                TaskState::Active,
                TaskAction::Listen,
            )
            &&& sniffer_step(TaskState::Active, event) == (
                TaskState::Configuring,
                TaskAction::ReceiveConfig,
            )
        },
        event is ControllerReceived || event is ConfigReceived ==> {
            let still = (TaskState::Active, TaskAction::Listen);
            &&& ap_connection_step(TaskState::Active, event) == still
            &&& sta_connection_step(TaskState::Active, event) == still
            &&& sniffer_step(TaskState::Active, event) == still
        },
{
}

} // verus!
