//! Initialization, start and stop of collection.

use super::ap::ApTriggerConfig;
use super::sta::StaOperationMode;
use crate::config::CSIConfig;
use vstd::prelude::*;

verus! {

/// The roles in which the radio connects.
#[derive(Debug, Clone, Copy, PartialEq, Eq, Structural)]
pub enum ConnectionType {
    /// A station.
    Client,
    /// An access point.
    AccessPoint,
    /// Both at once.
    Mixed,
}

/// A step of a device's initialization. `Q` is what it has the radio configured with.
#[derive(Debug, PartialEq)]
pub enum InitStep<Q> {
    /// Create the access point's network stack with this address, prefix length and gateway.
    CreateApStack { address: [u8; 4], prefix_len: u8, gateway: [u8; 4] },
    /// Create the station's network stack, whose address is assigned over DHCP.
    CreateStaStack,
    /// Spawn the task that runs the access point's network stack.
    SpawnApNetwork,
    /// Spawn the task that runs the station's network stack.
    SpawnStaNetwork,
    /// Load this configuration of the radio, for this role.
    Configure { conn_type: ConnectionType, config: Q },
    /// Start the radio.
    StartWifi,
    /// Connect to the access point.
    ConnectWifi,
    /// Acquire an address over DHCP.
    RunDhcpClient,
    /// Capture the time from a time server.
    RunNtpSync,
    /// Spawn the DHCP server, which hands out this gateway.
    SpawnDhcpServer { gateway: [u8; 4] },
    /// Spawn the task that manages the access point's connections.
    SpawnApConnection,
    /// Wait until an address was acquired.
    AwaitDhcp,
    /// Spawn the task that sends triggers.
    SpawnApTrigger(ApTriggerConfig),
    /// Spawn the task that receives CSI messages on this port.
    SpawnApReceiver { local_port: u16 },
    /// Spawn the task that processes captured packets.
    SpawnProcessing,
    /// Spawn the task that manages the station's connection.
    SpawnStaConnection,
    /// Spawn the task that sends the station's triggers or messages.
    SpawnStaNetworkOps(StaOperationMode),
    /// Follow the sequence numbers of triggers.
    FollowSequenceNumbers,
    /// Spawn the task that hears triggers.
    SpawnSequenceSync,
    /// Let the radio hear every packet.
    SetPromiscuous,
    /// Spawn the task that captures CSI of every packet.
    SpawnSniffer,
}

/// What a device that captures CSI asks for when it starts collection.
#[derive(Debug, Clone, Copy, PartialEq)]
pub struct CaptureRequest {
    /// The CSI collection parameters, which the task that holds the controller waits for.
    pub csi_config: CSIConfig,
    /// The only address whose packets are to be captured, if one is set.
    pub mac_filter: Option<[u8; 6]>,
}

/// What a device asks for when it starts collection. `Q` is what it has the radio configured
/// with.
pub struct StartRequest<Q> {
    /// The role to connect in.
    pub conn_type: ConnectionType,
    /// The configuration to load.
    pub config: Q,
    /// What is to be captured, if the device captures CSI itself.
    pub capture: Option<CaptureRequest>,
}

/// A step of the start of collection.
#[derive(Debug, Clone, Copy, PartialEq, Eq, Structural)]
pub enum StartStep {
    /// Load the radio's configuration.
    Configure,
    /// Ask whether the radio is started.
    QueryStarted,
    /// Start the radio.
    StartWifi,
    /// Ask whether the radio is connected.
    QueryConnected,
    /// Connect to the access point.
    ConnectWifi,
    /// Signal the tasks that collection starts.
    SignalStart,
    /// Nothing is left to do.
    Finished,
}

/// The step behind `step`. The radio is started, and connected, where it does not say that
/// it is; a mere access point does not connect.
pub open spec fn step_after(
    conn_type: ConnectionType,
    step: StartStep,
    reply: bool,
) -> StartStep {
    match step {
        StartStep::Configure => StartStep::QueryStarted,
        StartStep::QueryStarted => if reply {
            StartStep::QueryConnected
        } else {
            StartStep::StartWifi
        },
        StartStep::StartWifi => StartStep::QueryConnected,
        StartStep::QueryConnected => if reply || conn_type == ConnectionType::AccessPoint {
            StartStep::SignalStart
        } else {
            StartStep::ConnectWifi
        },
        StartStep::ConnectWifi => StartStep::SignalStart,
        StartStep::SignalStart => StartStep::Finished,
        StartStep::Finished => StartStep::Finished,
    }
}

/// Starts collection, one step at a time, from [`StartStep::Configure`]. `reply` is what the
/// radio said where the step was a question.
pub fn start_collection(conn_type: ConnectionType, step: StartStep, reply: bool) -> (next:
    StartStep)
    ensures
        next == step_after(conn_type, step, reply),
{
    match step {
        StartStep::Configure => StartStep::QueryStarted,
        StartStep::QueryStarted => if reply {
            StartStep::QueryConnected
        } else {
            StartStep::StartWifi
        },
        StartStep::StartWifi => StartStep::QueryConnected,
        StartStep::QueryConnected => if reply {
            StartStep::SignalStart
        } else {
            match conn_type {
                ConnectionType::AccessPoint => StartStep::SignalStart,
                ConnectionType::Client | ConnectionType::Mixed => StartStep::ConnectWifi,
            }
        },
        StartStep::ConnectWifi => StartStep::SignalStart,
        StartStep::SignalStart => StartStep::Finished,
        StartStep::Finished => StartStep::Finished,
    }
}

/// How many steps are left at most.
pub open spec fn steps_left(step: StartStep) -> nat {
    match step {
        StartStep::Configure => 6,
        StartStep::QueryStarted => 5,
        StartStep::StartWifi => 4,
        StartStep::QueryConnected => 3,
        StartStep::ConnectWifi => 2,
        StartStep::SignalStart => 1,
        StartStep::Finished => 0,
    }
}

/// The steps from `step` on, with the answers that the radio gives.
pub open spec fn steps_from(
    conn_type: ConnectionType,
    step: StartStep,
    started: bool,
    connected: bool,
) -> Seq<StartStep>
    decreases steps_left(step),
{
    if step == StartStep::Finished {
        seq![]
    } else {
        let reply = if step == StartStep::QueryStarted {
            started
        } else {
            connected
        };
        seq![step] + steps_from(conn_type, step_after(conn_type, step, reply), started, connected)
    }
}

/// The start of collection loads the configuration, starts the radio if it is not started,
/// connects it if it is not connected and is no mere access point, and signals the tasks
/// last.
pub proof fn start_steps(conn_type: ConnectionType, started: bool, connected: bool)
    ensures
        steps_from(conn_type, StartStep::Configure, started, connected) == seq![
            StartStep::Configure,
            StartStep::QueryStarted,
        ] + (if started {
            seq![]
        } else {
            seq![StartStep::StartWifi]
        }) + seq![StartStep::QueryConnected] + (if connected || conn_type
            == ConnectionType::AccessPoint {
            seq![]
        } else {
            seq![StartStep::ConnectWifi]
        }) + seq![StartStep::SignalStart],
{
    reveal_with_fuel(steps_from, 7);
}

/// A step of the stop of collection.
#[derive(Debug, Clone, Copy, PartialEq, Eq, Structural)]
pub enum StopStep {
    /// Signal the tasks that collection stops.
    SignalStop,
    /// Wait until the controller was handed back.
    AwaitHalted,
    /// Take the controller that was handed back, and give it to the caller.
    RecaptureController,
}

/// Stops collection: the steps to take, in order.
pub fn stop_collection() -> (steps: [StopStep; 2])
    ensures
        steps@ == seq![StopStep::SignalStop, StopStep::AwaitHalted],
{
    [StopStep::SignalStop, StopStep::AwaitHalted]
}

/// A start that is finished stays finished, and it takes at most six steps to finish.
pub proof fn start_finishes(conn_type: ConnectionType, step: StartStep, reply: bool)
    ensures
        step is Finished ==> step_after(conn_type, step, reply) is Finished,
        !(step is Finished) ==> steps_left(step_after(conn_type, step, reply)) < steps_left(step)
            <= 6,
{
}

/// The radio is asked before it is started or connected, and is started or connected only
/// where it says no; the tasks are signalled whatever it says.
pub proof fn start_asks_first(conn_type: ConnectionType, step: StartStep, reply: bool)
    ensures
        step_after(conn_type, step, reply) is StartWifi <==> step is QueryStarted && !reply,
        step_after(conn_type, step, reply) is ConnectWifi <==> step is QueryConnected && !reply && (
        conn_type is Client || conn_type is Mixed),
        step_after(conn_type, step, reply) is QueryStarted <==> step is Configure,
        step_after(conn_type, step, reply) is QueryConnected <==> step is StartWifi || (step
            is QueryStarted && reply),
        !(step_after(conn_type, step, reply) is Configure),
{
}

} // verus!
