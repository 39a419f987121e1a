//! CSI collection as a station.

use super::connection::START_POLL_TICKS;
use super::control::{
    stop_collection, CaptureRequest, ConnectionType, InitStep, StartRequest, StopStep,
};
use crate::buffers::{message_bytes, sample_values, RawMessage};
use crate::config::{default_config, CSIConfig};
use crate::csi::{format_code, CSIDataPacket};
use crate::dhcp::IpInfo;
use crate::message::{encode_csi_message, encoding, message_header_layout};
use crate::ticks::ticks_from_millis;
use crate::trigger::{
    interval_keeps_frequency, interval_ticks, trigger_addressed, trigger_bytes, trigger_interval,
    trigger_packet,
};
use vstd::prelude::*;

verus! {

/// Operation modes of a station.
#[derive(Debug, PartialEq, Copy, Clone)]
pub enum StaOperationMode {
    /// Sends trigger packets, and collects CSI locally.
    Trigger(StaTriggerConfig),
    /// Waits for trigger packets, and sends the CSI back to their source in UDP packets.
    Monitor(StaMonitorConfig),
}

/// Configuration of a station's monitor mode.
#[derive(Debug, PartialEq, Copy, Clone)]
pub struct StaMonitorConfig {
    /// The port from which messages are sent.
    pub local_port: u16,
    /// The port to which messages are sent.
    pub dest_port: u16,
}

/// Configuration of a station's trigger mode.
#[derive(Debug, PartialEq, Copy, Clone)]
pub struct StaTriggerConfig {
    /// Trigger packets in a second.
    pub trigger_freq_hz: u32,
}

impl Default for StaMonitorConfig {
    fn default() -> (config: Self)
        ensures
            config == (StaMonitorConfig { local_port: 10789, dest_port: 10789 }),
    {
        StaMonitorConfig { local_port: 10789, dest_port: 10789 }
    }
}

impl Default for StaTriggerConfig {
    fn default() -> (config: Self)
        ensures
            config == (StaTriggerConfig { trigger_freq_hz: 100 }),
    {
        StaTriggerConfig { trigger_freq_hz: 100 }
    }
}

/// A device that collects CSI as a station. `C` is the driver's configuration of a station.
pub struct CSIStation<C> {
    /// Station configuration. It is applied during initialization, and each time that
    /// collection starts.
    pub sta_config: C,
    /// Operation mode.
    pub op_mode: StaOperationMode,
    /// CSI collection parameters.
    pub csi_config: CSIConfig,
    /// Capture the time from a time server, which takes internet access at the access point.
    pub sync_time: bool,
    /// The only address whose packets are captured, if one is set.
    pub mac_filter: Option<[u8; 6]>,
}

impl<C> CSIStation<C> {
    /// Creates a station with the given configuration.
    pub fn new(
        csi_config: CSIConfig,
        sta_config: C,
        op_mode: StaOperationMode,
        mac_filter: Option<[u8; 6]>,
        sync_time: bool,
    ) -> (device: Self)
        ensures
            device == (CSIStation { sta_config, op_mode, csi_config, sync_time, mac_filter }),
    {
        CSIStation { sta_config, op_mode, csi_config, sync_time, mac_filter }
    }

    /// Creates a station in trigger mode with defaults, given the driver's default
    /// configuration. The time is not synchronized.
    pub fn new_with_defaults(driver_default: C) -> (device: Self)
        ensures
            device == (CSIStation {
                sta_config: driver_default,
                op_mode: StaOperationMode::Trigger(StaTriggerConfig { trigger_freq_hz: 100 }),
                csi_config: default_config(),
                sync_time: false,
                mac_filter: None,
            }),
    {
        CSIStation {
            sta_config: driver_default,
            op_mode: StaOperationMode::Trigger(StaTriggerConfig::default()),
            csi_config: CSIConfig::default(),
            sync_time: false,
            mac_filter: None,
        }
    }

    /// The steps that connect the station and spawn its tasks.
    pub open spec fn init_steps(&self) -> Seq<InitStep<&C>> {
        seq![
            InitStep::CreateStaStack,
            InitStep::SpawnStaNetwork,
            InitStep::Configure { conn_type: ConnectionType::Client, config: &self.sta_config },
            InitStep::StartWifi,
            InitStep::ConnectWifi,
            InitStep::RunDhcpClient,
        ] + (if self.sync_time {
            seq![InitStep::RunNtpSync]
        } else {
            seq![]
        }) + seq![
            InitStep::SpawnProcessing,
            InitStep::SpawnStaConnection,
            InitStep::SpawnStaNetworkOps(self.op_mode),
        ] + (if self.op_mode is Monitor {
            seq![InitStep::FollowSequenceNumbers, InitStep::SpawnSequenceSync]
        } else {
            seq![]
        })
    }

    /// Connects the station and spawns its tasks: the steps to take, in order.
    pub fn init(&self) -> (steps: Vec<InitStep<&C>>)
        ensures
            steps@ == self.init_steps(),
    {
        let mut steps: Vec<InitStep<&C>> = Vec::new();
        steps.push(InitStep::CreateStaStack);
        steps.push(InitStep::SpawnStaNetwork);
        steps.push(
            InitStep::Configure { conn_type: ConnectionType::Client, config: &self.sta_config },
        );
        steps.push(InitStep::StartWifi);
        steps.push(InitStep::ConnectWifi);
        steps.push(InitStep::RunDhcpClient);
        if self.sync_time {
            steps.push(InitStep::RunNtpSync);
        }
        steps.push(InitStep::SpawnProcessing);
        steps.push(InitStep::SpawnStaConnection);
        steps.push(InitStep::SpawnStaNetworkOps(self.op_mode));
        if let StaOperationMode::Monitor(_) = self.op_mode {
            steps.push(InitStep::FollowSequenceNumbers);
            steps.push(InitStep::SpawnSequenceSync);
        }
        steps
    }

    /// Whether a start asks for what the device is configured for.
    pub open spec fn starts_with(self, request: StartRequest<&C>) -> bool {
        &&& request.conn_type == ConnectionType::Client
        &&& *request.config == self.sta_config
        &&& request.capture == Some(
            CaptureRequest { csi_config: self.csi_config, mac_filter: self.mac_filter },
        )
    }

    /// Starts collection, and loads the configuration that the device has now.
    pub fn start_collection(&self) -> (request: StartRequest<&C>)
        ensures
            self.starts_with(request),
    {
        StartRequest {
            conn_type: ConnectionType::Client,
            config: &self.sta_config,
            capture: Some(
                CaptureRequest { csi_config: self.csi_config, mac_filter: self.mac_filter },
            ),
        }
    }

    /// Stops collection.
    pub fn stop_collection(&self) -> (steps: [StopStep; 2])
        ensures
            steps@ == seq![StopStep::SignalStop, StopStep::AwaitHalted],
    {
        stop_collection()
    }

    /// The device with another station configuration.
    pub open spec fn with_sta_config(self, sta_config: C) -> Self {
        CSIStation { sta_config, ..self }
    }

    /// The device with other CSI collection parameters.
    pub open spec fn with_csi_config(self, csi_config: CSIConfig) -> Self {
        CSIStation { csi_config, ..self }
    }

    /// The device with another address filter.
    pub open spec fn with_mac_filter(self, mac_filter: Option<[u8; 6]>) -> Self {
        CSIStation { mac_filter, ..self }
    }

    /// A start after updates loads the new configuration, parameters and filter, in either
    /// operation mode. Nothing need be initialized again: initialization would differ in that
    /// configuration only.
    pub proof fn start_loads_update(
        self,
        sta_config: C,
        csi_config: CSIConfig,
        mac_filter: Option<[u8; 6]>,
        request: StartRequest<&C>,
    )
        requires
            self.with_sta_config(sta_config).with_csi_config(csi_config).with_mac_filter(
                mac_filter,
            ).starts_with(request),
        ensures
            *request.config == sta_config,
            request.capture == Some(CaptureRequest { csi_config, mac_filter }),
            self.with_sta_config(sta_config).with_csi_config(csi_config).with_mac_filter(
                mac_filter,
            ).init_steps() == self.init_steps().update(
                2,
                InitStep::Configure { conn_type: request.conn_type, config: request.config },
            ),
    {
    }

    /// Replaces the station configuration.
    pub fn update_sta_config(&mut self, sta_config: C)
        ensures
            *final(self) == old(self).with_sta_config(sta_config),
    {
        self.sta_config = sta_config;
    }

    /// Replaces the CSI collection parameters.
    pub fn update_csi_config(&mut self, csi_config: CSIConfig)
        ensures
            *final(self) == old(self).with_csi_config(csi_config),
    {
        self.csi_config = csi_config;
    }

    /// Replaces the address filter.
    pub fn update_mac_filter(&mut self, mac_filter: Option<[u8; 6]>)
        ensures
            *final(self) == old(self).with_mac_filter(mac_filter),
    {
        self.mac_filter = mac_filter;
    }
}

/// The trigger packet that a station sends to its gateway.
pub fn sta_trigger_packet(ip_info: &IpInfo) -> (packet: [u8; 64])
    ensures
        packet@ == trigger_bytes(ip_info.local_address@, ip_info.gateway_address@, 0),
{
    trigger_packet(ip_info.local_address, ip_info.gateway_address, 0)
}

/// Where the network task stands.
#[derive(Debug, Clone, Copy, PartialEq, Eq, Structural)]
pub enum NetworkState {
    /// Waiting for the start signal.
    Idle,
    /// Sending triggers or messages.
    Running,
}

/// What can happen to the network task.
pub enum NetworkEvent<'a> {
    /// Collection is to run, or not to run.
    Signal(bool),
    /// The timer expired.
    TimerExpired,
    /// A packet was processed.
    Processed(&'a CSIDataPacket),
}

/// What the network task is to do.
#[derive(Debug, Clone, Copy, PartialEq)]
pub enum NetworkAction {
    /// Wait for a signal.
    AwaitSignal,
    /// Pause that many ticks, then wait for a signal.
    Pause(u64),
    /// Arm the timer for that many ticks, then wait for it and for signals.
    ArmTimer(u64),
    /// Send the packet, then arm the timer for the interval and wait for it and for signals.
    SendTrigger { packet: [u8; 64], interval: u64 },
    /// Wait for a processed packet and for signals.
    AwaitPacket,
    /// Send the message from the local port to the gateway's port, then wait for a processed
    /// packet and for signals.
    SendMessage { local_port: u16, gateway: [u8; 4], dest_port: u16 },
}

/// What the network task waits for while it runs.
pub open spec fn running_wait(op_mode: StaOperationMode) -> NetworkAction {
    match op_mode {
        StaOperationMode::Trigger(config) => NetworkAction::ArmTimer(
            interval_ticks(config.trigger_freq_hz),
        ),
        StaOperationMode::Monitor(_) => NetworkAction::AwaitPacket,
    }
}

/// The state of the network task after `event`: it runs as the last signal said.
pub open spec fn next_network_state(state: NetworkState, event: NetworkEvent<'_>) -> NetworkState {
    match event {
        NetworkEvent::Signal(true) => NetworkState::Running,
        NetworkEvent::Signal(false) => NetworkState::Idle,
        _ => state,
    }
}

/// Whether `action` is what the network task does on `event`. In trigger mode it sends a
/// trigger to the gateway each time that the timer expires; in monitor mode it returns each
/// processed packet to the gateway.
pub open spec fn is_network_action(
    op_mode: StaOperationMode,
    ip_info: IpInfo,
    state: NetworkState,
    event: NetworkEvent<'_>,
    action: NetworkAction,
) -> bool {
    match (state, event) {
        (NetworkState::Idle, NetworkEvent::Signal(true)) => action == running_wait(op_mode),
        (NetworkState::Idle, NetworkEvent::Signal(false)) => action == NetworkAction::Pause(
            START_POLL_TICKS,
        ),
        (NetworkState::Idle, _) => action == NetworkAction::AwaitSignal,
        (NetworkState::Running, NetworkEvent::Signal(true)) => action == running_wait(op_mode),
        (NetworkState::Running, NetworkEvent::Signal(false)) => action
            == NetworkAction::AwaitSignal,
        (NetworkState::Running, NetworkEvent::TimerExpired) => match op_mode {
            StaOperationMode::Trigger(config) => {
                &&& action matches NetworkAction::SendTrigger { packet, interval }
                &&& packet@ == trigger_bytes(
                    ip_info.local_address@,
                    ip_info.gateway_address@,
                    0,
                )
                &&& interval == interval_ticks(config.trigger_freq_hz)
            },
            StaOperationMode::Monitor(_) => action == NetworkAction::AwaitPacket,
        },
        (NetworkState::Running, NetworkEvent::Processed(_)) => match op_mode {
            StaOperationMode::Trigger(_) => action == running_wait(op_mode),
            StaOperationMode::Monitor(config) => action == (NetworkAction::SendMessage {
                local_port: config.local_port,
                gateway: ip_info.gateway_address,
                dest_port: config.dest_port,
            }),
        },
    }
}

/// Whether the network task can go on from `state` on `event`: where it is to wait for the
/// next trigger, some are to be sent.
pub open spec fn admits_network_event(
    op_mode: StaOperationMode,
    state: NetworkState,
    event: NetworkEvent<'_>,
) -> bool {
    op_mode matches StaOperationMode::Trigger(config) ==> next_network_state(state, event)
        is Running ==> config.trigger_freq_hz != 0
}

/// Whether `after` is what the message buffer holds once the network task took up `event`,
/// where it held `before`.
pub open spec fn is_message_written(
    op_mode: StaOperationMode,
    state: NetworkState,
    event: NetworkEvent<'_>,
    before: RawMessage,
    after: RawMessage,
) -> bool {
    match event {
        NetworkEvent::Processed(packet) if state is Running && op_mode is Monitor => {
            message_bytes(after) == encoding(*packet)
        },
        _ => after == before,
    }
}

/// Manages the station's traffic: triggers to the gateway, or messages with CSI, which are
/// written to `message`.
pub fn sta_network_ops(
    op_mode: StaOperationMode,
    ip_info: &IpInfo,
    state: NetworkState,
    event: NetworkEvent<'_>,
    message: &mut RawMessage,
) -> (next: (NetworkState, NetworkAction))
    requires
        admits_network_event(op_mode, state, event),
    ensures
        next.0 == next_network_state(state, event),
        is_network_action(op_mode, *ip_info, state, event, next.1),
        match event {
            NetworkEvent::Processed(packet) if state is Running && op_mode is Monitor => {
                message_bytes(*final(message)) == encoding(*packet)
            },
            _ => *final(message) == *old(message),
        },
        is_message_written(op_mode, state, event, *old(message), *final(message)),
{
    match (state, event) {
        (NetworkState::Idle, NetworkEvent::Signal(false)) => (
            NetworkState::Idle,
            NetworkAction::Pause(ticks_from_millis(100)),
        ),
        (NetworkState::Running, NetworkEvent::Signal(false)) => (
            NetworkState::Idle,
            NetworkAction::AwaitSignal,
        ),
        (_, NetworkEvent::Signal(true)) => {
            let wait = match op_mode {
                StaOperationMode::Trigger(config) => NetworkAction::ArmTimer(
                    trigger_interval(config.trigger_freq_hz),
                ),
                StaOperationMode::Monitor(_) => NetworkAction::AwaitPacket,
            };
            (NetworkState::Running, wait)
        },
        (NetworkState::Idle, _) => (NetworkState::Idle, NetworkAction::AwaitSignal),
        (NetworkState::Running, NetworkEvent::TimerExpired) => {
            let action = match op_mode {
                StaOperationMode::Trigger(config) => NetworkAction::SendTrigger {
                    packet: sta_trigger_packet(ip_info),
                    interval: trigger_interval(config.trigger_freq_hz),
                },
                StaOperationMode::Monitor(_) => NetworkAction::AwaitPacket,
            };
            (NetworkState::Running, action)
        },
        (NetworkState::Running, NetworkEvent::Processed(packet)) => match op_mode {
            StaOperationMode::Trigger(config) => (
                NetworkState::Running,
                NetworkAction::ArmTimer(trigger_interval(config.trigger_freq_hz)),
            ),
            StaOperationMode::Monitor(config) => {
                encode_csi_message(packet, message);
                let action = NetworkAction::SendMessage {
                    local_port: config.local_port,
                    gateway: ip_info.gateway_address,
                    dest_port: config.dest_port,
                };
                (NetworkState::Running, action)
            },
        },
    }
}

/// The state that the network task is in after `events`, from the start.
pub open spec fn network_state_after(events: Seq<NetworkEvent<'_>>) -> NetworkState
    decreases events.len(),
{
    if events.len() == 0 {
        NetworkState::Idle
    } else {
        next_network_state(network_state_after(events.drop_last()), events.last())
    }
}

/// Whether collection is to run after `events`: what the last signal said.
pub open spec fn network_collecting(events: Seq<NetworkEvent<'_>>) -> bool
    decreases events.len(),
{
    if events.len() == 0 {
        false
    } else {
        match events.last() {
            NetworkEvent::Signal(run) => run,
            _ => network_collecting(events.drop_last()),
        }
    }
}

/// The network task sends triggers, in trigger mode, and messages, in monitor mode, while
/// collection is to run, and at no other time.
pub proof fn traffic_while_collecting(
    op_mode: StaOperationMode,
    ip_info: IpInfo,
    events: Seq<NetworkEvent<'_>>,
    event: NetworkEvent<'_>,
    action: NetworkAction,
)
    requires
        is_network_action(op_mode, ip_info, network_state_after(events), event, action),
    ensures
        action is SendTrigger <==> {
            &&& network_collecting(events)
            &&& op_mode is Trigger
            &&& event is TimerExpired
        },
        action is SendMessage <==> {
            &&& network_collecting(events)
            &&& op_mode is Monitor
            &&& event is Processed
        },
{
    running_while_collecting(events);
}

proof fn running_while_collecting(events: Seq<NetworkEvent<'_>>)
    ensures
        network_state_after(events) is Running <==> network_collecting(events),
    decreases events.len(),
{
    if events.len() > 0 {
        running_while_collecting(events.drop_last());
    }
}

/// A station in trigger mode sends its triggers at the configured frequency: whenever it is to
/// wait for the next trigger, because collection starts, because a trigger is sent or because
/// it goes on waiting, the timer is armed for an interval of which the configured number make
/// up a second, but for less than a millisecond each.
pub proof fn station_triggers_at_frequency(
    config: StaTriggerConfig,
    ip_info: IpInfo,
    state: NetworkState,
    event: NetworkEvent<'_>,
    action: NetworkAction,
)
    requires
        config.trigger_freq_hz != 0,
        is_network_action(StaOperationMode::Trigger(config), ip_info, state, event, action),
        next_network_state(state, event) is Running,
    ensures
        ({
            let ticks = match action {
                NetworkAction::ArmTimer(ticks) => ticks as int,
                NetworkAction::SendTrigger { packet: _, interval } => interval as int,
                _ => -1int,
            };
            &&& 0 <= ticks
            &&& config.trigger_freq_hz * ticks <= 1_000_000 < config.trigger_freq_hz * (ticks
                + 1000)
            &&& ticks % 1000 == 0
        }),
        action is SendTrigger <==> state is Running && event is TimerExpired,
{
    interval_keeps_frequency(config.trigger_freq_hz);
}

/// In a run of a station in trigger mode, the timer that precedes each trigger is armed for an
/// interval of the configured frequency, and is the only wait since the trigger before or
/// since the signal to run.
pub proof fn station_trigger_preceded_by_interval(
    config: StaTriggerConfig,
    ip_info: IpInfo,
    events: Seq<NetworkEvent<'_>>,
    actions: Seq<NetworkAction>,
    i: int,
)
    requires
        config.trigger_freq_hz != 0,
        actions.len() == events.len(),
        forall|k: int|
            0 <= k < events.len() ==> is_network_action(
                StaOperationMode::Trigger(config),
                ip_info,
                network_state_after(events.take(k)),
                #[trigger] events[k],
                actions[k],
            ),
        0 <= i < events.len(),
        actions[i] is SendTrigger,
    ensures
        i > 0,
        ({
            let ticks = match actions[i - 1] {
                NetworkAction::ArmTimer(ticks) => ticks as int,
                NetworkAction::SendTrigger { packet: _, interval } => interval as int,
                _ => -1int,
            };
            &&& 0 <= ticks
            &&& config.trigger_freq_hz * ticks <= 1_000_000 < config.trigger_freq_hz * (ticks
                + 1000)
        }),
{
    assert(is_network_action(
        StaOperationMode::Trigger(config),
        ip_info,
        network_state_after(events.take(i)),
        events[i],
        actions[i],
    ));
    assert(events.take(i).len() == i);
    assert(i > 0);
    assert(events.take(i).drop_last() =~= events.take(i - 1));
    assert(events.take(i).last() == events[i - 1]);
    station_triggers_at_frequency(
        config,
        ip_info,
        network_state_after(events.take(i - 1)),
        events[i - 1],
        actions[i - 1],
    );
}

/// The trigger of a station is an echo request from its own address to its gateway, with the
/// number 0.
#[verifier::spinoff_prover]
#[verifier::rlimit(40)]
pub proof fn station_trigger_to_gateway(
    op_mode: StaOperationMode,
    ip_info: IpInfo,
    state: NetworkState,
    event: NetworkEvent<'_>,
    action: NetworkAction,
)
    requires
        is_network_action(op_mode, ip_info, state, event, action),
        action is SendTrigger,
    ensures
        ({
            let packet = action->packet@;
            &&& packet.len() == 64
            &&& packet.subrange(12, 16) == ip_info.local_address@
            &&& packet.subrange(16, 20) == ip_info.gateway_address@
            &&& packet[9] == 1 && packet[20] == 8
            &&& packet[26] == 0 && packet[27] == 0
            &&& packet == trigger_bytes(ip_info.local_address@, ip_info.gateway_address@, 0)
        }),
        op_mode is Trigger && state is Running && event is TimerExpired,
{
    trigger_addressed(action->packet@, ip_info.local_address@, ip_info.gateway_address@, 0);
}

/// A message goes from the configured port to the gateway's configured port, and a station in
/// monitor mode sends one of every packet that it processed while it runs.
pub proof fn station_message_to_gateway(
    config: StaMonitorConfig,
    ip_info: IpInfo,
    state: NetworkState,
    event: NetworkEvent<'_>,
    action: NetworkAction,
)
    requires
        is_network_action(StaOperationMode::Monitor(config), ip_info, state, event, action),
    ensures
        action is SendMessage <==> state is Running && event is Processed,
        action is SendMessage ==> action->local_port == config.local_port && action->gateway
            == ip_info.gateway_address && action->dest_port == config.dest_port,
        state is Running && event is TimerExpired ==> action is AwaitPacket,
        event == NetworkEvent::Signal(true) ==> action is AwaitPacket,
{
}

/// The network task runs as the last signal said. While it does not run it waits, a stop
/// signal making it look again after 100 milliseconds; a stop makes it wait for a signal.
pub proof fn network_task_signals(
    op_mode: StaOperationMode,
    ip_info: IpInfo,
    state: NetworkState,
    event: NetworkEvent<'_>,
    action: NetworkAction,
)
    requires
        is_network_action(op_mode, ip_info, state, event, action),
    ensures
        event matches NetworkEvent::Signal(run) ==> (next_network_state(state, event) is Running
            <==> run),
        !(event is Signal) ==> next_network_state(state, event) == state,
        state is Idle && event == NetworkEvent::Signal(false) ==> action == NetworkAction::Pause(
            100_000,
        ),
        state is Idle && !(event is Signal) ==> action is AwaitSignal,
        state is Running && event == NetworkEvent::Signal(false) ==> action is AwaitSignal,
{
}

/// The network task goes on from everywhere in monitor mode, and in trigger mode if triggers
/// are to be sent; a stop signal needs nothing.
pub proof fn network_task_goes_on(
    op_mode: StaOperationMode,
    state: NetworkState,
    event: NetworkEvent<'_>,
)
    ensures
        op_mode is Monitor ==> admits_network_event(op_mode, state, event),
        op_mode matches StaOperationMode::Trigger(config) ==> config.trigger_freq_hz > 0
            ==> admits_network_event(op_mode, state, event),
        admits_network_event(op_mode, state, NetworkEvent::Signal(false)),
{
}

impl<C> CSIStation<C> {
    /// The time is synchronized exactly where that is asked for, whatever the operation mode:
    /// right after an address was acquired, and before packets are processed.
    pub proof fn time_synchronized_if_asked(&self)
        ensures
            self.init_steps().contains(InitStep::RunNtpSync) <==> self.sync_time,
            self.sync_time ==> self.init_steps().len() > 7 && self.init_steps()[5]
                == InitStep::<&C>::RunDhcpClient && self.init_steps()[6]
                == InitStep::<&C>::RunNtpSync && self.init_steps()[7]
                == InitStep::<&C>::SpawnProcessing,
            !self.sync_time ==> self.init_steps().len() > 6 && self.init_steps()[5]
                == InitStep::<&C>::RunDhcpClient && self.init_steps()[6]
                == InitStep::<&C>::SpawnProcessing,
    {
        if self.sync_time {
            assert(self.init_steps()[6] == InitStep::<&C>::RunNtpSync);
        }
    }

    /// Initialization brings the network up, loads the device's configuration before the
    /// radio is started and connected, and acquires an address before any task is spawned
    /// that needs it. Every station processes packets, manages its connection and has the
    /// traffic of its operation mode; triggers are followed in monitor mode only.
    pub proof fn init_described(&self)
        ensures
            self.init_steps().take(6) == seq![
                InitStep::CreateStaStack,
                InitStep::SpawnStaNetwork,
                InitStep::Configure { conn_type: ConnectionType::Client, config: &self.sta_config },
                InitStep::StartWifi,
                InitStep::ConnectWifi,
                InitStep::RunDhcpClient,
            ],
            ({
                let tasks = self.init_steps().skip(
                    if self.sync_time {
                        7int
                    } else {
                        6int
                    },
                );
                &&& tasks.len() == (if self.op_mode is Monitor {
                    5int
                } else {
                    3
                })
                &&& tasks[0] == InitStep::<&C>::SpawnProcessing
                &&& tasks[1] == InitStep::<&C>::SpawnStaConnection
                &&& tasks[2] == InitStep::<&C>::SpawnStaNetworkOps(self.op_mode)
                &&& self.op_mode is Monitor ==> tasks[3] == InitStep::<&C>::FollowSequenceNumbers
                    && tasks[4] == InitStep::<&C>::SpawnSequenceSync
            }),
    {
    }

    /// A start asks for the role of a station with the device's configuration, and for
    /// capture with its parameters and filter.
    pub proof fn start_described(self, request: StartRequest<&C>)
        requires
            self.starts_with(request),
        ensures
            request.conn_type is Client,
            *request.config == self.sta_config,
            request.capture is Some,
            request.capture->0.csi_config == self.csi_config,
            request.capture->0.mac_filter == self.mac_filter,
    {
    }

    /// An update changes what it is of, and leaves the rest.
    pub proof fn update_leaves_rest(
        self,
        sta_config: C,
        csi_config: CSIConfig,
        mac_filter: Option<[u8; 6]>,
    )
        ensures
            ({
                let updated = self.with_sta_config(sta_config);
                &&& updated.sta_config == sta_config
                &&& updated.csi_config == self.csi_config
                &&& updated.mac_filter == self.mac_filter
                &&& updated.op_mode == self.op_mode
                &&& updated.sync_time == self.sync_time
            }),
            ({
                let updated = self.with_csi_config(csi_config);
                &&& updated.csi_config == csi_config
                &&& updated.sta_config == self.sta_config
                &&& updated.mac_filter == self.mac_filter
                &&& updated.op_mode == self.op_mode
                &&& updated.sync_time == self.sync_time
            }),
            ({
                let updated = self.with_mac_filter(mac_filter);
                &&& updated.mac_filter == mac_filter
                &&& updated.sta_config == self.sta_config
                &&& updated.csi_config == self.csi_config
                &&& updated.op_mode == self.op_mode
                &&& updated.sync_time == self.sync_time
            }),
    {
    }
}

/// The message that is sent is that of the packet just processed: it has the packet's number,
/// format, timestamp and as many samples, and nothing of an earlier message.
pub proof fn message_of_processed_packet(
    op_mode: StaOperationMode,
    ip_info: IpInfo,
    state: NetworkState,
    packet: CSIDataPacket,
    action: NetworkAction,
    before: RawMessage,
    after: RawMessage,
)
    requires
        is_network_action(op_mode, ip_info, state, NetworkEvent::Processed(&packet), action),
        is_message_written(op_mode, state, NetworkEvent::Processed(&packet), before, after),
    ensures
        action is SendMessage ==> ({
            let bytes = message_bytes(after);
            &&& bytes == encoding(packet)
            &&& bytes.len() == 7 + sample_values(packet.csi_data).len()
            &&& bytes[0] * 256 + bytes[1] == packet.sequence_number
            &&& bytes[2] == format_code(packet.data_format)
            &&& bytes[3] * 0x100_0000 + bytes[4] * 0x1_0000 + bytes[5] * 0x100 + bytes[6]
                == packet.timestamp
        }),
        !(action is SendMessage) ==> after == before,
{
    message_header_layout(packet);
}

} // verus!
