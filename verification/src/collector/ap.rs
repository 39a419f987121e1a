//! CSI collection as an access point.

use super::connection::START_POLL_TICKS;
use super::control::{stop_collection, ConnectionType, InitStep, StartRequest, StopStep};
use crate::buffers::{message_bytes, message_from_slice, RawMessage, MESSAGE_CAPACITY};
use crate::csi::CSIDataPacket;
use crate::error::Error;
use crate::message::{is_message, is_reconstruction, message_read, reconstruct_csi_from_udp};
use crate::net::{address_text, address_text_injective, is_address_text, parse_ipv4};
use crate::ticks::ticks_from_millis;
use crate::trigger::{
    interval_keeps_frequency, interval_ticks, trigger_addressed, trigger_bytes, trigger_interval,
    trigger_packet,
};
use vstd::prelude::*;
use vstd::slice::slice_subrange;
use vstd::string::StringSliceAdditionalSpecFns;

verus! {

/// Length of the prefix of the access point's network.
pub const AP_PREFIX_LEN: u8 = 24;

/// The access point's own address, which is the gateway of its network.
pub open spec fn gateway() -> [u8; 4] {
    [192u8, 168, 2, 1]
}

/// The broadcast address of the access point's network.
pub open spec fn broadcast() -> [u8; 4] {
    [192u8, 168, 2, 255]
}

/// Operation modes of an access point.
#[derive(Debug, PartialEq, Copy, Clone)]
pub enum ApOperationMode {
    /// Sends trigger packets, and receives CSI in UDP packets from stations.
    Trigger(ApTriggerConfig),
    /// Leaves the triggers to a station, which collects the CSI itself.
    Monitor,
}

/// Where trigger packets go.
#[derive(Debug, PartialEq, Copy, Clone)]
pub enum TriggerType {
    /// To every station.
    Broadcast,
    /// To the station with this IPv4 address.
    Unicast(&'static str),
}

/// Configuration of an access point's trigger mode.
#[derive(Debug, PartialEq, Copy, Clone)]
pub struct ApTriggerConfig {
    /// Trigger packets in a second.
    pub trigger_freq_hz: u32,
    /// The port on which CSI messages arrive.
    pub local_port: u16,
    /// Where trigger packets go.
    pub trigger_type: TriggerType,
    /// The sequence number of the first trigger packet.
    pub trigger_seq_num: u16,
}

impl Default for ApTriggerConfig {
    fn default() -> (config: Self)
        ensures
            config == (ApTriggerConfig {
                trigger_freq_hz: 1,
                local_port: 10789,
                trigger_type: TriggerType::Broadcast,
                trigger_seq_num: 0,
            }),
    {
        ApTriggerConfig {
            trigger_freq_hz: 1,
            local_port: 10789,
            trigger_type: TriggerType::Broadcast,
            trigger_seq_num: 0,
        }
    }
}

impl ApTriggerConfig {
    /// Whether there is an address that trigger packets go to.
    pub open spec fn has_destination(self) -> bool {
        self.trigger_type matches TriggerType::Unicast(text) ==> is_address_text(text)
    }

    /// Whether the trigger task can go on from `state` on `event`: where it is to wait for the
    /// next trigger some are to be sent, and where a trigger is due there is an address that
    /// it goes to.
    pub open spec fn admits(self, state: TriggerState, event: TriggerEvent) -> bool {
        let due = state is Sending && event is TimerExpired;
        &&& due || event == TriggerEvent::Signal(true) ==> self.trigger_freq_hz != 0
        &&& due ==> self.has_destination()
    }

    /// Whether trigger packets go to `address`.
    pub open spec fn triggers(self, address: Seq<u8>) -> bool {
        match self.trigger_type {
            TriggerType::Broadcast => address == broadcast()@,
            TriggerType::Unicast(text) => address.len() == 4 && text.spec_bytes() == address_text(
                address,
            ),
        }
    }

    /// The address that trigger packets go to.
    pub open spec fn target(self) -> Seq<u8> {
        choose|address: Seq<u8>| self.triggers(address)
    }

    /// The address that trigger packets go to.
    pub fn destination(&self) -> (address: [u8; 4])
        requires
            self.has_destination(),
        ensures
            self.triggers(address@),
            address@ == self.target(),
    {
        let address: [u8; 4] = match self.trigger_type {
            TriggerType::Broadcast => [192, 168, 2, 255],
            TriggerType::Unicast(text) => parse_ipv4(text).unwrap(),
        };
        proof {
            assert(self.triggers(address@));
            one_destination(*self, address@, self.target());
        }
        address
    }
}

/// Trigger packets go to one address.
pub proof fn one_destination(config: ApTriggerConfig, one: Seq<u8>, other: Seq<u8>)
    requires
        config.triggers(one),
        config.triggers(other),
    ensures
        one == other,
{
    if config.trigger_type is Unicast {
        address_text_injective(one, other);
    }
}

/// The latest of the messages that were received, oldest first.
pub open spec fn latest(received: Seq<RawMessage>) -> Option<RawMessage> {
    if received.len() == 0 {
        None
    } else {
        Some(received.last())
    }
}

/// What an access point in `mode` gives back of a message, `received` from a station or not
/// yet received: an error in monitor mode, else the packet that the message stands for, or
/// nothing as long as there is no message.
pub open spec fn is_csi_read(
    mode: ApOperationMode,
    received: Option<RawMessage>,
    result: Result<Option<CSIDataPacket>, Error>,
) -> bool {
    match (mode, received) {
        (ApOperationMode::Monitor, _) => result == Err::<Option<CSIDataPacket>, Error>(
            Error::SystemError("get_csi_data_raw() not supported in Monitor Mode"),
        ),
        (ApOperationMode::Trigger(_), None) => result == Ok::<Option<CSIDataPacket>, Error>(None),
        (ApOperationMode::Trigger(_), Some(raw)) => if is_message(message_bytes(raw)) {
            result matches Ok(Some(packet)) && is_reconstruction(packet, message_bytes(raw))
        } else {
            result == Err::<Option<CSIDataPacket>, Error>(
                Error::SystemError("Error reconstructing recieved CSI message"),
            )
        },
    }
}

/// What an access point in `mode` gives back of a message, without looking into it.
pub open spec fn raw_read(mode: ApOperationMode, received: Option<RawMessage>) -> Result<
    Option<RawMessage>,
    Error,
> {
    match mode {
        ApOperationMode::Monitor => Err(
            Error::SystemError("get_csi_data_raw() not supported in Monitor Mode"),
        ),
        ApOperationMode::Trigger(_) => Ok(received),
    }
}

impl ApOperationMode {
    /// Reads a CSI message.
    pub(super) fn read(self, received: Option<RawMessage>) -> (result: Result<
        Option<CSIDataPacket>,
        Error,
    >)
        ensures
            is_csi_read(self, received, result),
    {
        match self {
            ApOperationMode::Monitor => Err(
                Error::SystemError("get_csi_data_raw() not supported in Monitor Mode"),
            ),
            ApOperationMode::Trigger(_) => match received {
                None => Ok(None),
                Some(raw) => match reconstruct_csi_from_udp(&raw) {
                    Ok(packet) => Ok(Some(packet)),
                    Err(_) => Err(Error::SystemError("Error reconstructing recieved CSI message")),
                },
            },
        }
    }

    /// Hands on a CSI message.
    pub(super) fn read_raw(self, received: Option<RawMessage>) -> (result: Result<
        Option<RawMessage>,
        Error,
    >)
        ensures
            result == raw_read(self, received),
    {
        match self {
            ApOperationMode::Monitor => Err(
                Error::SystemError("get_csi_data_raw() not supported in Monitor Mode"),
            ),
            ApOperationMode::Trigger(_) => Ok(received),
        }
    }
}

/// The tasks that only trigger mode has.
pub open spec fn trigger_tasks<Q>(mode: ApOperationMode) -> Seq<InitStep<Q>> {
    match mode {
        ApOperationMode::Trigger(config) => seq![
            InitStep::SpawnApTrigger(config),
            InitStep::SpawnApReceiver { local_port: config.local_port },
        ],
        ApOperationMode::Monitor => seq![],
    }
}

/// A device that makes stations collect CSI, as their access point. `A` is the driver's
/// configuration of an access point.
pub struct CSIAccessPoint<A> {
    /// Access point configuration.
    pub ap_config: A,
    /// Operation mode.
    pub op_mode: ApOperationMode,
}

impl<A> CSIAccessPoint<A> {
    /// Creates an access point with the given configuration.
    pub fn new(ap_config: A, op_mode: ApOperationMode) -> (device: Self)
        ensures
            device == (CSIAccessPoint { ap_config, op_mode }),
    {
        CSIAccessPoint { ap_config, op_mode }
    }

    /// Creates an access point in monitor mode, given the driver's default configuration.
    pub fn new_with_defaults(driver_default: A) -> (device: Self)
        ensures
            device == (CSIAccessPoint {
                ap_config: driver_default,
                op_mode: ApOperationMode::Monitor,
            }),
    {
        CSIAccessPoint { ap_config: driver_default, op_mode: ApOperationMode::Monitor }
    }

    /// The steps that initialize the radio and spawn the connection, DHCP and network tasks.
    pub open spec fn init_steps(&self) -> Seq<InitStep<&A>> {
        seq![
            InitStep::CreateApStack {
                address: gateway(),
                prefix_len: AP_PREFIX_LEN,
                gateway: gateway(),
            },
            InitStep::SpawnApNetwork,
            InitStep::Configure {
                conn_type: ConnectionType::AccessPoint,
                config: &self.ap_config,
            },
            InitStep::StartWifi,
            InitStep::SpawnDhcpServer { gateway: gateway() },
            InitStep::SpawnApConnection,
        ] + trigger_tasks(self.op_mode)
    }

    /// Initializes the radio and the tasks: the steps to take, in order.
    pub fn init(&self) -> (steps: Vec<InitStep<&A>>)
        ensures
            steps@ == self.init_steps(),
    {
        let gateway: [u8; 4] = [192, 168, 2, 1];
        let mut steps: Vec<InitStep<&A>> = Vec::new();
        steps.push(InitStep::CreateApStack { address: gateway, prefix_len: AP_PREFIX_LEN, gateway });
        steps.push(InitStep::SpawnApNetwork);
        steps.push(
            InitStep::Configure {
                conn_type: ConnectionType::AccessPoint,
                config: &self.ap_config,
            },
        );
        steps.push(InitStep::StartWifi);
        steps.push(InitStep::SpawnDhcpServer { gateway });
        steps.push(InitStep::SpawnApConnection);
        if let ApOperationMode::Trigger(config) = self.op_mode {
            steps.push(InitStep::SpawnApTrigger(config));
            steps.push(InitStep::SpawnApReceiver { local_port: config.local_port });
        }
        steps
    }

    /// Whether a start asks for what the device is configured for.
    pub open spec fn starts_with(self, request: StartRequest<&A>) -> bool {
        &&& request.conn_type == ConnectionType::AccessPoint
        &&& *request.config == self.ap_config
        &&& request.capture is None
    }

    /// Starts collection, and loads the configuration that the device has now.
    pub fn start_collection(&self) -> (request: StartRequest<&A>)
        ensures
            self.starts_with(request),
    {
        StartRequest {
            conn_type: ConnectionType::AccessPoint,
            config: &self.ap_config,
            capture: None,
        }
    }

    /// Stops collection.
    pub fn stop_collection(&self) -> (steps: [StopStep; 2])
        ensures
            steps@ == seq![StopStep::SignalStop, StopStep::AwaitHalted],
    {
        stop_collection()
    }

    /// The device with another access point configuration.
    pub open spec fn with_ap_config(self, ap_config: A) -> Self {
        CSIAccessPoint { ap_config, op_mode: self.op_mode }
    }

    /// A start after an update loads the new configuration. Nothing need be initialized again:
    /// initialization would differ in that configuration only.
    pub proof fn start_loads_update(self, ap_config: A, request: StartRequest<&A>)
        requires
            self.with_ap_config(ap_config).starts_with(request),
        ensures
            *request.config == ap_config,
            self.with_ap_config(ap_config).init_steps() == self.init_steps().update(
                2,
                InitStep::Configure { conn_type: request.conn_type, config: request.config },
            ),
    {
    }

    /// Replaces the access point configuration.
    pub fn update_ap_config(&mut self, ap_config: A)
        ensures
            *final(self) == old(self).with_ap_config(ap_config),
    {
        self.ap_config = ap_config;
    }

    /// Retrieves the latest packet, given the messages that wait, oldest first, or none to
    /// learn whether one has to be awaited. Does not work in monitor mode.
    pub fn get_csi_data(&self, received: Vec<RawMessage>) -> (result: Result<
        Option<CSIDataPacket>,
        Error,
    >)
        ensures
            is_csi_read(self.op_mode, latest(received@), result),
    {
        let mut received = received;
        self.op_mode.read(received.pop())
    }

    /// Retrieves the latest message as it was received, given those that wait, oldest first,
    /// or none to learn whether one has to be awaited. Does not work in monitor mode.
    pub fn get_csi_data_raw(&self, received: Vec<RawMessage>) -> (result: Result<
        Option<RawMessage>,
        Error,
    >)
        ensures
            result == raw_read(self.op_mode, latest(received@)),
    {
        let mut received = received;
        self.op_mode.read_raw(received.pop())
    }
}

/// What becomes of a received UDP packet.
pub enum UdpReceipt {
    /// It is empty, and nothing happens.
    Empty,
    /// It is a message.
    Message(RawMessage),
    /// It has that many bytes, more than a message can have, and is dropped.
    TooLong(usize),
}

/// Whether `receipt` is what becomes of the UDP packet `bytes`.
pub open spec fn is_receipt(bytes: Seq<u8>, receipt: UdpReceipt) -> bool {
    match receipt {
        UdpReceipt::Empty => bytes.len() == 0,
        UdpReceipt::Message(message) => 0 < bytes.len() <= MESSAGE_CAPACITY && message_bytes(
            message,
        ) == bytes,
        UdpReceipt::TooLong(count) => bytes.len() > MESSAGE_CAPACITY && count == bytes.len(),
    }
}

/// Takes up the UDP packet in the first `len` bytes of the reception buffer.
pub fn ap_udp_receiver(rx_buf: &[u8], len: usize) -> (receipt: UdpReceipt)
    requires
        len <= rx_buf@.len(),
    ensures
        match receipt {
            UdpReceipt::Empty => len == 0,
            UdpReceipt::Message(message) => 0 < len <= MESSAGE_CAPACITY && message_bytes(message)
                == rx_buf@.take(len as int),
            UdpReceipt::TooLong(count) => len > MESSAGE_CAPACITY && count == len,
        },
        is_receipt(rx_buf@.take(len as int), receipt),
{
    if len == 0 {
        return UdpReceipt::Empty;
    }
    match message_from_slice(slice_subrange(rx_buf, 0, len)) {
        Ok(message) => {
            assert(rx_buf@.subrange(0, len as int) == rx_buf@.take(len as int));
            UdpReceipt::Message(message)
        },
        Err(_) => UdpReceipt::TooLong(len),
    }
}

/// Where the trigger task stands.
#[derive(Debug, Clone, Copy, PartialEq, Eq, Structural)]
pub enum TriggerState {
    /// Waiting for the start signal.
    Idle,
    /// Sending triggers, the next one with this sequence number.
    Sending { seq_num: u16 },
}

/// What can happen to the trigger task.
#[derive(Debug, Clone, Copy, PartialEq, Eq, Structural)]
pub enum TriggerEvent {
    /// Collection is to run, or not to run.
    Signal(bool),
    /// The timer expired.
    TimerExpired,
}

/// What the trigger task is to do.
#[derive(Debug, Clone, Copy)]
pub enum TriggerAction {
    /// Wait for a signal.
    AwaitSignal,
    /// Pause that many ticks, then wait for a signal.
    Pause(u64),
    /// Arm the timer for that many ticks, then wait for it and for signals.
    ArmTimer(u64),
    /// Send the packet, then arm the timer for the interval and wait for it and for signals.
    Send { packet: [u8; 64], interval: u64 },
}

impl TriggerAction {
    /// The ticks from this action to the expiry of the timer that it arms.
    pub open spec fn ticks_to_expiry(self) -> Option<u64> {
        match self {
            TriggerAction::ArmTimer(ticks) => Some(ticks),
            TriggerAction::Send { packet: _, interval } => Some(interval),
            _ => None,
        }
    }
}

/// The sequence number behind `seq_num`; 0 is behind the last.
pub open spec fn next_sequence(seq_num: u16) -> u16 {
    if seq_num == u16::MAX {
        0
    } else {
        (seq_num + 1) as u16
    }
}

/// Whether the trigger task, in `state`, does the right thing on `event`. It numbers the
/// triggers from the configured sequence number on each time that collection starts.
pub open spec fn is_trigger_step(
    config: ApTriggerConfig,
    state: TriggerState,
    event: TriggerEvent,
    next: TriggerState,
    action: TriggerAction,
) -> bool {
    match (state, event) {
        (TriggerState::Idle, TriggerEvent::Signal(true)) => {
            &&& next == (TriggerState::Sending { seq_num: config.trigger_seq_num })
            &&& action == TriggerAction::ArmTimer(interval_ticks(config.trigger_freq_hz))
        },
        (TriggerState::Idle, TriggerEvent::Signal(false)) => {
            &&& next == state
            &&& action == TriggerAction::Pause(START_POLL_TICKS)
        },
        (TriggerState::Idle, TriggerEvent::TimerExpired) => {
            &&& next == state
            &&& action == TriggerAction::AwaitSignal
        },
        (TriggerState::Sending { seq_num }, TriggerEvent::TimerExpired) => {
            &&& next == (TriggerState::Sending { seq_num: next_sequence(seq_num) })
            &&& action matches TriggerAction::Send { packet, interval }
            &&& packet@ == trigger_bytes(gateway()@, config.target(), seq_num)
            &&& interval == interval_ticks(config.trigger_freq_hz)
        },
        (TriggerState::Sending { seq_num }, TriggerEvent::Signal(true)) => {
            &&& next == state
            &&& action == TriggerAction::ArmTimer(interval_ticks(config.trigger_freq_hz))
        },
        (TriggerState::Sending { seq_num }, TriggerEvent::Signal(false)) => {
            &&& next == TriggerState::Idle
            &&& action == TriggerAction::AwaitSignal
        },
    }
}

/// Sends trigger packets to the stations while collection runs.
pub fn ap_icmp_trigger(config: &ApTriggerConfig, state: TriggerState, event: TriggerEvent) -> (next:
    (TriggerState, TriggerAction))
    requires
        config.admits(state, event),
    ensures
        is_trigger_step(*config, state, event, next.0, next.1),
{
    match (state, event) {
        (TriggerState::Idle, TriggerEvent::Signal(true)) => (
            TriggerState::Sending { seq_num: config.trigger_seq_num },
            TriggerAction::ArmTimer(trigger_interval(config.trigger_freq_hz)),
        ),
        (TriggerState::Idle, TriggerEvent::Signal(false)) => (
            TriggerState::Idle,
            TriggerAction::Pause(ticks_from_millis(100)),
        ),
        (TriggerState::Idle, TriggerEvent::TimerExpired) => (
            TriggerState::Idle,
            TriggerAction::AwaitSignal,
        ),
        (TriggerState::Sending { seq_num }, TriggerEvent::TimerExpired) => {
            let source: [u8; 4] = [192, 168, 2, 1];
            let packet = trigger_packet(source, config.destination(), seq_num);
            assert(source@ == gateway()@);
            (
                TriggerState::Sending { seq_num: seq_num.wrapping_add(1) },
                TriggerAction::Send { packet, interval: trigger_interval(config.trigger_freq_hz) },
            )
        },
        (TriggerState::Sending { .. }, TriggerEvent::Signal(true)) => (
            state,
            TriggerAction::ArmTimer(trigger_interval(config.trigger_freq_hz)),
        ),
        (TriggerState::Sending { .. }, TriggerEvent::Signal(false)) => (
            TriggerState::Idle,
            TriggerAction::AwaitSignal,
        ),
    }
}

/// Whether the trigger task went through `states` and took `actions` in the course of
/// `events`.
pub open spec fn is_trigger_run(
    config: ApTriggerConfig,
    events: Seq<TriggerEvent>,
    states: Seq<TriggerState>,
    actions: Seq<TriggerAction>,
) -> bool {
    &&& states.len() == events.len() + 1
    &&& actions.len() == events.len()
    &&& forall|i: int|
        0 <= i < events.len() ==> is_trigger_step(
            config,
            states[i],
            #[trigger] events[i],
            states[i + 1],
            actions[i],
        )
}

/// How often the timer expired in the course of `events`.
pub open spec fn timer_count(events: Seq<TriggerEvent>) -> nat
    decreases events.len(),
{
    if events.len() == 0 {
        0
    } else {
        timer_count(events.drop_last()) + if events.last() is TimerExpired {
            1nat
        } else {
            0nat
        }
    }
}

/// The number of the trigger that `count` others precede.
pub open spec fn sequence_after(start: u16, count: nat) -> u16 {
    ((start + count) % 0x1_0000) as u16
}

proof fn sequence_in_run(
    config: ApTriggerConfig,
    events: Seq<TriggerEvent>,
    states: Seq<TriggerState>,
    actions: Seq<TriggerAction>,
    i: int,
)
    requires
        is_trigger_run(config, events, states, actions),
        states[0] == (TriggerState::Sending { seq_num: config.trigger_seq_num }),
        forall|k: int|
            0 <= k < events.len() ==> #[trigger] events[k] != TriggerEvent::Signal(false),
        0 <= i <= events.len(),
    ensures
        states[i] == (TriggerState::Sending {
            seq_num: sequence_after(config.trigger_seq_num, timer_count(events.take(i))),
        }),
    decreases i,
{
    if i > 0 {
        sequence_in_run(config, events, states, actions, i - 1);
        assert(events.take(i).drop_last() == events.take(i - 1));
        assert(events.take(i).last() == events[i - 1]);
    }
}

/// As long as collection is not stopped, the triggers are numbered one by one from the
/// configured sequence number on, and come from the access point's address.
pub proof fn triggers_numbered(
    config: ApTriggerConfig,
    events: Seq<TriggerEvent>,
    states: Seq<TriggerState>,
    actions: Seq<TriggerAction>,
    i: int,
)
    requires
        is_trigger_run(config, events, states, actions),
        states[0] == TriggerState::Idle,
        events.len() > 0 && events[0] == TriggerEvent::Signal(true),
        forall|k: int|
            0 <= k < events.len() ==> #[trigger] events[k] != TriggerEvent::Signal(false),
        0 <= i < events.len(),
        events[i] is TimerExpired,
    ensures
        actions[i] matches TriggerAction::Send { packet, .. } && packet@ == trigger_bytes(
            gateway()@,
            config.target(),
            sequence_after(config.trigger_seq_num, timer_count(events.take(i))),
        ),
{
    let rest = events.skip(1);
    let rest_states = states.skip(1);
    let rest_actions = actions.skip(1);
    assert(events[0] == TriggerEvent::Signal(true));
    assert forall|k: int| 0 <= k < rest.len() implies is_trigger_step(
        config,
        rest_states[k],
        #[trigger] rest[k],
        rest_states[k + 1],
        rest_actions[k],
    ) by {
        assert(rest[k] == events[k + 1]);
    }
    assert forall|k: int| 0 <= k < rest.len() implies #[trigger] rest[k] != TriggerEvent::Signal(
        false,
    ) by {
        assert(rest[k] == events[k + 1]);
    }
    sequence_in_run(config, rest, rest_states, rest_actions, i - 1);
    timer_count_skips_signal(events, i);
    assert(rest.take(i - 1) == events.take(i).skip(1));
}

proof fn timer_count_skips_signal(events: Seq<TriggerEvent>, i: int)
    requires
        0 < i <= events.len(),
        events[0] is Signal,
    ensures
        timer_count(events.take(i).skip(1)) == timer_count(events.take(i)),
    decreases i,
{
    if i > 1 {
        timer_count_skips_signal(events, i - 1);
        assert(events.take(i).drop_last() == events.take(i - 1));
        assert(events.take(i).skip(1).drop_last() == events.take(i - 1).skip(1));
        assert(events.take(i).skip(1).last() == events.take(i).last());
    } else {
        assert(events.take(i).drop_last() == Seq::<TriggerEvent>::empty());
        assert(events.take(i).skip(1) == Seq::<TriggerEvent>::empty());
    }
}

/// Whether collection is to run after `events`: what the last signal said.
pub open spec fn collecting(events: Seq<TriggerEvent>) -> bool
    decreases events.len(),
{
    if events.len() == 0 {
        false
    } else {
        match events.last() {
            TriggerEvent::Signal(run) => run,
            TriggerEvent::TimerExpired => collecting(events.drop_last()),
        }
    }
}

/// Triggers are sent while collection is to run, and at no other time.
pub proof fn triggers_while_collecting(
    config: ApTriggerConfig,
    events: Seq<TriggerEvent>,
    states: Seq<TriggerState>,
    actions: Seq<TriggerAction>,
    i: int,
)
    requires
        is_trigger_run(config, events, states, actions),
        states[0] == TriggerState::Idle,
        0 <= i < events.len(),
    ensures
        states[i] is Sending <==> collecting(events.take(i)),
        actions[i] is Send <==> collecting(events.take(i)) && events[i] is TimerExpired,
    decreases i,
{
    if i > 0 {
        triggers_while_collecting(config, events, states, actions, i - 1);
        assert(events.take(i).drop_last() == events.take(i - 1));
        assert(events.take(i).last() == events[i - 1]);
    }
    assert(is_trigger_step(config, states[i], events[i], states[i + 1], actions[i]));
}

/// Triggers are sent at the configured frequency: the first one an interval after the start,
/// and each one an interval after the one before.
pub proof fn triggers_at_frequency(
    config: ApTriggerConfig,
    events: Seq<TriggerEvent>,
    states: Seq<TriggerState>,
    actions: Seq<TriggerAction>,
    i: int,
)
    requires
        is_trigger_run(config, events, states, actions),
        states[0] == TriggerState::Idle,
        0 <= i < events.len(),
        actions[i] is Send,
    ensures
        i > 0,
        actions[i - 1].ticks_to_expiry() == Some(interval_ticks(config.trigger_freq_hz)),
        events[i - 1] is TimerExpired ==> actions[i - 1] is Send,
        events[i - 1] is Signal ==> actions[i - 1] is ArmTimer,
{
    assert(is_trigger_step(config, states[i], events[i], states[i + 1], actions[i]));
    assert(is_trigger_step(config, states[i - 1], events[i - 1], states[i], actions[i - 1]));
}

/// The message that is handed on as it was received is the latest one: with a message waiting
/// there is one, and it has the bytes of the last that was received; without one there is
/// none. In monitor mode there is an error, whatever waits.
pub proof fn raw_message_is_latest(
    mode: ApOperationMode,
    received: Seq<RawMessage>,
    result: Result<Option<RawMessage>, Error>,
)
    requires
        result == raw_read(mode, latest(received)),
    ensures
        mode is Trigger && received.len() > 0 ==> result is Ok && result->Ok_0 is Some
            && result->Ok_0->0 == received[received.len() - 1] && message_bytes(result->Ok_0->0)
            == message_bytes(received[received.len() - 1]),
        mode is Trigger && received.len() == 0 ==> result is Ok && result->Ok_0 is None,
        mode is Monitor ==> result == Err::<Option<RawMessage>, Error>(
            Error::SystemError("get_csi_data_raw() not supported in Monitor Mode"),
        ),
{
}

/// The packet that is retrieved is the one that the latest message stands for: there is one
/// exactly where that message has a header and at most 612 samples, and its number, timestamp
/// and length are read from it. A message of another length is an error, and so is monitor
/// mode; without a message there is no packet.
pub proof fn packet_is_latest(
    mode: ApOperationMode,
    received: Seq<RawMessage>,
    result: Result<Option<CSIDataPacket>, Error>,
)
    requires
        is_csi_read(mode, latest(received), result),
    ensures
        mode is Monitor ==> result == Err::<Option<CSIDataPacket>, Error>(
            Error::SystemError("get_csi_data_raw() not supported in Monitor Mode"),
        ),
        mode is Trigger && received.len() == 0 ==> result is Ok && result->Ok_0 is None,
        mode is Trigger && received.len() > 0 ==> ({
            let bytes = message_bytes(received[received.len() - 1]);
            if 7 <= bytes.len() <= 619 {
                &&& result is Ok && result->Ok_0 is Some
                &&& is_reconstruction(result->Ok_0->0, bytes)
                &&& result->Ok_0->0.sequence_number == bytes[0] * 256 + bytes[1]
                &&& result->Ok_0->0.timestamp == bytes[3] * 0x100_0000 + bytes[4] * 0x1_0000
                    + bytes[5] * 0x100 + bytes[6]
                &&& result->Ok_0->0.csi_data_len == bytes.len() - 7
            } else {
                result == Err::<Option<CSIDataPacket>, Error>(
                    Error::SystemError("Error reconstructing recieved CSI message"),
                )
            }
        }),
{
    if mode is Trigger && received.len() > 0 {
        let bytes = message_bytes(received[received.len() - 1]);
        if 7 <= bytes.len() <= 619 {
            message_read(bytes, result->Ok_0->0);
        }
    }
}

/// The access point's network is 192.168.2.0/24: the gateway is its first address, and
/// triggers to every station go to its last.
pub proof fn network_addresses()
    ensures
        gateway()@ == seq![192u8, 168, 2, 1],
        broadcast()@ == seq![192u8, 168, 2, 255],
        AP_PREFIX_LEN == 24,
{
    assert(gateway()@ =~= seq![192u8, 168, 2, 1]);
    assert(broadcast()@ =~= seq![192u8, 168, 2, 255]);
}

/// Where triggers go: to the broadcast address, or to the address whose text is configured,
/// which there has to be.
pub proof fn triggers_reach_destination(config: ApTriggerConfig, address: Seq<u8>)
    ensures
        config.trigger_type is Broadcast ==> config.has_destination() && (config.triggers(address)
            <==> address == seq![192u8, 168, 2, 255]),
        config.trigger_type matches TriggerType::Unicast(text) ==> {
            &&& config.triggers(address) <==> address.len() == 4 && text.spec_bytes()
                == address_text(address)
            &&& config.has_destination() <==> is_address_text(text)
        },
        config.has_destination() ==> config.triggers(config.target()),
{
    network_addresses();
    if config.has_destination() {
        match config.trigger_type {
            TriggerType::Broadcast => {
                assert(config.triggers(broadcast()@));
            },
            TriggerType::Unicast(text) => {
                let parsed = choose|parsed: [u8; 4]|
                    text.spec_bytes() == #[trigger] address_text(parsed@);
                assert(config.triggers(parsed@));
            },
        }
    }
}

/// A trigger that is due is sent, and the timer is armed for the interval of the configured
/// frequency; the next trigger has the number behind it, and 0 comes behind the last number.
pub proof fn due_trigger_counted(
    config: ApTriggerConfig,
    seq_num: u16,
    next: TriggerState,
    action: TriggerAction,
)
    requires
        config.trigger_freq_hz != 0,
        is_trigger_step(
            config,
            TriggerState::Sending { seq_num },
            TriggerEvent::TimerExpired,
            next,
            action,
        ),
    ensures
        next is Sending && next->seq_num == (seq_num + 1) % 0x1_0000,
        action is Send && config.trigger_freq_hz * action->interval <= 1_000_000
            < config.trigger_freq_hz * (action->interval + 1000),
{
    interval_keeps_frequency(config.trigger_freq_hz);
}

/// A trigger that is due is the echo request from 192.168.2.1 to the destination with the
/// number that is its turn.
#[verifier::spinoff_prover]
#[verifier::rlimit(40)]
pub proof fn due_trigger_sent(
    config: ApTriggerConfig,
    seq_num: u16,
    next: TriggerState,
    packet: [u8; 64],
    interval: u64,
)
    requires
        config.has_destination(),
        is_trigger_step(
            config,
            TriggerState::Sending { seq_num },
            TriggerEvent::TimerExpired,
            next,
            TriggerAction::Send { packet, interval },
        ),
    ensures
        packet@ == trigger_bytes(gateway()@, config.target(), seq_num),
        packet@.subrange(12, 16) == gateway()@,
        packet@.subrange(16, 20) == config.target(),
        config.triggers(config.target()),
        packet@[20] == 8,
        packet@[26] * 256 + packet@[27] == seq_num,
        gateway()@ == seq![192u8, 168, 2, 1],
{
    network_addresses();
    triggers_reach_destination(config, config.target());
    let target = config.target();
    assert(target.len() == 4);
    trigger_addressed(packet@, gateway()@, target, seq_num);
}

/// What a signal does to the trigger task: a start makes it wait for the first trigger, with
/// the configured number, or goes on as it was; a stop makes it wait for a signal, and where
/// it waits for one already, makes it look again after 100 milliseconds.
pub proof fn trigger_task_signals(
    config: ApTriggerConfig,
    state: TriggerState,
    run: bool,
    next: TriggerState,
    action: TriggerAction,
)
    requires
        is_trigger_step(config, state, TriggerEvent::Signal(run), next, action),
    ensures
        run && state is Idle ==> next is Sending && next->seq_num == config.trigger_seq_num,
        run && state is Sending ==> next == state,
        run ==> action is ArmTimer && action->ArmTimer_0 == interval_ticks(config.trigger_freq_hz),
        !run ==> next is Idle,
        !run && state is Idle ==> action == TriggerAction::Pause(100_000),
        !run && state is Sending ==> action is AwaitSignal,
{
}

/// An expired timer does nothing while collection does not run.
pub proof fn trigger_task_idle(
    config: ApTriggerConfig,
    next: TriggerState,
    action: TriggerAction,
)
    requires
        is_trigger_step(config, TriggerState::Idle, TriggerEvent::TimerExpired, next, action),
    ensures
        next is Idle && action is AwaitSignal,
{
}

/// The trigger task goes on from everywhere if triggers are to be sent and have a
/// destination, and a stop signal needs neither.
pub proof fn trigger_task_goes_on(
    config: ApTriggerConfig,
    state: TriggerState,
    event: TriggerEvent,
)
    ensures
        config.trigger_freq_hz > 0 && config.has_destination() ==> config.admits(state, event),
        config.admits(state, TriggerEvent::Signal(false)),
        config.trigger_freq_hz > 0 ==> config.admits(state, TriggerEvent::Signal(true)),
        config.admits(TriggerState::Idle, TriggerEvent::TimerExpired),
{
}

impl<A> CSIAccessPoint<A> {
    /// Initialization brings the network up at 192.168.2.1, loads the device's configuration
    /// before the radio is started, and then hands out addresses and accepts stations. The
    /// tasks that send triggers and receive messages are there in trigger mode, as
    /// configured, and in no other. The time is not synchronized.
    pub proof fn init_described(&self)
        ensures
            self.init_steps().take(6) == seq![
                InitStep::CreateApStack {
                    address: [192u8, 168, 2, 1],
                    prefix_len: 24,
                    gateway: [192u8, 168, 2, 1],
                },
                InitStep::SpawnApNetwork,
                InitStep::Configure {
                    conn_type: ConnectionType::AccessPoint,
                    config: &self.ap_config,
                },
                InitStep::StartWifi,
                InitStep::SpawnDhcpServer { gateway: [192u8, 168, 2, 1] },
                InitStep::SpawnApConnection,
            ],
            self.op_mode is Monitor ==> self.init_steps().len() == 6,
            self.op_mode matches ApOperationMode::Trigger(config) ==> {
                &&& self.init_steps().len() == 8
                &&& self.init_steps()[6] == InitStep::<&A>::SpawnApTrigger(config)
                &&& self.init_steps()[7] == (InitStep::<&A>::SpawnApReceiver {
                    local_port: config.local_port,
                })
            },
            !self.init_steps().contains(InitStep::RunNtpSync),
    {
    }

    /// A start asks for the role of an access point with the device's configuration, and for
    /// no capture.
    pub proof fn start_described(self, request: StartRequest<&A>)
        requires
            self.starts_with(request),
        ensures
            request.conn_type is AccessPoint,
            *request.config == self.ap_config,
            request.capture is None,
    {
    }

    /// An update of the configuration leaves the operation mode.
    pub proof fn update_leaves_rest(self, ap_config: A)
        ensures
            self.with_ap_config(ap_config).ap_config == ap_config,
            self.with_ap_config(ap_config).op_mode == self.op_mode,
    {
    }
}

/// Every UDP packet of 1 to 625 bytes becomes the message of just these bytes; an empty one is
/// passed over, and a longer one is dropped, with its length told.
pub proof fn packets_become_messages(bytes: Seq<u8>, receipt: UdpReceipt)
    requires
        is_receipt(bytes, receipt),
    ensures
        1 <= bytes.len() <= 625 ==> receipt is Message && message_bytes(receipt->Message_0)
            == bytes,
        bytes.len() == 0 ==> receipt is Empty,
        bytes.len() > 625 ==> receipt is TooLong && receipt->TooLong_0 == bytes.len(),
{
}

} // verus!
