//! CSI collection as an access point that is a station at the same time.

use super::ap::{
    gateway, is_csi_read, latest, raw_read, trigger_tasks, ApOperationMode, AP_PREFIX_LEN,
};
use super::control::{stop_collection, ConnectionType, InitStep, StartRequest, StopStep};
use crate::buffers::RawMessage;
use crate::csi::CSIDataPacket;
use crate::error::Error;
use vstd::prelude::*;

verus! {

/// What the radio is configured with for both roles at once.
#[derive(Debug, PartialEq)]
pub struct MixedConfig<'a, A, C> {
    /// The access point's configuration.
    pub access_point: &'a A,
    /// The station's configuration.
    pub station: &'a C,
}

/// A device that makes stations collect CSI, as their access point, and is connected to
/// another access point, which gives it internet access. `A` and `C` are the driver's
/// configurations of an access point and of a station.
pub struct CSIAccessPointStation<A, C> {
    /// Access point configuration.
    pub ap_config: A,
    /// Station configuration.
    pub sta_config: C,
    /// Operation mode.
    pub op_mode: ApOperationMode,
}

impl<A, C> CSIAccessPointStation<A, C> {
    /// Creates an access point and station with the given configuration.
    pub fn new(ap_config: A, sta_config: C, op_mode: ApOperationMode) -> (device: Self)
        ensures
            device == (CSIAccessPointStation { ap_config, sta_config, op_mode }),
    {
        CSIAccessPointStation { ap_config, sta_config, op_mode }
    }

    /// Creates an access point and station in monitor mode, given the driver's default
    /// configurations.
    pub fn new_with_defaults(ap_default: A, sta_default: C) -> (device: Self)
        ensures
            device == (CSIAccessPointStation {
                ap_config: ap_default,
                sta_config: sta_default,
                op_mode: ApOperationMode::Monitor,
            }),
    {
        CSIAccessPointStation {
            ap_config: ap_default,
            sta_config: sta_default,
            op_mode: ApOperationMode::Monitor,
        }
    }

    /// The steps that initialize the radio and spawn the connection, DHCP and network tasks.
    pub open spec fn init_steps(&self) -> Seq<InitStep<MixedConfig<'_, A, C>>> {
        seq![
            InitStep::CreateApStack {
                address: gateway(),
                prefix_len: AP_PREFIX_LEN,
                gateway: gateway(),
            },
            InitStep::CreateStaStack,
            InitStep::SpawnApNetwork,
            InitStep::SpawnStaNetwork,
            InitStep::Configure {
                conn_type: ConnectionType::Mixed,
                config: MixedConfig { access_point: &self.ap_config, station: &self.sta_config },
            },
            InitStep::StartWifi,
            InitStep::ConnectWifi,
            InitStep::RunDhcpClient,
            InitStep::SpawnDhcpServer { gateway: gateway() },
            InitStep::SpawnApConnection,
            InitStep::AwaitDhcp,
        ] + trigger_tasks(self.op_mode)
    }

    /// Initializes the radio and the tasks: the steps to take, in order.
    pub fn init(&self) -> (steps: Vec<InitStep<MixedConfig<'_, A, C>>>)
        ensures
            steps@ == self.init_steps(),
    {
        let gateway: [u8; 4] = [192, 168, 2, 1];
        let mut steps: Vec<InitStep<MixedConfig<'_, A, C>>> = Vec::new();
        steps.push(InitStep::CreateApStack { address: gateway, prefix_len: AP_PREFIX_LEN, gateway });
        steps.push(InitStep::CreateStaStack);
        steps.push(InitStep::SpawnApNetwork);
        steps.push(InitStep::SpawnStaNetwork);
        steps.push(
            InitStep::Configure {
                conn_type: ConnectionType::Mixed,
                config: MixedConfig { access_point: &self.ap_config, station: &self.sta_config },
            },
        );
        steps.push(InitStep::StartWifi);
        steps.push(InitStep::ConnectWifi);
        steps.push(InitStep::RunDhcpClient);
        steps.push(InitStep::SpawnDhcpServer { gateway });
        steps.push(InitStep::SpawnApConnection);
        steps.push(InitStep::AwaitDhcp);
        if let ApOperationMode::Trigger(config) = self.op_mode {
            steps.push(InitStep::SpawnApTrigger(config));
            steps.push(InitStep::SpawnApReceiver { local_port: config.local_port });
        }
        steps
    }

    /// Whether a start asks for what the device is configured for.
    pub open spec fn starts_with(self, request: StartRequest<MixedConfig<'_, A, C>>) -> bool {
        &&& request.conn_type == ConnectionType::Mixed
        &&& *request.config.access_point == self.ap_config
        &&& *request.config.station == self.sta_config
        &&& request.capture is None
    }

    /// Starts collection, and loads the configurations that the device has now.
    pub fn start_collection(&self) -> (request: StartRequest<MixedConfig<'_, A, C>>)
        ensures
            self.starts_with(request),
    {
        StartRequest {
            conn_type: ConnectionType::Mixed,
            config: MixedConfig { access_point: &self.ap_config, station: &self.sta_config },
            capture: None,
        }
    }

    /// A start with updated configurations loads them. Nothing need be initialized again:
    /// initialization would differ in those configurations only.
    pub proof fn start_loads_update(
        self,
        ap_config: A,
        sta_config: C,
        request: StartRequest<MixedConfig<'_, A, C>>,
    )
        requires
            (CSIAccessPointStation { ap_config, sta_config, ..self }).starts_with(request),
        ensures
            *request.config.access_point == ap_config,
            *request.config.station == sta_config,
            (CSIAccessPointStation { ap_config, sta_config, ..self }).init_steps()
                == self.init_steps().update(
                4,
                InitStep::Configure { conn_type: request.conn_type, config: request.config },
            ),
    {
    }

    /// Stops collection, and returns the controller.
    pub fn stop_collection(&self) -> (steps: [StopStep; 3])
        ensures
            steps@ == seq![
                StopStep::SignalStop,
                StopStep::AwaitHalted,
                StopStep::RecaptureController,
            ],
    {
        let halt = stop_collection();
        [halt[0], halt[1], StopStep::RecaptureController]
    }

    /// Retrieves the latest packet, given the messages that wait, oldest first, or none to
    /// learn whether one has to be awaited. Does not work in monitor mode.
    pub fn get_csi_data(&self, received: Vec<RawMessage>) -> (result: Result<
        Option<CSIDataPacket>,
        Error,
    >)
        ensures
            is_csi_read(self.op_mode, latest(received@), result),
    {
        let mut received = received;
        self.op_mode.read(received.pop())
    }

    /// Retrieves the latest message as it was received, given those that wait, oldest first,
    /// or none to learn whether one has to be awaited. Does not work in monitor mode.
    pub fn get_csi_data_raw(&self, received: Vec<RawMessage>) -> (result: Result<
        Option<RawMessage>,
        Error,
    >)
        ensures
            result == raw_read(self.op_mode, latest(received@)),
    {
        let mut received = received;
        self.op_mode.read_raw(received.pop())
    }
}

impl<A, C> CSIAccessPointStation<A, C> {
    /// Initialization brings both networks up, the access point's at 192.168.2.1, loads both
    /// configurations before the radio is started and connected, acquires an address before
    /// it hands out any, and waits for it. The tasks that send triggers and receive messages
    /// are there in trigger mode, as configured, and in no other. The time is not
    /// synchronized.
    pub proof fn init_described(&self)
        ensures
            self.init_steps().take(11) == seq![
                InitStep::CreateApStack {
                    address: [192u8, 168, 2, 1],
                    prefix_len: 24,
                    gateway: [192u8, 168, 2, 1],
                },
                InitStep::CreateStaStack,
                InitStep::SpawnApNetwork,
                InitStep::SpawnStaNetwork,
                InitStep::Configure {
                    conn_type: ConnectionType::Mixed,
                    config: MixedConfig {
                        access_point: &self.ap_config,
                        station: &self.sta_config,
                    },
                },
                InitStep::StartWifi,
                InitStep::ConnectWifi,
                InitStep::RunDhcpClient,
                InitStep::SpawnDhcpServer { gateway: [192u8, 168, 2, 1] },
                InitStep::SpawnApConnection,
                InitStep::AwaitDhcp,
            ],
            self.op_mode is Monitor ==> self.init_steps().len() == 11,
            self.op_mode matches ApOperationMode::Trigger(config) ==> {
                &&& self.init_steps().len() == 13
                &&& self.init_steps()[11] == InitStep::<MixedConfig<'_, A, C>>::SpawnApTrigger(
                    config,
                )
                &&& self.init_steps()[12] == (
                InitStep::<MixedConfig<'_, A, C>>::SpawnApReceiver {
                    local_port: config.local_port,
                })
            },
            !self.init_steps().contains(InitStep::RunNtpSync),
    {
    }

    /// A start asks for both roles, each with its configuration, and for no capture.
    pub proof fn start_described(self, request: StartRequest<MixedConfig<'_, A, C>>)
        requires
            self.starts_with(request),
        ensures
            request.conn_type is Mixed,
            *request.config.access_point == self.ap_config,
            *request.config.station == self.sta_config,
            request.capture is None,
    {
    }
}

} // verus!
