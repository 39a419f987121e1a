use esp_csi_rs::buffers::RawMessage;
use esp_csi_rs::collector::ap::{
    ap_icmp_trigger, ap_udp_receiver, ApOperationMode, ApTriggerConfig, CSIAccessPoint,
    TriggerAction, TriggerEvent, TriggerState, TriggerType, UdpReceipt,
};
use esp_csi_rs::collector::apsta::{CSIAccessPointStation, MixedConfig};
use esp_csi_rs::collector::connection::{
    ap_connection, return_controller, sniffer_task, sta_connection, LinkEvents, ReturnStep,
    TaskAction, TaskEvent, TaskState,
};
use esp_csi_rs::collector::control::{
    start_collection, CaptureRequest, ConnectionType, InitStep, StartStep, StopStep,
};
use esp_csi_rs::collector::sniffer::CSISniffer;
use esp_csi_rs::collector::sta::{
    sta_network_ops, sta_trigger_packet, CSIStation, NetworkAction, NetworkEvent, NetworkState,
    StaMonitorConfig, StaOperationMode, StaTriggerConfig,
};
use esp_csi_rs::config::{
    build_csi_config, build_csi_config_esp32c6, CSIConfig, CsiConfig, Esp32c6CSIConfig,
};
use esp_csi_rs::csi::{capture_csi_info, CSIDataPacket, CsiInfo, RxControl};
use esp_csi_rs::dhcp::IpInfo;
use esp_csi_rs::error::Error;
use esp_csi_rs::frame::{sequence_sync, LastTrigger};
use esp_csi_rs::process::process_csi_packet;
use esp_csi_rs::trigger::trigger_packet;

const GATEWAY: [u8; 4] = [192, 168, 2, 1];

const STOP: [StopStep; 2] = [StopStep::SignalStop, StopStep::AwaitHalted];

const NO_EVENTS: LinkEvents = LinkEvents { connected: false, disconnected: false, stopped: false };

fn trigger_config() -> ApTriggerConfig {
    ApTriggerConfig {
        trigger_freq_hz: 4,
        local_port: 1,
        trigger_type: TriggerType::Unicast("192.168.2.7"),
        trigger_seq_num: 65_534,
    }
}

fn monitor() -> StaOperationMode {
    StaOperationMode::Monitor(StaMonitorConfig { local_port: 77, dest_port: 88 })
}

fn ip_info() -> IpInfo {
    IpInfo { local_address: [10, 0, 0, 2], prefix_len: 24, gateway_address: [10, 0, 0, 1] }
}

const SEND_MESSAGE: NetworkAction =
    NetworkAction::SendMessage { local_port: 77, gateway: [10, 0, 0, 1], dest_port: 88 };

fn trigger() -> StaOperationMode {
    StaOperationMode::Trigger(StaTriggerConfig::default())
}

fn captured(timestamp: u32, buf: &[i8]) -> CSIDataPacket {
    let rx_ctrl = RxControl {
        rssi: 0,
        cwb: 0,
        ant: 0,
        rate: 0,
        sig_mode: 1,
        mcs: 0,
        smoothing: 0,
        not_sounding: 0,
        aggregation: 0,
        stbc: 0,
        fec_coding: 0,
        sgi: 0,
        noise_floor: 0,
        ampdu_cnt: 0,
        channel: 0,
        secondary_channel: 1,
        timestamp,
        rx_state: 0,
        sig_len: 0,
    };
    capture_csi_info(&CsiInfo { mac: [2; 6], rx_ctrl, buf }, None).unwrap()
}

#[test]
fn default_configurations() {
    assert_eq!(
        ApTriggerConfig::default(),
        ApTriggerConfig {
            trigger_freq_hz: 1,
            local_port: 10789,
            trigger_type: TriggerType::Broadcast,
            trigger_seq_num: 0,
        }
    );
    assert_eq!(
        StaMonitorConfig::default(),
        StaMonitorConfig { local_port: 10789, dest_port: 10789 }
    );
    assert_eq!(StaTriggerConfig::default(), StaTriggerConfig { trigger_freq_hz: 100 });
    assert_eq!(
        CSIConfig::default(),
        CSIConfig {
            lltf_enabled: true,
            htltf_enabled: true,
            stbc_htltf2_enabled: true,
            ltf_merge_enabled: true,
            channel_filter_enabled: true,
            manu_scale: false,
            shift: 0,
            dump_ack_en: false,
        }
    );
}

#[test]
fn driver_configuration() {
    let config = CSIConfig {
        lltf_enabled: false,
        htltf_enabled: true,
        stbc_htltf2_enabled: false,
        ltf_merge_enabled: true,
        channel_filter_enabled: false,
        manu_scale: true,
        shift: 9,
        dump_ack_en: true,
    };
    assert_eq!(
        build_csi_config(config),
        CsiConfig {
            lltf_en: false,
            htltf_en: true,
            stbc_htltf2_en: false,
            ltf_merge_en: true,
            channel_filter_en: false,
            manu_scale: true,
            shift: 9,
            dump_ack_en: true,
        }
    );
}

#[test]
fn driver_configuration_of_the_c6() {
    let config = Esp32c6CSIConfig {
        enable: 1,
        acquire_csi_legacy: 2,
        acquire_csi_ht20: 3,
        acquire_csi_ht40: 4,
        acquire_csi_su: 5,
        acquire_csi_mu: 6,
        acquire_csi_dcm: 7,
        acquire_csi_beamformed: 8,
        acquire_csi_he_stbc: 9,
        val_scale_cfg: 10,
        dump_ack_en: 11,
        reserved: 12,
    };
    let driver = build_csi_config_esp32c6(config);
    assert_eq!(
        [
            driver.enable,
            driver.acquire_csi_legacy,
            driver.acquire_csi_ht20,
            driver.acquire_csi_ht40,
            driver.acquire_csi_su,
            driver.acquire_csi_mu,
            driver.acquire_csi_dcm,
            driver.acquire_csi_beamformed,
            driver.acquire_csi_he_stbc,
            driver.val_scale_cfg,
            driver.dump_ack_en,
            driver.reserved,
        ],
        [1, 2, 3, 4, 5, 6, 7, 8, 9, 10, 11, 12]
    );
}

#[test]
fn access_point_initialization() {
    let monitor_steps = vec![
        InitStep::CreateApStack { address: GATEWAY, prefix_len: 24, gateway: GATEWAY },
        InitStep::SpawnApNetwork,
        InitStep::Configure { conn_type: ConnectionType::AccessPoint, config: &"config" },
        InitStep::StartWifi,
        InitStep::SpawnDhcpServer { gateway: GATEWAY },
        InitStep::SpawnApConnection,
    ];
    let device = CSIAccessPoint::new_with_defaults("config");
    assert_eq!(device.op_mode, ApOperationMode::Monitor);
    assert_eq!(device.init(), monitor_steps);
    let config = trigger_config();
    let device = CSIAccessPoint::new("config", ApOperationMode::Trigger(config));
    let mut trigger_steps = monitor_steps;
    trigger_steps.push(InitStep::SpawnApTrigger(config));
    trigger_steps.push(InitStep::SpawnApReceiver { local_port: 1 });
    assert_eq!(device.init(), trigger_steps);
}

#[test]
fn access_point_station_initialization() {
    let config = trigger_config();
    let device = CSIAccessPointStation::new("ap", "sta", ApOperationMode::Trigger(config));
    assert_eq!(
        device.init(),
        vec![
            InitStep::CreateApStack { address: GATEWAY, prefix_len: 24, gateway: GATEWAY },
            InitStep::CreateStaStack,
            InitStep::SpawnApNetwork,
            InitStep::SpawnStaNetwork,
            InitStep::Configure {
                conn_type: ConnectionType::Mixed,
                config: MixedConfig { access_point: &"ap", station: &"sta" },
            },
            InitStep::StartWifi,
            InitStep::ConnectWifi,
            InitStep::RunDhcpClient,
            InitStep::SpawnDhcpServer { gateway: GATEWAY },
            InitStep::SpawnApConnection,
            InitStep::AwaitDhcp,
            InitStep::SpawnApTrigger(config),
            InitStep::SpawnApReceiver { local_port: 1 },
        ]
    );
    let device = CSIAccessPointStation::new_with_defaults("ap", "sta");
    assert_eq!(device.op_mode, ApOperationMode::Monitor);
    assert_eq!(device.init().len(), 11);
}

#[test]
fn station_initialization() {
    let device = CSIStation::new(CSIConfig::default(), "config", monitor(), Some([5; 6]), true);
    assert_eq!(device.mac_filter, Some([5; 6]));
    assert_eq!(
        device.init(),
        vec![
            InitStep::CreateStaStack,
            InitStep::SpawnStaNetwork,
            InitStep::Configure { conn_type: ConnectionType::Client, config: &"config" },
            InitStep::StartWifi,
            InitStep::ConnectWifi,
            InitStep::RunDhcpClient,
            InitStep::RunNtpSync,
            InitStep::SpawnProcessing,
            InitStep::SpawnStaConnection,
            InitStep::SpawnStaNetworkOps(monitor()),
            InitStep::FollowSequenceNumbers,
            InitStep::SpawnSequenceSync,
        ]
    );
    let device = CSIStation::new_with_defaults("config");
    assert_eq!(device.op_mode, trigger());
    assert_eq!(device.csi_config, CSIConfig::default());
    assert!(!device.sync_time);
    assert_eq!(device.mac_filter, None);
    assert_eq!(
        device.init()[6..],
        [
            InitStep::SpawnProcessing,
            InitStep::SpawnStaConnection,
            InitStep::SpawnStaNetworkOps(trigger()),
        ]
    );
}

#[test]
fn sniffer_initialization() {
    let device = CSISniffer::new(CSIConfig::default(), Some([1; 6]));
    assert_eq!(
        device.init(),
        vec![InitStep::SetPromiscuous, InitStep::SpawnProcessing, InitStep::SpawnSniffer]
    );
    assert_eq!(device.mac_filter, Some([1; 6]));
    let device = CSISniffer::new_with_defaults();
    assert_eq!(device.mac_filter, None);
    assert_eq!(device.csi_config, CSIConfig::default());
}

#[test]
fn start_loads_the_updated_configuration() {
    let mut device = CSIAccessPoint::new("first", ApOperationMode::Monitor);
    assert_eq!(*device.start_collection().config, "first");
    device.update_ap_config("second");
    let request = device.start_collection();
    assert_eq!(*request.config, "second");
    assert_eq!(request.conn_type, ConnectionType::AccessPoint);
    assert_eq!(request.capture, None);

    let mut device = CSIStation::new_with_defaults("first");
    let mut csi_config = CSIConfig::default();
    csi_config.shift = 3;
    device.update_sta_config("second");
    device.update_csi_config(csi_config);
    device.update_mac_filter(Some([9; 6]));
    assert_eq!(device.mac_filter, Some([9; 6]));
    let request = device.start_collection();
    assert_eq!(*request.config, "second");
    assert_eq!(request.conn_type, ConnectionType::Client);
    let capture = CaptureRequest { csi_config, mac_filter: Some([9; 6]) };
    assert_eq!(request.capture, Some(capture));
    device.op_mode = monitor();
    assert_eq!(device.start_collection().capture, Some(capture));

    let mut device = CSISniffer::new_with_defaults();
    device.update_csi_config(csi_config);
    device.update_mac_filter(Some([8; 6]));
    assert_eq!(
        device.start_collection(),
        CaptureRequest { csi_config, mac_filter: Some([8; 6]) }
    );

    let mut device = CSIAccessPointStation::new("ap", "sta", ApOperationMode::Monitor);
    device.sta_config = "other";
    let request = device.start_collection();
    assert_eq!(request.conn_type, ConnectionType::Mixed);
    assert_eq!(*request.config.access_point, "ap");
    assert_eq!(*request.config.station, "other");
    assert_eq!(request.capture, None);
}

#[test]
fn stop_signals_and_waits() {
    assert_eq!(CSIAccessPoint::new_with_defaults(0).stop_collection(), STOP);
    assert_eq!(
        CSIAccessPointStation::new_with_defaults(0, 0).stop_collection(),
        [StopStep::SignalStop, StopStep::AwaitHalted, StopStep::RecaptureController]
    );
    assert_eq!(CSIStation::new_with_defaults(0).stop_collection(), STOP);
    assert_eq!(CSISniffer::new_with_defaults().stop_collection(), STOP);
}

#[test]
fn start_takes_the_missing_steps() {
    let run = |conn_type: ConnectionType, started: bool, connected: bool| {
        let mut steps = vec![StartStep::Configure];
        loop {
            let step = steps[steps.len() - 1];
            if step == StartStep::Finished {
                return steps;
            }
            let reply = if step == StartStep::QueryStarted { started } else { connected };
            steps.push(start_collection(conn_type, step, reply));
        }
    };
    let all = vec![
        StartStep::Configure,
        StartStep::QueryStarted,
        StartStep::StartWifi,
        StartStep::QueryConnected,
        StartStep::ConnectWifi,
        StartStep::SignalStart,
        StartStep::Finished,
    ];
    let fewest = vec![
        StartStep::Configure,
        StartStep::QueryStarted,
        StartStep::QueryConnected,
        StartStep::SignalStart,
        StartStep::Finished,
    ];
    assert_eq!(run(ConnectionType::Client, false, false), all);
    assert_eq!(run(ConnectionType::Mixed, false, false), all);
    assert_eq!(run(ConnectionType::Client, true, true), fewest);
    assert_eq!(run(ConnectionType::AccessPoint, true, false), fewest);
    assert_eq!(run(ConnectionType::AccessPoint, false, false).len(), 6);
}

#[test]
fn monitoring_access_point_gives_no_csi() {
    let device = CSIAccessPoint::new_with_defaults(0);
    let refusal = Error::SystemError("get_csi_data_raw() not supported in Monitor Mode");
    let raw = RawMessage::from_slice(&[0; 7]).unwrap();
    assert_eq!(device.get_csi_data(vec![]).unwrap_err(), refusal);
    assert_eq!(device.get_csi_data(vec![raw.clone()]).unwrap_err(), refusal);
    assert_eq!(device.get_csi_data_raw(vec![]), Err(refusal));
    assert_eq!(device.get_csi_data_raw(vec![raw.clone()]), Err(refusal));
    let device = CSIAccessPointStation::new_with_defaults(0, 0);
    assert_eq!(device.get_csi_data(vec![raw.clone()]).unwrap_err(), refusal);
    assert_eq!(device.get_csi_data_raw(vec![raw]), Err(refusal));
}

#[test]
fn triggering_access_point_gives_csi() {
    let mode = ApOperationMode::Trigger(trigger_config());
    let raw = RawMessage::from_slice(&[1, 2, 0, 0, 0, 0, 3, 0xFF]).unwrap();
    let short = RawMessage::from_slice(&[1, 2]).unwrap();
    let failure = Error::SystemError("Error reconstructing recieved CSI message");
    let device = CSIAccessPoint::new(0, mode);
    assert!(device.get_csi_data(vec![]).unwrap().is_none());
    let packet = device.get_csi_data(vec![raw.clone()]).unwrap().unwrap();
    assert_eq!(packet.sequence_number, 0x0102);
    assert_eq!(packet.timestamp, 3);
    assert_eq!(packet.csi_data.as_slice(), &[-1]);
    assert_eq!(device.get_csi_data(vec![short.clone()]).unwrap_err(), failure);
    assert_eq!(device.get_csi_data_raw(vec![]), Ok(None));
    assert_eq!(device.get_csi_data_raw(vec![short.clone()]), Ok(Some(short.clone())));
    let device = CSIAccessPointStation::new(0, 0, mode);
    assert_eq!(device.get_csi_data(vec![raw]).unwrap().unwrap().sequence_number, 0x0102);
    assert_eq!(device.get_csi_data(vec![short.clone()]).unwrap_err(), failure);
    assert_eq!(device.get_csi_data_raw(vec![short.clone()]), Ok(Some(short)));
}

#[test]
fn latest_message_is_read() {
    let device = CSIAccessPoint::new(0, ApOperationMode::Trigger(trigger_config()));
    let both = CSIAccessPointStation::new(0, 0, ApOperationMode::Trigger(trigger_config()));
    let older = RawMessage::from_slice(&[0, 1, 0, 0, 0, 0, 3]).unwrap();
    let later = RawMessage::from_slice(&[0, 2, 0, 0, 0, 0, 4]).unwrap();
    let waiting = vec![older, later.clone()];
    assert_eq!(device.get_csi_data(waiting.clone()).unwrap().unwrap().sequence_number, 2);
    assert_eq!(both.get_csi_data(waiting.clone()).unwrap().unwrap().sequence_number, 2);
    assert_eq!(device.get_csi_data_raw(waiting.clone()), Ok(Some(later.clone())));
    assert_eq!(both.get_csi_data_raw(waiting), Ok(Some(later)));
}

#[test]
fn controller_is_handed_back_before_the_halt_is_told() {
    assert_eq!(return_controller(), [ReturnStep::SendController, ReturnStep::SignalHalted]);
}

#[test]
fn received_packets_become_messages() {
    let mut buffer = [0u8; 1024];
    for (index, byte) in buffer.iter_mut().enumerate() {
        *byte = index as u8;
    }
    assert!(matches!(ap_udp_receiver(&buffer, 0), UdpReceipt::Empty));
    for len in [1, 7, 619, 625] {
        match ap_udp_receiver(&buffer, len) {
            UdpReceipt::Message(message) => assert_eq!(message.as_slice(), &buffer[..len]),
            _ => panic!("no message"),
        }
    }
    assert!(matches!(ap_udp_receiver(&buffer, 626), UdpReceipt::TooLong(626)));
    assert!(matches!(ap_udp_receiver(&buffer, 1024), UdpReceipt::TooLong(1024)));
}

#[test]
fn triggers_are_numbered_and_wrap() {
    let config = trigger_config();
    let idle = TriggerState::Idle;
    let (state, action) = ap_icmp_trigger(&config, idle, TriggerEvent::Signal(false));
    assert_eq!(state, idle);
    assert!(matches!(action, TriggerAction::Pause(100_000)));
    let (state, action) = ap_icmp_trigger(&config, idle, TriggerEvent::TimerExpired);
    assert_eq!(state, idle);
    assert!(matches!(action, TriggerAction::AwaitSignal));
    let (mut state, action) = ap_icmp_trigger(&config, idle, TriggerEvent::Signal(true));
    assert!(matches!(action, TriggerAction::ArmTimer(250_000)));
    for seq_num in [65_534, 65_535, 0, 1] {
        let (next, action) = ap_icmp_trigger(&config, state, TriggerEvent::TimerExpired);
        match action {
            TriggerAction::Send { packet, interval } => {
                assert_eq!(packet, trigger_packet(GATEWAY, [192, 168, 2, 7], seq_num));
                assert_eq!(interval, 250_000);
            }
            _ => panic!("no trigger"),
        }
        let (next, action) = ap_icmp_trigger(&config, next, TriggerEvent::Signal(true));
        assert!(matches!(action, TriggerAction::ArmTimer(250_000)));
        state = next;
    }
    let (state, action) = ap_icmp_trigger(&config, state, TriggerEvent::Signal(false));
    assert_eq!(state, idle);
    assert!(matches!(action, TriggerAction::AwaitSignal));
    let (state, _) = ap_icmp_trigger(&config, state, TriggerEvent::Signal(true));
    assert_eq!(state, TriggerState::Sending { seq_num: 65_534 });
}

#[test]
fn triggers_go_to_the_configured_destination() {
    let mut config = trigger_config();
    assert_eq!(config.destination(), [192, 168, 2, 7]);
    config.trigger_type = TriggerType::Broadcast;
    assert_eq!(config.destination(), [192, 168, 2, 255]);
}

#[test]
fn access_point_task_returns_the_controller() {
    let (state, action) = ap_connection(TaskState::Idle, TaskEvent::Signal(false));
    assert_eq!((state, action), (TaskState::Idle, TaskAction::Pause(100_000)));
    let (state, action) = ap_connection(state, TaskEvent::Signal(true));
    assert_eq!((state, action), (TaskState::Acquiring, TaskAction::ReceiveController));
    let (state, action) = ap_connection(state, TaskEvent::ControllerReceived);
    assert_eq!((state, action), (TaskState::Active, TaskAction::Listen));
    let all = LinkEvents { connected: true, disconnected: true, stopped: true };
    let (state, action) = ap_connection(state, TaskEvent::Link(all));
    assert_eq!(state, TaskState::Active);
    assert_eq!(action, TaskAction::Report(LinkEvents { stopped: false, ..all }));
    for signal in [true, false] {
        let (state, action) = ap_connection(state, TaskEvent::Signal(signal));
        assert_eq!((state, action), (TaskState::Idle, TaskAction::ReturnController));
    }
    assert_eq!(
        ap_connection(TaskState::Acquiring, TaskEvent::Link(NO_EVENTS)),
        (TaskState::Acquiring, TaskAction::ReceiveController)
    );
}

#[test]
fn station_task_sets_up_csi() {
    let (state, action) = sta_connection(TaskState::Idle, TaskEvent::Signal(true));
    assert_eq!((state, action), (TaskState::Acquiring, TaskAction::ReceiveController));
    let (state, action) = sta_connection(state, TaskEvent::ControllerReceived);
    assert_eq!((state, action), (TaskState::Configuring, TaskAction::ReceiveConfig));
    let config = CSIConfig::default();
    let (state, action) = sta_connection(state, TaskEvent::ConfigReceived(config));
    assert_eq!((state, action), (TaskState::Active, TaskAction::ApplyConfig(build_csi_config(config))));
    let (state, action) = sta_connection(state, TaskEvent::Signal(true));
    assert_eq!((state, action), (TaskState::Active, TaskAction::Listen));
    let all = LinkEvents { connected: true, disconnected: true, stopped: true };
    let (state, action) = sta_connection(state, TaskEvent::Link(all));
    assert_eq!(action, TaskAction::Report(LinkEvents { connected: false, ..all }));
    let (state, action) = sta_connection(state, TaskEvent::Signal(false));
    assert_eq!((state, action), (TaskState::Idle, TaskAction::ReturnController));
}

#[test]
fn station_task_waits_for_the_start() {
    assert_eq!(
        sta_connection(TaskState::Idle, TaskEvent::Signal(false)),
        (TaskState::Idle, TaskAction::Pause(100_000))
    );
}

#[test]
fn sniffer_task_takes_new_configurations() {
    let config = CSIConfig::default();
    let (state, _) = sniffer_task(TaskState::Idle, TaskEvent::Signal(true));
    let (state, action) = sniffer_task(state, TaskEvent::ControllerReceived);
    assert_eq!((state, action), (TaskState::Configuring, TaskAction::ReceiveConfig));
    let (state, action) = sniffer_task(state, TaskEvent::ConfigReceived(config));
    assert_eq!((state, action), (TaskState::Active, TaskAction::ApplyConfig(build_csi_config(config))));
    assert_eq!(
        sniffer_task(state, TaskEvent::Signal(true)),
        (TaskState::Configuring, TaskAction::ReceiveConfig)
    );
    assert_eq!(
        sniffer_task(state, TaskEvent::Signal(false)),
        (TaskState::Idle, TaskAction::ReturnController)
    );
    assert_eq!(
        sniffer_task(TaskState::Idle, TaskEvent::Signal(false)),
        (TaskState::Idle, TaskAction::Pause(100_000))
    );
}

#[test]
fn controller_is_taken_and_returned_alternately() {
    let events = [
        TaskEvent::Signal(true),
        TaskEvent::Signal(false),
        TaskEvent::ControllerReceived,
        TaskEvent::ConfigReceived(CSIConfig::default()),
        TaskEvent::Link(NO_EVENTS),
        TaskEvent::Signal(true),
        TaskEvent::ConfigReceived(CSIConfig::default()),
        TaskEvent::ControllerReceived,
        TaskEvent::Signal(false),
        TaskEvent::Signal(false),
        TaskEvent::Signal(true),
        TaskEvent::ControllerReceived,
    ];
    let run = |step: fn(TaskState, TaskEvent) -> (TaskState, TaskAction)| {
        let mut state = TaskState::Idle;
        let mut taken = 0;
        let mut returned = 0;
        for event in events {
            if state == TaskState::Acquiring && event == TaskEvent::ControllerReceived {
                taken += 1;
            }
            let (next, action) = step(state, event);
            if action == TaskAction::ReturnController {
                returned += 1;
            }
            let holds = matches!(next, TaskState::Configuring | TaskState::Active);
            assert_eq!(taken, returned + if holds { 1 } else { 0 });
            state = next;
        }
        (taken, returned)
    };
    assert_eq!(run(ap_connection), (2, 1));
    assert_eq!(run(sniffer_task), (2, 1));
    assert_eq!(run(sta_connection), (2, 1));
}

#[test]
fn station_sends_triggers() {
    let mut message = RawMessage::new();
    let captured = captured(7, &[]);
    let mut step = |state: NetworkState, event| {
        sta_network_ops(trigger(), &ip_info(), state, event, &mut message)
    };
    assert_eq!(
        step(NetworkState::Idle, NetworkEvent::Signal(false)),
        (NetworkState::Idle, NetworkAction::Pause(100_000))
    );
    assert_eq!(
        step(NetworkState::Idle, NetworkEvent::TimerExpired),
        (NetworkState::Idle, NetworkAction::AwaitSignal)
    );
    assert_eq!(
        step(NetworkState::Idle, NetworkEvent::Signal(true)),
        (NetworkState::Running, NetworkAction::ArmTimer(10_000))
    );
    let packet = sta_trigger_packet(&ip_info());
    assert_eq!(
        step(NetworkState::Running, NetworkEvent::TimerExpired),
        (NetworkState::Running, NetworkAction::SendTrigger { packet, interval: 10_000 })
    );
    assert_eq!(
        step(NetworkState::Running, NetworkEvent::Signal(true)),
        (NetworkState::Running, NetworkAction::ArmTimer(10_000))
    );
    assert_eq!(
        step(NetworkState::Running, NetworkEvent::Processed(&captured)),
        (NetworkState::Running, NetworkAction::ArmTimer(10_000))
    );
    assert_eq!(
        step(NetworkState::Running, NetworkEvent::Signal(false)),
        (NetworkState::Idle, NetworkAction::AwaitSignal)
    );
    assert!(message.is_empty());
    assert_eq!(packet[12..20], [10, 0, 0, 2, 10, 0, 0, 1]);
    assert_eq!(packet[10..12], [0x26, 0xdb]);
    assert_eq!(packet[26..28], [0, 0]);
}

#[test]
fn frequency_matters_only_where_triggers_are_awaited() {
    let mut message = RawMessage::new();
    let none = StaOperationMode::Trigger(StaTriggerConfig { trigger_freq_hz: 0 });
    assert_eq!(
        sta_network_ops(
            none,
            &ip_info(),
            NetworkState::Idle,
            NetworkEvent::Signal(false),
            &mut message,
        ),
        (NetworkState::Idle, NetworkAction::Pause(100_000))
    );
    let config = ApTriggerConfig {
        trigger_freq_hz: 0,
        trigger_type: TriggerType::Unicast("nowhere"),
        ..trigger_config()
    };
    let (state, action) =
        ap_icmp_trigger(&config, TriggerState::Idle, TriggerEvent::Signal(false));
    assert_eq!(state, TriggerState::Idle);
    assert!(matches!(action, TriggerAction::Pause(100_000)));
}

#[test]
fn station_returns_every_processed_packet() {
    let mut message = RawMessage::new();
    let info = ip_info();
    let mut packet = captured(7, &[-1]);
    let (state, action) = sta_network_ops(
        monitor(),
        &info,
        NetworkState::Idle,
        NetworkEvent::Signal(true),
        &mut message,
    );
    assert_eq!((state, action), (NetworkState::Running, NetworkAction::AwaitPacket));
    let event = NetworkEvent::Processed(&packet);
    let (state, action) = sta_network_ops(monitor(), &info, state, event, &mut message);
    assert_eq!((state, action), (NetworkState::Running, SEND_MESSAGE));
    assert_eq!(message.as_slice(), &[0, 0, 13, 0, 0, 0, 7, 0xFF]);
    packet.sequence_number = 3;
    let event = NetworkEvent::Processed(&packet);
    let (state, action) = sta_network_ops(monitor(), &info, state, event, &mut message);
    assert_eq!((state, action), (NetworkState::Running, SEND_MESSAGE));
    assert_eq!(message.as_slice(), &[0, 3, 13, 0, 0, 0, 7, 0xFF]);
    let event = NetworkEvent::Signal(false);
    let (state, action) = sta_network_ops(monitor(), &info, state, event, &mut message);
    assert_eq!((state, action), (NetworkState::Idle, NetworkAction::AwaitSignal));
    let event = NetworkEvent::Processed(&packet);
    let (state, action) = sta_network_ops(monitor(), &info, state, event, &mut message);
    assert_eq!((state, action), (NetworkState::Idle, NetworkAction::AwaitSignal));
    assert_eq!(message.len(), 8);
}

/// What the access point gets of a packet that the station processed.
fn returned(packet: &CSIDataPacket) -> CSIDataPacket {
    let mut message = RawMessage::new();
    let (_, action) = sta_network_ops(
        monitor(),
        &ip_info(),
        NetworkState::Running,
        NetworkEvent::Processed(packet),
        &mut message,
    );
    assert_eq!(action, SEND_MESSAGE);
    let device = CSIAccessPoint::new(0, ApOperationMode::Trigger(ApTriggerConfig::default()));
    match ap_udp_receiver(&message, message.len()) {
        UdpReceipt::Message(raw) => device.get_csi_data(vec![raw]).unwrap().unwrap(),
        _ => panic!("no message"),
    }
}

#[test]
fn trigger_is_answered_with_its_sequence_number() {
    for seq_no in [4711, 0, 65_535] {
        let mut frame = vec![0x08, 0x02];
        frame.extend_from_slice(&[0; 22]);
        frame.extend_from_slice(&[0xAA, 0xAA, 0x03, 0, 0, 0, 0x08, 0x00]);
        frame.extend_from_slice(&trigger_packet(GATEWAY, [192, 168, 2, 255], seq_no));
        let mut last = LastTrigger { sequence_number: 5, timestamp: 0 };
        sequence_sync(&frame, 1_000_000, &mut last);
        let mut packet = captured(1_004_999, &[5, -6]);
        process_csi_packet(&mut packet, None, 0, Some(last));
        let received = returned(&packet);
        assert_eq!(received.sequence_number, seq_no);
        assert_eq!(received.timestamp, 1_004_999);
        assert_eq!(received.csi_data.as_slice(), &[5, -6]);
        assert_eq!((received.sig_mode, received.secondary_channel), (1, 1));
    }
}

#[test]
fn csi_without_a_trigger_is_returned_with_number_zero() {
    let last = LastTrigger { sequence_number: 4711, timestamp: 1_000_000 };
    let mut packet = captured(1_005_001, &[5]);
    process_csi_packet(&mut packet, None, 0, Some(last));
    let received = returned(&packet);
    assert_eq!(received.sequence_number, 0);
    assert_eq!(received.csi_data.as_slice(), &[5]);
}
