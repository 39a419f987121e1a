//! The devices that collect CSI or make others collect it.
//!
//! Each device has a struct with its configuration and the tasks that it runs. The steps
//! that involve the radio, the network or the clock are returned for the caller to take;
//! what came of them is handed back as an event.

pub mod ap;
pub mod apsta;
pub mod connection;
pub mod control;
pub mod exchange;
pub mod sniffer;
pub mod sta;

pub use ap::{
    ap_icmp_trigger, ap_udp_receiver, ApOperationMode, ApTriggerConfig, CSIAccessPoint, TriggerType,
};
pub use apsta::CSIAccessPointStation;
pub use connection::{ap_connection, sta_connection};
pub use sniffer::CSISniffer;
pub use sta::{sta_network_ops, CSIStation, StaMonitorConfig, StaOperationMode, StaTriggerConfig};
