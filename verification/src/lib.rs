//! Collection of Channel State Information (CSI) on ESP devices.
//!
//! A station or sniffer captures CSI for the packets it hears; an access point or a
//! station sends the trigger traffic that makes packets be heard. This library holds
//! what those devices compute and decide: the trigger packets, the recognition of a
//! trigger in a received frame, the CSI packet and its metadata, the message in which
//! CSI travels back to the trigger source, calendar time, and the steps that each
//! device's tasks take. Radio, sockets and timers are driven by the caller.

pub mod buffers;
pub mod bytes;
pub mod collector;
pub mod config;
pub mod csi;
pub mod dhcp;
pub mod echo;
pub mod error;
pub mod frame;
pub mod message;
pub mod net;
pub mod process;
pub mod sntp;
pub mod ticks;
pub mod time;
pub mod trigger;

pub use csi::{CSIDataPacket, RxCSIFmt};
pub use message::reconstruct_csi_from_udp;
pub use process::process_csi_packet;
pub use sntp::get_sntp_time;
pub use time::{unix_to_date_time, DateTime};
