//! What an access point that sends triggers and a station that monitors them do together.

use super::ap::{is_csi_read, ApOperationMode};
use super::sta::{
    is_network_action, NetworkAction, NetworkEvent, NetworkState, StaMonitorConfig,
    StaOperationMode,
};
use crate::buffers::{message_bytes, sample_values, RawMessage, SAMPLE_CAPACITY};
use crate::csi::{is_format_of, CSIDataPacket, RxCSIFmt};
use crate::dhcp::IpInfo;
use crate::error::Error;
use crate::frame::{data_payload, is_synced, LastTrigger};
use crate::message::{encoding, message_round_trip};
use crate::process::{is_processed, TRIGGER_TOLERANCE};
use crate::time::DateTimeCapture;
use crate::trigger::{carries_trigger, trigger_heard};
use vstd::prelude::*;

verus! {

/// Whether `packet` is `captured` as it arrives at the access point, with the sequence number
/// `seq_no`. The radio parameters come with it if they are those of a defined format.
pub open spec fn is_returned(
    packet: CSIDataPacket,
    captured: CSIDataPacket,
    seq_no: u16,
) -> bool {
    &&& packet.sequence_number == seq_no
    &&& packet.timestamp == captured.timestamp
    &&& sample_values(packet.csi_data) == sample_values(captured.csi_data)
    &&& packet.csi_data_len == sample_values(captured.csi_data).len()
    &&& is_format_of(packet.data_format, captured.radio())
    &&& packet.data_format != RxCSIFmt::Undefined ==> packet.radio() == captured.radio()
}

/// Every packet that a running station in monitor mode processed is sent to the gateway, and
/// the access point gets the captured timestamp and samples from the message, with the
/// sequence number that processing gave the packet.
pub proof fn processed_returned(
    captured: CSIDataPacket,
    processed: CSIDataPacket,
    time: Option<DateTimeCapture>,
    now: u64,
    last: Option<LastTrigger>,
    monitor: StaMonitorConfig,
    ip_info: IpInfo,
    action: NetworkAction,
    mode: ApOperationMode,
    raw: RawMessage,
    result: Result<Option<CSIDataPacket>, Error>,
)
    requires
        sample_values(captured.csi_data).len() <= SAMPLE_CAPACITY,
        is_processed(captured, processed, time, now, last),
        is_network_action(
            StaOperationMode::Monitor(monitor),
            ip_info,
            NetworkState::Running,
            NetworkEvent::Processed(&processed),
            action,
        ),
        message_bytes(raw) == encoding(processed),
        mode is Trigger,
        is_csi_read(mode, Some(raw), result),
    ensures
        action == (NetworkAction::SendMessage {
            local_port: monitor.local_port,
            gateway: ip_info.gateway_address,
            dest_port: monitor.dest_port,
        }),
        result matches Ok(Some(packet)) && is_returned(
            packet,
            captured,
            processed.sequence_number,
        ),
{
    message_round_trip(processed, result->Ok_0->0);
}

/// A trigger is answered: where a station hears a trigger, and captures CSI within the
/// tolerance of it, what the access point gets has the trigger's sequence number.
pub proof fn trigger_answered(
    src: Seq<u8>,
    dst: Seq<u8>,
    seq_no: u16,
    frame: Seq<u8>,
    heard_at: u32,
    before: LastTrigger,
    last: LastTrigger,
    captured: CSIDataPacket,
    processed: CSIDataPacket,
    time: Option<DateTimeCapture>,
    now: u64,
    mode: ApOperationMode,
    raw: RawMessage,
    result: Result<Option<CSIDataPacket>, Error>,
)
    requires
        data_payload(frame) matches Some(payload) && carries_trigger(payload, src, dst, seq_no),
        is_synced(before, last, frame, heard_at),
        -TRIGGER_TOLERANCE <= heard_at - captured.timestamp <= TRIGGER_TOLERANCE,
        sample_values(captured.csi_data).len() <= SAMPLE_CAPACITY,
        is_processed(captured, processed, time, now, Some(last)),
        message_bytes(raw) == encoding(processed),
        mode is Trigger,
        is_csi_read(mode, Some(raw), result),
    ensures
        result matches Ok(Some(packet)) && is_returned(packet, captured, seq_no),
{
    trigger_heard(src, dst, seq_no, frame, heard_at, before, last);
    message_round_trip(processed, result->Ok_0->0);
}

/// CSI that was captured out of the tolerance of the last trigger arrives too, with the
/// sequence number 0.
pub proof fn untriggered_returned(
    captured: CSIDataPacket,
    processed: CSIDataPacket,
    time: Option<DateTimeCapture>,
    now: u64,
    last: LastTrigger,
    mode: ApOperationMode,
    raw: RawMessage,
    result: Result<Option<CSIDataPacket>, Error>,
)
    requires
        last.timestamp - captured.timestamp > TRIGGER_TOLERANCE || captured.timestamp
            - last.timestamp > TRIGGER_TOLERANCE,
        sample_values(captured.csi_data).len() <= SAMPLE_CAPACITY,
        is_processed(captured, processed, time, now, Some(last)),
        message_bytes(raw) == encoding(processed),
        mode is Trigger,
        is_csi_read(mode, Some(raw), result),
    ensures
        result matches Ok(Some(packet)) && is_returned(packet, captured, 0),
{
    message_round_trip(processed, result->Ok_0->0);
}

} // verus!
