//! Processing of captured packets.

use crate::csi::{format_params, format_unique, is_format_of, CSIDataPacket, RxCSIFmt};
use crate::frame::LastTrigger;
use crate::time::{date_time_keeps_time, DateTimeCapture};
use vstd::prelude::*;

verus! {

/// How far apart, in microseconds, a trigger and the CSI that it caused can be received.
pub const TRIGGER_TOLERANCE: u32 = 5000;

/// The sequence number of a packet received at `timestamp`: that of the last trigger if the
/// two were received within the tolerance, else 0.
pub open spec fn matched_sequence(last: LastTrigger, timestamp: u32) -> u16 {
    if -TRIGGER_TOLERANCE <= last.timestamp - timestamp <= TRIGGER_TOLERANCE {
        last.sequence_number
    } else {
        0
    }
}

/// Whether `after` is `before` with its date, where a captured time is available, and its
/// sequence number, where those of triggers are followed, at the instant `now`. Nothing is
/// said of the data format.
pub open spec fn is_completed(
    before: CSIDataPacket,
    after: CSIDataPacket,
    capture: Option<DateTimeCapture>,
    now: u64,
    last_trigger: Option<LastTrigger>,
) -> bool {
    &&& match capture {
        Some(time) => after.date_time matches Some(date) && date.denotes(
            time.secs_at(now),
            time.millis_at(now) % 1000,
        ),
        None => after.date_time == before.date_time,
    }
    &&& after.sequence_number == match last_trigger {
        Some(last) => matched_sequence(last, before.timestamp),
        None => before.sequence_number,
    }
    &&& after == (CSIDataPacket {
        data_format: after.data_format,
        date_time: after.date_time,
        sequence_number: after.sequence_number,
        ..before
    })
}

/// Whether `after` is `before` once it was processed at the instant `now`.
pub open spec fn is_processed(
    before: CSIDataPacket,
    after: CSIDataPacket,
    capture: Option<DateTimeCapture>,
    now: u64,
    last_trigger: Option<LastTrigger>,
) -> bool {
    &&& is_format_of(after.data_format, before.radio())
    &&& is_completed(before, after, capture, now, last_trigger)
}

/// Completes a captured packet: its data format, its date where a captured time is
/// available, and its sequence number where those of triggers are followed.
pub fn process_csi_packet(
    packet: &mut CSIDataPacket,
    capture: Option<DateTimeCapture>,
    now: u64,
    last_trigger: Option<LastTrigger>,
)
    requires
        capture matches Some(time) ==> time.wf(),
    ensures
        is_processed(*old(packet), *final(packet), capture, now, last_trigger),
{
    packet.csi_fmt_from_params();
    process_csi_packet_esp32c6(packet, capture, now, last_trigger);
}

/// Completes a packet that an ESP32-C6 captured. The radio of that chip does not report the
/// parameters that tell the data format, which stays as it is.
pub fn process_csi_packet_esp32c6(
    packet: &mut CSIDataPacket,
    capture: Option<DateTimeCapture>,
    now: u64,
    last_trigger: Option<LastTrigger>,
)
    requires
        capture matches Some(time) ==> time.wf(),
    ensures
        is_completed(*old(packet), *final(packet), capture, now, last_trigger),
        final(packet).data_format == old(packet).data_format,
{
    if let Some(time) = capture {
        packet.date_time = Some(time.date_time_at(now));
    }
    if let Some(last) = last_trigger {
        let apart: u32 = if last.timestamp >= packet.timestamp {
            last.timestamp - packet.timestamp
        } else {
            packet.timestamp - last.timestamp
        };
        if apart <= TRIGGER_TOLERANCE {
            packet.sequence_number = last.sequence_number;
        } else {
            packet.sequence_number = 0;
        }
    }
}

/// A packet gets the number of the last trigger exactly where the two were received at most
/// 5000 microseconds apart, either first, and 0 elsewhere; it keeps its number where triggers
/// are not followed.
pub proof fn processing_numbers(
    before: CSIDataPacket,
    after: CSIDataPacket,
    capture: Option<DateTimeCapture>,
    now: u64,
    last_trigger: Option<LastTrigger>,
)
    requires
        is_completed(before, after, capture, now, last_trigger),
    ensures
        last_trigger matches Some(last) ==> ({
            let apart = if last.timestamp <= before.timestamp {
                before.timestamp - last.timestamp
            } else {
                last.timestamp - before.timestamp
            };
            &&& apart <= 5000 ==> after.sequence_number == last.sequence_number
            &&& apart > 5000 ==> after.sequence_number == 0
        }),
        last_trigger is None ==> after.sequence_number == before.sequence_number,
{
}

/// A packet is dated with the captured time and the milliseconds since, and keeps its date
/// where no time was captured.
pub proof fn processing_dates(
    before: CSIDataPacket,
    after: CSIDataPacket,
    capture: Option<DateTimeCapture>,
    now: u64,
    last_trigger: Option<LastTrigger>,
)
    requires
        is_completed(before, after, capture, now, last_trigger),
        capture matches Some(time) ==> time.wf(),
    ensures
        capture matches Some(time) ==> after.date_time is Some && ({
            let since = if time.captured_at <= now {
                (now - time.captured_at) / 1000
            } else {
                0int
            };
            let millis = time.captured_secs * 1000 + time.captured_millis + since;
            after.date_time->0.denotes(millis / 1000, millis % 1000)
        }),
        capture is None ==> after.date_time == before.date_time,
{
    if let Some(time) = capture {
        date_time_keeps_time(time, now);
    }
}

/// Processing sets the format, the date and the number; what was captured stays.
pub proof fn processing_keeps_capture(
    before: CSIDataPacket,
    after: CSIDataPacket,
    capture: Option<DateTimeCapture>,
    now: u64,
    last_trigger: Option<LastTrigger>,
)
    requires
        is_completed(before, after, capture, now, last_trigger),
    ensures
        after.mac == before.mac && after.rssi == before.rssi && after.noise_floor
            == before.noise_floor,
        after.bandwidth == before.bandwidth && after.sig_mode == before.sig_mode && after.stbc
            == before.stbc && after.secondary_channel == before.secondary_channel,
        after.antenna == before.antenna && after.rate == before.rate && after.mcs == before.mcs,
        after.smoothing == before.smoothing && after.not_sounding == before.not_sounding
            && after.aggregation == before.aggregation,
        after.fec_coding == before.fec_coding && after.sgi == before.sgi && after.ampdu_cnt
            == before.ampdu_cnt,
        after.channel == before.channel && after.timestamp == before.timestamp && after.rx_state
            == before.rx_state && after.sig_len == before.sig_len,
        after.csi_data_len == before.csi_data_len,
        after.csi_data == before.csi_data,
{
}

/// Processing a packet sets the format that its radio parameters have.
pub proof fn processing_sets_format(
    before: CSIDataPacket,
    after: CSIDataPacket,
    capture: Option<DateTimeCapture>,
    now: u64,
    last_trigger: Option<LastTrigger>,
    format: RxCSIFmt,
)
    requires
        is_processed(before, after, capture, now, last_trigger),
        format != RxCSIFmt::Undefined,
    ensures
        after.data_format == format <==> {
            &&& format_params(format).bandwidth == before.bandwidth
            &&& format_params(format).sig_mode == before.sig_mode
            &&& format_params(format).stbc == before.stbc
            &&& format_params(format).secondary_channel == before.secondary_channel
        },
        is_completed(before, after, capture, now, last_trigger),
{
    if format_params(format) == before.radio() {
        assert(is_format_of(format, before.radio()));
        format_unique(format, after.data_format, before.radio());
    }
}

} // verus!
