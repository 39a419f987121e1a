//! The CSI packet: its data format, its metadata, and its capture.

use crate::buffers::{
    sample_values, samples_clone, samples_new, samples_push, Samples, SAMPLE_CAPACITY,
};
use crate::time::DateTime;
use vstd::prelude::*;

verus! {

/// The CSI data formats of the Espressif WiFi driver, each a combination of secondary
/// channel, signal mode, channel bandwidth and space-time block coding. One byte tells
/// them apart in a message.
#[derive(Debug, Clone, Copy, PartialEq, Eq, Structural)]
pub enum RxCSIFmt {
    /// Sec Chnl = None, Sig Mode = non-Ht, Chnl BW = 20MHz, non-STBC
    Bw20,
    /// Sec Chnl = None, Sig Mode = Ht, Chnl BW = 20MHz, non-STBC
    HtBw20,
    /// Sec Chnl = None, Sig Mode = Ht, Chnl BW = 20MHz, STBC
    HtBw20Stbc,
    /// Sec Chnl = Below, Sig Mode = non-Ht, Chnl BW = 20MHz, non-STBC
    SecbBw20,
    /// Sec Chnl = Below, Sig Mode = Ht, Chnl BW = 20MHz, non-STBC
    SecbHtBw20,
    /// Sec Chnl = Below, Sig Mode = Ht, Chnl BW = 20MHz, STBC
    SecbHtBw20Stbc,
    /// Sec Chnl = Below, Sig Mode = Ht, Chnl BW = 40MHz, non-STBC
    SecbHtBw40,
    /// Sec Chnl = Below, Sig Mode = Ht, Chnl BW = 40MHz, STBC
    SecbHtBw40Stbc,
    /// Sec Chnl = Above, Sig Mode = non-Ht, Chnl BW = 20MHz, non-STBC
    SecaBw20,
    /// Sec Chnl = Above, Sig Mode = Ht, Chnl BW = 20MHz, non-STBC
    SecaHtBw20,
    /// Sec Chnl = Above, Sig Mode = Ht, Chnl BW = 20MHz, STBC
    SecaHtBw20Stbc,
    /// Sec Chnl = Above, Sig Mode = Ht, Chnl BW = 40MHz, non-STBC
    SecaHtBw40,
    /// Sec Chnl = Above, Sig Mode = Ht, Chnl BW = 40MHz, STBC
    SecaHtBw40Stbc,
    /// Not a defined format
    Undefined,
}

/// The radio parameters that a data format stands for.
#[derive(Debug, Clone, Copy, PartialEq, Eq, Structural)]
pub struct FormatParams {
    /// Channel bandwidth: 0 is 20MHz, 1 is 40MHz.
    pub bandwidth: u32,
    /// Signal mode: 0 is non-Ht, 1 is Ht.
    pub sig_mode: u32,
    /// Space-time block coding: 0 is without, 1 is with.
    pub stbc: u32,
    /// Secondary channel: 0 is none, 1 is above, 2 is below.
    pub secondary_channel: u32,
}

/// The radio parameters with the given values.
pub open spec fn params(
    bandwidth: u32,
    sig_mode: u32,
    stbc: u32,
    secondary_channel: u32,
) -> FormatParams {
    FormatParams { bandwidth, sig_mode, stbc, secondary_channel }
}

/// The byte that stands for a format: its place in the list of formats.
pub open spec fn format_code(format: RxCSIFmt) -> u8 {
    match format {
        RxCSIFmt::Bw20 => 0,
        RxCSIFmt::HtBw20 => 1,
        RxCSIFmt::HtBw20Stbc => 2,
        RxCSIFmt::SecbBw20 => 3,
        RxCSIFmt::SecbHtBw20 => 4,
        RxCSIFmt::SecbHtBw20Stbc => 5,
        RxCSIFmt::SecbHtBw40 => 6,
        RxCSIFmt::SecbHtBw40Stbc => 7,
        RxCSIFmt::SecaBw20 => 8,
        RxCSIFmt::SecaHtBw20 => 9,
        RxCSIFmt::SecaHtBw20Stbc => 10,
        RxCSIFmt::SecaHtBw40 => 11,
        RxCSIFmt::SecaHtBw40Stbc => 12,
        RxCSIFmt::Undefined => 13,
    }
}

/// The radio parameters of a format; all zero for the undefined one.
pub open spec fn format_params(format: RxCSIFmt) -> FormatParams {
    match format {
        RxCSIFmt::Bw20 => params(0, 0, 0, 0),
        RxCSIFmt::HtBw20 => params(0, 1, 0, 0),
        RxCSIFmt::HtBw20Stbc => params(0, 1, 1, 0),
        RxCSIFmt::SecbBw20 => params(0, 0, 0, 2),
        RxCSIFmt::SecbHtBw20 => params(0, 1, 0, 2),
        RxCSIFmt::SecbHtBw20Stbc => params(0, 1, 1, 2),
        RxCSIFmt::SecbHtBw40 => params(1, 1, 0, 2),
        RxCSIFmt::SecbHtBw40Stbc => params(1, 1, 1, 2),
        RxCSIFmt::SecaBw20 => params(0, 0, 0, 1),
        RxCSIFmt::SecaHtBw20 => params(0, 1, 0, 1),
        RxCSIFmt::SecaHtBw20Stbc => params(0, 1, 1, 1),
        RxCSIFmt::SecaHtBw40 => params(1, 1, 0, 1),
        RxCSIFmt::SecaHtBw40Stbc => params(1, 1, 1, 1),
        RxCSIFmt::Undefined => params(0, 0, 0, 0),
    }
}

/// Whether `format` is the defined format with these radio parameters, or the undefined
/// one where no defined format has them.
pub open spec fn is_format_of(format: RxCSIFmt, radio: FormatParams) -> bool {
    if format == RxCSIFmt::Undefined {
        forall|other: RxCSIFmt|
            other != RxCSIFmt::Undefined ==> #[trigger] format_params(other) != radio
    } else {
        format_params(format) == radio
    }
}

/// Whether `format` is the one that `code` stands for: the undefined one for every byte
/// that is no format's code.
pub open spec fn is_format_with_code(format: RxCSIFmt, code: u8) -> bool {
    if code <= 13 {
        format_code(format) == code
    } else {
        format == RxCSIFmt::Undefined
    }
}

/// No two formats have one code.
pub proof fn format_code_injective(one: RxCSIFmt, other: RxCSIFmt)
    requires
        format_code(one) == format_code(other),
    ensures
        one == other,
{
}

/// The radio parameters fix the format.
pub proof fn format_unique(one: RxCSIFmt, other: RxCSIFmt, radio: FormatParams)
    requires
        is_format_of(one, radio),
        is_format_of(other, radio),
    ensures
        one == other,
{
    if one == RxCSIFmt::Undefined && other != RxCSIFmt::Undefined {
        assert(format_params(other) != radio);
    }
    if other == RxCSIFmt::Undefined && one != RxCSIFmt::Undefined {
        assert(format_params(one) != radio);
    }
}

/// A defined format is the format of its own radio parameters.
pub proof fn format_of_its_params(format: RxCSIFmt)
    requires
        format != RxCSIFmt::Undefined,
    ensures
        is_format_of(format, format_params(format)),
{
}

impl RxCSIFmt {
    /// The byte that stands for this format.
    pub fn code(self) -> (code: u8)
        ensures
            code == format_code(self),
    {
        match self {
            RxCSIFmt::Bw20 => 0,
            RxCSIFmt::HtBw20 => 1,
            RxCSIFmt::HtBw20Stbc => 2,
            RxCSIFmt::SecbBw20 => 3,
            RxCSIFmt::SecbHtBw20 => 4,
            RxCSIFmt::SecbHtBw20Stbc => 5,
            RxCSIFmt::SecbHtBw40 => 6,
            RxCSIFmt::SecbHtBw40Stbc => 7,
            RxCSIFmt::SecaBw20 => 8,
            RxCSIFmt::SecaHtBw20 => 9,
            RxCSIFmt::SecaHtBw20Stbc => 10,
            RxCSIFmt::SecaHtBw40 => 11,
            RxCSIFmt::SecaHtBw40Stbc => 12,
            RxCSIFmt::Undefined => 13,
        }
    }

    /// The format and the radio parameters that a byte stands for.
    pub fn from_code(code: u8) -> (result: (RxCSIFmt, FormatParams))
        ensures
            is_format_with_code(result.0, code),
            result.1 == format_params(result.0),
    {
        let (format, bandwidth, sig_mode, stbc, secondary_channel) = match code {
            0 => (RxCSIFmt::Bw20, 0u32, 0u32, 0u32, 0u32),
            1 => (RxCSIFmt::HtBw20, 0, 1, 0, 0),
            2 => (RxCSIFmt::HtBw20Stbc, 0, 1, 1, 0),
            3 => (RxCSIFmt::SecbBw20, 0, 0, 0, 2),
            4 => (RxCSIFmt::SecbHtBw20, 0, 1, 0, 2),
            5 => (RxCSIFmt::SecbHtBw20Stbc, 0, 1, 1, 2),
            6 => (RxCSIFmt::SecbHtBw40, 1, 1, 0, 2),
            7 => (RxCSIFmt::SecbHtBw40Stbc, 1, 1, 1, 2),
            8 => (RxCSIFmt::SecaBw20, 0, 0, 0, 1),
            9 => (RxCSIFmt::SecaHtBw20, 0, 1, 0, 1),
            10 => (RxCSIFmt::SecaHtBw20Stbc, 0, 1, 1, 1),
            11 => (RxCSIFmt::SecaHtBw40, 1, 1, 0, 1),
            12 => (RxCSIFmt::SecaHtBw40Stbc, 1, 1, 1, 1),
            _ => (RxCSIFmt::Undefined, 0, 0, 0, 0),
        };
        (format, FormatParams { bandwidth, sig_mode, stbc, secondary_channel })
    }

    /// The format that has the given radio parameters.
    pub fn from_params(radio: FormatParams) -> (format: RxCSIFmt)
        ensures
            is_format_of(format, radio),
    {
        let format = match (
            radio.secondary_channel,
            radio.sig_mode,
            radio.bandwidth,
            radio.stbc,
        ) {
            (0, 0, 0, 0) => RxCSIFmt::Bw20,
            (0, 1, 0, 0) => RxCSIFmt::HtBw20,
            (0, 1, 0, 1) => RxCSIFmt::HtBw20Stbc,
            (2, 0, 0, 0) => RxCSIFmt::SecbBw20,
            (2, 1, 0, 0) => RxCSIFmt::SecbHtBw20,
            (2, 1, 0, 1) => RxCSIFmt::SecbHtBw20Stbc,
            (2, 1, 1, 0) => RxCSIFmt::SecbHtBw40,
            (2, 1, 1, 1) => RxCSIFmt::SecbHtBw40Stbc,
            (1, 0, 0, 0) => RxCSIFmt::SecaBw20,
            (1, 1, 0, 0) => RxCSIFmt::SecaHtBw20,
            (1, 1, 0, 1) => RxCSIFmt::SecaHtBw20Stbc,
            (1, 1, 1, 0) => RxCSIFmt::SecaHtBw40,
            (1, 1, 1, 1) => RxCSIFmt::SecaHtBw40Stbc,
            _ => RxCSIFmt::Undefined,
        };
        format
    }
}

/// One captured packet: its CSI samples and what the radio reported with them.
#[derive(Debug)]
pub struct CSIDataPacket {
    /// Sequence number of the trigger packet that made this CSI be captured, 0 if unknown.
    pub sequence_number: u16,
    /// Data format of the samples.
    pub data_format: RxCSIFmt,
    /// Time of capture, if a clock is available.
    pub date_time: Option<DateTime>,
    /// MAC address of the sender.
    pub mac: [u8; 6],
    /// Signal strength.
    pub rssi: i32,
    /// Channel bandwidth.
    pub bandwidth: u32,
    /// Antenna number.
    pub antenna: u32,
    /// Physical-layer rate.
    pub rate: u32,
    /// Signal mode.
    pub sig_mode: u32,
    /// Modulation and coding scheme.
    pub mcs: u32,
    /// Whether smoothing is recommended.
    pub smoothing: u32,
    /// Whether the packet is not a sounding one.
    pub not_sounding: u32,
    /// Aggregation.
    pub aggregation: u32,
    /// Space-time block coding.
    pub stbc: u32,
    /// Forward error correction coding.
    pub fec_coding: u32,
    /// Short guard interval.
    pub sgi: u32,
    /// Noise floor.
    pub noise_floor: i32,
    /// Number of subframes aggregated.
    pub ampdu_cnt: u32,
    /// Primary channel.
    pub channel: u32,
    /// Secondary channel.
    pub secondary_channel: u32,
    /// Local time at reception, in microseconds.
    pub timestamp: u32,
    /// State of the packet, 0 if no error.
    pub rx_state: u32,
    /// Length of the packet.
    pub sig_len: u32,
    /// Number of CSI samples.
    pub csi_data_len: u16,
    /// CSI samples.
    pub csi_data: Samples,
}

impl CSIDataPacket {
    /// The radio parameters that decide this packet's data format.
    pub open spec fn radio(self) -> FormatParams {
        params(self.bandwidth, self.sig_mode, self.stbc, self.secondary_channel)
    }

    /// Sets the data format to the one that the packet's radio parameters have.
    pub fn csi_fmt_from_params(&mut self)
        ensures
            is_format_of(final(self).data_format, old(self).radio()),
            *final(self) == (CSIDataPacket { data_format: final(self).data_format, ..*old(self) }),
    {
        let radio = FormatParams {
            bandwidth: self.bandwidth,
            sig_mode: self.sig_mode,
            stbc: self.stbc,
            secondary_channel: self.secondary_channel,
        };
        self.data_format = RxCSIFmt::from_params(radio);
    }
}

impl Clone for CSIDataPacket {
    fn clone(&self) -> (copy: Self)
        ensures
            copy == (CSIDataPacket { csi_data: copy.csi_data, ..*self }),
            sample_values(copy.csi_data) == sample_values(self.csi_data),
    {
        CSIDataPacket {
            sequence_number: self.sequence_number,
            data_format: self.data_format,
            date_time: self.date_time,
            mac: self.mac,
            rssi: self.rssi,
            bandwidth: self.bandwidth,
            antenna: self.antenna,
            rate: self.rate,
            sig_mode: self.sig_mode,
            mcs: self.mcs,
            smoothing: self.smoothing,
            not_sounding: self.not_sounding,
            aggregation: self.aggregation,
            stbc: self.stbc,
            fec_coding: self.fec_coding,
            sgi: self.sgi,
            noise_floor: self.noise_floor,
            ampdu_cnt: self.ampdu_cnt,
            channel: self.channel,
            secondary_channel: self.secondary_channel,
            timestamp: self.timestamp,
            rx_state: self.rx_state,
            sig_len: self.sig_len,
            csi_data_len: self.csi_data_len,
            csi_data: samples_clone(&self.csi_data),
        }
    }
}

/// What the radio reports of a received packet.
#[derive(Debug, Clone, Copy)]
pub struct RxControl {
    /// Signal strength; values above 127 stand for negative ones.
    pub rssi: i32,
    /// Channel bandwidth.
    pub cwb: u32,
    /// Antenna number.
    pub ant: u32,
    /// Physical-layer rate.
    pub rate: u32,
    /// Signal mode.
    pub sig_mode: u32,
    /// Modulation and coding scheme.
    pub mcs: u32,
    /// Whether smoothing is recommended.
    pub smoothing: u32,
    /// Whether the packet is not a sounding one.
    pub not_sounding: u32,
    /// Aggregation.
    pub aggregation: u32,
    /// Space-time block coding.
    pub stbc: u32,
    /// Forward error correction coding.
    pub fec_coding: u32,
    /// Short guard interval.
    pub sgi: u32,
    /// Noise floor.
    pub noise_floor: i32,
    /// Number of subframes aggregated.
    pub ampdu_cnt: u32,
    /// Primary channel.
    pub channel: u32,
    /// Secondary channel.
    pub secondary_channel: u32,
    /// Local time at reception, in microseconds.
    pub timestamp: u32,
    /// State of the packet, 0 if no error.
    pub rx_state: u32,
    /// Length of the packet.
    pub sig_len: u32,
}

/// What the radio hands over with CSI.
#[derive(Debug, Clone, Copy)]
pub struct CsiInfo<'a> {
    /// MAC address of the sender.
    pub mac: [u8; 6],
    /// What was reported of the packet.
    pub rx_ctrl: RxControl,
    /// The CSI samples.
    pub buf: &'a [i8],
}

/// The signal strength that a reported value stands for.
pub open spec fn signed_rssi(rssi: i32) -> int {
    if rssi > 127 {
        rssi - 256
    } else {
        rssi as int
    }
}

/// Whether packets from `mac` are wanted: all are where no filter is set.
pub open spec fn passes_filter(mac_filter: Option<[u8; 6]>, mac: [u8; 6]) -> bool {
    mac_filter matches Some(wanted) ==> wanted@ == mac@
}

/// Whether `packet` is the packet captured from `info`, before it is processed.
pub open spec fn is_capture_of(packet: CSIDataPacket, info: CsiInfo<'_>) -> bool {
    &&& packet.sequence_number == 0
    &&& packet.data_format == RxCSIFmt::Undefined
    &&& packet.date_time is None
    &&& packet.mac@ == info.mac@
    &&& packet.rssi == signed_rssi(info.rx_ctrl.rssi)
    &&& packet.bandwidth == info.rx_ctrl.cwb
    &&& packet.antenna == info.rx_ctrl.ant
    &&& packet.rate == info.rx_ctrl.rate
    &&& packet.sig_mode == info.rx_ctrl.sig_mode
    &&& packet.mcs == info.rx_ctrl.mcs
    &&& packet.smoothing == info.rx_ctrl.smoothing
    &&& packet.not_sounding == info.rx_ctrl.not_sounding
    &&& packet.aggregation == info.rx_ctrl.aggregation
    &&& packet.stbc == info.rx_ctrl.stbc
    &&& packet.fec_coding == info.rx_ctrl.fec_coding
    &&& packet.sgi == info.rx_ctrl.sgi
    &&& packet.noise_floor == info.rx_ctrl.noise_floor
    &&& packet.ampdu_cnt == info.rx_ctrl.ampdu_cnt
    &&& packet.channel == info.rx_ctrl.channel
    &&& packet.secondary_channel == info.rx_ctrl.secondary_channel
    &&& packet.timestamp == info.rx_ctrl.timestamp
    &&& packet.rx_state == info.rx_ctrl.rx_state
    &&& packet.sig_len == info.rx_ctrl.sig_len
    &&& packet.csi_data_len == info.buf@.len()
    &&& sample_values(packet.csi_data) == info.buf@
}

/// Whether two MAC addresses are the same.
fn same_mac(one: [u8; 6], other: [u8; 6]) -> (same: bool)
    ensures
        same == (one@ == other@),
{
    for i in 0..6usize
        invariant
            one@.take(i as int) == other@.take(i as int),
    {
        if one[i] != other[i] {
            return false;
        }
        assert(one@.take(i + 1) == one@.take(i as int).push(one@[i as int]));
        assert(other@.take(i + 1) == other@.take(i as int).push(other@[i as int]));
    }
    assert(one@ == one@.take(6));
    assert(other@ == other@.take(6));
    true
}

/// Copies samples into a packet's buffer.
fn copy_samples(buf: &[i8]) -> (samples: Samples)
    requires
        buf@.len() <= SAMPLE_CAPACITY,
    ensures
        sample_values(samples) == buf@,
{
    let mut samples = samples_new();
    for i in 0..buf.len()
        invariant
            buf@.len() <= SAMPLE_CAPACITY,
            sample_values(samples) == buf@.take(i as int),
    {
        let _ = samples_push(&mut samples, buf[i]);
        assert(buf@.take(i + 1) == buf@.take(i as int).push(buf@[i as int]));
    }
    assert(buf@.take(buf@.len() as int) == buf@);
    samples
}

/// Tells whether what the radio hands over can be captured: the samples of a packet that is
/// not filtered out have to fit.
pub fn can_capture(info: &CsiInfo<'_>, mac_filter: Option<[u8; 6]>) -> (fits: bool)
    ensures
        fits == (passes_filter(mac_filter, info.mac) ==> info.buf@.len() <= SAMPLE_CAPACITY),
{
    let wanted = match mac_filter {
        Some(mac) => same_mac(mac, info.mac),
        None => true,
    };
    !wanted || info.buf.len() <= SAMPLE_CAPACITY
}

/// Whether `captured` is what is captured from `info`: the packet, unless it is filtered out.
pub open spec fn is_captured(
    captured: Option<CSIDataPacket>,
    info: CsiInfo<'_>,
    mac_filter: Option<[u8; 6]>,
) -> bool {
    &&& captured is Some <==> passes_filter(mac_filter, info.mac)
    &&& captured matches Some(packet) ==> is_capture_of(packet, info)
}

/// Turns what the radio hands over into a packet, unless the sender is filtered out.
pub fn capture_csi_info(info: &CsiInfo<'_>, mac_filter: Option<[u8; 6]>) -> (captured: Option<
    CSIDataPacket,
>)
    requires
        passes_filter(mac_filter, info.mac) ==> info.buf@.len() <= SAMPLE_CAPACITY,
    ensures
        captured is Some <==> passes_filter(mac_filter, info.mac),
        captured matches Some(packet) ==> is_capture_of(packet, *info),
        is_captured(captured, *info, mac_filter),
{
    if let Some(wanted) = mac_filter {
        if !same_mac(wanted, info.mac) {
            return None;
        }
    }
    let reported = info.rx_ctrl.rssi;
    let rssi: i32 = if reported > 127 {
        reported - 256
    } else {
        reported
    };
    Some(
        CSIDataPacket {
            sequence_number: 0,
            data_format: RxCSIFmt::Undefined,
            date_time: None,
            mac: info.mac,
            rssi,
            bandwidth: info.rx_ctrl.cwb,
            antenna: info.rx_ctrl.ant,
            rate: info.rx_ctrl.rate,
            sig_mode: info.rx_ctrl.sig_mode,
            mcs: info.rx_ctrl.mcs,
            smoothing: info.rx_ctrl.smoothing,
            not_sounding: info.rx_ctrl.not_sounding,
            aggregation: info.rx_ctrl.aggregation,
            stbc: info.rx_ctrl.stbc,
            fec_coding: info.rx_ctrl.fec_coding,
            sgi: info.rx_ctrl.sgi,
            noise_floor: info.rx_ctrl.noise_floor,
            ampdu_cnt: info.rx_ctrl.ampdu_cnt,
            channel: info.rx_ctrl.channel,
            secondary_channel: info.rx_ctrl.secondary_channel,
            timestamp: info.rx_ctrl.timestamp,
            rx_state: info.rx_ctrl.rx_state,
            sig_len: info.rx_ctrl.sig_len,
            csi_data_len: info.buf.len() as u16,
            csi_data: copy_samples(info.buf),
        },
    )
}

/// A format's radio parameters are what its name says: the secondary channel, the signal
/// mode, the bandwidth and the block coding.
pub proof fn format_means_its_name(format: RxCSIFmt)
    ensures
        format_params(format).secondary_channel == (match format {
            RxCSIFmt::SecbBw20 | RxCSIFmt::SecbHtBw20 | RxCSIFmt::SecbHtBw20Stbc
            | RxCSIFmt::SecbHtBw40 | RxCSIFmt::SecbHtBw40Stbc => 2u32,
            RxCSIFmt::SecaBw20 | RxCSIFmt::SecaHtBw20 | RxCSIFmt::SecaHtBw20Stbc
            | RxCSIFmt::SecaHtBw40 | RxCSIFmt::SecaHtBw40Stbc => 1u32,
            _ => 0u32,
        }),
        format_params(format).sig_mode == (match format {
            RxCSIFmt::Bw20 | RxCSIFmt::SecbBw20 | RxCSIFmt::SecaBw20 | RxCSIFmt::Undefined => 0u32,
            _ => 1u32,
        }),
        format_params(format).bandwidth == (match format {
            RxCSIFmt::SecbHtBw40 | RxCSIFmt::SecbHtBw40Stbc | RxCSIFmt::SecaHtBw40
            | RxCSIFmt::SecaHtBw40Stbc => 1u32,
            _ => 0u32,
        }),
        format_params(format).stbc == (match format {
            RxCSIFmt::HtBw20Stbc | RxCSIFmt::SecbHtBw20Stbc | RxCSIFmt::SecbHtBw40Stbc
            | RxCSIFmt::SecaHtBw20Stbc | RxCSIFmt::SecaHtBw40Stbc => 1u32,
            _ => 0u32,
        }),
{
}

/// The codes go through the formats without a secondary channel, those with one below, and
/// those with one above; in each group through the signal modes, the block codings and the
/// bandwidths. The undefined format comes last.
pub proof fn format_code_order(format: RxCSIFmt)
    ensures
        format_code(format) == (if format == RxCSIFmt::Undefined {
            13
        } else {
            let radio = format_params(format);
            (if radio.secondary_channel == 0 {
                0int
            } else if radio.secondary_channel == 2 {
                3
            } else {
                8
            }) + radio.sig_mode + radio.stbc + 2 * radio.bandwidth
        }),
{
}

/// A format is defined for radio parameters exactly where they go together: block coding and
/// 40 MHz take the high-throughput mode, and 40 MHz takes a secondary channel.
pub proof fn format_defined_where_parameters_fit(format: RxCSIFmt, radio: FormatParams)
    requires
        is_format_of(format, radio),
    ensures
        format != RxCSIFmt::Undefined <==> {
            &&& radio.sig_mode <= 1
            &&& radio.stbc <= radio.sig_mode
            &&& radio.bandwidth <= radio.sig_mode
            &&& radio.secondary_channel <= 2
            &&& radio.bandwidth == 1 ==> radio.secondary_channel != 0
        },
        format != RxCSIFmt::Undefined ==> format_params(format) == radio,
{
    if format == RxCSIFmt::Undefined {
        assert(format_params(RxCSIFmt::Bw20) != radio);
        assert(format_params(RxCSIFmt::HtBw20) != radio);
        assert(format_params(RxCSIFmt::HtBw20Stbc) != radio);
        assert(format_params(RxCSIFmt::SecbBw20) != radio);
        assert(format_params(RxCSIFmt::SecbHtBw20) != radio);
        assert(format_params(RxCSIFmt::SecbHtBw20Stbc) != radio);
        assert(format_params(RxCSIFmt::SecbHtBw40) != radio);
        assert(format_params(RxCSIFmt::SecbHtBw40Stbc) != radio);
        assert(format_params(RxCSIFmt::SecaBw20) != radio);
        assert(format_params(RxCSIFmt::SecaHtBw20) != radio);
        assert(format_params(RxCSIFmt::SecaHtBw20Stbc) != radio);
        assert(format_params(RxCSIFmt::SecaHtBw40) != radio);
        assert(format_params(RxCSIFmt::SecaHtBw40Stbc) != radio);
    }
}

/// A byte stands for the format whose code it is, and every byte from the last code on for
/// the undefined format.
pub proof fn format_of_byte(format: RxCSIFmt, code: u8)
    requires
        is_format_with_code(format, code),
    ensures
        code < 13 ==> format_code(format) == code && format != RxCSIFmt::Undefined,
        code >= 13 ==> format == RxCSIFmt::Undefined,
{
}

/// A captured packet has what the radio reported, each value in the field of its meaning, and
/// neither number, format nor date yet.
pub proof fn capture_keeps_report(packet: CSIDataPacket, info: CsiInfo<'_>)
    requires
        is_capture_of(packet, info),
    ensures
        packet.mac@ == info.mac@,
        packet.bandwidth == info.rx_ctrl.cwb,
        packet.antenna == info.rx_ctrl.ant,
        packet.rate == info.rx_ctrl.rate,
        packet.sig_mode == info.rx_ctrl.sig_mode,
        packet.mcs == info.rx_ctrl.mcs,
        packet.smoothing == info.rx_ctrl.smoothing,
        packet.not_sounding == info.rx_ctrl.not_sounding,
        packet.aggregation == info.rx_ctrl.aggregation,
        packet.stbc == info.rx_ctrl.stbc,
        packet.fec_coding == info.rx_ctrl.fec_coding,
        packet.sgi == info.rx_ctrl.sgi,
        packet.noise_floor == info.rx_ctrl.noise_floor,
        packet.ampdu_cnt == info.rx_ctrl.ampdu_cnt,
        packet.channel == info.rx_ctrl.channel,
        packet.secondary_channel == info.rx_ctrl.secondary_channel,
        packet.timestamp == info.rx_ctrl.timestamp,
        packet.rx_state == info.rx_ctrl.rx_state,
        packet.sig_len == info.rx_ctrl.sig_len,
        packet.csi_data_len == info.buf@.len(),
        sample_values(packet.csi_data) == info.buf@,
        packet.sequence_number == 0,
        packet.data_format == RxCSIFmt::Undefined,
        packet.date_time is None,
{
}

/// The signal strength is the reported byte read as a signed one: it differs from the
/// reported value by nothing or by 256, and a reported byte gives a signed byte.
pub proof fn capture_signs_strength(packet: CSIDataPacket, info: CsiInfo<'_>)
    requires
        is_capture_of(packet, info),
    ensures
        info.rx_ctrl.rssi <= 127 ==> packet.rssi == info.rx_ctrl.rssi,
        info.rx_ctrl.rssi > 127 ==> packet.rssi + 256 == info.rx_ctrl.rssi,
        0 <= info.rx_ctrl.rssi <= 255 ==> -128 <= packet.rssi <= 127,
{
}

/// A filter lets one address through, byte for byte, and no filter lets all through.
pub proof fn filter_selects_address(wanted: [u8; 6], mac: [u8; 6])
    ensures
        passes_filter(None, mac),
        passes_filter(Some(wanted), mac) <==> forall|i: int|
            0 <= i < 6 ==> #[trigger] wanted@[i] == mac@[i],
{
    if forall|i: int| 0 <= i < 6 ==> #[trigger] wanted@[i] == mac@[i] {
        assert(wanted@ =~= mac@);
    }
}

/// A packet is captured exactly where no filter is set or the sender is the wanted one, and it
/// has the samples and the time of reception that the radio handed over.
pub proof fn wanted_packets_captured(
    captured: Option<CSIDataPacket>,
    info: CsiInfo<'_>,
    mac_filter: Option<[u8; 6]>,
)
    requires
        is_captured(captured, info, mac_filter),
    ensures
        mac_filter is None ==> captured is Some,
        mac_filter matches Some(wanted) ==> (captured is Some <==> wanted@ == info.mac@),
        captured matches Some(packet) ==> is_capture_of(packet, info) && sample_values(
            packet.csi_data,
        ) == info.buf@ && packet.timestamp == info.rx_ctrl.timestamp && packet.mac@ == info.mac@,
{
}

} // verus!
