//! The message in which a station returns captured CSI to the trigger source.
//!
//! | bytes  | content                                  |
//! |--------|------------------------------------------|
//! | 0..2   | sequence number, big endian              |
//! | 2      | data format                              |
//! | 3..7   | capture timestamp, big endian            |
//! | 7..n   | CSI samples, one byte each, at most 612  |

use crate::buffers::{
    message_as_slice, message_bytes, message_clear, message_extend, message_push, sample_values,
    samples_as_slice, samples_new, samples_push, RawMessage, SAMPLE_CAPACITY,
};
use crate::bytes::{
    be16, be16_bytes, be16_bytes_round_trip, be16_round_trip, be32, be32_bytes,
    be32_bytes_round_trip, be32_round_trip, read_be16, read_be32, write_be16, write_be32,
};
use crate::csi::{
    format_code, format_code_injective, format_params, is_format_with_code, CSIDataPacket, RxCSIFmt,
};
use crate::error::Error;
use vstd::prelude::*;

verus! {

/// Number of bytes in front of the CSI samples.
pub const HEADER_LEN: usize = 7;

/// The samples that bytes stand for, keeping the bits of each.
pub open spec fn samples_of(bytes: Seq<u8>) -> Seq<i8> {
    Seq::new(bytes.len(), |i: int| bytes[i] as i8)
}

/// The bytes that stand for samples, keeping the bits of each.
pub open spec fn bytes_of(samples: Seq<i8>) -> Seq<u8> {
    Seq::new(samples.len(), |i: int| samples[i] as u8)
}

/// The message that carries a packet.
pub open spec fn encoding(packet: CSIDataPacket) -> Seq<u8> {
    be16_bytes(packet.sequence_number) + seq![format_code(packet.data_format)] + be32_bytes(
        packet.timestamp,
    ) + bytes_of(sample_values(packet.csi_data))
}

/// Whether a message has a header and no more samples than a packet can hold.
pub open spec fn is_message(bytes: Seq<u8>) -> bool {
    HEADER_LEN <= bytes.len() <= HEADER_LEN + SAMPLE_CAPACITY
}

/// Whether `packet` is what the message `bytes` stands for: the fields that travel are
/// read from it, the radio parameters are those of the data format, and every other
/// field is zero, or absent.
pub open spec fn is_reconstruction(packet: CSIDataPacket, bytes: Seq<u8>) -> bool {
    &&& packet.sequence_number == be16(bytes[0], bytes[1])
    &&& is_format_with_code(packet.data_format, bytes[2])
    &&& packet.radio() == format_params(packet.data_format)
    &&& packet.timestamp == be32(bytes[3], bytes[4], bytes[5], bytes[6])
    &&& packet.csi_data_len == bytes.len() - HEADER_LEN
    &&& sample_values(packet.csi_data) == samples_of(bytes.skip(HEADER_LEN as int))
    &&& packet.date_time is None
    &&& packet.mac@ == seq![0u8, 0u8, 0u8, 0u8, 0u8, 0u8]
    &&& packet.rssi == 0
    &&& packet.antenna == 0
    &&& packet.rate == 0
    &&& packet.mcs == 0
    &&& packet.smoothing == 0
    &&& packet.not_sounding == 0
    &&& packet.aggregation == 0
    &&& packet.fec_coding == 0
    &&& packet.sgi == 0
    &&& packet.noise_floor == 0
    &&& packet.ampdu_cnt == 0
    &&& packet.channel == 0
    &&& packet.rx_state == 0
    &&& packet.sig_len == 0
}

/// Writes the message that carries `packet`, in place of what `message` held.
pub fn encode_csi_message(packet: &CSIDataPacket, message: &mut RawMessage)
    ensures
        message_bytes(*final(message)) == encoding(*packet),
        is_message(message_bytes(*final(message))),
{
    message_clear(message);
    let _ = message_extend(message, &write_be16(packet.sequence_number));
    let _ = message_push(message, packet.data_format.code());
    let _ = message_extend(message, &write_be32(packet.timestamp));
    let samples = samples_as_slice(&packet.csi_data);
    let ghost header = message_bytes(*message);
    assert(header == be16_bytes(packet.sequence_number) + seq![format_code(packet.data_format)]
        + be32_bytes(packet.timestamp));
    assert(bytes_of(samples@.take(0)) == Seq::<u8>::empty());
    for i in 0..samples.len()
        invariant
            samples@.len() <= SAMPLE_CAPACITY,
            header.len() == HEADER_LEN,
            message_bytes(*message) == header + bytes_of(samples@.take(i as int)),
    {
        let _ = message_push(message, samples[i] as u8);
        assert(bytes_of(samples@.take(i + 1)) == bytes_of(samples@.take(i as int)).push(
            samples@[i as int] as u8,
        ));
    }
    assert(samples@.take(samples@.len() as int) == samples@);
}

/// Reconstructs a packet from a message received from a station in monitor mode.
///
/// Fails if the message is shorter than its header or has more samples than a packet
/// can hold.
pub fn reconstruct_csi_from_udp(raw_csi_data: &RawMessage) -> (result: Result<
    CSIDataPacket,
    Error,
>)
    ensures
        match result {
            Ok(packet) => is_message(message_bytes(*raw_csi_data)) && is_reconstruction(
                packet,
                message_bytes(*raw_csi_data),
            ),
            Err(error) => if message_bytes(*raw_csi_data).len() < HEADER_LEN {
                error == Error::SystemError("Buffer too short: must be at least 7 bytes")
            } else {
                &&& !is_message(message_bytes(*raw_csi_data))
                &&& error == Error::SystemError("CSI data too long: max 612 bytes")
            },
        },
{
    let raw = message_as_slice(raw_csi_data);
    if raw.len() < HEADER_LEN {
        return Err(Error::SystemError("Buffer too short: must be at least 7 bytes"));
    }
    let csi_len: u16 = (raw.len() - HEADER_LEN) as u16;
    if csi_len > 612 {
        return Err(Error::SystemError("CSI data too long: max 612 bytes"));
    }
    let sequence_number = read_be16(raw[0], raw[1]);
    let (data_format, radio) = RxCSIFmt::from_code(raw[2]);
    let timestamp = read_be32(raw[3], raw[4], raw[5], raw[6]);
    let mut csi_data = samples_new();
    let ghost body = raw@.skip(HEADER_LEN as int);
    assert(samples_of(body.take(0)) == Seq::<i8>::empty());
    for i in HEADER_LEN..raw.len()
        invariant
            is_message(raw@),
            body == raw@.skip(HEADER_LEN as int),
            sample_values(csi_data) == samples_of(body.take(i - HEADER_LEN)),
    {
        let _ = samples_push(&mut csi_data, raw[i] as i8);
        assert(samples_of(body.take(i + 1 - HEADER_LEN)) == samples_of(
            body.take(i - HEADER_LEN),
        ).push(raw@[i as int] as i8));
    }
    assert(body.take(body.len() as int) == body);
    let mac: [u8; 6] = [0u8; 6];
    assert(mac@ == seq![0u8, 0u8, 0u8, 0u8, 0u8, 0u8]);
    Ok(
        CSIDataPacket {
            mac,
            rssi: 0,
            timestamp,
            rate: 0,
            sgi: 0,
            secondary_channel: radio.secondary_channel,
            channel: 0,
            bandwidth: radio.bandwidth,
            antenna: 0,
            sig_mode: radio.sig_mode,
            mcs: 0,
            smoothing: 0,
            not_sounding: 0,
            aggregation: 0,
            stbc: radio.stbc,
            fec_coding: 0,
            ampdu_cnt: 0,
            noise_floor: 0,
            rx_state: 0,
            sig_len: 0,
            date_time: None,
            sequence_number,
            data_format,
            csi_data_len: csi_len,
            csi_data,
        },
    )
}

/// A sample keeps its value through the byte that stands for it.
proof fn sample_round_trip(sample: i8)
    ensures
        (sample as u8) as i8 == sample,
{
    assert((sample as u8) as i8 == sample) by (bit_vector);
}

/// A byte keeps its value through the sample that it stands for.
proof fn sample_byte_round_trip(byte: u8)
    ensures
        (byte as i8) as u8 == byte,
{
    assert((byte as i8) as u8 == byte) by (bit_vector);
}

/// The sequence number, data format, timestamp and samples of a packet survive the trip
/// through a message, and the radio parameters come back as those of the data format.
pub proof fn message_round_trip(sent: CSIDataPacket, received: CSIDataPacket)
    requires
        sample_values(sent.csi_data).len() <= SAMPLE_CAPACITY,
        is_reconstruction(received, encoding(sent)),
    ensures
        is_message(encoding(sent)),
        received.sequence_number == sent.sequence_number,
        received.data_format == sent.data_format,
        received.timestamp == sent.timestamp,
        sample_values(received.csi_data) == sample_values(sent.csi_data),
        received.csi_data_len == sample_values(sent.csi_data).len(),
        received.radio() == format_params(sent.data_format),
{
    let bytes = encoding(sent);
    let samples = sample_values(sent.csi_data);
    be16_round_trip(sent.sequence_number);
    be32_round_trip(sent.timestamp);
    assert(bytes[0] == be16_bytes(sent.sequence_number)[0]);
    assert(bytes[1] == be16_bytes(sent.sequence_number)[1]);
    assert(bytes[2] == format_code(sent.data_format));
    assert(bytes[3] == be32_bytes(sent.timestamp)[0]);
    assert(bytes[4] == be32_bytes(sent.timestamp)[1]);
    assert(bytes[5] == be32_bytes(sent.timestamp)[2]);
    assert(bytes[6] == be32_bytes(sent.timestamp)[3]);
    format_code_injective(sent.data_format, received.data_format);
    assert(bytes.skip(HEADER_LEN as int) == bytes_of(samples));
    assert forall|i: int| 0 <= i < samples.len() implies samples_of(bytes_of(samples))[i]
        == samples[i] by {
        sample_round_trip(samples[i]);
    }
    assert(samples_of(bytes_of(samples)) == samples);
}

/// A message whose format byte is a format's code is the message of the packet that it
/// stands for. Any other format byte comes back as that of the undefined format.
pub proof fn reconstruction_round_trip(bytes: Seq<u8>, packet: CSIDataPacket)
    requires
        is_message(bytes),
        is_reconstruction(packet, bytes),
    ensures
        bytes[2] <= 13 ==> encoding(packet) == bytes,
        bytes[2] > 13 ==> encoding(packet) == bytes.update(2, format_code(RxCSIFmt::Undefined)),
{
    let body = bytes.skip(HEADER_LEN as int);
    be16_bytes_round_trip(bytes[0], bytes[1]);
    be32_bytes_round_trip(bytes[3], bytes[4], bytes[5], bytes[6]);
    assert forall|i: int| 0 <= i < body.len() implies bytes_of(samples_of(body))[i] == body[i] by {
        sample_byte_round_trip(body[i]);
    }
    assert(bytes_of(samples_of(body)) == body);
    let code = format_code(packet.data_format);
    assert(encoding(packet) == seq![bytes[0], bytes[1]] + seq![code] + seq![
        bytes[3],
        bytes[4],
        bytes[5],
        bytes[6],
    ] + body);
    if bytes[2] <= 13 {
        assert(encoding(packet) == bytes);
    } else {
        assert(encoding(packet) == bytes.update(2, code));
    }
}

/// Where the fields of a packet are in its message, and what the bytes are: numbers with the
/// first byte weighing most, samples in two's complement.
pub proof fn message_layout(packet: CSIDataPacket, i: int)
    requires
        0 <= i < sample_values(packet.csi_data).len(),
    ensures
        encoding(packet).len() == 7 + sample_values(packet.csi_data).len(),
        encoding(packet)[0] * 256 + encoding(packet)[1] == packet.sequence_number,
        encoding(packet)[2] == format_code(packet.data_format),
        encoding(packet)[3] * 0x100_0000 + encoding(packet)[4] * 0x1_0000 + encoding(packet)[5]
            * 0x100 + encoding(packet)[6] == packet.timestamp,
        ({
            let sample = sample_values(packet.csi_data)[i];
            encoding(packet)[7 + i] == (if sample >= 0 {
                sample as int
            } else {
                sample + 256
            })
        }),
{
    message_header_layout(packet);
    let sample = sample_values(packet.csi_data)[i];
    assert(encoding(packet)[7 + i] == sample as u8);
    signed_byte(sample);
}

/// The header of a message, whether samples follow it or not.
pub proof fn message_header_layout(packet: CSIDataPacket)
    ensures
        encoding(packet).len() == 7 + sample_values(packet.csi_data).len(),
        encoding(packet)[0] * 256 + encoding(packet)[1] == packet.sequence_number,
        encoding(packet)[2] == format_code(packet.data_format),
        encoding(packet)[3] * 0x100_0000 + encoding(packet)[4] * 0x1_0000 + encoding(packet)[5]
            * 0x100 + encoding(packet)[6] == packet.timestamp,
{
    be16_round_trip(packet.sequence_number);
    be32_round_trip(packet.timestamp);
    let bytes = encoding(packet);
    assert(bytes[0] == be16_bytes(packet.sequence_number)[0]);
    assert(bytes[1] == be16_bytes(packet.sequence_number)[1]);
    assert(bytes[3] == be32_bytes(packet.timestamp)[0]);
    assert(bytes[4] == be32_bytes(packet.timestamp)[1]);
    assert(bytes[5] == be32_bytes(packet.timestamp)[2]);
    assert(bytes[6] == be32_bytes(packet.timestamp)[3]);
}

proof fn signed_byte(sample: i8)
    ensures
        sample >= 0 ==> sample as u8 == sample,
        sample < 0 ==> sample as u8 == sample + 256,
{
    assert(sample >= 0 ==> sample as u8 == sample) by (bit_vector);
    assert(sample < 0 ==> sample as u8 == sample + 256) by (bit_vector);
}

/// What is read from a message: numbers with the first byte weighing most, each byte behind
/// the header as a sample in two's complement, and nothing but zeros for what a message does
/// not carry.
pub proof fn message_read(bytes: Seq<u8>, packet: CSIDataPacket)
    requires
        is_message(bytes),
        is_reconstruction(packet, bytes),
    ensures
        7 <= bytes.len() <= 619,
        packet.sequence_number == bytes[0] * 256 + bytes[1],
        packet.timestamp == bytes[3] * 0x100_0000 + bytes[4] * 0x1_0000 + bytes[5] * 0x100
            + bytes[6],
        format_code(packet.data_format) == (if bytes[2] < 13 {
            bytes[2]
        } else {
            13
        }),
        packet.csi_data_len == bytes.len() - 7,
        sample_values(packet.csi_data).len() == bytes.len() - 7,
        forall|i: int|
            0 <= i < bytes.len() - 7 ==> #[trigger] sample_values(packet.csi_data)[i] == (
            if bytes[7 + i] < 128 {
                bytes[7 + i] as int
            } else {
                bytes[7 + i] - 256
            }),
        packet.bandwidth == format_params(packet.data_format).bandwidth,
        packet.sig_mode == format_params(packet.data_format).sig_mode,
        packet.stbc == format_params(packet.data_format).stbc,
        packet.secondary_channel == format_params(packet.data_format).secondary_channel,
        packet.date_time is None,
        forall|i: int| 0 <= i < 6 ==> #[trigger] packet.mac@[i] == 0,
        packet.rssi == 0 && packet.noise_floor == 0,
        packet.antenna == 0 && packet.rate == 0 && packet.mcs == 0,
        packet.smoothing == 0 && packet.not_sounding == 0 && packet.aggregation == 0,
        packet.fec_coding == 0 && packet.sgi == 0 && packet.ampdu_cnt == 0,
        packet.channel == 0 && packet.rx_state == 0 && packet.sig_len == 0,
{
    let body = bytes.skip(HEADER_LEN as int);
    assert forall|i: int| 0 <= i < bytes.len() - 7 implies #[trigger] sample_values(
        packet.csi_data,
    )[i] == (if bytes[7 + i] < 128 {
        bytes[7 + i] as int
    } else {
        bytes[7 + i] - 256
    }) by {
        let byte = bytes[7 + i];
        assert(body[i] == byte);
        assert(byte < 128 ==> byte as i8 == byte) by (bit_vector);
        assert(byte >= 128 ==> byte as i8 == byte - 256) by (bit_vector);
    }
}

/// A message is one exactly where it has a header and at most 612 samples.
pub proof fn message_length(bytes: Seq<u8>)
    ensures
        is_message(bytes) <==> 7 <= bytes.len() <= 619,
{
}

} // verus!
