//! Trigger packets: ICMP echo requests that make stations capture CSI.

use crate::bytes::{be16, be16_bytes, be16_round_trip};
use crate::echo::{
    candidate_offsets, found_at, found_at_unique, header_len_at, is_echo_at, sequence_at,
    source_at,
};
use crate::frame::{data_payload, is_synced, LastTrigger};
use crate::ticks::{ticks_from_millis, TICK_HZ};
use smoltcp::phy::ChecksumCapabilities;
use smoltcp::wire::{Icmpv4Packet, Icmpv4Repr, IpProtocol, Ipv4Address, Ipv4Packet, Ipv4Repr};
use vstd::prelude::*;

verus! {

/// Number of bytes sent for one trigger packet. What lies behind the packet is zero.
pub const TRIGGER_LEN: usize = 64;

/// Identifier in every trigger packet.
pub const TRIGGER_IDENT: u16 = 0x22b;

/// Hop limit of every trigger packet.
pub const TRIGGER_HOP_LIMIT: u8 = 64;

/// The data in every trigger packet.
pub open spec fn trigger_data() -> Seq<u8> {
    seq![0xDEu8, 0xADu8, 0xBEu8, 0xEFu8]
}

/// The sum of the 16-bit big-endian words of `bytes`, a last odd byte being the high byte
/// of its word.
pub open spec fn word_sum(bytes: Seq<u8>) -> nat
    decreases bytes.len(),
{
    if bytes.len() == 0 {
        0
    } else if bytes.len() == 1 {
        (bytes[0] * 0x100) as nat
    } else {
        be16(bytes[0], bytes[1]) as nat + word_sum(bytes.skip(2))
    }
}

/// A sum in 16-bit ones' complement arithmetic: carries are added back in.
pub open spec fn ones_complement(sum: nat) -> nat {
    if sum == 0 {
        0
    } else {
        ((sum - 1) % 0xffff + 1) as nat
    }
}

/// The Internet checksum of `bytes`.
pub open spec fn internet_checksum(bytes: Seq<u8>) -> u16 {
    (0xffff - ones_complement(word_sum(bytes))) as u16
}

/// Whether a receiver accepts the checksum that `bytes` contain.
pub open spec fn checksum_holds(bytes: Seq<u8>) -> bool {
    ones_complement(word_sum(bytes)) == 0xffff
}

/// An ICMP echo request with the given checksum field.
pub open spec fn echo_request_with(
    ident: u16,
    seq_no: u16,
    data: Seq<u8>,
    checksum: u16,
) -> Seq<u8> {
    seq![8u8, 0u8] + be16_bytes(checksum) + be16_bytes(ident) + be16_bytes(seq_no) + data
}

/// An ICMP echo request.
pub open spec fn echo_request(ident: u16, seq_no: u16, data: Seq<u8>) -> Seq<u8> {
    echo_request_with(
        ident,
        seq_no,
        data,
        internet_checksum(echo_request_with(ident, seq_no, data, 0)),
    )
}

/// An IPv4 header without options, for ICMP, not to be fragmented, with the given checksum
/// field.
pub open spec fn ipv4_header_with(
    src: Seq<u8>,
    dst: Seq<u8>,
    payload_len: usize,
    hop_limit: u8,
    checksum: u16,
) -> Seq<u8> {
    seq![0x45u8, 0u8] + be16_bytes((20 + payload_len) as u16) + seq![
        0u8,
        0u8,
        0x40u8,
        0u8,
        hop_limit,
        1u8,
    ] + be16_bytes(checksum) + src + dst
}

/// An IPv4 header without options, for ICMP, not to be fragmented.
pub open spec fn ipv4_header(
    src: Seq<u8>,
    dst: Seq<u8>,
    payload_len: usize,
    hop_limit: u8,
) -> Seq<u8> {
    ipv4_header_with(
        src,
        dst,
        payload_len,
        hop_limit,
        internet_checksum(ipv4_header_with(src, dst, payload_len, hop_limit, 0)),
    )
}

/// `smoltcp::wire::Icmpv4Repr::buffer_len` on an echo request: the eight bytes of its
/// header and its data.
#[verifier::external_body]
pub(crate) fn echo_request_len(ident: u16, seq_no: u16, data: &[u8]) -> (len: usize)
    requires
        data@.len() <= usize::MAX - 8,
    ensures
        len == 8 + data@.len(),
{
    Icmpv4Repr::EchoRequest { ident, seq_no, data }.buffer_len()
}

/// `smoltcp::wire::Icmpv4Repr::emit` on an echo request, with every checksum computed:
/// fills the buffer with the request.
#[verifier::external_body]
pub(crate) fn emit_echo_request(ident: u16, seq_no: u16, data: &[u8], buffer: &mut [u8])
    requires
        old(buffer)@.len() == 8 + data@.len(),
        data@.len() <= 0xffff,
    ensures
        final(buffer)@ == echo_request(ident, seq_no, data@),
{
    let mut packet = Icmpv4Packet::new_unchecked(buffer);
    let repr = Icmpv4Repr::EchoRequest { ident, seq_no, data };
    repr.emit(&mut packet, &ChecksumCapabilities::default());
}

/// `smoltcp::wire::Ipv4Repr::emit` on a header for ICMP, with every checksum computed:
/// writes the header at the start of the buffer and leaves the rest.
#[verifier::external_body]
pub(crate) fn emit_ipv4_header(
    src: [u8; 4],
    dst: [u8; 4],
    payload_len: usize,
    hop_limit: u8,
    buffer: &mut [u8],
)
    requires
        old(buffer)@.len() >= 20,
        payload_len <= 0xffff - 20,
    ensures
        final(buffer)@ == ipv4_header(src@, dst@, payload_len, hop_limit) + old(
            buffer,
        )@.skip(20),
{
    let mut packet = Ipv4Packet::new_unchecked(buffer);
    let src_addr = Ipv4Address::from(src);
    let dst_addr = Ipv4Address::from(dst);
    let next_header = IpProtocol::Icmp;
    let repr = Ipv4Repr { src_addr, dst_addr, next_header, payload_len, hop_limit };
    repr.emit(&mut packet, &ChecksumCapabilities::default());
}

/// `smoltcp::wire::Ipv4Packet::payload_mut`, into which `payload` is copied: the bytes
/// between the header length and the total length that the header in the buffer gives.
#[verifier::external_body]
pub(crate) fn write_ipv4_payload(buffer: &mut [u8], payload: &[u8])
    requires
        old(buffer)@.len() >= 20,
        header_len_at(old(buffer)@, 0) + payload@.len() == be16(old(buffer)@[2], old(buffer)@[3]),
        be16(old(buffer)@[2], old(buffer)@[3]) <= old(buffer)@.len(),
    ensures
        final(buffer)@ == old(buffer)@.take(header_len_at(old(buffer)@, 0)) + payload@ + old(
            buffer,
        )@.skip(be16(old(buffer)@[2], old(buffer)@[3]) as int),
{
    Ipv4Packet::new_unchecked(buffer).payload_mut().copy_from_slice(payload);
}

/// The IPv4 packet of a trigger: an echo request from `src` to `dst`.
pub open spec fn trigger_datagram(src: Seq<u8>, dst: Seq<u8>, seq_no: u16) -> Seq<u8> {
    ipv4_header(src, dst, 12, TRIGGER_HOP_LIMIT) + echo_request(
        TRIGGER_IDENT,
        seq_no,
        trigger_data(),
    )
}

/// The bytes that are sent for one trigger.
pub open spec fn trigger_bytes(src: Seq<u8>, dst: Seq<u8>, seq_no: u16) -> Seq<u8> {
    trigger_datagram(src, dst, seq_no) + Seq::new(32, |i: int| 0u8)
}

/// Builds the trigger packet with the given sequence number.
pub fn trigger_packet(src: [u8; 4], dst: [u8; 4], seq_no: u16) -> (packet: [u8; 64])
    ensures
        packet@ == trigger_bytes(src@, dst@, seq_no),
{
    let data: [u8; 4] = [0xDE, 0xAD, 0xBE, 0xEF];
    assert(data@ == trigger_data());
    let mut request: [u8; 12] = [0u8; 12];
    emit_echo_request(TRIGGER_IDENT, seq_no, &data, &mut request);
    let payload_len = echo_request_len(TRIGGER_IDENT, seq_no, &data);
    let mut packet: [u8; 64] = [0u8; 64];
    let ghost zeros = packet@;
    assert(forall|i: int| 0 <= i < 64 ==> #[trigger] zeros[i] == 0u8);
    emit_ipv4_header(src, dst, payload_len, TRIGGER_HOP_LIMIT, &mut packet);
    let ghost header = ipv4_header(src@, dst@, 12, TRIGGER_HOP_LIMIT);
    assert(packet@ == header + zeros.skip(20));
    proof {
        be16_round_trip(32);
    }
    assert(packet@[0] == 0x45 && packet@[2] == be16_bytes(32)[0] && packet@[3] == be16_bytes(
        32,
    )[1]);
    let ghost headed = packet@;
    assert(headed.take(20) =~= header);
    assert(headed.skip(32) =~= Seq::new(32, |i: int| 0u8)) by {
        assert forall|i: int| 0 <= i < 32 implies #[trigger] headed.skip(32)[i] == 0u8 by {
            assert(headed[i + 32] == zeros.skip(20)[i + 12]);
            assert(zeros.skip(20)[i + 12] == zeros[i + 32]);
        }
    }
    write_ipv4_payload(&mut packet, &request);
    assert(packet@ == header + request@ + headed.skip(32));
    packet
}

/// The LLC/SNAP header in front of an IPv4 packet in a data frame.
pub open spec fn llc_snap() -> Seq<u8> {
    seq![0xAAu8, 0xAAu8, 3u8, 0u8, 0u8, 0u8, 8u8, 0u8]
}

/// Whether `payload` starts with a trigger. What lies behind the trigger does not matter.
pub open spec fn starts_with_trigger(
    payload: Seq<u8>,
    src: Seq<u8>,
    dst: Seq<u8>,
    seq_no: u16,
) -> bool {
    &&& src.len() == 4
    &&& dst.len() == 4
    &&& payload.len() >= 32
    &&& payload.take(32) == trigger_datagram(src, dst, seq_no)
}

/// Whether `payload`, that of a data frame, is an LLC/SNAP header and a trigger. What lies
/// behind the trigger does not matter.
pub open spec fn carries_trigger(
    payload: Seq<u8>,
    src: Seq<u8>,
    dst: Seq<u8>,
    seq_no: u16,
) -> bool {
    &&& payload.len() >= 8
    &&& payload.take(8) == llc_snap()
    &&& starts_with_trigger(payload.skip(8), src, dst, seq_no)
}

/// What is sent for a trigger starts with the trigger.
pub proof fn trigger_sent(src: Seq<u8>, dst: Seq<u8>, seq_no: u16)
    requires
        src.len() == 4,
        dst.len() == 4,
    ensures
        starts_with_trigger(trigger_bytes(src, dst, seq_no), src, dst, seq_no),
        trigger_bytes(src, dst, seq_no).len() == TRIGGER_LEN,
{
    assert(trigger_bytes(src, dst, seq_no).take(32) == trigger_datagram(src, dst, seq_no));
}

/// Where the echo packet's fields are in a trigger.
proof fn trigger_fields(payload: Seq<u8>, src: Seq<u8>, dst: Seq<u8>, seq_no: u16)
    requires
        starts_with_trigger(payload, src, dst, seq_no),
    ensures
        payload[0] == 0x45,
        payload[9] == 1,
        payload.subrange(12, 16) == src,
        payload[20] == 8,
        be16(payload[26], payload[27]) == seq_no,
{
    let bytes = trigger_datagram(src, dst, seq_no);
    be16_round_trip(seq_no);
    assert(forall|i: int| 0 <= i < 32 ==> payload[i] == #[trigger] payload.take(32)[i]);
    assert(payload[0] == bytes[0]);
    assert(payload[9] == bytes[9]);
    assert(payload[20] == bytes[20]);
    assert(payload[26] == bytes[26]);
    assert(payload[27] == bytes[27]);
    assert(bytes[26] == be16_bytes(seq_no)[0]);
    assert(bytes[27] == be16_bytes(seq_no)[1]);
    assert(bytes.subrange(12, 16) == src);
    assert(payload.subrange(12, 16) == payload.take(32).subrange(12, 16));
}

/// A trigger that arrives without a link-layer header is recognised, with the sequence
/// number and source address that it was built with.
pub proof fn trigger_recognised(payload: Seq<u8>, src: Seq<u8>, dst: Seq<u8>, seq_no: u16)
    requires
        starts_with_trigger(payload, src, dst, seq_no),
    ensures
        found_at(payload, 0),
        sequence_at(payload, candidate_offsets()[0]) == seq_no,
        source_at(payload, candidate_offsets()[0]) == src,
{
    trigger_fields(payload, src, dst, seq_no);
}

/// A trigger that arrives behind an LLC/SNAP header is recognised, with the sequence
/// number and source address that it was built with.
pub proof fn trigger_recognised_behind_llc_snap(
    payload: Seq<u8>,
    src: Seq<u8>,
    dst: Seq<u8>,
    seq_no: u16,
)
    requires
        carries_trigger(payload, src, dst, seq_no),
    ensures
        found_at(payload, 2),
        sequence_at(payload, candidate_offsets()[2]) == seq_no,
        source_at(payload, candidate_offsets()[2]) == src,
{
    let bytes = payload.skip(8);
    trigger_fields(bytes, src, dst, seq_no);
    assert(payload[0] == payload.take(8)[0]);
    assert(payload[2] == payload.take(8)[2]);
    assert(payload[8] == bytes[0]);
    assert(payload[17] == bytes[9]);
    assert(payload[28] == bytes[20]);
    assert(payload[34] == bytes[26]);
    assert(payload[35] == bytes[27]);
    assert(payload.subrange(20, 24) == bytes.subrange(12, 16));
    assert(is_echo_at(payload, candidate_offsets()[2]));
}

/// Hearing a data frame with a trigger in it leaves the trigger's sequence number and the
/// time of reception as what is known of the last trigger, whatever was known before.
pub proof fn trigger_heard(
    src: Seq<u8>,
    dst: Seq<u8>,
    seq_no: u16,
    frame: Seq<u8>,
    timestamp: u32,
    before: LastTrigger,
    after: LastTrigger,
)
    requires
        data_payload(frame) matches Some(payload) && carries_trigger(payload, src, dst, seq_no),
        is_synced(before, after, frame, timestamp),
    ensures
        after == (LastTrigger { sequence_number: seq_no, timestamp }),
{
    let payload = data_payload(frame)->0;
    trigger_recognised_behind_llc_snap(payload, src, dst, seq_no);
    assert(is_echo_at(payload, candidate_offsets()[2]));
    let k = choose|k: int| #[trigger]
        found_at(payload, k) && after.sequence_number == sequence_at(
            payload,
            candidate_offsets()[k],
        );
    found_at_unique(payload, k, 2);
}

/// The sum of words of two parts is the sum of their sums if the first is whole words.
proof fn word_sum_append(first: Seq<u8>, second: Seq<u8>)
    requires
        first.len() % 2 == 0,
    ensures
        word_sum(first + second) == word_sum(first) + word_sum(second),
    decreases first.len(),
{
    if first.len() == 0 {
        assert(first + second == second);
    } else {
        word_sum_append(first.skip(2), second);
        assert((first + second).skip(2) == first.skip(2) + second);
    }
}

/// The sum of one word is the word.
proof fn word_sum_of_word(word: u16)
    ensures
        word_sum(be16_bytes(word)) == word,
{
    be16_round_trip(word);
    reveal_with_fuel(word_sum, 2);
    assert(be16_bytes(word).skip(2).len() == 0);
}

/// Bytes into whose checksum field their checksum is written are accepted.
proof fn checksum_filled_in(front: Seq<u8>, back: Seq<u8>)
    requires
        front.len() % 2 == 0,
        word_sum(front) > 0,
    ensures
        ({
            let checksum = internet_checksum(front + be16_bytes(0) + back);
            checksum_holds(front + be16_bytes(checksum) + back)
        }),
{
    let checksum = internet_checksum(front + be16_bytes(0) + back);
    let sum = word_sum(front) + word_sum(back);
    word_sum_append(front, be16_bytes(0));
    word_sum_append(front + be16_bytes(0), back);
    word_sum_of_word(0);
    word_sum_append(front, be16_bytes(checksum));
    word_sum_append(front + be16_bytes(checksum), back);
    word_sum_of_word(checksum);
    assert(word_sum(front + be16_bytes(0) + back) == sum);
    assert(word_sum(front + be16_bytes(checksum) + back) == sum + checksum);
    assert(checksum == 0xffff - ((sum - 1) % 0xffff + 1));
    let quotient = (sum - 1) / 0xffff;
    assert(sum + checksum == quotient * 0xffff + 0xffff);
    assert((sum + checksum - 1) % 0xffff == 0xfffe);
}

/// A receiver accepts both checksums of a trigger.
pub proof fn trigger_checksums_hold(src: Seq<u8>, dst: Seq<u8>, seq_no: u16)
    requires
        src.len() == 4,
        dst.len() == 4,
    ensures
        checksum_holds(trigger_datagram(src, dst, seq_no).take(20)),
        checksum_holds(trigger_datagram(src, dst, seq_no).skip(20)),
{
    let datagram = trigger_datagram(src, dst, seq_no);
    let ip_front = seq![0x45u8, 0u8] + be16_bytes(32) + seq![
        0u8,
        0u8,
        0x40u8,
        0u8,
        TRIGGER_HOP_LIMIT,
        1u8,
    ];
    let ip_sum = internet_checksum(ip_front + be16_bytes(0) + (src + dst));
    assert(ip_front + be16_bytes(0) + (src + dst) == ipv4_header_with(
        src,
        dst,
        12,
        TRIGGER_HOP_LIMIT,
        0,
    ));
    assert(ip_front + be16_bytes(ip_sum) + (src + dst) == ipv4_header(
        src,
        dst,
        12,
        TRIGGER_HOP_LIMIT,
    ));
    assert(word_sum(ip_front) >= be16(0x45, 0));
    checksum_filled_in(ip_front, src + dst);
    assert(datagram.take(20) == ipv4_header(src, dst, 12, TRIGGER_HOP_LIMIT));

    let echo_front = seq![8u8, 0u8];
    let echo_back = be16_bytes(TRIGGER_IDENT) + be16_bytes(seq_no) + trigger_data();
    let echo_sum = internet_checksum(echo_front + be16_bytes(0) + echo_back);
    assert(echo_front + be16_bytes(0) + echo_back == echo_request_with(
        TRIGGER_IDENT,
        seq_no,
        trigger_data(),
        0,
    ));
    assert(echo_front + be16_bytes(echo_sum) + echo_back == echo_request(
        TRIGGER_IDENT,
        seq_no,
        trigger_data(),
    ));
    assert(word_sum(echo_front) >= be16(8, 0));
    checksum_filled_in(echo_front, echo_back);
    assert(datagram.skip(20) == echo_request(TRIGGER_IDENT, seq_no, trigger_data()));
}

/// Ticks between two triggers that are sent `freq_hz` times a second, whole milliseconds.
pub open spec fn interval_ticks(freq_hz: u32) -> u64 {
    (1000u32 / freq_hz * 1000) as u64
}

/// Ticks between two triggers that are sent `freq_hz` times a second.
pub fn trigger_interval(freq_hz: u32) -> (ticks: u64)
    requires
        freq_hz != 0,
    ensures
        ticks == interval_ticks(freq_hz),
{
    let millis: u32 = 1000 / freq_hz;
    assert(millis <= 1000) by (nonlinear_arith)
        requires
            freq_hz > 0,
            millis == 1000u32 / freq_hz,
    ;
    assert(millis * (TICK_HZ / 1000) == millis * 1000);
    ticks_from_millis(millis as u64)
}

/// `freq_hz` intervals make up a second, but for less than a millisecond each.
pub proof fn interval_keeps_frequency(freq_hz: u32)
    requires
        freq_hz != 0,
    ensures
        freq_hz * interval_ticks(freq_hz) <= TICK_HZ,
        TICK_HZ < freq_hz * (interval_ticks(freq_hz) + 1000),
        interval_ticks(freq_hz) % 1000 == 0,
        TICK_HZ == 1_000_000,
{
    let millis = 1000u32 / freq_hz;
    assert(freq_hz * millis <= 1000 < freq_hz * (millis + 1)) by (nonlinear_arith)
        requires
            freq_hz > 0,
            millis == 1000u32 / freq_hz,
    ;
    assert(millis <= 1000) by (nonlinear_arith)
        requires
            freq_hz > 0,
            millis == 1000u32 / freq_hz,
    ;
    assert(freq_hz * (millis * 1000) == freq_hz * millis * 1000) by (nonlinear_arith);
    assert(freq_hz * (millis * 1000 + 1000) == freq_hz * (millis + 1) * 1000) by (nonlinear_arith);
}

/// What a trigger is: an unfragmented IPv4 packet of 32 bytes, from `src` to `dst`, that may
/// pass 64 routers, with an ICMP echo request in it that has the identifier of triggers, the
/// sequence number and the data of triggers. Zeros follow it.
pub proof fn trigger_layout(src: Seq<u8>, dst: Seq<u8>, seq_no: u16)
    requires
        src.len() == 4,
        dst.len() == 4,
    ensures
        ({
            let bytes = trigger_bytes(src, dst, seq_no);
            &&& bytes.len() == 64
            &&& bytes[0] == 0x45 && bytes[1] == 0
            &&& bytes[2] * 256 + bytes[3] == 32
            &&& bytes[4] == 0 && bytes[5] == 0 && bytes[6] == 0x40 && bytes[7] == 0
            &&& bytes[8] == 64 && bytes[9] == 1
            &&& bytes[12] == src[0] && bytes[13] == src[1] && bytes[14] == src[2] && bytes[15]
                == src[3]
            &&& bytes[16] == dst[0] && bytes[17] == dst[1] && bytes[18] == dst[2] && bytes[19]
                == dst[3]
            &&& bytes[20] == 8 && bytes[21] == 0
            &&& bytes[24] * 256 + bytes[25] == 0x22b
            &&& bytes[26] * 256 + bytes[27] == seq_no
            &&& bytes[28] == 0xDE && bytes[29] == 0xAD && bytes[30] == 0xBE && bytes[31] == 0xEF
            &&& forall|i: int| 32 <= i < 64 ==> #[trigger] bytes[i] == 0
        }),
{
    be16_round_trip(32);
    be16_round_trip(0x22b);
    be16_round_trip(seq_no);
    let bytes = trigger_bytes(src, dst, seq_no);
    assert(bytes[2] == be16_bytes(32)[0] && bytes[3] == be16_bytes(32)[1]);
    assert(bytes[24] == be16_bytes(0x22b)[0] && bytes[25] == be16_bytes(0x22b)[1]);
    assert(bytes[26] == be16_bytes(seq_no)[0] && bytes[27] == be16_bytes(seq_no)[1]);
}

/// A checksum holds exactly where the 16-bit words add up to a multiple of 0xffff, and not to
/// nothing.
pub proof fn checksum_meaning(bytes: Seq<u8>)
    ensures
        checksum_holds(bytes) <==> word_sum(bytes) > 0 && word_sum(bytes) % 0xffff == 0,
        bytes.len() == 0 ==> word_sum(bytes) == 0,
        bytes.len() >= 2 ==> word_sum(bytes) == bytes[0] * 256 + bytes[1] + word_sum(
            bytes.skip(2),
        ),
{
}

/// Where a trigger has its sender, its receiver, its kind and its number.
pub proof fn trigger_addressed(packet: Seq<u8>, src: Seq<u8>, dst: Seq<u8>, seq_no: u16)
    requires
        src.len() == 4,
        dst.len() == 4,
        packet == trigger_bytes(src, dst, seq_no),
    ensures
        packet.len() == 64,
        packet.subrange(12, 16) == src,
        packet.subrange(16, 20) == dst,
        packet[9] == 1,
        packet[20] == 8,
        packet[26] * 256 + packet[27] == seq_no,
{
    trigger_layout(src, dst, seq_no);
    assert(packet.subrange(12, 16) =~= src);
    assert(packet.subrange(16, 20) =~= dst);
}

} // verus!
