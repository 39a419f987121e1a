//! Recognition of ICMP echo packets in the payload of a received frame.

use crate::bytes::{be16, read_be16};
use vstd::prelude::*;

verus! {

/// Where in the payload an IPv4 header can begin: directly, behind a QoS field, behind
/// an LLC/SNAP header, behind both, or behind both with padding. They are tried in this
/// order.
pub open spec fn candidate_offsets() -> Seq<int> {
    seq![0, 2, 8, 10, 16]
}

/// The length in bytes that an IPv4 header at `offset` gives itself.
pub open spec fn header_len_at(payload: Seq<u8>, offset: int) -> int {
    payload[offset] % 16 * 4
}

/// Whether the bytes at `offset` are an IPv4 header that is followed by an ICMP echo
/// request or reply, both entirely within the payload.
pub open spec fn is_echo_at(payload: Seq<u8>, offset: int) -> bool {
    let header_len = header_len_at(payload, offset);
    &&& offset + 20 <= payload.len()
    &&& payload[offset] / 16 == 4
    &&& header_len >= 20
    &&& offset + header_len + 8 <= payload.len()
    &&& payload[offset + 9] == 1
    &&& payload[offset + header_len] == 0 || payload[offset + header_len] == 8
}

/// The sequence number of the echo packet whose IPv4 header begins at `offset`.
pub open spec fn sequence_at(payload: Seq<u8>, offset: int) -> u16 {
    let echo = offset + header_len_at(payload, offset);
    be16(payload[echo + 6], payload[echo + 7])
}

/// The source address in the IPv4 header at `offset`.
pub open spec fn source_at(payload: Seq<u8>, offset: int) -> Seq<u8> {
    payload.subrange(offset + 12, offset + 16)
}

/// Whether an echo packet is found at the candidate with index `k`: it is there, and at
/// no earlier candidate.
pub open spec fn found_at(payload: Seq<u8>, k: int) -> bool {
    &&& 0 <= k < candidate_offsets().len()
    &&& is_echo_at(payload, candidate_offsets()[k])
    &&& forall|j: int| 0 <= j < k ==> !is_echo_at(payload, #[trigger] candidate_offsets()[j])
}

/// Whether no candidate has an echo packet.
pub open spec fn no_echo(payload: Seq<u8>) -> bool {
    forall|j: int|
        0 <= j < candidate_offsets().len() ==> !is_echo_at(
            payload,
            #[trigger] candidate_offsets()[j],
        )
}

/// Whether `info` is the sequence number and source address of the first echo packet in
/// the payload.
pub open spec fn is_echo_info(info: Option<(u16, [u8; 4])>, payload: Seq<u8>) -> bool {
    match info {
        Some((sequence, source)) => exists|k: int| #[trigger]
            found_at(payload, k) && sequence == sequence_at(payload, candidate_offsets()[k])
                && source@ == source_at(payload, candidate_offsets()[k]),
        None => no_echo(payload),
    }
}

/// At most one candidate is the first.
pub proof fn found_at_unique(payload: Seq<u8>, j: int, k: int)
    requires
        found_at(payload, j),
        found_at(payload, k),
    ensures
        j == k,
{
    assert(is_echo_at(payload, candidate_offsets()[j]));
    assert(is_echo_at(payload, candidate_offsets()[k]));
}

/// A payload has one answer.
pub proof fn echo_info_unique(
    one: Option<(u16, [u8; 4])>,
    other: Option<(u16, [u8; 4])>,
    payload: Seq<u8>,
)
    requires
        is_echo_info(one, payload),
        is_echo_info(other, payload),
    ensures
        one is Some <==> other is Some,
        one matches Some((sequence, source)) ==> other matches Some((sequence2, source2))
            && sequence == sequence2 && source@ == source2@,
{
    if let Some((sequence, source)) = one {
        let j = choose|j: int| #[trigger]
            found_at(payload, j) && sequence == sequence_at(payload, candidate_offsets()[j])
                && source@ == source_at(payload, candidate_offsets()[j]);
        assert(is_echo_at(payload, candidate_offsets()[j]));
        if let Some((sequence2, source2)) = other {
            let k = choose|k: int| #[trigger]
                found_at(payload, k) && sequence2 == sequence_at(payload, candidate_offsets()[k])
                    && source2@ == source_at(payload, candidate_offsets()[k]);
            found_at_unique(payload, j, k);
        }
    } else if let Some((sequence2, source2)) = other {
        let k = choose|k: int| #[trigger]
            found_at(payload, k) && sequence2 == sequence_at(payload, candidate_offsets()[k])
                && source2@ == source_at(payload, candidate_offsets()[k]);
        assert(is_echo_at(payload, candidate_offsets()[k]));
    }
}

/// Reads the echo packet whose IPv4 header begins at `offset`, if there is one.
fn echo_at(payload: &[u8], offset: usize) -> (info: Option<(u16, [u8; 4])>)
    requires
        offset <= 16,
    ensures
        match info {
            Some((sequence, source)) => is_echo_at(payload@, offset as int) && sequence
                == sequence_at(payload@, offset as int) && source@ == source_at(
                payload@,
                offset as int,
            ),
            None => !is_echo_at(payload@, offset as int),
        },
{
    if payload.len() < offset + 20 {
        return None;
    }
    if payload[offset] / 16 != 4 {
        return None;
    }
    let header_len: usize = (payload[offset] % 16) as usize * 4;
    if header_len < 20 {
        return None;
    }
    if payload.len() < offset + header_len + 8 {
        return None;
    }
    if payload[offset + 9] != 1 {
        return None;
    }
    let echo: usize = offset + header_len;
    if payload[echo] != 0 && payload[echo] != 8 {
        return None;
    }
    let sequence = read_be16(payload[echo + 6], payload[echo + 7]);
    let source: [u8; 4] = [
        payload[offset + 12],
        payload[offset + 13],
        payload[offset + 14],
        payload[offset + 15],
    ];
    assert(source@ == source_at(payload@, offset as int));
    Some((sequence, source))
}

/// Extracts the sequence number and source address of the first ICMP echo packet in the
/// payload of a frame.
pub fn extract_icmp_info(payload: &[u8]) -> (info: Option<(u16, [u8; 4])>)
    ensures
        is_echo_info(info, payload@),
{
    let offsets: [usize; 5] = [0, 2, 8, 10, 16];
    for k in iter: 0..5usize
        invariant
            offsets@ == seq![0usize, 2usize, 8usize, 10usize, 16usize],
            forall|j: int|
                0 <= j < iter.index() ==> !is_echo_at(
                    payload@,
                    #[trigger] candidate_offsets()[j],
                ),
    {
        let ghost index: int = iter.index();
        assert(offsets@[index] == candidate_offsets()[index]);
        let info = echo_at(payload, offsets[k]);
        if info.is_some() {
            assert(found_at(payload@, index));
            return info;
        }
    }
    None
}

/// An echo packet is recognised by its fields alone: at `offset`, an IPv4 header of `words`
/// words, five at least, for ICMP, and behind it a whole echo header of a request or a reply.
/// Its number and its sender are read from where those headers have them.
pub proof fn echo_recognised_by_fields(payload: Seq<u8>, offset: int, words: int)
    requires
        0 <= offset,
        offset + 20 <= payload.len(),
        payload[offset] == 0x40 + words,
        0 <= words < 16,
    ensures
        is_echo_at(payload, offset) <==> {
            &&& words >= 5
            &&& offset + 4 * words + 8 <= payload.len()
            &&& payload[offset + 9] == 1
            &&& payload[offset + 4 * words] == 8 || payload[offset + 4 * words] == 0
        },
        sequence_at(payload, offset) == payload[offset + 4 * words + 6] * 256 + payload[offset + 4
            * words + 7],
        source_at(payload, offset) == seq![
            payload[offset + 12],
            payload[offset + 13],
            payload[offset + 14],
            payload[offset + 15],
        ],
{
    assert(payload[offset] % 16 == words);
    assert(payload[offset] / 16 == 4);
}

/// What is shorter than an IPv4 header, or not of version 4, is no echo packet.
pub proof fn echo_takes_ipv4(payload: Seq<u8>, offset: int)
    requires
        0 <= offset,
        offset + 20 > payload.len() || payload[offset] < 0x40 || payload[offset] >= 0x50,
    ensures
        !is_echo_at(payload, offset),
{
}

/// The places are tried in order: at the start, and behind 2, 8, 10 and 16 bytes. The first
/// echo packet among them is the answer, and there is none exactly where no place has one.
pub proof fn echo_places(payload: Seq<u8>, info: Option<(u16, [u8; 4])>)
    requires
        is_echo_info(info, payload),
    ensures
        info is None <==> !is_echo_at(payload, 0) && !is_echo_at(payload, 2) && !is_echo_at(
            payload,
            8,
        ) && !is_echo_at(payload, 10) && !is_echo_at(payload, 16),
        info matches Some((sequence, source)) ==> ({
            let offset: int = if is_echo_at(payload, 0) {
                0
            } else if is_echo_at(payload, 2) {
                2
            } else if is_echo_at(payload, 8) {
                8
            } else if is_echo_at(payload, 10) {
                10
            } else {
                16
            };
            &&& is_echo_at(payload, offset)
            &&& sequence == sequence_at(payload, offset)
            &&& source@ == source_at(payload, offset)
        }),
{
    let offsets = candidate_offsets();
    assert(offsets[0] == 0 && offsets[1] == 2 && offsets[2] == 8 && offsets[3] == 10 && offsets[4]
        == 16);
    if let Some((sequence, source)) = info {
        let k = choose|k: int| #[trigger]
            found_at(payload, k) && sequence == sequence_at(payload, offsets[k]) && source@
                == source_at(payload, offsets[k]);
        assert(k == 0 || k == 1 || k == 2 || k == 3 || k == 4);
    }
}

} // verus!
