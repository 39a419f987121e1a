//! Received 802.11 frames, and the trigger packets that they carry.

use crate::echo::{
    candidate_offsets, extract_icmp_info, found_at, found_at_unique, is_echo_at, is_echo_info,
    no_echo, sequence_at, source_at,
};
use vstd::prelude::*;

verus! {

/// The length in bytes of a data frame's header: a fourth address is there when the frame
/// goes to and comes from the distribution system, a QoS field for the QoS subtypes, and
/// an HT control field when the order flag is set.
pub open spec fn data_header_len(frame: Seq<u8>) -> int {
    24 + (if frame[1] % 4 == 3 {
        6int
    } else {
        0
    }) + (if frame[0] / 16 >= 8 {
        2int
    } else {
        0
    }) + (if frame[1] / 128 == 1 {
        4int
    } else {
        0
    })
}

/// The payload of a data frame. There is none in frames of another type, in data
/// subtypes that carry no data, and in frames too short for their header.
pub open spec fn data_payload(frame: Seq<u8>) -> Option<Seq<u8>> {
    if frame.len() >= 24 && frame[0] / 4 % 4 == 2 && frame[0] / 16 % 8 < 4 && frame.len()
        >= data_header_len(frame) {
        Some(frame.skip(data_header_len(frame)))
    } else {
        None
    }
}

/// `ieee80211::GenericFrame::parse_to_typed` with the type `DataFrame`, on the bytes of a
/// frame without its checksum: the payload of the data frame. A frame that is no data
/// frame, or that does not parse as one, has none.
#[verifier::external_body]
pub(crate) fn parse_data_payload(frame: &[u8]) -> (payload: Option<&[u8]>)
    ensures
        match payload {
            Some(bytes) => data_payload(frame@) == Some(bytes@),
            None => data_payload(frame@) is None,
        },
{
    let generic = ieee80211::GenericFrame::new(frame, false).ok()?;
    generic.parse_to_typed::<ieee80211::data_frame::DataFrame>()?.ok()?.payload
}

/// The last trigger packet that was heard.
#[derive(Debug, Clone, Copy, PartialEq, Eq, Structural)]
pub struct LastTrigger {
    /// Its sequence number.
    pub sequence_number: u16,
    /// The local time at its reception, in microseconds.
    pub timestamp: u32,
}

/// Whether `after` is what is known of the last trigger once a frame was heard at
/// `timestamp`: a frame with an echo packet replaces what was known, any other frame
/// leaves it.
pub open spec fn is_synced(
    before: LastTrigger,
    after: LastTrigger,
    frame: Seq<u8>,
    timestamp: u32,
) -> bool {
    match data_payload(frame) {
        Some(payload) => if no_echo(payload) {
            after == before
        } else {
            &&& after.timestamp == timestamp
            &&& exists|k: int| #[trigger]
                found_at(payload, k) && after.sequence_number == sequence_at(
                    payload,
                    candidate_offsets()[k],
                )
        },
        None => after == before,
    }
}

/// Notes the trigger packet that a frame heard at `timestamp` carries, if it carries one.
pub fn sequence_sync(frame: &[u8], timestamp: u32, last: &mut LastTrigger)
    ensures
        is_synced(*old(last), *final(last), frame@, timestamp),
{
    if let Some(payload) = parse_data_payload(frame) {
        if let Some((sequence_number, _source)) = extract_icmp_info(payload) {
            last.sequence_number = sequence_number;
            last.timestamp = timestamp;
            proof {
                let k = choose|k: int| #[trigger]
                    found_at(payload@, k) && sequence_number == sequence_at(
                        payload@,
                        candidate_offsets()[k],
                    );
                assert(found_at(payload@, k));
            }
        }
    }
}

/// What is known of the last trigger follows what is extracted from the frame's payload: the
/// number that is found there, at the time of reception; nothing changes where none is found.
pub proof fn sync_follows_extraction(
    before: LastTrigger,
    after: LastTrigger,
    frame: Seq<u8>,
    timestamp: u32,
    info: Option<(u16, [u8; 4])>,
)
    requires
        is_synced(before, after, frame, timestamp),
        data_payload(frame) matches Some(payload) ==> is_echo_info(info, payload),
        data_payload(frame) is None ==> info is None,
    ensures
        info matches Some((sequence, _)) ==> after.sequence_number == sequence && after.timestamp
            == timestamp,
        info is None ==> after.sequence_number == before.sequence_number && after.timestamp
            == before.timestamp,
{
    if let Some((sequence, source)) = info {
        let payload = data_payload(frame)->0;
        let j = choose|j: int| #[trigger]
            found_at(payload, j) && sequence == sequence_at(payload, candidate_offsets()[j])
                && source@ == source_at(payload, candidate_offsets()[j]);
        assert(is_echo_at(payload, candidate_offsets()[j]));
        let k = choose|k: int| #[trigger]
            found_at(payload, k) && after.sequence_number == sequence_at(
                payload,
                candidate_offsets()[k],
            );
        found_at_unique(payload, j, k);
    }
}

} // verus!
