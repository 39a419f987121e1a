use esp_csi_rs::echo::extract_icmp_info;
use esp_csi_rs::frame::{sequence_sync, LastTrigger};
use esp_csi_rs::net::{first_ipv4, parse_ipv4, IpAddress};
use esp_csi_rs::trigger::{trigger_interval, trigger_packet};

const BROADCAST: [u8; 32] = [
    0x45, 0x00, 0x00, 0x20, 0x00, 0x00, 0x40, 0x00, 0x40, 0x01, 0xb4, 0x8c, 0xc0, 0xa8, 0x02, 0x01,
    0xc0, 0xa8, 0x02, 0xff, 0x08, 0x00, 0x58, 0x37, 0x02, 0x2b, 0x00, 0x00, 0xde, 0xad, 0xbe, 0xef,
];

const UNICAST: [u8; 32] = [
    0x45, 0x00, 0x00, 0x20, 0x00, 0x00, 0x40, 0x00, 0x40, 0x01, 0xb5, 0x84, 0xc0, 0xa8, 0x02, 0x01,
    0xc0, 0xa8, 0x02, 0x07, 0x08, 0x00, 0x56, 0x36, 0x02, 0x2b, 0x02, 0x01, 0xde, 0xad, 0xbe, 0xef,
];

const LLC_SNAP: [u8; 8] = [0xAA, 0xAA, 0x03, 0, 0, 0, 0x08, 0x00];

fn word_sum(bytes: &[u8]) -> u32 {
    let mut sum: u32 = 0;
    for word in bytes.chunks(2) {
        sum += u32::from(word[0]) << 8 | u32::from(word[1]);
    }
    while sum > 0xffff {
        sum = (sum & 0xffff) + (sum >> 16);
    }
    sum
}

fn frame_with(header: &[u8], payload: &[u8]) -> Vec<u8> {
    let mut frame = header.to_vec();
    frame.extend_from_slice(payload);
    frame
}

/// The header of a data frame from an access point to a station.
fn data_header() -> Vec<u8> {
    let mut header = vec![0x08, 0x02, 0, 0];
    header.extend_from_slice(&[0xFF; 6]);
    header.extend_from_slice(&[1; 6]);
    header.extend_from_slice(&[2; 6]);
    header.extend_from_slice(&[0x10, 0]);
    header
}

#[test]
fn trigger_packet_bytes() {
    let packet = trigger_packet([192, 168, 2, 1], [192, 168, 2, 255], 0);
    assert_eq!(packet[..32], BROADCAST);
    assert_eq!(packet[32..], [0; 32]);
    let packet = trigger_packet([192, 168, 2, 1], [192, 168, 2, 7], 513);
    assert_eq!(packet[..32], UNICAST);
    assert_eq!(packet[32..], [0; 32]);
}

#[test]
fn trigger_checksums() {
    for seq_no in [0, 1, 0x7fff, 0xa796, 0xffff] {
        let packet = trigger_packet([10, 1, 2, 3], [10, 1, 2, 255], seq_no);
        assert_eq!(word_sum(&packet[..20]), 0xffff);
        assert_eq!(word_sum(&packet[20..32]), 0xffff);
    }
}

#[test]
fn trigger_is_recognised() {
    for seq_no in [0, 1, 513, 0xffff] {
        let packet = trigger_packet([192, 168, 2, 1], [192, 168, 2, 255], seq_no);
        assert_eq!(extract_icmp_info(&packet), Some((seq_no, [192, 168, 2, 1])));
    }
}

#[test]
fn echo_is_found_behind_each_header() {
    for offset in [0, 2, 8, 10, 16] {
        let mut payload = vec![0; offset];
        payload.extend_from_slice(&UNICAST);
        assert_eq!(extract_icmp_info(&payload), Some((513, [192, 168, 2, 1])));
    }
    for offset in [1, 3, 4, 9, 12, 24] {
        let mut payload = vec![0; offset];
        payload.extend_from_slice(&UNICAST);
        assert_eq!(extract_icmp_info(&payload), None);
    }
}

#[test]
fn echo_is_found_behind_ip_options() {
    let mut payload = UNICAST[..20].to_vec();
    payload[0] = 0x46;
    payload.extend_from_slice(&[1, 1, 1, 1]);
    payload.extend_from_slice(&UNICAST[20..]);
    assert_eq!(extract_icmp_info(&payload), Some((513, [192, 168, 2, 1])));
}

#[test]
fn echo_reply_counts_as_echo() {
    let mut payload = UNICAST;
    payload[20] = 0;
    assert_eq!(extract_icmp_info(&payload), Some((513, [192, 168, 2, 1])));
}

#[test]
fn other_packets_are_no_echo() {
    let change = |index: usize, value: u8| {
        let mut payload = UNICAST;
        payload[index] = value;
        extract_icmp_info(&payload)
    };
    assert_eq!(change(0, 0x65), None);
    assert_eq!(change(0, 0x44), None);
    assert_eq!(change(0, 0x4f), None);
    assert_eq!(change(9, 17), None);
    assert_eq!(change(20, 3), None);
    assert_eq!(extract_icmp_info(&[]), None);
    assert_eq!(extract_icmp_info(&UNICAST[..27]), None);
    assert_eq!(extract_icmp_info(&UNICAST[..28]), Some((513, [192, 168, 2, 1])));
}

#[test]
fn first_candidate_wins() {
    let mut payload = BROADCAST[..28].to_vec();
    payload.extend_from_slice(&UNICAST);
    assert_eq!(extract_icmp_info(&payload), Some((0, [192, 168, 2, 1])));
}

#[test]
fn trigger_in_a_frame_is_heard() {
    let mut last = LastTrigger { sequence_number: 9, timestamp: 8 };
    let mut payload = LLC_SNAP.to_vec();
    payload.extend_from_slice(&trigger_packet([192, 168, 2, 1], [192, 168, 2, 255], 1234));
    sequence_sync(&frame_with(&data_header(), &payload), 5678, &mut last);
    assert_eq!(last, LastTrigger { sequence_number: 1234, timestamp: 5678 });
}

#[test]
fn bytes_behind_a_trigger_do_not_matter() {
    let mut last = LastTrigger { sequence_number: 9, timestamp: 8 };
    let mut payload = LLC_SNAP.to_vec();
    payload.extend_from_slice(&UNICAST);
    payload.extend_from_slice(&[0x45, 0xFF, 0xFF, 0xFF]);
    sequence_sync(&frame_with(&data_header(), &payload), 5678, &mut last);
    assert_eq!(last, LastTrigger { sequence_number: 513, timestamp: 5678 });
}

#[test]
fn trigger_in_a_qos_frame_is_heard() {
    let mut last = LastTrigger { sequence_number: 9, timestamp: 8 };
    let mut header = data_header();
    header[0] = 0x88;
    header.extend_from_slice(&[0, 0]);
    let mut payload = LLC_SNAP.to_vec();
    payload.extend_from_slice(&UNICAST);
    sequence_sync(&frame_with(&header, &payload), 5678, &mut last);
    assert_eq!(last, LastTrigger { sequence_number: 513, timestamp: 5678 });
}

#[test]
fn trigger_in_a_relayed_frame_is_heard() {
    let mut last = LastTrigger { sequence_number: 9, timestamp: 8 };
    let mut header = data_header();
    header[1] = 0x03;
    header.extend_from_slice(&[3; 6]);
    let mut payload = LLC_SNAP.to_vec();
    payload.extend_from_slice(&UNICAST);
    sequence_sync(&frame_with(&header, &payload), 1, &mut last);
    assert_eq!(last, LastTrigger { sequence_number: 513, timestamp: 1 });
}

#[test]
fn other_frames_leave_the_last_trigger() {
    let before = LastTrigger { sequence_number: 9, timestamp: 8 };
    let mut last = before;
    let mut payload = LLC_SNAP.to_vec();
    payload.extend_from_slice(&UNICAST);
    // a beacon, an acknowledgement, a data frame without data, one without a trigger, one
    // that ends within its header, and nothing
    let mut beacon = data_header();
    beacon[0] = 0x80;
    let mut null = data_header();
    null[0] = 0x48;
    for frame in [
        frame_with(&beacon, &payload),
        vec![0xD4, 0, 0, 0, 1, 1, 1, 1, 1, 1],
        frame_with(&null, &payload),
        frame_with(&data_header(), &LLC_SNAP),
        data_header()[..20].to_vec(),
        vec![],
    ] {
        sequence_sync(&frame, 77, &mut last);
        assert_eq!(last, before);
    }
}

#[test]
fn interval_is_whole_milliseconds() {
    assert_eq!(trigger_interval(1), 1_000_000);
    assert_eq!(trigger_interval(3), 333_000);
    assert_eq!(trigger_interval(100), 10_000);
    assert_eq!(trigger_interval(1000), 1_000);
    assert_eq!(trigger_interval(1001), 0);
}

#[test]
fn addresses_are_parsed() {
    assert_eq!(parse_ipv4("192.168.2.1"), Some([192, 168, 2, 1]));
    assert_eq!(parse_ipv4("0.0.0.0"), Some([0; 4]));
    assert_eq!(parse_ipv4("255.255.255.255"), Some([255; 4]));
    for text in [
        "", "1", "1.2.3", "1.2.3.", "1.2.3.4.", "1.2.3.4.5", ".1.2.3", "1..2.3", "256.1.1.1", "1.1.1.999",
        "01.2.3.4", "1.2.3.00", "1.2.3.4 ", " 1.2.3.4", "1.2.3.x", "-1.2.3.4", "1,2,3,4", "1000.1.1.1",
    ] {
        assert_eq!(parse_ipv4(text), None);
    }
}

#[test]
fn parsed_addresses_are_those_of_the_standard_library() {
    for text in [
        "10.20.30.40", "9.99.100.255", "1.2.3.256", "08.1.1.1", "1.2.3.4x", "0.0.0.00", "249.250.0.10",
    ] {
        let expected = text.parse::<core::net::Ipv4Addr>().ok().map(|address| address.octets());
        assert_eq!(parse_ipv4(text), expected);
    }
}

#[test]
fn first_ipv4_address_is_found() {
    let addresses = [IpAddress::Other, IpAddress::Ipv4([1, 2, 3, 4]), IpAddress::Ipv4([5; 4])];
    assert_eq!(first_ipv4(&addresses), Some([1, 2, 3, 4]));
    assert_eq!(first_ipv4(&addresses[..1]), None);
    assert_eq!(first_ipv4(&[]), None);
}
