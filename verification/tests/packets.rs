use esp_csi_rs::buffers::RawMessage;
use esp_csi_rs::csi::{
    can_capture, capture_csi_info, CSIDataPacket, CsiInfo, FormatParams, RxCSIFmt, RxControl,
};
use esp_csi_rs::error::Error;
use esp_csi_rs::frame::LastTrigger;
use esp_csi_rs::message::{encode_csi_message, reconstruct_csi_from_udp};
use esp_csi_rs::process::{process_csi_packet, process_csi_packet_esp32c6};
use esp_csi_rs::time::{DateTime, DateTimeCapture};

fn rx_control() -> RxControl {
    RxControl {
        rssi: -40,
        cwb: 1,
        ant: 2,
        rate: 3,
        sig_mode: 1,
        mcs: 5,
        smoothing: 6,
        not_sounding: 7,
        aggregation: 8,
        stbc: 1,
        fec_coding: 10,
        sgi: 11,
        noise_floor: -95,
        ampdu_cnt: 12,
        channel: 13,
        secondary_channel: 2,
        timestamp: 0x0102_0304,
        rx_state: 14,
        sig_len: 15,
    }
}

fn capture(buf: &[i8]) -> CSIDataPacket {
    let info = CsiInfo { mac: [1, 2, 3, 4, 5, 6], rx_ctrl: rx_control(), buf };
    capture_csi_info(&info, None).unwrap()
}

#[test]
fn capture_takes_over_what_the_radio_reports() {
    let packet = capture(&[1, -1, 127, -128]);
    assert_eq!(packet.sequence_number, 0);
    assert_eq!(packet.data_format, RxCSIFmt::Undefined);
    assert_eq!(packet.date_time, None);
    assert_eq!(packet.mac, [1, 2, 3, 4, 5, 6]);
    assert_eq!(packet.rssi, -40);
    assert_eq!(packet.bandwidth, 1);
    assert_eq!(packet.antenna, 2);
    assert_eq!(packet.rate, 3);
    assert_eq!(packet.sig_mode, 1);
    assert_eq!(packet.mcs, 5);
    assert_eq!(packet.smoothing, 6);
    assert_eq!(packet.not_sounding, 7);
    assert_eq!(packet.aggregation, 8);
    assert_eq!(packet.stbc, 1);
    assert_eq!(packet.fec_coding, 10);
    assert_eq!(packet.sgi, 11);
    assert_eq!(packet.noise_floor, -95);
    assert_eq!(packet.ampdu_cnt, 12);
    assert_eq!(packet.channel, 13);
    assert_eq!(packet.secondary_channel, 2);
    assert_eq!(packet.timestamp, 0x0102_0304);
    assert_eq!(packet.rx_state, 14);
    assert_eq!(packet.sig_len, 15);
    assert_eq!(packet.csi_data_len, 4);
    assert_eq!(packet.csi_data.as_slice(), &[1, -1, 127, -128]);
}

#[test]
fn capture_fills_the_buffer_to_its_capacity() {
    let samples = [7i8; 612];
    let packet = capture(&samples);
    assert_eq!(packet.csi_data_len, 612);
    assert_eq!(packet.csi_data.as_slice(), &samples);
    assert!(packet.csi_data.is_full());
}

#[test]
fn rssi_above_127_is_negative() {
    let mut rx_ctrl = rx_control();
    for (reported, signed) in [(127, 127), (128, -128), (216, -40), (255, -1), (0, 0), (-3, -3)] {
        rx_ctrl.rssi = reported;
        let info = CsiInfo { mac: [0; 6], rx_ctrl, buf: &[] };
        assert_eq!(capture_csi_info(&info, None).unwrap().rssi, signed);
    }
}

#[test]
fn filter_keeps_one_address_only() {
    let info = CsiInfo { mac: [1, 2, 3, 4, 5, 6], rx_ctrl: rx_control(), buf: &[9] };
    assert!(capture_csi_info(&info, Some([1, 2, 3, 4, 5, 6])).is_some());
    assert!(capture_csi_info(&info, Some([1, 2, 3, 4, 5, 7])).is_none());
    assert!(capture_csi_info(&info, Some([0, 2, 3, 4, 5, 6])).is_none());
    let long = CsiInfo { buf: &[0; 613], ..info };
    assert!(capture_csi_info(&long, Some([9; 6])).is_none());
    assert!(can_capture(&long, Some([9; 6])));
    assert!(!can_capture(&long, Some([1, 2, 3, 4, 5, 6])));
    assert!(!can_capture(&long, None));
    assert!(can_capture(&info, None));
}

#[test]
fn clone_keeps_every_sample() {
    let packet = capture(&[3, -4]);
    let copy = packet.clone();
    assert_eq!(copy.csi_data.as_slice(), &[3, -4]);
    assert_eq!(copy.timestamp, packet.timestamp);
    assert_eq!(copy.mac, packet.mac);
}

#[test]
fn formats_have_codes_and_parameters() {
    // bandwidth, signal mode, space-time block coding, secondary channel
    let table = [
        (RxCSIFmt::Bw20, [0, 0, 0, 0]),
        (RxCSIFmt::HtBw20, [0, 1, 0, 0]),
        (RxCSIFmt::HtBw20Stbc, [0, 1, 1, 0]),
        (RxCSIFmt::SecbBw20, [0, 0, 0, 2]),
        (RxCSIFmt::SecbHtBw20, [0, 1, 0, 2]),
        (RxCSIFmt::SecbHtBw20Stbc, [0, 1, 1, 2]),
        (RxCSIFmt::SecbHtBw40, [1, 1, 0, 2]),
        (RxCSIFmt::SecbHtBw40Stbc, [1, 1, 1, 2]),
        (RxCSIFmt::SecaBw20, [0, 0, 0, 1]),
        (RxCSIFmt::SecaHtBw20, [0, 1, 0, 1]),
        (RxCSIFmt::SecaHtBw20Stbc, [0, 1, 1, 1]),
        (RxCSIFmt::SecaHtBw40, [1, 1, 0, 1]),
        (RxCSIFmt::SecaHtBw40Stbc, [1, 1, 1, 1]),
    ];
    for (code, (format, [bandwidth, sig_mode, stbc, secondary_channel])) in
        table.into_iter().enumerate()
    {
        let radio = FormatParams { bandwidth, sig_mode, stbc, secondary_channel };
        assert_eq!(format.code() as usize, code);
        assert_eq!(RxCSIFmt::from_code(code as u8), (format, radio));
        assert_eq!(RxCSIFmt::from_params(radio), format);
    }
    assert_eq!(RxCSIFmt::Undefined.code(), 13);
    let zero = FormatParams { bandwidth: 0, sig_mode: 0, stbc: 0, secondary_channel: 0 };
    for code in [13, 14, 255] {
        assert_eq!(RxCSIFmt::from_code(code), (RxCSIFmt::Undefined, zero));
    }
}

#[test]
fn other_parameters_are_no_format() {
    for (bandwidth, sig_mode, stbc, secondary_channel) in
        [(1, 0, 0, 0), (0, 0, 1, 0), (1, 1, 0, 0), (0, 0, 0, 3), (0, 2, 0, 0)]
    {
        let radio = FormatParams { bandwidth, sig_mode, stbc, secondary_channel };
        assert_eq!(RxCSIFmt::from_params(radio), RxCSIFmt::Undefined);
    }
}

#[test]
fn message_layout() {
    let mut packet = capture(&[1, -1, -128]);
    packet.sequence_number = 0xABCD;
    packet.data_format = RxCSIFmt::SecaHtBw40;
    let mut message = RawMessage::new();
    message.extend_from_slice(b"what was there before").unwrap();
    encode_csi_message(&packet, &mut message);
    assert_eq!(
        message.as_slice(),
        &[0xAB, 0xCD, 11, 0x01, 0x02, 0x03, 0x04, 0x01, 0xFF, 0x80]
    );
}

#[test]
fn message_comes_back() {
    let mut packet = capture(&[1, -1, -128, 127]);
    packet.sequence_number = 513;
    packet.csi_fmt_from_params();
    assert_eq!(packet.data_format, RxCSIFmt::SecbHtBw40Stbc);
    let mut message = RawMessage::new();
    encode_csi_message(&packet, &mut message);
    let received = reconstruct_csi_from_udp(&message).unwrap();
    assert_eq!(received.sequence_number, 513);
    assert_eq!(received.data_format, RxCSIFmt::SecbHtBw40Stbc);
    assert_eq!(received.timestamp, 0x0102_0304);
    assert_eq!(received.csi_data_len, 4);
    assert_eq!(received.csi_data.as_slice(), &[1, -1, -128, 127]);
    assert_eq!(received.bandwidth, 1);
    assert_eq!(received.sig_mode, 1);
    assert_eq!(received.stbc, 1);
    assert_eq!(received.secondary_channel, 2);
}

#[test]
fn fields_that_do_not_travel_are_zero() {
    let mut message = RawMessage::new();
    encode_csi_message(&capture(&[5]), &mut message);
    let received = reconstruct_csi_from_udp(&message).unwrap();
    assert_eq!(received.mac, [0; 6]);
    assert_eq!(received.date_time, None);
    assert_eq!(received.rssi, 0);
    assert_eq!(received.noise_floor, 0);
    assert_eq!(
        [
            received.antenna,
            received.rate,
            received.mcs,
            received.smoothing,
            received.not_sounding,
            received.aggregation,
            received.fec_coding,
            received.sgi,
            received.ampdu_cnt,
            received.channel,
            received.rx_state,
            received.sig_len,
        ],
        [0; 12]
    );
}

#[test]
fn unknown_format_byte_becomes_undefined() {
    let bytes = [0, 1, 200, 0, 0, 0, 2, 3];
    let message = RawMessage::from_slice(&bytes).unwrap();
    let received = reconstruct_csi_from_udp(&message).unwrap();
    assert_eq!(received.data_format, RxCSIFmt::Undefined);
    let mut again = RawMessage::new();
    encode_csi_message(&received, &mut again);
    assert_eq!(again.as_slice(), &[0, 1, 13, 0, 0, 0, 2, 3]);
}

#[test]
fn known_message_is_written_again_as_it_was() {
    let bytes = [0x12, 0x34, 7, 0xDE, 0xAD, 0xBE, 0xEF, 0, 0x7F, 0x80, 0xFF];
    let message = RawMessage::from_slice(&bytes).unwrap();
    let mut again = RawMessage::new();
    encode_csi_message(&reconstruct_csi_from_udp(&message).unwrap(), &mut again);
    assert_eq!(again.as_slice(), &bytes);
}

#[test]
fn message_without_header_is_refused() {
    for len in 0..7 {
        let message = RawMessage::from_slice(&[1; 7][..len]).unwrap();
        assert!(matches!(
            reconstruct_csi_from_udp(&message),
            Err(Error::SystemError("Buffer too short: must be at least 7 bytes"))
        ));
    }
    let header = RawMessage::from_slice(&[1; 7]).unwrap();
    assert_eq!(reconstruct_csi_from_udp(&header).unwrap().csi_data_len, 0);
}

#[test]
fn message_with_too_many_samples_is_refused() {
    let longest = RawMessage::from_slice(&[1; 619]).unwrap();
    assert_eq!(reconstruct_csi_from_udp(&longest).unwrap().csi_data_len, 612);
    for len in [620, 625] {
        let message = RawMessage::from_slice(&[1; 625][..len]).unwrap();
        assert!(matches!(
            reconstruct_csi_from_udp(&message),
            Err(Error::SystemError("CSI data too long: max 612 bytes"))
        ));
    }
}

#[test]
fn processing_sets_the_format() {
    let mut packet = capture(&[1]);
    process_csi_packet(&mut packet, None, 0, None);
    assert_eq!(packet.data_format, RxCSIFmt::SecbHtBw40Stbc);
    assert_eq!(packet.date_time, None);
    assert_eq!(packet.sequence_number, 0);
}

#[test]
fn processing_leaves_the_format_on_the_c6() {
    let mut packet = capture(&[1]);
    let last = LastTrigger { sequence_number: 4, timestamp: packet.timestamp };
    process_csi_packet_esp32c6(&mut packet, None, 0, Some(last));
    assert_eq!(packet.data_format, RxCSIFmt::Undefined);
    assert_eq!(packet.sequence_number, 4);
}

#[test]
fn processing_matches_the_trigger_within_the_tolerance() {
    for (trigger, captured, expected) in [
        (100_000, 100_000, 77),
        (100_000, 105_000, 77),
        (105_000, 100_000, 77),
        (100_000, 105_001, 0),
        (105_001, 100_000, 0),
        (0, u32::MAX, 0),
    ] {
        let mut packet = capture(&[1]);
        packet.timestamp = captured;
        packet.sequence_number = 5;
        let last = LastTrigger { sequence_number: 77, timestamp: trigger };
        process_csi_packet(&mut packet, None, 0, Some(last));
        assert_eq!(packet.sequence_number, expected);
    }
}

#[test]
fn processing_dates_the_packet() {
    let capture_time = DateTimeCapture {
        captured_at: 5_000_000,
        captured_secs: 1_709_210_096,
        captured_millis: 999,
    };
    let mut packet = capture(&[1]);
    process_csi_packet(&mut packet, Some(capture_time), 5_002_500, None);
    assert_eq!(
        packet.date_time,
        Some(DateTime {
            year: 2024,
            month: 2,
            day: 29,
            hour: 12,
            minute: 34,
            second: 57,
            millisecond: 1,
        })
    );
}
