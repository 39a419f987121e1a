use esp_csi_rs::dhcp::{run_dhcp_client, AssignedConfig, DhcpAction};
use esp_csi_rs::error::Error;
use esp_csi_rs::net::IpAddress;
use esp_csi_rs::sntp::{
    get_sntp_time, is_since_1970, parse_sntp_response, run_ntp_sync, sntp_request, NtpSyncAction,
    NtpSyncEvent, SntpAction, SntpEvent, NTP_PORT, NTP_SERVER,
};
use esp_csi_rs::time::{unix_to_date_time, DateTime, DateTimeCapture};

fn response(secs: u32, fraction: u32) -> [u8; 48] {
    let mut response = [0xEE; 48];
    response[40..44].copy_from_slice(&secs.to_be_bytes());
    response[44..48].copy_from_slice(&fraction.to_be_bytes());
    response
}

#[test]
fn dates_of_unix_times() {
    assert_eq!(unix_to_date_time(0, 0), (1970, 1, 1, 0, 0, 0, 0));
    assert_eq!(unix_to_date_time(86_399, 999), (1970, 1, 1, 23, 59, 59, 999));
    assert_eq!(unix_to_date_time(86_400, 0), (1970, 1, 2, 0, 0, 0, 0));
    assert_eq!(unix_to_date_time(951_782_399, 1), (2000, 2, 28, 23, 59, 59, 1));
    assert_eq!(unix_to_date_time(951_782_400, 0), (2000, 2, 29, 0, 0, 0, 0));
    assert_eq!(unix_to_date_time(1_709_210_096, 250), (2024, 2, 29, 12, 34, 56, 250));
    assert_eq!(unix_to_date_time(4_107_542_400, 0), (2100, 3, 1, 0, 0, 0, 0));
    assert_eq!(unix_to_date_time(4_294_967_295, 0), (2106, 2, 7, 6, 28, 15, 0));
}

#[test]
fn captured_time_is_the_date_until_its_capture() {
    let capture =
        DateTimeCapture { captured_at: 1_000, captured_secs: 1_709_210_096, captured_millis: 250 };
    let date = DateTime {
        year: 2024,
        month: 2,
        day: 29,
        hour: 12,
        minute: 34,
        second: 56,
        millisecond: 250,
    };
    assert_eq!(capture.date_time_at(1_000), date);
    assert_eq!(capture.date_time_at(1_999), date);
    assert_eq!(capture.date_time_at(0), date);
    assert_eq!(capture.date_time_at(2_000).millisecond, 251);
}

#[test]
fn date_is_the_captured_time_and_the_time_since() {
    let capture = DateTimeCapture { captured_at: 0, captured_secs: 100, captured_millis: 500 };
    for (now, expected) in [
        (0, (1, 40, 500)),
        (499_999, (1, 40, 999)),
        (500_000, (1, 41, 0)),
        (1_000_000, (1, 41, 500)),
        (2_600_000, (1, 43, 100)),
        (2_700_999, (1, 43, 200)),
        (60_000_000, (2, 40, 500)),
    ] {
        let date = capture.date_time_at(now);
        assert_eq!((date.minute, date.second, date.millisecond), expected);
    }
}

#[test]
fn time_request_bytes() {
    let request = sntp_request();
    assert_eq!(request[0], 0x23);
    assert_eq!(request[1..], [0; 47]);
    assert_eq!(NTP_SERVER, "pool.ntp.org");
    assert_eq!(NTP_PORT, 123);
}

#[test]
fn time_response_is_read() {
    let half = response(2_208_988_800 + 1_709_210_096, 0x8000_0000);
    assert_eq!(parse_sntp_response(&half, 48), Ok((1_709_210_096, 500)));
    let last = response(u32::MAX, u32::MAX);
    assert_eq!(parse_sntp_response(&last, 48), Ok((2_085_978_495, 999)));
    let first = response(2_208_988_800, 0);
    assert_eq!(parse_sntp_response(&first, 48), Ok((0, 0)));
    assert!(is_since_1970(&first, 48));
    assert!(!is_since_1970(&response(2_208_988_799, 0), 48));
    assert!(is_since_1970(&response(0, 0), 47));
}

#[test]
fn short_time_response_is_refused() {
    assert_eq!(
        parse_sntp_response(&response(0, 0), 47),
        Err(Error::SystemError("Incomplete NTP response"))
    );
}

#[test]
fn time_is_asked_for_step_by_step() {
    let addresses = [IpAddress::Other, IpAddress::Ipv4([162, 159, 200, 1])];
    match get_sntp_time(SntpEvent::Resolved(&addresses)) {
        SntpAction::Send { server, request } => {
            assert_eq!(server, [162, 159, 200, 1]);
            assert_eq!(request, sntp_request());
        }
        _ => panic!("no request"),
    }
    assert!(matches!(get_sntp_time(SntpEvent::Sent), SntpAction::Receive));
    let response = response(2_208_988_801, 0);
    assert!(matches!(
        get_sntp_time(SntpEvent::Received { response: &response, len: 48 }),
        SntpAction::Finish(Ok((1, 0)))
    ));
    assert!(matches!(
        get_sntp_time(SntpEvent::Received { response: &response, len: 0 }),
        SntpAction::Finish(Err(Error::SystemError("Incomplete NTP response")))
    ));
}

#[test]
fn time_failures_are_configuration_errors() {
    for event in [
        SntpEvent::ResolveFailed,
        SntpEvent::Resolved(&[]),
        SntpEvent::Resolved(&[IpAddress::Other]),
        SntpEvent::SendFailed,
        SntpEvent::ReceiveFailed,
    ] {
        assert!(matches!(
            get_sntp_time(event),
            SntpAction::Finish(Err(Error::ConfigError("")))
        ));
    }
}

#[test]
fn clock_is_set_from_the_answer() {
    match run_ntp_sync(NtpSyncEvent::Time(Ok((1_709_210_096, 250))), 77) {
        NtpSyncAction::Store { date, capture } => {
            assert_eq!(
                capture,
                DateTimeCapture {
                    captured_at: 77,
                    captured_secs: 1_709_210_096,
                    captured_millis: 250,
                }
            );
            assert_eq!(capture.date_time_at(77), date);
            assert_eq!((date.year, date.month, date.day), (2024, 2, 29));
        }
        _ => panic!("nothing stored"),
    }
    assert!(matches!(run_ntp_sync(NtpSyncEvent::Stored(true), 0), NtpSyncAction::SetValid(true)));
    assert!(matches!(run_ntp_sync(NtpSyncEvent::Stored(false), 0), NtpSyncAction::SetValid(false)));
    assert!(matches!(
        run_ntp_sync(NtpSyncEvent::Time(Err(Error::ConfigError(""))), 0),
        NtpSyncAction::SetValid(false)
    ));
}

#[test]
fn address_is_acquired() {
    assert!(matches!(run_dhcp_client(None), DhcpAction::Retry(500_000)));
    let config = AssignedConfig {
        address: [10, 0, 0, 2],
        prefix_len: 24,
        gateway: Some([10, 0, 0, 1]),
    };
    match run_dhcp_client(Some(config)) {
        DhcpAction::Acquired(info) => {
            assert_eq!(info.local_address, [10, 0, 0, 2]);
            assert_eq!(info.prefix_len, 24);
            assert_eq!(info.gateway_address, [10, 0, 0, 1]);
        }
        _ => panic!("no address"),
    }
}
