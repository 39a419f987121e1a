//! Time from a time server.

use crate::bytes::{be32, read_be32};
use crate::error::Error;
use crate::net::{first_ipv4, is_first_ipv4, IpAddress};
use crate::time::{unix_to_date_time, DateTime, DateTimeCapture};
use vstd::prelude::*;

verus! {

/// Seconds from the start of 1900, where NTP time begins, to the start of 1970.
pub const NTP_UNIX_OFFSET: u32 = 2_208_988_800;

/// The name of the time server.
pub const NTP_SERVER: &'static str = "pool.ntp.org";

/// The port of the time server.
pub const NTP_PORT: u16 = 123;

/// Length of a request and of a response.
pub const SNTP_LEN: usize = 48;

/// The seconds at which a response was sent, in NTP time.
pub open spec fn transmit_secs(response: Seq<u8>) -> u32 {
    be32(response[40], response[41], response[42], response[43])
}

/// The fraction of a second at which a response was sent, in units of 2^-32 seconds.
pub open spec fn transmit_fraction(response: Seq<u8>) -> u32 {
    be32(response[44], response[45], response[46], response[47])
}

/// A fraction of a second, in units of 2^-32 seconds, in whole milliseconds.
pub open spec fn fraction_millis(fraction: u32) -> u64 {
    (fraction as int * 1000 / 0x1_0000_0000) as u64
}

/// The request to a time server: version 4, mode 3, and nothing else.
pub open spec fn sntp_request_bytes() -> Seq<u8> {
    Seq::new(
        SNTP_LEN as nat,
        |i: int|
            if i == 0 {
                0x23u8
            } else {
                0u8
            },
    )
}

/// Builds the request to a time server.
pub fn sntp_request() -> (request: [u8; 48])
    ensures
        request@ == sntp_request_bytes(),
{
    let mut request: [u8; 48] = [0u8; 48];
    request[0] = 0x23;
    assert(request@ == sntp_request_bytes());
    request
}

/// What a response of `len` bytes in the buffer `response` tells: the UNIX time in seconds
/// and milliseconds, or an error if it is incomplete.
pub open spec fn response_time(response: Seq<u8>, len: int) -> Result<(u32, u64), Error> {
    if len < SNTP_LEN {
        Err(Error::SystemError("Incomplete NTP response"))
    } else {
        Ok(
            (
                (transmit_secs(response) - NTP_UNIX_OFFSET) as u32,
                fraction_millis(transmit_fraction(response)),
            ),
        )
    }
}

/// Whether the time in a response of `len` bytes is not before the start of 1970.
pub open spec fn since_1970(response: Seq<u8>, len: int) -> bool {
    len >= SNTP_LEN ==> transmit_secs(response) >= NTP_UNIX_OFFSET
}

/// Tells whether the time in a response is not before the start of 1970.
pub fn is_since_1970(response: &[u8; 48], len: usize) -> (since: bool)
    ensures
        since == since_1970(response@, len as int),
{
    len < SNTP_LEN || read_be32(response[40], response[41], response[42], response[43])
        >= NTP_UNIX_OFFSET
}

/// Reads the time in a response.
pub fn parse_sntp_response(response: &[u8; 48], len: usize) -> (time: Result<(u32, u64), Error>)
    requires
        since_1970(response@, len as int),
    ensures
        time == response_time(response@, len as int),
        time matches Ok((_, millis)) ==> millis < 1000,
{
    if len < SNTP_LEN {
        return Err(Error::SystemError("Incomplete NTP response"));
    }
    let secs = read_be32(response[40], response[41], response[42], response[43]);
    let fraction = read_be32(response[44], response[45], response[46], response[47]);
    let unix_secs: u32 = secs - NTP_UNIX_OFFSET;
    let millis: u64 = fraction as u64 * 1000 / 0x1_0000_0000;
    Ok((unix_secs, millis))
}

/// What can happen while the time is being asked for.
pub enum SntpEvent<'a> {
    /// The name of the server could not be resolved.
    ResolveFailed,
    /// The name of the server was resolved.
    Resolved(&'a [IpAddress]),
    /// The request could not be sent.
    SendFailed,
    /// The request was sent.
    Sent,
    /// No response could be received.
    ReceiveFailed,
    /// A response of `len` bytes was received into the buffer.
    Received { response: &'a [u8; 48], len: usize },
}

/// What is to be done next to get the time.
pub enum SntpAction {
    /// Send the request to the server at this address.
    Send { server: [u8; 4], request: [u8; 48] },
    /// Wait for the response.
    Receive,
    /// The time is known, or cannot be had.
    Finish(Result<(u32, u64), Error>),
}

/// Whether `action` is what follows on `event`.
pub open spec fn is_sntp_action(event: SntpEvent<'_>, action: SntpAction) -> bool {
    let failed = SntpAction::Finish(Err(Error::ConfigError("")));
    match event {
        SntpEvent::ResolveFailed => action == failed,
        SntpEvent::Resolved(addresses) => match action {
            SntpAction::Send { server, request } => is_first_ipv4(Some(server), addresses@)
                && request@ == sntp_request_bytes(),
            _ => is_first_ipv4(None, addresses@) && action == failed,
        },
        SntpEvent::SendFailed => action == failed,
        SntpEvent::Sent => action == SntpAction::Receive,
        SntpEvent::ReceiveFailed => action == failed,
        SntpEvent::Received { response, len } => action == SntpAction::Finish(
            response_time(response@, len as int),
        ),
    }
}

/// Asks a time server for the time, one step at a time. The first step, to resolve
/// [`NTP_SERVER`], is the caller's.
pub fn get_sntp_time(event: SntpEvent<'_>) -> (action: SntpAction)
    requires
        event matches SntpEvent::Received { response, len } ==> since_1970(
            response@,
            len as int,
        ),
    ensures
        is_sntp_action(event, action),
{
    match event {
        SntpEvent::ResolveFailed => SntpAction::Finish(Err(Error::ConfigError(""))),
        SntpEvent::Resolved(addresses) => match first_ipv4(addresses) {
            Some(server) => SntpAction::Send { server, request: sntp_request() },
            None => SntpAction::Finish(Err(Error::ConfigError(""))),
        },
        SntpEvent::SendFailed => SntpAction::Finish(Err(Error::ConfigError(""))),
        SntpEvent::Sent => SntpAction::Receive,
        SntpEvent::ReceiveFailed => SntpAction::Finish(Err(Error::ConfigError(""))),
        SntpEvent::Received { response, len } => SntpAction::Finish(
            parse_sntp_response(response, len),
        ),
    }
}

/// What can happen while the clock is being set.
pub enum NtpSyncEvent {
    /// The time server answered, or the time cannot be had.
    Time(Result<(u32, u64), Error>),
    /// The captured time was stored, or was not.
    Stored(bool),
}

/// What is to be done next to set the clock.
pub enum NtpSyncAction {
    /// Store the captured time; `date` is its date.
    Store { date: DateTime, capture: DateTimeCapture },
    /// Note whether a captured time is available.
    SetValid(bool),
}

/// Whether `action` is what follows on `event` at the instant `now`.
pub open spec fn is_ntp_sync_action(
    event: NtpSyncEvent,
    now: u64,
    action: NtpSyncAction,
) -> bool {
    match event {
        NtpSyncEvent::Time(Ok((secs, millis))) => action matches NtpSyncAction::Store {
            date,
            capture,
        } && date.denotes(secs as int, millis as int) && capture == (DateTimeCapture {
            captured_at: now,
            captured_secs: secs as u64,
            captured_millis: millis,
        }),
        NtpSyncEvent::Time(Err(_)) => action == NtpSyncAction::SetValid(false),
        NtpSyncEvent::Stored(stored) => action == NtpSyncAction::SetValid(stored),
    }
}

/// Sets the clock from a time server's answer, one step at a time.
pub fn run_ntp_sync(event: NtpSyncEvent, now: u64) -> (action: NtpSyncAction)
    ensures
        is_ntp_sync_action(event, now, action),
{
    match event {
        NtpSyncEvent::Time(Ok((secs, millis))) => {
            let (year, month, day, hour, minute, second, millisecond) = unix_to_date_time(
                secs as u64,
                millis,
            );
            NtpSyncAction::Store {
                date: DateTime { year, month, day, hour, minute, second, millisecond },
                capture: DateTimeCapture {
                    captured_at: now,
                    captured_secs: secs as u64,
                    captured_millis: millis,
                },
            }
        },
        NtpSyncEvent::Time(Err(_)) => NtpSyncAction::SetValid(false),
        NtpSyncEvent::Stored(stored) => NtpSyncAction::SetValid(stored),
    }
}

/// The time that a response tells, once captured, serves to date packets: at the instant of
/// its capture it is the date that the response tells.
pub proof fn response_becomes_date(
    response: Seq<u8>,
    len: int,
    now: u64,
    action: NtpSyncAction,
)
    requires
        len >= SNTP_LEN,
        since_1970(response, len),
        is_ntp_sync_action(NtpSyncEvent::Time(response_time(response, len)), now, action),
    ensures
        action matches NtpSyncAction::Store { date, capture } && capture.wf() && date.denotes(
            capture.secs_at(now),
            capture.millis_at(now) % 1000,
        ) && capture.secs_at(now) == transmit_secs(response) - NTP_UNIX_OFFSET,
{
}

/// A whole response tells the UNIX time of its transmit timestamp: the seconds since 1900 in
/// bytes 40 to 43 lie 70 years, 17 of them leap years, behind, and the milliseconds are those
/// that are over of the second's fraction in bytes 44 to 47.
pub proof fn response_tells_transmit_time(response: Seq<u8>, len: int)
    requires
        since_1970(response, len),
    ensures
        len < 48 <==> response_time(response, len) is Err,
        len < 48 ==> response_time(response, len) == Err::<(u32, u64), Error>(
            Error::SystemError("Incomplete NTP response"),
        ),
        response_time(response, len) matches Ok((secs, millis)) ==> ({
            let fraction = response[44] * 0x100_0000 + response[45] * 0x1_0000 + response[46]
                * 0x100 + response[47];
            &&& secs + (70 * 365 + 17) * 86_400 == response[40] * 0x100_0000 + response[41]
                * 0x1_0000 + response[42] * 0x100 + response[43]
            &&& millis * 0x1_0000_0000 <= fraction * 1000 < (millis + 1) * 0x1_0000_0000
            &&& millis < 1000
        }),
{
}

/// Time can be told from a response exactly where it is incomplete, which is an error, or was
/// sent since the start of 1970.
pub proof fn response_since_1970(response: Seq<u8>, len: int)
    ensures
        since_1970(response, len) <==> len < 48 || response[40] * 0x100_0000 + response[41]
            * 0x1_0000 + response[42] * 0x100 + response[43] >= 2_208_988_800,
{
}

/// A request asks for the time: version 4 in client mode, and zeros.
pub proof fn request_asks_for_time(request: Seq<u8>, i: int)
    requires
        request == sntp_request_bytes(),
        1 <= i < request.len(),
    ensures
        request.len() == 48,
        request[0] / 8 % 8 == 4 && request[0] % 8 == 3 && request[0] / 64 == 0,
        request[i] == 0,
{
}

/// Every step that fails ends the query with a configuration error; a request that was sent
/// is followed by waiting for the response, and a response ends the query with what it tells.
pub proof fn time_query_steps(event: SntpEvent<'_>, action: SntpAction)
    requires
        is_sntp_action(event, action),
    ensures
        event is ResolveFailed || event is SendFailed || event is ReceiveFailed ==> action
            == SntpAction::Finish(Err(Error::ConfigError(""))),
        event is Sent ==> action is Receive,
        event matches SntpEvent::Received { response, len } ==> action == SntpAction::Finish(
            response_time(response@, len as int),
        ),
        event matches SntpEvent::Resolved(addresses) ==> match action {
            SntpAction::Send { server, request } => is_first_ipv4(Some(server), addresses@)
                && request@ == sntp_request_bytes(),
            SntpAction::Receive => false,
            SntpAction::Finish(result) => is_first_ipv4(None, addresses@) && result == Err::<
                (u32, u64),
                Error,
            >(Error::ConfigError("")),
        },
{
}

/// The clock is set to the time that was told, at the instant at which it was told; it is
/// available exactly where it was told and stored.
pub proof fn clock_set_as_told(event: NtpSyncEvent, now: u64, action: NtpSyncAction)
    requires
        is_ntp_sync_action(event, now, action),
    ensures
        event matches NtpSyncEvent::Time(Ok((secs, millis))) ==> action is Store
            && action->capture.captured_at == now && action->capture.captured_secs == secs
            && action->capture.captured_millis == millis && action->date.denotes(
            secs as int,
            millis as int,
        ),
        event matches NtpSyncEvent::Time(Err(_)) ==> action == NtpSyncAction::SetValid(false),
        event matches NtpSyncEvent::Stored(stored) ==> action == NtpSyncAction::SetValid(stored),
{
}

} // verus!
