//! Addresses.

use vstd::prelude::*;
use vstd::string::StringSliceAdditionalSpecFns;

verus! {

/// An address that a name resolves to.
#[derive(Debug, Clone, Copy)]
pub enum IpAddress {
    /// An IPv4 address.
    Ipv4([u8; 4]),
    /// An address of another kind.
    Other,
}

/// Whether `found` is the first IPv4 address in the list.
pub open spec fn is_first_ipv4(found: Option<[u8; 4]>, addresses: Seq<IpAddress>) -> bool {
    match found {
        Some(address) => exists|i: int|
            0 <= i < addresses.len() && (#[trigger] addresses[i] matches IpAddress::Ipv4(octets)
                && octets@ == address@) && forall|j: int|
                0 <= j < i ==> #[trigger] addresses[j] is Other,
        None => forall|j: int| 0 <= j < addresses.len() ==> #[trigger] addresses[j] is Other,
    }
}

/// Finds the first IPv4 address in a list.
pub fn first_ipv4(addresses: &[IpAddress]) -> (found: Option<[u8; 4]>)
    ensures
        is_first_ipv4(found, addresses@),
{
    for i in 0..addresses.len()
        invariant
            forall|j: int| 0 <= j < i ==> #[trigger] addresses@[j] is Other,
    {
        if let IpAddress::Ipv4(octets) = addresses[i] {
            assert(addresses@[i as int] matches IpAddress::Ipv4(o) && o@ == octets@);
            return Some(octets);
        }
    }
    None
}

/// Whether a byte is a decimal digit.
pub open spec fn is_digit(byte: u8) -> bool {
    0x30 <= byte <= 0x39
}

/// A decimal number without leading zeros.
pub open spec fn octet_text(octet: u8) -> Seq<u8> {
    if octet < 10 {
        seq![(0x30 + octet) as u8]
    } else if octet < 100 {
        seq![(0x30 + octet / 10) as u8, (0x30 + octet % 10) as u8]
    } else {
        seq![
            (0x30 + octet / 100) as u8,
            (0x30 + octet / 10 % 10) as u8,
            (0x30 + octet % 10) as u8,
        ]
    }
}

/// The text of an IPv4 address: its four octets with dots between them.
pub open spec fn address_text(address: Seq<u8>) -> Seq<u8> {
    octet_text(address[0]) + seq![0x2Eu8] + octet_text(address[1]) + seq![0x2Eu8] + octet_text(
        address[2],
    ) + seq![0x2Eu8] + octet_text(address[3])
}

/// Whether the digits from `pos` up to `end`, and no more digits, are those of `octet`.
spec fn octet_at(bytes: Seq<u8>, pos: int, octet: u8, end: int) -> bool {
    &&& 0 <= pos < end <= bytes.len()
    &&& bytes.subrange(pos, end) == octet_text(octet)
    &&& end < bytes.len() ==> !is_digit(bytes[end])
}

/// Whether there is a dot at `pos`, and behind it the digits of `octet` up to `end`.
spec fn dot_octet_at(bytes: Seq<u8>, pos: int, octet: u8, end: int) -> bool {
    &&& pos < bytes.len()
    &&& bytes[pos] == 0x2E
    &&& octet_at(bytes, pos + 1, octet, end)
}

proof fn octet_text_digits(octet: u8)
    ensures
        1 <= octet_text(octet).len() <= 3,
        forall|i: int|
            0 <= i < octet_text(octet).len() ==> is_digit(#[trigger] octet_text(octet)[i]),
        octet_text(octet).len() > 1 ==> octet_text(octet)[0] != 0x30,
{
}

proof fn octet_text_injective(one: u8, other: u8)
    requires
        octet_text(one) == octet_text(other),
    ensures
        one == other,
{
    let text = octet_text(one);
    if text.len() == 1 {
        assert(text[0] == 0x30 + one && text[0] == 0x30 + other);
    } else if text.len() == 2 {
        assert(text[0] == 0x30 + one / 10 && text[0] == 0x30 + other / 10);
        assert(text[1] == 0x30 + one % 10 && text[1] == 0x30 + other % 10);
    } else {
        assert(text[0] == 0x30 + one / 100 && text[0] == 0x30 + other / 100);
        assert(text[1] == 0x30 + one / 10 % 10 && text[1] == 0x30 + other / 10 % 10);
        assert(text[2] == 0x30 + one % 10 && text[2] == 0x30 + other % 10);
    }
}

proof fn octet_at_digits(bytes: Seq<u8>, pos: int, octet: u8, end: int)
    requires
        octet_at(bytes, pos, octet, end),
    ensures
        forall|i: int| pos <= i < end ==> is_digit(#[trigger] bytes[i]),
        1 <= end - pos <= 3,
{
    octet_text_digits(octet);
    assert forall|i: int| pos <= i < end implies is_digit(#[trigger] bytes[i]) by {
        assert(bytes[i] == bytes.subrange(pos, end)[i - pos]);
        assert(is_digit(octet_text(octet)[i - pos]));
    }
}

proof fn octet_at_unique(bytes: Seq<u8>, pos: int, one: u8, one_end: int, other: u8, other_end: int)
    requires
        octet_at(bytes, pos, one, one_end),
        octet_at(bytes, pos, other, other_end),
    ensures
        one == other,
        one_end == other_end,
{
    octet_at_digits(bytes, pos, one, one_end);
    octet_at_digits(bytes, pos, other, other_end);
    if one_end < other_end {
        assert(is_digit(bytes[one_end]));
    }
    if other_end < one_end {
        assert(is_digit(bytes[other_end]));
    }
    octet_text_injective(one, other);
}

/// Where the octets of an address are in its text.
proof fn address_text_parts(bytes: Seq<u8>, address: Seq<u8>)
    requires
        address.len() == 4,
        bytes == address_text(address),
    ensures
        ({
            let end0 = octet_text(address[0]).len() as int;
            let end1 = end0 + 1 + octet_text(address[1]).len();
            let end2 = end1 + 1 + octet_text(address[2]).len();
            let end3 = end2 + 1 + octet_text(address[3]).len();
            &&& octet_at(bytes, 0, address[0], end0)
            &&& bytes[end0] == 0x2E
            &&& octet_at(bytes, end0 + 1, address[1], end1)
            &&& bytes[end1] == 0x2E
            &&& octet_at(bytes, end1 + 1, address[2], end2)
            &&& bytes[end2] == 0x2E
            &&& octet_at(bytes, end2 + 1, address[3], end3)
            &&& end3 == bytes.len()
        }),
{
    octet_text_digits(address[0]);
    octet_text_digits(address[1]);
    octet_text_digits(address[2]);
    octet_text_digits(address[3]);
    let end0 = octet_text(address[0]).len() as int;
    let end1 = end0 + 1 + octet_text(address[1]).len();
    let end2 = end1 + 1 + octet_text(address[2]).len();
    let end3 = end2 + 1 + octet_text(address[3]).len();
    assert(bytes.subrange(0, end0) == octet_text(address[0]));
    assert(bytes.subrange(end0 + 1, end1) == octet_text(address[1]));
    assert(bytes.subrange(end1 + 1, end2) == octet_text(address[2]));
    assert(bytes.subrange(end2 + 1, end3) == octet_text(address[3]));
}

/// The text made up of four octets and three dots.
proof fn address_text_from_parts(
    bytes: Seq<u8>,
    address: Seq<u8>,
    end0: int,
    end1: int,
    end2: int,
)
    requires
        address.len() == 4,
        octet_at(bytes, 0, address[0], end0),
        end0 < bytes.len() && bytes[end0] == 0x2E,
        octet_at(bytes, end0 + 1, address[1], end1),
        end1 < bytes.len() && bytes[end1] == 0x2E,
        octet_at(bytes, end1 + 1, address[2], end2),
        end2 < bytes.len() && bytes[end2] == 0x2E,
        octet_at(bytes, end2 + 1, address[3], bytes.len() as int),
    ensures
        bytes == address_text(address),
{
    let text = bytes.subrange(0, end0) + seq![0x2Eu8] + bytes.subrange(end0 + 1, end1) + seq![
        0x2Eu8,
    ] + bytes.subrange(end1 + 1, end2) + seq![0x2Eu8] + bytes.subrange(
        end2 + 1,
        bytes.len() as int,
    );
    assert(bytes == text);
}

/// Reads the octet whose digits begin at `pos`.
fn parse_octet(bytes: &[u8], pos: usize) -> (parsed: Option<(u8, usize)>)
    requires
        pos <= bytes@.len(),
    ensures
        match parsed {
            Some((octet, end)) => octet_at(bytes@, pos as int, octet, end as int),
            None => forall|octet: u8, end: int| !octet_at(bytes@, pos as int, octet, end),
        },
{
    let mut end: usize = pos;
    while end < bytes.len() && end - pos < 4 && 0x30 <= bytes[end] && bytes[end] <= 0x39
        invariant
            pos <= end <= bytes@.len(),
            end - pos <= 4,
            forall|i: int| pos <= i < end ==> is_digit(#[trigger] bytes@[i]),
        decreases bytes@.len() - end,
    {
        end = end + 1;
    }
    let count: usize = end - pos;
    proof {
        assert forall|octet: u8, other_end: int|
            octet_at(bytes@, pos as int, octet, other_end) implies other_end == end by {
            octet_at_digits(bytes@, pos as int, octet, other_end);
            if other_end < end {
                assert(is_digit(bytes@[other_end]));
            }
            if end < other_end {
                assert(is_digit(bytes@[end as int]));
            }
        }
    }
    let ghost text = bytes@.subrange(pos as int, end as int);
    let octet: u8 = if count == 1 {
        let octet: u8 = bytes[pos] - 0x30;
        assert(text == octet_text(octet));
        octet
    } else if count == 2 && bytes[pos] != 0x30 {
        let octet: u8 = (bytes[pos] - 0x30) * 10 + (bytes[pos + 1] - 0x30);
        assert(text == octet_text(octet));
        octet
    } else if count == 3 && bytes[pos] != 0x30 {
        let value: u16 = (bytes[pos] - 0x30) as u16 * 100 + (bytes[pos + 1] - 0x30) as u16 * 10 + (
        bytes[pos + 2] - 0x30) as u16;
        if value > 255 {
            proof {
                assert forall|octet: u8, other_end: int|
                    !octet_at(bytes@, pos as int, octet, other_end) by {
                    if octet_at(bytes@, pos as int, octet, other_end) {
                        assert(text == octet_text(octet));
                        assert(text[0] == bytes@[pos as int]);
                        assert(text[1] == bytes@[pos + 1]);
                        assert(text[2] == bytes@[pos + 2]);
                        assert(octet == octet / 100 * 100 + octet / 10 % 10 * 10 + octet % 10);
                    }
                }
            }
            return None;
        }
        assert(text[0] == bytes@[pos as int]);
        assert(text[1] == bytes@[pos + 1]);
        assert(text[2] == bytes@[pos + 2]);
        assert(text == octet_text(value as u8));
        value as u8
    } else {
        proof {
            assert forall|octet: u8, other_end: int|
                !octet_at(bytes@, pos as int, octet, other_end) by {
                if octet_at(bytes@, pos as int, octet, other_end) {
                    octet_text_digits(octet);
                    assert(other_end == end);
                    assert(text == octet_text(octet));
                    assert(count == text.len());
                    assert(text[0] == bytes@[pos as int]);
                }
            }
        }
        return None;
    };
    Some((octet, end))
}

/// Reads a dot and the octet behind it.
fn parse_dot_octet(bytes: &[u8], pos: usize) -> (parsed: Option<(u8, usize)>)
    requires
        pos <= bytes@.len(),
    ensures
        match parsed {
            Some((octet, end)) => dot_octet_at(bytes@, pos as int, octet, end as int),
            None => forall|octet: u8, end: int| !dot_octet_at(bytes@, pos as int, octet, end),
        },
{
    if pos < bytes.len() && bytes[pos] == 0x2E {
        let parsed = parse_octet(bytes, pos + 1);
        assert(parsed is None ==> forall|octet: u8, end: int|
            !dot_octet_at(bytes@, pos as int, octet, end)) by {
            assert forall|octet: u8, end: int| parsed is None implies !dot_octet_at(
                bytes@,
                pos as int,
                octet,
                end,
            ) by {
                assert(!octet_at(bytes@, (pos + 1) as usize as int, octet, end));
            }
        }
        parsed
    } else {
        None
    }
}

/// Reads the text of an IPv4 address.
fn parse_address(bytes: &[u8]) -> (parsed: Option<[u8; 4]>)
    ensures
        match parsed {
            Some(address) => bytes@ == address_text(address@),
            None => forall|address: Seq<u8>|
                address.len() == 4 ==> bytes@ != #[trigger] address_text(address),
        },
{
    proof {
        assert forall|address: Seq<u8>|
            address.len() == 4 && bytes@ == #[trigger] address_text(address) implies octet_at(
            bytes@,
            0,
            address[0],
            octet_text(address[0]).len() as int,
        ) by {
            address_text_parts(bytes@, address);
        }
    }
    let (octet0, end0) = match parse_octet(bytes, 0) {
        Some(parsed) => parsed,
        None => { return None; },
    };
    proof {
        assert forall|address: Seq<u8>|
            address.len() == 4 && bytes@ == #[trigger] address_text(address) implies end0
            == octet_text(address[0]).len() && dot_octet_at(
            bytes@,
            end0 as int,
            address[1],
            end0 + 1 + octet_text(address[1]).len(),
        ) by {
            address_text_parts(bytes@, address);
            octet_at_unique(
                bytes@,
                0,
                octet0,
                end0 as int,
                address[0],
                octet_text(address[0]).len() as int,
            );
        }
    }
    let (octet1, end1) = match parse_dot_octet(bytes, end0) {
        Some(parsed) => parsed,
        None => { return None; },
    };
    proof {
        assert forall|address: Seq<u8>|
            address.len() == 4 && bytes@ == #[trigger] address_text(address) implies end1 == end0
            + 1 + octet_text(address[1]).len() && dot_octet_at(
            bytes@,
            end1 as int,
            address[2],
            end1 + 1 + octet_text(address[2]).len(),
        ) by {
            address_text_parts(bytes@, address);
            octet_at_unique(
                bytes@,
                end0 + 1,
                octet1,
                end1 as int,
                address[1],
                end0 + 1 + octet_text(address[1]).len(),
            );
        }
    }
    let (octet2, end2) = match parse_dot_octet(bytes, end1) {
        Some(parsed) => parsed,
        None => { return None; },
    };
    proof {
        assert forall|address: Seq<u8>|
            address.len() == 4 && bytes@ == #[trigger] address_text(address) implies end2 == end1
            + 1 + octet_text(address[2]).len() && dot_octet_at(
            bytes@,
            end2 as int,
            address[3],
            bytes@.len() as int,
        ) by {
            address_text_parts(bytes@, address);
            octet_at_unique(
                bytes@,
                end1 + 1,
                octet2,
                end2 as int,
                address[2],
                end1 + 1 + octet_text(address[2]).len(),
            );
        }
    }
    let (octet3, end3) = match parse_dot_octet(bytes, end2) {
        Some(parsed) => parsed,
        None => { return None; },
    };
    if end3 != bytes.len() {
        proof {
            assert forall|address: Seq<u8>| address.len() == 4 implies bytes@
                != #[trigger] address_text(address) by {
                if bytes@ == address_text(address) {
                    octet_at_unique(
                        bytes@,
                        end2 + 1,
                        octet3,
                        end3 as int,
                        address[3],
                        bytes@.len() as int,
                    );
                }
            }
        }
        return None;
    }
    let address: [u8; 4] = [octet0, octet1, octet2, octet3];
    proof {
        address_text_from_parts(bytes@, address@, end0 as int, end1 as int, end2 as int);
    }
    Some(address)
}

/// Whether a string is the text of an IPv4 address.
pub open spec fn is_address_text(text: &str) -> bool {
    exists|address: [u8; 4]| text.spec_bytes() == #[trigger] address_text(address@)
}

/// Reads the text of an IPv4 address: four decimal numbers up to 255, without leading
/// zeros, with dots between them and nothing else.
pub fn parse_ipv4(text: &str) -> (parsed: Option<[u8; 4]>)
    ensures
        parsed is Some <==> is_address_text(text),
        parsed matches Some(address) ==> text.spec_bytes() == address_text(address@),
{
    parse_address(text.as_bytes())
}

/// An address text is the text of one address.
pub proof fn address_text_injective(one: Seq<u8>, other: Seq<u8>)
    requires
        one.len() == 4,
        other.len() == 4,
        address_text(one) == address_text(other),
    ensures
        one == other,
{
    let bytes = address_text(one);
    address_text_parts(bytes, one);
    address_text_parts(bytes, other);
    let end0 = octet_text(one[0]).len() as int;
    octet_at_unique(bytes, 0, one[0], end0, other[0], octet_text(other[0]).len() as int);
    let end1 = end0 + 1 + octet_text(one[1]).len();
    octet_at_unique(
        bytes,
        end0 + 1,
        one[1],
        end1,
        other[1],
        end0 + 1 + octet_text(other[1]).len(),
    );
    let end2 = end1 + 1 + octet_text(one[2]).len();
    octet_at_unique(
        bytes,
        end1 + 1,
        one[2],
        end2,
        other[2],
        end1 + 1 + octet_text(other[2]).len(),
    );
    octet_at_unique(
        bytes,
        end2 + 1,
        one[3],
        bytes.len() as int,
        other[3],
        bytes.len() as int,
    );
    assert(one == other);
}

/// An octet is written in decimal, without leading zeros.
pub proof fn octet_text_decimal(octet: u8)
    ensures
        ({
            let text = octet_text(octet);
            ||| text.len() == 1 && text[0] == 0x30 + octet && octet < 10
            ||| text.len() == 2 && 0x31 <= text[0] <= 0x39 && 0x30 <= text[1] <= 0x39 && (text[0]
                - 0x30) * 10 + (text[1] - 0x30) == octet
            ||| text.len() == 3 && 0x31 <= text[0] <= 0x39 && 0x30 <= text[1] <= 0x39 && 0x30
                <= text[2] <= 0x39 && (text[0] - 0x30) * 100 + (text[1] - 0x30) * 10 + (text[2]
                - 0x30) == octet
        }),
{
    assert(octet / 10 % 10 == octet / 10 - octet / 100 * 10);
}

/// An address is written with its octets in order, and a dot between two of them.
pub proof fn address_text_octets(address: Seq<u8>)
    requires
        address.len() == 4,
    ensures
        ({
            let text = address_text(address);
            let end0 = octet_text(address[0]).len() as int;
            let end1 = end0 + 1 + octet_text(address[1]).len();
            let end2 = end1 + 1 + octet_text(address[2]).len();
            let end3 = end2 + 1 + octet_text(address[3]).len();
            &&& text.subrange(0, end0) == octet_text(address[0])
            &&& text[end0] == 0x2E
            &&& text.subrange(end0 + 1, end1) == octet_text(address[1])
            &&& text[end1] == 0x2E
            &&& text.subrange(end1 + 1, end2) == octet_text(address[2])
            &&& text[end2] == 0x2E
            &&& text.subrange(end2 + 1, end3) == octet_text(address[3])
            &&& text.len() == end3
        }),
{
    address_text_parts(address_text(address), address);
}

/// Addresses of other kinds in front do not matter, nor what follows the first IPv4 address.
pub proof fn first_ipv4_skips_others(
    others: Seq<IpAddress>,
    address: [u8; 4],
    rest: Seq<IpAddress>,
    found: Option<[u8; 4]>,
)
    requires
        forall|i: int| 0 <= i < others.len() ==> #[trigger] others[i] is Other,
        is_first_ipv4(found, others + seq![IpAddress::Ipv4(address)] + rest),
    ensures
        found matches Some(server) && server@ == address@,
{
    let all = others + seq![IpAddress::Ipv4(address)] + rest;
    assert(all[others.len() as int] == IpAddress::Ipv4(address));
    assert forall|i: int| 0 <= i < others.len() implies #[trigger] all[i] is Other by {
        assert(all[i] == others[i]);
    }
    if let Some(server) = found {
        let i = choose|i: int|
            0 <= i < all.len() && (#[trigger] all[i] matches IpAddress::Ipv4(octets) && octets@
                == server@) && forall|j: int| 0 <= j < i ==> #[trigger] all[j] is Other;
        if i > others.len() {
            assert(all[others.len() as int] is Other);
        }
        assert(i == others.len());
    }
}

/// Nothing is found exactly among addresses of other kinds.
pub proof fn no_ipv4_among_others(addresses: Seq<IpAddress>, found: Option<[u8; 4]>)
    requires
        is_first_ipv4(found, addresses),
    ensures
        found is None <==> forall|i: int|
            0 <= i < addresses.len() ==> #[trigger] addresses[i] is Other,
{
    if let Some(server) = found {
        let i = choose|i: int|
            0 <= i < addresses.len() && (#[trigger] addresses[i] matches IpAddress::Ipv4(octets)
                && octets@ == server@) && forall|j: int|
                0 <= j < i ==> #[trigger] addresses[j] is Other;
        assert(!(addresses[i] is Other));
    }
}

/// Every address has a text that is read as that address, and what is read is an address.
pub proof fn every_address_is_read(text: &str, address: [u8; 4], parsed: Option<[u8; 4]>)
    requires
        parsed is Some <==> is_address_text(text),
        parsed matches Some(read) ==> text.spec_bytes() == address_text(read@),
    ensures
        text.spec_bytes() == address_text(address@) ==> parsed is Some && parsed->0@ == address@,
        parsed is Some ==> exists|read: [u8; 4]|
            text.spec_bytes() == #[trigger] address_text(read@),
{
    if text.spec_bytes() == address_text(address@) {
        assert(is_address_text(text));
        address_text_injective(parsed->0@, address@);
    }
}

} // verus!
