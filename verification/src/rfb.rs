//! Protocol-level enumerations and parsers: the protocol version line, the
//! security-type wire codes, and the security selection policy.

use vstd::prelude::*;

verus! {

/// A negotiated security scheme. `NoAuth` is the trivial scheme, `VncAuth` the
/// legacy challenge-response scheme; `Invalid` stands for "no usable scheme".
#[derive(Clone, Copy, Debug, PartialEq, Eq, Structural)]
pub enum SecurityType {
    Invalid,
    NoAuth,
    VncAuth,
}

/// The 1-byte wire code of each security type.
pub open spec fn spec_security_type_code(t: SecurityType) -> u8 {
    match t {
        SecurityType::Invalid => 0,
        SecurityType::NoAuth => 1,
        SecurityType::VncAuth => 2,
    }
}

/// The 1-byte wire code of a security type.
pub fn security_type_code(t: SecurityType) -> (c: u8)
    ensures
        c == spec_security_type_code(t),
{
    match t {
        SecurityType::Invalid => 0,
        SecurityType::NoAuth => 1,
        SecurityType::VncAuth => 2,
    }
}

/// The security type a wire code stands for; unrecognized codes map to
/// `Invalid` rather than silently matching a scheme.
pub open spec fn spec_security_type_from_code(c: u8) -> SecurityType {
    if c == 1 {
        SecurityType::NoAuth
    } else if c == 2 {
        SecurityType::VncAuth
    } else {
        SecurityType::Invalid
    }
}

/// The security type a wire code stands for.
pub fn security_type_from_code(c: u8) -> (t: SecurityType)
    ensures
        t == spec_security_type_from_code(c),
{
    if c == 1 {
        SecurityType::NoAuth
    } else if c == 2 {
        SecurityType::VncAuth
    } else {
        SecurityType::Invalid
    }
}

/// A parsed protocol version line.
#[derive(Clone, Copy, Debug, PartialEq, Eq, Structural)]
pub enum RfbVersion {
    Rfb33,
    Rfb37,
    Rfb38,
    Unsupported,
}

pub open spec fn spec_is_ascii_digit(b: u8) -> bool {
    48 <= b <= 57
}

/// A well-formed version line: exactly 12 bytes reading
/// `"RFB "`, three digits, `'.'`, three digits.
pub open spec fn spec_version_shape_ok(data: Seq<u8>) -> bool {
    &&& data.len() == 12
    &&& data[0] == 82u8
    &&& data[1] == 70u8
    &&& data[2] == 66u8
    &&& data[3] == 32u8
    &&& spec_is_ascii_digit(data[4])
    &&& spec_is_ascii_digit(data[5])
    &&& spec_is_ascii_digit(data[6])
    &&& data[7] == 46u8
    &&& spec_is_ascii_digit(data[8])
    &&& spec_is_ascii_digit(data[9])
    &&& spec_is_ascii_digit(data[10])
}

/// The three-digit decimal number starting at byte `i`.
pub open spec fn spec_version_number(data: Seq<u8>, i: int) -> int {
    (data[i] - 48) * 100 + (data[i + 1] - 48) * 10 + (data[i + 2] - 48)
}

/// What a 12-byte version line parses to: a malformed line is `Unsupported`
/// without further interpretation; a well-formed one is recognized only for
/// the three known major/minor pairs.
pub open spec fn spec_parse_version(data: Seq<u8>) -> RfbVersion {
    if !spec_version_shape_ok(data) {
        RfbVersion::Unsupported
    } else {
        let major = spec_version_number(data, 4);
        let minor = spec_version_number(data, 8);
        if major == 3 && minor == 3 {
            RfbVersion::Rfb33
        } else if major == 3 && minor == 7 {
            RfbVersion::Rfb37
        } else if major == 3 && minor == 8 {
            RfbVersion::Rfb38
        } else {
            RfbVersion::Unsupported
        }
    }
}

/// The numeric value of an ASCII digit.
pub fn as_digit(ascii_char: u8) -> (d: u8)
    requires
        ascii_char >= 48,
    ensures
        d == ascii_char - 48,
{
    ascii_char - 48
}

fn is_ascii_digit_byte(b: u8) -> (r: bool)
    ensures
        r == spec_is_ascii_digit(b),
{
    48 <= b && b <= 57
}

/// Parse the 12-byte version line a peer offered.
pub fn parse_offered_version(data: &[u8]) -> (v: RfbVersion)
    ensures
        v == spec_parse_version(data@),
{
    if data.len() != 12 {
        return RfbVersion::Unsupported;
    }
    if !(data[0] == 82 && data[1] == 70 && data[2] == 66 && data[3] == 32) {
        return RfbVersion::Unsupported;
    }
    if !(is_ascii_digit_byte(data[4]) && is_ascii_digit_byte(data[5]) && is_ascii_digit_byte(
        data[6],
    )) {
        return RfbVersion::Unsupported;
    }
    if data[7] != 46 {
        return RfbVersion::Unsupported;
    }
    if !(is_ascii_digit_byte(data[8]) && is_ascii_digit_byte(data[9]) && is_ascii_digit_byte(
        data[10],
    )) {
        return RfbVersion::Unsupported;
    }

    let major: u32 = as_digit(data[4]) as u32 * 100 + as_digit(data[5]) as u32 * 10 + as_digit(
        data[6],
    ) as u32;
    let minor: u32 = as_digit(data[8]) as u32 * 100 + as_digit(data[9]) as u32 * 10 + as_digit(
        data[10],
    ) as u32;
    match (major, minor) {
        (3, 3) => RfbVersion::Rfb33,
        (3, 7) => RfbVersion::Rfb37,
        (3, 8) => RfbVersion::Rfb38,
        _ => RfbVersion::Unsupported,
    }
}

/// The selection policy over the set of offered type codes: `NoAuth` whenever
/// its code is offered at all, otherwise `VncAuth` if offered, otherwise
/// `Invalid`. The order of appearance never matters.
pub open spec fn spec_select_security(offered: Seq<u8>) -> SecurityType {
    if offered.contains(spec_security_type_code(SecurityType::NoAuth)) {
        SecurityType::NoAuth
    } else if offered.contains(spec_security_type_code(SecurityType::VncAuth)) {
        SecurityType::VncAuth
    } else {
        SecurityType::Invalid
    }
}

/// Select a security type from the offered list, folding left with the
/// fixed precedence.
pub fn select_security_type(offered: &[u8]) -> (t: SecurityType)
    ensures
        t == spec_select_security(offered@),
{
    let mut acc = SecurityType::Invalid;
    for idx in 0..offered.len()
        invariant
            (acc == SecurityType::NoAuth) <==> (exists|t: int|
                0 <= t < idx && offered@[t] == 1u8),
            (acc == SecurityType::VncAuth) <==> (!(exists|t: int|
                0 <= t < idx && offered@[t] == 1u8) && (exists|t: int|
                0 <= t < idx && offered@[t] == 2u8)),
            (acc == SecurityType::Invalid) <==> (!(exists|t: int|
                0 <= t < idx && offered@[t] == 1u8) && !(exists|t: int|
                0 <= t < idx && offered@[t] == 2u8)),
    {
        let x = offered[idx];
        acc = match acc {
            SecurityType::NoAuth => acc,
            _ => match security_type_from_code(x) {
                SecurityType::NoAuth => SecurityType::NoAuth,
                SecurityType::VncAuth => SecurityType::VncAuth,
                SecurityType::Invalid => acc,
            },
        };
    }
    acc
}

/// The selection policy is a function of which codes are offered alone:
/// two offered lists agreeing on membership — whatever their order or
/// repetitions — select the same security type.
pub proof fn lemma_selection_order_independent(a: Seq<u8>, b: Seq<u8>)
    requires
        forall|x: u8| #[trigger] a.contains(x) == b.contains(x),
    ensures
        spec_select_security(a) == spec_select_security(b),
{
    assert(a.contains(1u8) == b.contains(1u8));
    assert(a.contains(2u8) == b.contains(2u8));
}

} // verus!
