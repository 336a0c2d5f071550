//! The handshake state machine and the fixed-layout client messages.
//!
//! Everything here is transport-free: the machine consumes the exact bytes a
//! stage expects and yields the bytes to send next, so a thin driver owning
//! the connection can run the whole handshake without knowing the protocol.

use vstd::prelude::*;

use crate::d3des::{Des, Direction, spec_encrypt_block, spec_key_schedule};
use crate::rfb::{RfbVersion, SecurityType, spec_parse_version, spec_select_security};
use crate::rfb::{parse_offered_version, security_type_code, select_security_type};
use vstd::string::StringExecFns;
use vstd::utf8::{decode_utf8, valid_utf8};

verus! {

/// Why a handshake attempt was abandoned. Every variant is terminal: the
/// caller must open a fresh session to retry.
#[derive(Debug)]
pub enum HandshakeError {
    /// A transport read or write failed; the driver owning the connection
    /// fills in the description.
    IoError(String),
    /// The peer's protocol version line was malformed or not the one
    /// supported version.
    UnsupportedRfbVersion,
    /// No mutually acceptable security scheme, a server-declared failure, or
    /// a non-zero authentication result.
    UnsupportedSecurity(String),
    /// The server's declared name length exceeds the resource guard.
    UnsupportedServerSettings(String),
}

/// The value of two big-endian bytes.
pub open spec fn spec_u16_be(b: Seq<u8>, i: int) -> int {
    (b[i] as int) * 256 + (b[i + 1] as int)
}

/// The value of four big-endian bytes.
pub open spec fn spec_u32_be(b: Seq<u8>, i: int) -> int {
    (b[i] as int) * 0x1000000 + (b[i + 1] as int) * 0x10000 + (b[i + 2] as int) * 256 + (b[i
        + 3] as int)
}

/// Read a 16-bit big-endian value.
pub fn u16_from_be(b0: u8, b1: u8) -> (r: u16)
    ensures
        r as int == (b0 as int) * 256 + (b1 as int),
{
    (b0 as u16) * 256 + (b1 as u16)
}

/// Read a 32-bit big-endian value.
pub fn u32_from_be(b0: u8, b1: u8, b2: u8, b3: u8) -> (r: u32)
    ensures
        r as int == (b0 as int) * 0x1000000 + (b1 as int) * 0x10000 + (b2 as int) * 256 + (
        b3 as int),
{
    (b0 as u32) * 0x1000000 + (b1 as u32) * 0x10000 + (b2 as u32) * 256 + (b3 as u32)
}

/// The pixel-format descriptor. Its wire form is a fixed 16-byte layout with
/// three reserved trailing bytes that are always zero when sent.
#[derive(Clone, Copy, Debug, PartialEq, Eq, Structural)]
pub struct PixelFormat {
    pub bits_per_pixel: u8,
    pub depth: u8,
    pub big_endian_flag: u8,
    pub true_color_flag: u8,
    pub red_max: u16,
    pub green_max: u16,
    pub blue_max: u16,
    pub red_shift: u8,
    pub green_shift: u8,
    pub blue_shift: u8,
}

/// The pixel format described by 16 wire bytes; the three reserved bytes are
/// ignored.
pub open spec fn spec_pixel_format_parse(b: Seq<u8>) -> PixelFormat {
    PixelFormat {
        bits_per_pixel: b[0],
        depth: b[1],
        big_endian_flag: b[2],
        true_color_flag: b[3],
        red_max: spec_u16_be(b, 4) as u16,
        green_max: spec_u16_be(b, 6) as u16,
        blue_max: spec_u16_be(b, 8) as u16,
        red_shift: b[10],
        green_shift: b[11],
        blue_shift: b[12],
    }
}

/// The 16 wire bytes of a pixel format; the three reserved bytes are zero.
pub open spec fn spec_pixel_format_bytes(pf: PixelFormat) -> Seq<u8> {
    seq![
        pf.bits_per_pixel,
        pf.depth,
        pf.big_endian_flag,
        pf.true_color_flag,
        (pf.red_max / 256) as u8,
        (pf.red_max % 256) as u8,
        (pf.green_max / 256) as u8,
        (pf.green_max % 256) as u8,
        (pf.blue_max / 256) as u8,
        (pf.blue_max % 256) as u8,
        pf.red_shift,
        pf.green_shift,
        pf.blue_shift,
        0u8,
        0u8,
        0u8,
    ]
}

impl PixelFormat {
    /// Parse the 16-byte wire form.
    pub fn from_bytes(src: &[u8; 16]) -> (pf: PixelFormat)
        ensures
            pf == spec_pixel_format_parse(src@),
    {
        PixelFormat {
            bits_per_pixel: src[0],
            depth: src[1],
            big_endian_flag: src[2],
            true_color_flag: src[3],
            red_max: u16_from_be(src[4], src[5]),
            green_max: u16_from_be(src[6], src[7]),
            blue_max: u16_from_be(src[8], src[9]),
            red_shift: src[10],
            green_shift: src[11],
            blue_shift: src[12],
        }
    }

    /// Encode to the 16-byte wire form, with the reserved bytes zero.
    pub fn to_bytes(&self) -> (b: [u8; 16])
        ensures
            b@ =~= spec_pixel_format_bytes(*self),
    {
        let mut b = [0u8; 16];
        b[0] = self.bits_per_pixel;
        b[1] = self.depth;
        b[2] = self.big_endian_flag;
        b[3] = self.true_color_flag;
        b[4] = (self.red_max / 256) as u8;
        b[5] = (self.red_max % 256) as u8;
        b[6] = (self.green_max / 256) as u8;
        b[7] = (self.green_max % 256) as u8;
        b[8] = (self.blue_max / 256) as u8;
        b[9] = (self.blue_max % 256) as u8;
        b[10] = self.red_shift;
        b[11] = self.green_shift;
        b[12] = self.blue_shift;
        b
    }
}

/// The pixel format this client prefers to request after the handshake.
pub fn preferred_pixel_format() -> (pf: PixelFormat)
    ensures
        pf == (PixelFormat {
            bits_per_pixel: 32,
            depth: 24,
            big_endian_flag: 0,
            true_color_flag: 1,
            red_max: 255,
            green_max: 255,
            blue_max: 255,
            red_shift: 16,
            green_shift: 8,
            blue_shift: 0,
        }),
{
    PixelFormat {
        bits_per_pixel: 32,
        depth: 24,
        big_endian_flag: 0,
        true_color_flag: 1,
        red_max: 255,
        green_max: 255,
        blue_max: 255,
        red_shift: 16,
        green_shift: 8,
        blue_shift: 0,
    }
}

/// The character of one decimal digit value.
pub open spec fn spec_decimal_digit(d: int) -> char {
    if d == 0 {
        '0'
    } else if d == 1 {
        '1'
    } else if d == 2 {
        '2'
    } else if d == 3 {
        '3'
    } else if d == 4 {
        '4'
    } else if d == 5 {
        '5'
    } else if d == 6 {
        '6'
    } else if d == 7 {
        '7'
    } else if d == 8 {
        '8'
    } else {
        '9'
    }
}

/// The decimal digits of a non-negative number, most significant first.
pub open spec fn spec_decimal(n: int) -> Seq<char>
    decreases n,
{
    if n < 10 {
        seq![spec_decimal_digit(n)]
    } else {
        spec_decimal(n / 10).push(spec_decimal_digit(n % 10))
    }
}

fn digit_str(d: u32) -> (s: &'static str)
    requires
        d < 10,
    ensures
        s@ =~= seq![spec_decimal_digit(d as int)],
{
    proof {
        reveal_strlit("0");
        reveal_strlit("1");
        reveal_strlit("2");
        reveal_strlit("3");
        reveal_strlit("4");
        reveal_strlit("5");
        reveal_strlit("6");
        reveal_strlit("7");
        reveal_strlit("8");
        reveal_strlit("9");
    }
    if d == 0 {
        "0"
    } else if d == 1 {
        "1"
    } else if d == 2 {
        "2"
    } else if d == 3 {
        "3"
    } else if d == 4 {
        "4"
    } else if d == 5 {
        "5"
    } else if d == 6 {
        "6"
    } else if d == 7 {
        "7"
    } else if d == 8 {
        "8"
    } else {
        "9"
    }
}

fn append_decimal(s: &mut String, n: u32)
    ensures
        final(s)@ =~= old(s)@ + spec_decimal(n as int),
    decreases n,
{
    if n < 10 {
        s.append(digit_str(n));
    } else {
        append_decimal(s, n / 10);
        s.append(digit_str(n % 10));
        proof {
            assert(old(s)@ + spec_decimal(n as int) =~= (old(s)@ + spec_decimal((n / 10) as int))
                + seq![spec_decimal_digit((n % 10) as int)]);
        }
    }
}

/// The message reporting a non-zero authentication result code.
pub open spec fn spec_refused_message(code: int) -> Seq<char> {
    "Security type not accepted by server ("@ + spec_decimal(code) + ")"@
}

fn security_refused_message(code: u32) -> (m: String)
    ensures
        m@ =~= spec_refused_message(code as int),
{
    let mut m = "Security type not accepted by server (".to_owned();
    append_decimal(&mut m, code);
    m.append(")");
    m
}

/// What a server-supplied failure reason decodes to: its bytes read as
/// UTF-8, or the empty string when they are not valid UTF-8.
pub open spec fn spec_reason_chars(bytes: Seq<u8>) -> Seq<char> {
    if valid_utf8(bytes) {
        decode_utf8(bytes)
    } else {
        Seq::empty()
    }
}

/// Relies on `String::from_utf8`: it returns `Ok` exactly when the input is
/// valid UTF-8, and the returned string is that input decoded.
#[verifier::external_body]
fn string_from_utf8(bytes: Vec<u8>) -> (r: Option<String>)
    ensures
        r is Some <==> valid_utf8(bytes@),
        r matches Some(s) ==> s@ == decode_utf8(bytes@),
{
    match String::from_utf8(bytes) {
        Ok(s) => Some(s),
        Err(_) => None,
    }
}

fn reason_string(bytes: &[u8]) -> (m: String)
    ensures
        m@ == spec_reason_chars(bytes@),
{
    let v = vstd::slice::slice_to_vec(bytes);
    match string_from_utf8(v) {
        Some(s) => s,
        None => String::new(),
    }
}

/// The 8-byte secret derived from raw input: its first 8 bytes, zero-padded
/// on the right when fewer are given; anything beyond the eighth byte is
/// silently dropped.
pub open spec fn spec_pack_secret(input: Seq<u8>) -> Seq<u8> {
    Seq::new(8, |i: int| if i < input.len() { input[i] } else { 0u8 })
}

/// Pack raw secret input into the fixed 8-byte key.
pub fn pack_secret(input: &[u8]) -> (key: [u8; 8])
    ensures
        key@ =~= spec_pack_secret(input@),
{
    let mut key = [0u8; 8];
    let n = if input.len() < 8 {
        input.len()
    } else {
        8
    };
    for i in 0..n
        invariant
            n <= 8,
            n <= input@.len(),
            forall|t: int| 0 <= t < i ==> key@[t] == input@[t],
            forall|t: int| i <= t < 8 ==> key@[t] == 0u8,
    {
        key[i] = input[i];
    }
    key
}

/// The 16-byte authentication response: the two 8-byte halves of the
/// challenge, each encrypted independently under the same encrypting key
/// schedule — there is no chaining between the halves.
pub open spec fn spec_vnc_response(secret: Seq<u8>, challenge: Seq<u8>) -> Seq<u8> {
    let keys = spec_key_schedule(secret, Direction::Encrypt);
    spec_encrypt_block(keys, challenge.subrange(0, 8)) + spec_encrypt_block(
        keys,
        challenge.subrange(8, 16),
    )
}

/// Compute the challenge response. The result is a function of the secret
/// and the challenge alone, so re-running the same inputs reproduces it byte
/// for byte.
#[verifier::loop_isolation(false)]
pub fn vnc_auth_response(secret: &[u8; 8], challenge: &[u8]) -> (resp: Vec<u8>)
    requires
        challenge@.len() == 16,
    ensures
        resp@ =~= spec_vnc_response(secret@, challenge@),
{
    let des = Des::new(secret.as_slice(), Direction::Encrypt);
    let block_a = des.encrypt_block(&challenge[0..8]);
    let block_b = des.encrypt_block(&challenge[8..16]);
    let mut resp: Vec<u8> = Vec::new();
    for i in 0..8usize
        invariant
            resp@ =~= block_a@.subrange(0, i as int),
    {
        resp.push(block_a[i]);
    }
    for i in 0..8usize
        invariant
            resp@ =~= block_a@ + block_b@.subrange(0, i as int),
    {
        resp.push(block_b[i]);
    }
    resp
}

/// The exact version line this client sends back: `"RFB 003.008\n"`.
pub open spec fn spec_version_reply() -> Seq<u8> {
    seq![82u8, 70u8, 66u8, 32u8, 48u8, 48u8, 51u8, 46u8, 48u8, 48u8, 56u8, 10u8]
}

fn version_reply() -> (v: Vec<u8>)
    ensures
        v@ =~= spec_version_reply(),
{
    let mut v: Vec<u8> = Vec::new();
    v.push(82);
    v.push(70);
    v.push(66);
    v.push(32);
    v.push(48);
    v.push(48);
    v.push(51);
    v.push(46);
    v.push(48);
    v.push(48);
    v.push(56);
    v.push(10);
    v
}

/// The SetPixelFormat message: type 0, three reserved zero bytes, then the
/// 16-byte pixel format.
pub fn set_pixel_format_message(format: &PixelFormat) -> (m: Vec<u8>)
    ensures
        m@ =~= seq![0u8, 0u8, 0u8, 0u8] + spec_pixel_format_bytes(*format),
{
    let mut m: Vec<u8> = Vec::new();
    m.push(0);
    m.push(0);
    m.push(0);
    m.push(0);
    let b = format.to_bytes();
    #[verifier::loop_isolation(false)]
    for i in 0..16usize
        invariant
            m@ =~= seq![0u8, 0u8, 0u8, 0u8] + b@.subrange(0, i as int),
    {
        m.push(b[i]);
    }
    m
}

/// The four big-endian bytes of an encoding identifier (two's complement).
pub open spec fn spec_i32_be(x: i32) -> Seq<u8> {
    let u = x as u32;
    seq![
        (u / 0x1000000) as u8,
        ((u / 0x10000) % 256) as u8,
        ((u / 256) % 256) as u8,
        (u % 256) as u8,
    ]
}

/// The concatenated wire bytes of a list of encoding identifiers, in order.
pub open spec fn spec_encodings_payload(e: Seq<i32>) -> Seq<u8>
    decreases e.len(),
{
    if e.len() == 0 {
        Seq::empty()
    } else {
        spec_encodings_payload(e.drop_last()) + spec_i32_be(e.last())
    }
}

/// The SetEncodings message: type 2, one reserved byte, a big-endian count,
/// then each identifier as four big-endian bytes — in the caller's order,
/// first most preferred, which the server interprets as the preference rank.
pub fn set_encodings_message(encodings: &[i32]) -> (m: Vec<u8>)
    requires
        encodings@.len() <= 0xFFFF,
    ensures
        m@ =~= seq![
            2u8,
            0u8,
            ((encodings@.len() as int) / 256) as u8,
            ((encodings@.len() as int) % 256) as u8,
        ] + spec_encodings_payload(encodings@),
{
    let count = encodings.len() as u16;
    let mut m: Vec<u8> = Vec::new();
    m.push(2);
    m.push(0);
    m.push((count / 256) as u8);
    m.push((count % 256) as u8);
    let ghost header = m@;
    #[verifier::loop_isolation(false)]
    for i in 0..encodings.len()
        invariant
            m@ =~= header + spec_encodings_payload(encodings@.subrange(0, i as int)),
    {
        #[verifier::truncate]
        let u = encodings[i] as u32;
        m.push((u / 0x1000000) as u8);
        m.push(((u / 0x10000) % 256) as u8);
        m.push(((u / 256) % 256) as u8);
        m.push((u % 256) as u8);
        proof {
            let pre = encodings@.subrange(0, i as int);
            let cur = encodings@.subrange(0, i + 1);
            assert(cur.drop_last() =~= pre);
            assert(m@ =~= header + spec_encodings_payload(cur));
        }
    }
    proof {
        assert(encodings@.subrange(0, encodings@.len() as int) =~= encodings@);
    }
    m
}

/// The FramebufferUpdateRequest message: type 3, the incremental flag, then
/// the four big-endian geometry fields.
pub fn framebuffer_update_request_message(
    incremental: bool,
    xpos: u16,
    ypos: u16,
    width: u16,
    height: u16,
) -> (m: Vec<u8>)
    ensures
        m@ =~= seq![
            3u8,
            if incremental {
                1u8
            } else {
                0u8
            },
            (xpos / 256) as u8,
            (xpos % 256) as u8,
            (ypos / 256) as u8,
            (ypos % 256) as u8,
            (width / 256) as u8,
            (width % 256) as u8,
            (height / 256) as u8,
            (height % 256) as u8,
        ],
{
    let mut m: Vec<u8> = Vec::new();
    m.push(3);
    m.push(if incremental {
        1
    } else {
        0
    });
    m.push((xpos / 256) as u8);
    m.push((xpos % 256) as u8);
    m.push((ypos / 256) as u8);
    m.push((ypos % 256) as u8);
    m.push((width / 256) as u8);
    m.push((width % 256) as u8);
    m.push((height / 256) as u8);
    m.push((height % 256) as u8);
    m
}

/// The stage a handshake is at, with the data the next stage needs. Each
/// stage expects an exact number of input bytes (see `spec_expected_len`);
/// stages are never skipped, re-entered, or retried.
#[derive(Clone, Copy, Debug)]
pub enum HandshakeState {
    /// Expecting the peer's 12-byte protocol version line.
    Version,
    /// Expecting the 1-byte count of offered security types.
    SecurityCount,
    /// The count was zero: expecting the 4-byte length of the failure reason.
    SecurityFailureLen,
    /// Expecting the failure reason itself, capped at 1000 bytes.
    SecurityFailureReason(u32),
    /// Expecting the given number of offered security-type bytes.
    SecurityTypes(u8),
    /// Expecting the 16-byte authentication challenge.
    VncChallenge,
    /// Expecting the 4-byte authentication result for the chosen scheme.
    AuthResult(SecurityType),
    /// Expecting width, height, pixel format and name length (24 bytes).
    ServerInit,
    /// Expecting the server name of the given, already-guarded length.
    ServerName(u32),
    /// The handshake completed successfully.
    Done,
}

/// How many input bytes the next step consumes in a given stage. The two
/// length-carrying read stages are bounded before any buffer of a
/// peer-controlled size exists: the failure reason is capped at 1000 bytes,
/// and `ServerName` is only ever entered with a guarded length.
pub open spec fn spec_expected_len(state: HandshakeState) -> int {
    match state {
        HandshakeState::Version => 12,
        HandshakeState::SecurityCount => 1,
        HandshakeState::SecurityFailureLen => 4,
        HandshakeState::SecurityFailureReason(l) => if l > 1000 {
            1000
        } else {
            l as int
        },
        HandshakeState::SecurityTypes(n) => n as int,
        HandshakeState::VncChallenge => 16,
        HandshakeState::AuthResult(_) => 4,
        HandshakeState::ServerInit => 24,
        HandshakeState::ServerName(l) => l as int,
        HandshakeState::Done => 0,
    }
}

/// The handshake state machine. A driver owning the transport runs it by
/// reading exactly `expected_input()` bytes, handing them to `step`, and
/// writing whatever bytes `step` returns, until `is_done` or an error; any
/// error is terminal for the attempt. The session fields below are only
/// meaningful once `is_done` holds.
#[derive(Debug)]
pub struct Handshake {
    pub state: HandshakeState,
    /// The version the peer offered, recorded once it is accepted.
    pub version: RfbVersion,
    /// The security scheme selected from the peer's offer.
    pub security: SecurityType,
    pub screen_w: u16,
    pub screen_h: u16,
    pub pixel_format: Option<PixelFormat>,
    /// The server-supplied display name, as raw UTF-8 bytes.
    pub name: Vec<u8>,
}

impl Handshake {
    /// A fresh handshake, about to negotiate the protocol version.
    pub fn new() -> (h: Handshake)
        ensures
            h.state is Version,
            h.version is Unsupported,
            h.security is Invalid,
            h.screen_w == 0,
            h.screen_h == 0,
            h.pixel_format is None,
            h.name@ =~= Seq::<u8>::empty(),
    {
        Handshake {
            state: HandshakeState::Version,
            version: RfbVersion::Unsupported,
            security: SecurityType::Invalid,
            screen_w: 0,
            screen_h: 0,
            pixel_format: None,
            name: Vec::new(),
        }
    }

    /// How many bytes the driver must read before the next `step`.
    pub fn expected_input(&self) -> (n: usize)
        ensures
            n as int == spec_expected_len(self.state),
    {
        match self.state {
            HandshakeState::Version => 12,
            HandshakeState::SecurityCount => 1,
            HandshakeState::SecurityFailureLen => 4,
            HandshakeState::SecurityFailureReason(l) => if l > 1000 {
                1000
            } else {
                l as usize
            },
            HandshakeState::SecurityTypes(n) => n as usize,
            HandshakeState::VncChallenge => 16,
            HandshakeState::AuthResult(_) => 4,
            HandshakeState::ServerInit => 24,
            HandshakeState::ServerName(l) => l as usize,
            HandshakeState::Done => 0,
        }
    }

    /// Whether the handshake has completed successfully.
    pub fn is_done(&self) -> (r: bool)
        ensures
            r == (self.state is Done),
    {
        match self.state {
            HandshakeState::Done => true,
            _ => false,
        }
    }

    /// Advance one stage. `input` holds exactly the bytes the current stage
    /// expects; the returned bytes are written to the peer before the next
    /// read. `secret` is consulted only when answering the authentication
    /// challenge. Any `Err` is terminal for the attempt: the caller starts
    /// over with a fresh machine. The machine never comes to ask for more
    /// than 1000 bytes at once, however the peer chooses its length fields.
    pub fn step(&mut self, input: &[u8], secret: &[u8; 8]) -> (r: Result<
        Vec<u8>,
        HandshakeError,
    >)
        requires
            !(old(self).state is Done),
            input@.len() == spec_expected_len(old(self).state),
        ensures
            spec_expected_len(old(self).state) <= 1000 ==> spec_expected_len(final(self).state)
                <= 1000,
            match old(self).state {
                HandshakeState::Version => {
                    if spec_parse_version(input@) is Rfb38 {
                        &&& r matches Ok(send) && send@ == spec_version_reply()
                        &&& final(self).state is SecurityCount
                        &&& final(self).version is Rfb38
                        &&& spec_fields_except_version_unchanged(old(self), final(self))
                    } else {
                        &&& r matches Err(e) && e is UnsupportedRfbVersion
                        &&& spec_machine_unchanged(old(self), final(self))
                    }
                },
                HandshakeState::SecurityCount => {
                    &&& r matches Ok(send) && send@ =~= Seq::<u8>::empty()
                    &&& spec_session_fields_unchanged(old(self), final(self))
                    &&& if input@[0] == 0 {
                        final(self).state is SecurityFailureLen
                    } else {
                        final(self).state matches HandshakeState::SecurityTypes(n) && n == input@[0]
                    }
                },
                HandshakeState::SecurityFailureLen => {
                    &&& r matches Ok(send) && send@ =~= Seq::<u8>::empty()
                    &&& spec_session_fields_unchanged(old(self), final(self))
                    &&& final(self).state matches HandshakeState::SecurityFailureReason(l) && l as int
                        == spec_u32_be(input@, 0)
                },
                HandshakeState::SecurityFailureReason(_) => {
                    &&& r matches Err(e) && e matches HandshakeError::UnsupportedSecurity(m)
                        && m@ == spec_reason_chars(input@)
                    &&& spec_machine_unchanged(old(self), final(self))
                },
                HandshakeState::SecurityTypes(_) => {
                    let sel = spec_select_security(input@);
                    if sel is NoAuth {
                        &&& r matches Ok(send) && send@ =~= seq![1u8]
                        &&& final(self).state matches HandshakeState::AuthResult(t) && t is NoAuth
                        &&& final(self).security is NoAuth
                        &&& spec_fields_except_security_unchanged(old(self), final(self))
                    } else if sel is VncAuth {
                        &&& r matches Ok(send) && send@ =~= seq![2u8]
                        &&& final(self).state is VncChallenge
                        &&& final(self).security is VncAuth
                        &&& spec_fields_except_security_unchanged(old(self), final(self))
                    } else {
                        &&& r matches Err(e) && e matches HandshakeError::UnsupportedSecurity(m)
                            && m@ == "No suitable security"@
                        &&& spec_machine_unchanged(old(self), final(self))
                    }
                },
                HandshakeState::VncChallenge => {
                    &&& r matches Ok(send) && send@ == spec_vnc_response(secret@, input@)
                    &&& final(self).state matches HandshakeState::AuthResult(t) && t is VncAuth
                    &&& spec_session_fields_unchanged(old(self), final(self))
                },
                HandshakeState::AuthResult(_) => {
                    let code = spec_u32_be(input@, 0);
                    if code == 0 {
                        &&& r matches Ok(send) && send@ =~= seq![0u8]
                        &&& final(self).state is ServerInit
                        &&& spec_session_fields_unchanged(old(self), final(self))
                    } else {
                        &&& r matches Err(e) && e matches HandshakeError::UnsupportedSecurity(m)
                            && m@ == spec_refused_message(code)
                        &&& spec_machine_unchanged(old(self), final(self))
                    }
                },
                HandshakeState::ServerInit => {
                    let name_len = spec_u32_be(input@, 20);
                    &&& final(self).screen_w as int == spec_u16_be(input@, 0)
                    &&& final(self).screen_h as int == spec_u16_be(input@, 2)
                    &&& final(self).pixel_format matches Some(pf) && pf == spec_pixel_format_parse(
                        input@.subrange(4, 20),
                    )
                    &&& final(self).version == old(self).version
                    &&& final(self).security == old(self).security
                    &&& final(self).name@ == old(self).name@
                    &&& if name_len > 1000 {
                        &&& r matches Err(e) && e matches
                            HandshakeError::UnsupportedServerSettings(m) && m@ == "Too long name"@
                        &&& final(self).state is ServerInit
                    } else {
                        &&& r matches Ok(send) && send@ =~= Seq::<u8>::empty()
                        &&& final(self).state matches HandshakeState::ServerName(l) && l as int == name_len
                    }
                },
                HandshakeState::ServerName(_) => {
                    &&& r matches Ok(send) && send@ =~= Seq::<u8>::empty()
                    &&& final(self).state is Done
                    &&& final(self).name@ == input@
                    &&& final(self).version == old(self).version
                    &&& final(self).security == old(self).security
                    &&& final(self).screen_w == old(self).screen_w
                    &&& final(self).screen_h == old(self).screen_h
                    &&& final(self).pixel_format == old(self).pixel_format
                },
                HandshakeState::Done => true,
            },
    {
        let st = self.state;
        match st {
            HandshakeState::Version => {
                let v = parse_offered_version(input);
                if v == RfbVersion::Rfb38 {
                    self.version = v;
                    self.state = HandshakeState::SecurityCount;
                    Ok(version_reply())
                } else {
                    Err(HandshakeError::UnsupportedRfbVersion)
                }
            },
            HandshakeState::SecurityCount => {
                let n = input[0];
                if n == 0 {
                    self.state = HandshakeState::SecurityFailureLen;
                } else {
                    self.state = HandshakeState::SecurityTypes(n);
                }
                Ok(Vec::new())
            },
            HandshakeState::SecurityFailureLen => {
                let l = u32_from_be(input[0], input[1], input[2], input[3]);
                self.state = HandshakeState::SecurityFailureReason(l);
                Ok(Vec::new())
            },
            HandshakeState::SecurityFailureReason(_) => {
                Err(HandshakeError::UnsupportedSecurity(reason_string(input)))
            },
            HandshakeState::SecurityTypes(_) => {
                let sel = select_security_type(input);
                match sel {
                    SecurityType::NoAuth => {
                        self.security = sel;
                        self.state = HandshakeState::AuthResult(sel);
                        let mut send: Vec<u8> = Vec::new();
                        send.push(security_type_code(sel));
                        Ok(send)
                    },
                    SecurityType::VncAuth => {
                        self.security = sel;
                        self.state = HandshakeState::VncChallenge;
                        let mut send: Vec<u8> = Vec::new();
                        send.push(security_type_code(sel));
                        Ok(send)
                    },
                    SecurityType::Invalid => {
                        Err(HandshakeError::UnsupportedSecurity("No suitable security".to_owned()))
                    },
                }
            },
            HandshakeState::VncChallenge => {
                self.state = HandshakeState::AuthResult(SecurityType::VncAuth);
                Ok(vnc_auth_response(secret, input))
            },
            HandshakeState::AuthResult(_) => {
                let code = u32_from_be(input[0], input[1], input[2], input[3]);
                if code == 0 {
                    self.state = HandshakeState::ServerInit;
                    let mut send: Vec<u8> = Vec::new();
                    send.push(0);
                    Ok(send)
                } else {
                    Err(HandshakeError::UnsupportedSecurity(security_refused_message(code)))
                }
            },
            HandshakeState::ServerInit => {
                self.screen_w = u16_from_be(input[0], input[1]);
                self.screen_h = u16_from_be(input[2], input[3]);
                let mut pf_bytes = [0u8; 16];
                for i in 0..16usize
                    invariant
                        input@.len() == 24,
                        forall|t: int| 0 <= t < i ==> pf_bytes@[t] == input@[4 + t],
                {
                    pf_bytes[i] = input[4 + i];
                }
                assert(pf_bytes@ =~= input@.subrange(4, 20));
                self.pixel_format = Some(PixelFormat::from_bytes(&pf_bytes));
                let name_len = u32_from_be(input[20], input[21], input[22], input[23]);
                if name_len > 1000 {
                    Err(HandshakeError::UnsupportedServerSettings("Too long name".to_owned()))
                } else {
                    self.state = HandshakeState::ServerName(name_len);
                    Ok(Vec::new())
                }
            },
            HandshakeState::ServerName(_) => {
                self.name = vstd::slice::slice_to_vec(input);
                self.state = HandshakeState::Done;
                Ok(Vec::new())
            },
            HandshakeState::Done => Ok(Vec::new()),
        }
    }
}

/// The session fields of `b` (everything but the stage marker) equal `a`'s.
pub open spec fn spec_session_fields_unchanged(a: &Handshake, b: &Handshake) -> bool {
    &&& a.version == b.version
    &&& a.security == b.security
    &&& a.screen_w == b.screen_w
    &&& a.screen_h == b.screen_h
    &&& a.pixel_format == b.pixel_format
    &&& a.name@ == b.name@
}

/// As `spec_session_fields_unchanged`, except the recorded version.
pub open spec fn spec_fields_except_version_unchanged(a: &Handshake, b: &Handshake) -> bool {
    &&& a.security == b.security
    &&& a.screen_w == b.screen_w
    &&& a.screen_h == b.screen_h
    &&& a.pixel_format == b.pixel_format
    &&& a.name@ == b.name@
}

/// As `spec_session_fields_unchanged`, except the selected security type.
pub open spec fn spec_fields_except_security_unchanged(a: &Handshake, b: &Handshake) -> bool {
    &&& a.version == b.version
    &&& a.screen_w == b.screen_w
    &&& a.screen_h == b.screen_h
    &&& a.pixel_format == b.pixel_format
    &&& a.name@ == b.name@
}

/// Nothing of the machine — stage or session fields — changed.
pub open spec fn spec_machine_unchanged(a: &Handshake, b: &Handshake) -> bool {
    &&& a.state == b.state
    &&& spec_session_fields_unchanged(a, b)
}

/// The version line this client sends back is itself a well-formed line of
/// the one version it accepts.
pub proof fn lemma_version_reply_is_rfb38()
    ensures
        spec_parse_version(spec_version_reply()) is Rfb38,
{
}

/// Encoding a parsed pixel format reproduces the 16 bytes it came from
/// verbatim, except the three reserved trailing bytes, which always encode
/// as zero whatever was received there.
pub proof fn lemma_pixel_format_round_trip(b: Seq<u8>)
    requires
        b.len() == 16,
    ensures
        ({
            let e = spec_pixel_format_bytes(spec_pixel_format_parse(b));
            &&& e.len() == 16
            &&& forall|i: int| 0 <= i < 13 ==> e[i] == b[i]
            &&& e[13] == 0 && e[14] == 0 && e[15] == 0
        }),
{
    let e = spec_pixel_format_bytes(spec_pixel_format_parse(b));
    assert forall|i: int| 0 <= i < 13 implies e[i] == b[i] by {
        if i == 4 || i == 6 || i == 8 {
            assert(((b[i] as int) * 256 + (b[i + 1] as int)) / 256 == b[i]);
        }
        if i == 5 || i == 7 || i == 9 {
            assert(((b[i - 1] as int) * 256 + (b[i] as int)) % 256 == b[i]);
        }
    }
}

} // verus!
