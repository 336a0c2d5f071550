use rfb_core::d3des::{Des, Direction};
use rfb_core::session::{
    framebuffer_update_request_message, pack_secret, preferred_pixel_format,
    set_encodings_message, set_pixel_format_message, vnc_auth_response, Handshake, HandshakeError,
    HandshakeState, PixelFormat,
};

fn step_ok(hs: &mut Handshake, input: &[u8], secret: &[u8; 8]) -> Vec<u8> {
    assert_eq!(hs.expected_input(), input.len());
    hs.step(input, secret).expect("step should succeed")
}

#[test]
fn pack_secret_pads_and_truncates() {
    assert_eq!(pack_secret(b"abc"), [b'a', b'b', b'c', 0, 0, 0, 0, 0]);
    assert_eq!(pack_secret(b""), [0; 8]);
    assert_eq!(
        pack_secret(b"0123456789"),
        [b'0', b'1', b'2', b'3', b'4', b'5', b'6', b'7']
    );
    assert_eq!(pack_secret(b"bananen!"), *b"bananen!");
}

#[test]
fn response_is_two_independent_blocks() {
    // The end-to-end scenario: secret "bananen!", challenge 01..10.
    let secret = pack_secret(b"bananen!");
    let challenge: [u8; 16] = [1, 2, 3, 4, 5, 6, 7, 8, 9, 10, 11, 12, 13, 14, 15, 16];
    let resp = vnc_auth_response(&secret, &challenge);
    assert_eq!(resp.len(), 16);

    let des = Des::new(&secret, Direction::Encrypt);
    let block_a = des.encrypt_block(&challenge[0..8]);
    let block_b = des.encrypt_block(&challenge[8..16]);
    assert_eq!(&resp[0..8], &block_a);
    assert_eq!(&resp[8..16], &block_b);

    // Re-running the same inputs reproduces the response byte for byte.
    let again = vnc_auth_response(&secret, &challenge);
    assert_eq!(resp, again);
}

#[test]
fn pixel_format_round_trip_zeroes_reserved_bytes() {
    let mut wire = [0u8; 16];
    for (i, b) in wire.iter_mut().enumerate() {
        *b = (17 * i + 3) as u8;
    }
    // Non-zero reserved bytes arriving from the peer...
    wire[13] = 0xde;
    wire[14] = 0xad;
    wire[15] = 0xbe;
    let pf = PixelFormat::from_bytes(&wire);
    let back = pf.to_bytes();
    assert_eq!(&back[0..13], &wire[0..13]);
    // ...must always leave as zero.
    assert_eq!(&back[13..16], &[0, 0, 0]);
}

#[test]
fn pixel_format_fields_parse_big_endian() {
    let mut wire = [0u8; 16];
    wire[0] = 32;
    wire[1] = 24;
    wire[2] = 0;
    wire[3] = 1;
    wire[4] = 0x01;
    wire[5] = 0xff; // red max 511
    wire[10] = 16;
    wire[11] = 8;
    let pf = PixelFormat::from_bytes(&wire);
    assert_eq!(pf.bits_per_pixel, 32);
    assert_eq!(pf.depth, 24);
    assert_eq!(pf.true_color_flag, 1);
    assert_eq!(pf.red_max, 511);
    assert_eq!(pf.green_max, 0);
    assert_eq!(pf.red_shift, 16);
    assert_eq!(pf.green_shift, 8);
}

#[test]
fn handshake_vnc_auth_end_to_end() {
    let secret = pack_secret(b"bananen!");
    let mut hs = Handshake::new();
    assert!(!hs.is_done());

    // Version exchange.
    let send = step_ok(&mut hs, b"RFB 003.008\n", &secret);
    assert_eq!(send, b"RFB 003.008\n");

    // One offered type: VncAuth.
    let send = step_ok(&mut hs, &[1], &secret);
    assert!(send.is_empty());
    let send = step_ok(&mut hs, &[2], &secret);
    assert_eq!(send, vec![2]);

    // Challenge; the response must be the two independently encrypted halves.
    let challenge: [u8; 16] = [1, 2, 3, 4, 5, 6, 7, 8, 9, 10, 11, 12, 13, 14, 15, 16];
    let send = step_ok(&mut hs, &challenge, &secret);
    assert_eq!(send, vnc_auth_response(&secret, &challenge));

    // Authentication accepted: the exclusive-access flag goes out.
    let send = step_ok(&mut hs, &[0, 0, 0, 0], &secret);
    assert_eq!(send, vec![0]);

    // Server init: 800x600, a pixel format, a 6-byte name.
    let mut init = vec![0x03, 0x20, 0x02, 0x58];
    let pf_wire: [u8; 16] = [32, 24, 0, 1, 0, 255, 0, 255, 0, 255, 16, 8, 0, 0, 0, 0];
    init.extend_from_slice(&pf_wire);
    init.extend_from_slice(&[0, 0, 0, 6]);
    let send = step_ok(&mut hs, &init, &secret);
    assert!(send.is_empty());

    let send = step_ok(&mut hs, b"mydesk", &secret);
    assert!(send.is_empty());

    assert!(hs.is_done());
    assert_eq!(hs.expected_input(), 0);
    assert_eq!(hs.screen_w, 800);
    assert_eq!(hs.screen_h, 600);
    assert_eq!(hs.name, b"mydesk".to_vec());
    assert_eq!(hs.pixel_format, Some(PixelFormat::from_bytes(&pf_wire)));
}

#[test]
fn handshake_no_auth_path() {
    let secret = [0u8; 8];
    let mut hs = Handshake::new();
    step_ok(&mut hs, b"RFB 003.008\n", &secret);
    step_ok(&mut hs, &[2], &secret);
    // Both schemes offered, in either order: the trivial one wins.
    let send = step_ok(&mut hs, &[2, 1], &secret);
    assert_eq!(send, vec![1]);
    // Result code 0 completes authentication.
    let send = step_ok(&mut hs, &[0, 0, 0, 0], &secret);
    assert_eq!(send, vec![0]);
}

#[test]
fn handshake_rejects_other_versions() {
    for offered in [&b"RFB 003.003\n"[..], b"RFB 003.007\n", b"nonsense...."] {
        let mut hs = Handshake::new();
        let r = hs.step(offered, &[0; 8]);
        assert!(matches!(r, Err(HandshakeError::UnsupportedRfbVersion)));
    }
}

#[test]
fn handshake_server_declared_failure_carries_reason() {
    let secret = [0u8; 8];
    let mut hs = Handshake::new();
    step_ok(&mut hs, b"RFB 003.008\n", &secret);
    // Count zero: the server refuses and explains itself.
    step_ok(&mut hs, &[0], &secret);
    step_ok(&mut hs, &[0, 0, 0, 4], &secret);
    assert_eq!(hs.expected_input(), 4);
    let r = hs.step(b"nope", &secret);
    match r {
        Err(HandshakeError::UnsupportedSecurity(m)) => assert_eq!(m, "nope"),
        other => panic!("unexpected outcome: {:?}", other),
    }
}

#[test]
fn handshake_failure_reason_read_is_capped() {
    let secret = [0u8; 8];
    let mut hs = Handshake::new();
    step_ok(&mut hs, b"RFB 003.008\n", &secret);
    step_ok(&mut hs, &[0], &secret);
    // A huge declared reason length is clamped to 1000 bytes before any read.
    step_ok(&mut hs, &[0xff, 0xff, 0xff, 0xff], &secret);
    assert_eq!(hs.expected_input(), 1000);
}

#[test]
fn handshake_invalid_reason_bytes_yield_empty_reason() {
    let secret = [0u8; 8];
    let mut hs = Handshake::new();
    step_ok(&mut hs, b"RFB 003.008\n", &secret);
    step_ok(&mut hs, &[0], &secret);
    step_ok(&mut hs, &[0, 0, 0, 2], &secret);
    let r = hs.step(&[0xff, 0xfe], &secret);
    match r {
        Err(HandshakeError::UnsupportedSecurity(m)) => assert_eq!(m, ""),
        other => panic!("unexpected outcome: {:?}", other),
    }
}

#[test]
fn handshake_no_suitable_security() {
    let secret = [0u8; 8];
    let mut hs = Handshake::new();
    step_ok(&mut hs, b"RFB 003.008\n", &secret);
    step_ok(&mut hs, &[2], &secret);
    let r = hs.step(&[5, 16], &secret);
    match r {
        Err(HandshakeError::UnsupportedSecurity(m)) => assert_eq!(m, "No suitable security"),
        other => panic!("unexpected outcome: {:?}", other),
    }
}

#[test]
fn handshake_nonzero_result_code_names_the_code() {
    let secret = [0u8; 8];
    let mut hs = Handshake::new();
    step_ok(&mut hs, b"RFB 003.008\n", &secret);
    step_ok(&mut hs, &[1], &secret);
    step_ok(&mut hs, &[1], &secret);
    let r = hs.step(&[0, 0, 1, 5], &secret);
    match r {
        Err(HandshakeError::UnsupportedSecurity(m)) => {
            assert_eq!(m, "Security type not accepted by server (261)")
        }
        other => panic!("unexpected outcome: {:?}", other),
    }
}

#[test]
fn handshake_guards_oversized_name_without_reading_it() {
    let secret = [0u8; 8];
    let mut hs = Handshake::new();
    step_ok(&mut hs, b"RFB 003.008\n", &secret);
    step_ok(&mut hs, &[1], &secret);
    step_ok(&mut hs, &[1], &secret);
    step_ok(&mut hs, &[0, 0, 0, 0], &secret);

    // The server declares a 1001-byte name: the handshake must fail here,
    // before any read or buffer of that peer-chosen size.
    let mut init = vec![0x00, 0x10, 0x00, 0x10];
    init.extend_from_slice(&[0u8; 16]);
    init.extend_from_slice(&[0, 0, 0x03, 0xe9]);
    let r = hs.step(&init, &secret);
    match r {
        Err(HandshakeError::UnsupportedServerSettings(m)) => assert_eq!(m, "Too long name"),
        other => panic!("unexpected outcome: {:?}", other),
    }
    // The machine never asks for those bytes.
    assert!(matches!(hs.state, HandshakeState::ServerInit));

    // The boundary value 1000 is still accepted.
    let mut hs2 = Handshake::new();
    step_ok(&mut hs2, b"RFB 003.008\n", &secret);
    step_ok(&mut hs2, &[1], &secret);
    step_ok(&mut hs2, &[1], &secret);
    step_ok(&mut hs2, &[0, 0, 0, 0], &secret);
    let mut init2 = vec![0x00, 0x10, 0x00, 0x10];
    init2.extend_from_slice(&[0u8; 16]);
    init2.extend_from_slice(&[0, 0, 0x03, 0xe8]);
    step_ok(&mut hs2, &init2, &secret);
    assert_eq!(hs2.expected_input(), 1000);
}

#[test]
fn set_pixel_format_message_layout() {
    let pf = preferred_pixel_format();
    let m = set_pixel_format_message(&pf);
    assert_eq!(
        m,
        vec![0, 0, 0, 0, 32, 24, 0, 1, 0, 255, 0, 255, 0, 255, 16, 8, 0, 0, 0, 0]
    );
}

#[test]
fn set_encodings_message_keeps_order() {
    let m = set_encodings_message(&[5, 0]);
    assert_eq!(
        m,
        vec![2, 0, 0, 2, 0, 0, 0, 5, 0, 0, 0, 0]
    );
}

#[test]
fn set_encodings_message_negative_identifier() {
    let m = set_encodings_message(&[-239]);
    assert_eq!(m, vec![2, 0, 0, 1, 0xff, 0xff, 0xff, 0x11]);
}

#[test]
fn framebuffer_update_request_layout() {
    let m = framebuffer_update_request_message(true, 0x0102, 0x0304, 0x0506, 0x0708);
    assert_eq!(m, vec![3, 1, 1, 2, 3, 4, 5, 6, 7, 8]);
    let m = framebuffer_update_request_message(false, 0, 0, 800, 600);
    assert_eq!(m, vec![3, 0, 0, 0, 0, 0, 3, 32, 2, 88]);
}

#[test]
fn fresh_handshake_starts_at_version() {
    let hs = Handshake::new();
    assert!(matches!(hs.state, HandshakeState::Version));
    assert_eq!(hs.expected_input(), 12);
    assert!(!hs.is_done());
    assert_eq!(hs.screen_w, 0);
    assert_eq!(hs.screen_h, 0);
    assert_eq!(hs.pixel_format, None);
    assert!(hs.name.is_empty());
}
