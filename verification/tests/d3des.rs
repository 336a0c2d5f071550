use rfb_core::d3des::{Des, Direction};

#[test]
fn test_gen_key() {
    let des = Des::new(b"bananen!", Direction::Encrypt);
    println!("{:?}", des.generated_key());
}

#[test]
fn test_scrunch() {
    let source = [0, 1, 2, 3, 4, 5, 6, 7];
    let scrunched = Des::scrunch(&source);
    let unscrunched = Des::unscrunch(&scrunched);
    assert_eq!(source, unscrunched);
}

#[test]
fn test_encrypt_block() {
    let des = Des::new(b"bananen!", Direction::Encrypt);
    let challenge = [1u8, 2, 3, 4, 5, 6, 7, 8, 9, 10, 11, 12, 13, 14, 15, 16];
    let block_a = des.encrypt_block(&challenge[0..8]);
    let block_b = des.encrypt_block(&challenge[8..16]);
    println!("{:x?} {:x?}", block_a, block_b);
}

#[test]
fn scrunch_round_trip_extremes() {
    let source = [0xff, 0x00, 0x80, 0x01, 0x7f, 0xfe, 0xaa, 0x55];
    let unscrunched = Des::unscrunch(&Des::scrunch(&source));
    assert_eq!(source, unscrunched);
}

#[test]
fn single_length_validation_set() {
    // The single-length-key validation input of the cipher this engine
    // derives from. Because the key bits are read most-significant-bit first
    // within each byte — the inversion the authentication scheme requires —
    // the textbook ciphertext c957 4425 6a5e d31d does not apply; this is
    // the variant's own output for that input, pinned here so that any
    // change to the schedule or rounds is caught.
    let key = [0x01, 0x23, 0x45, 0x67, 0x89, 0xab, 0xcd, 0xef];
    let plain = [0x01, 0x23, 0x45, 0x67, 0x89, 0xab, 0xcd, 0xe7];
    let des = Des::new(&key, Direction::Encrypt);
    let cipher = des.encrypt_block(&plain);
    assert_eq!(cipher, [0xdf, 0x78, 0x18, 0x5a, 0x0d, 0x55, 0xc5, 0xe5]);
}

#[test]
fn decrypt_schedule_inverts_encrypt() {
    let key = b"bananen!";
    let enc = Des::new(key, Direction::Encrypt);
    let dec = Des::new(key, Direction::Decrypt);
    let plain = [0x10, 0x32, 0x54, 0x76, 0x98, 0xba, 0xdc, 0xfe];
    let round_trip = dec.encrypt_block(&enc.encrypt_block(&plain));
    assert_eq!(plain, round_trip);
}
