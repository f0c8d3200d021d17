use firewall_probe::conn::wire::{decode_cookie, encode_cookie, COOKIE_LEN};

#[test]
fn cookie_takes_sixteen_bytes() {
    assert_eq!(COOKIE_LEN, 16);
    assert_eq!(encode_cookie(0).len(), COOKIE_LEN);
}

#[test]
fn encode_zero_and_max() {
    assert_eq!(encode_cookie(0), [0u8; 16]);
    assert_eq!(encode_cookie(u128::MAX), [0xffu8; 16]);
}

#[test]
fn encode_is_big_endian() {
    let mut expected = [0u8; 16];
    expected[15] = 1;
    assert_eq!(encode_cookie(1), expected);

    let mut expected = [0u8; 16];
    expected[0] = 0x80;
    assert_eq!(encode_cookie(1u128 << 127), expected);

    assert_eq!(
        encode_cookie(0x0102_0304_0506_0708_090a_0b0c_0d0e_0f10),
        [1, 2, 3, 4, 5, 6, 7, 8, 9, 10, 11, 12, 13, 14, 15, 16]
    );
}

#[test]
fn decode_is_big_endian() {
    let mut bytes = [0u8; 16];
    bytes[15] = 1;
    assert_eq!(decode_cookie(&bytes), 1);
    bytes[14] = 1;
    assert_eq!(decode_cookie(&bytes), 257);
    assert_eq!(
        decode_cookie(&[1, 2, 3, 4, 5, 6, 7, 8, 9, 10, 11, 12, 13, 14, 15, 16]),
        0x0102_0304_0506_0708_090a_0b0c_0d0e_0f10
    );
    assert_eq!(decode_cookie(&[0xff; 16]), u128::MAX);
    assert_eq!(decode_cookie(&[0; 16]), 0);
}

#[test]
fn encode_agrees_with_the_standard_library() {
    let samples = [
        0u128,
        1,
        255,
        256,
        0xdead_beef,
        0x8000_0000_0000_0000_0000_0000_0000_0000,
        0x0123_4567_89ab_cdef_fedc_ba98_7654_3210,
        u128::MAX - 1,
        u128::MAX,
    ];
    for cookie in samples {
        assert_eq!(encode_cookie(cookie), cookie.to_be_bytes());
        assert_eq!(decode_cookie(&cookie.to_be_bytes()), cookie);
    }
}

#[test]
fn cookie_round_trip() {
    let mut cookie: u128 = 0x9e37_79b9_7f4a_7c15_f39c_c060_5ced_c834;
    for _ in 0..200 {
        assert_eq!(decode_cookie(&encode_cookie(cookie)), cookie);
        cookie = cookie.wrapping_mul(0x5851_f42d_4c95_7f2d_1405_7b7e_f767_814f).wrapping_add(1);
    }
}

#[test]
fn bytes_round_trip() {
    let mut bytes = [0u8; 16];
    for round in 0..100u32 {
        for (i, byte) in bytes.iter_mut().enumerate() {
            *byte = (round.wrapping_mul(31).wrapping_add(i as u32 * 7) % 256) as u8;
        }
        assert_eq!(encode_cookie(decode_cookie(&bytes)), bytes);
    }
}
