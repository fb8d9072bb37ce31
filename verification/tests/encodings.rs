use satbounty::util::{
    create_uuid, current_time_millis, from_hex, millis_of_reading, to_base64, to_hex,
    try_from_hex,
};

#[test]
fn hex_of_bytes_is_lower_case_pairs() {
    assert_eq!(to_hex(&vec![1, 2, 3, 15, 16]), "0102030f10");
    assert_eq!(to_hex(&vec![0xde, 0xad, 0xbe, 0xef]), "deadbeef");
    assert_eq!(to_hex(&Vec::new()), "");
}

#[test]
fn hex_text_decodes_in_either_case() {
    assert_eq!(from_hex("6b697769"), b"kiwi".to_vec());
    assert_eq!(from_hex("DEADbeef"), vec![0xde, 0xad, 0xbe, 0xef]);
    assert_eq!(from_hex(""), Vec::<u8>::new());
}

#[test]
fn hex_text_that_is_odd_or_foreign_is_refused() {
    assert_eq!(try_from_hex("abc"), None);
    assert_eq!(try_from_hex("zz"), None);
    assert_eq!(try_from_hex("0g"), None);
    assert_eq!(try_from_hex("00ff"), Some(vec![0, 255]));
}

#[test]
fn hex_round_trip() {
    let bytes: Vec<u8> = (0..=255u16).map(|b| b as u8).collect();
    assert_eq!(from_hex(&to_hex(&bytes)), bytes);
}

#[test]
fn base64_of_bytes_is_standard_with_padding() {
    assert_eq!(to_base64(&b"hello world".to_vec()), "aGVsbG8gd29ybGQ=");
    assert_eq!(to_base64(&vec![0xfb, 0xff]), "+/8=");
    assert_eq!(to_base64(&Vec::new()), "");
}

#[test]
fn uuid_has_the_shape_of_a_random_uuid() {
    let id = create_uuid();
    let chars: Vec<char> = id.chars().collect();
    assert_eq!(chars.len(), 36);
    for (i, c) in chars.iter().enumerate() {
        if i == 8 || i == 13 || i == 18 || i == 23 {
            assert_eq!(*c, '-');
        } else {
            assert!(c.is_ascii_digit() || ('a'..='f').contains(c));
        }
    }
    assert_eq!(chars[14], '4');
    assert!(matches!(chars[19], '8' | '9' | 'a' | 'b'));
    assert_ne!(create_uuid(), id);
}

#[test]
fn clock_reads_after_the_year_2020() {
    let now = current_time_millis();
    assert!(now > 1_577_836_800_000);
    assert!(current_time_millis() >= now);
}

#[test]
fn a_clock_reading_is_reduced_to_64_bits() {
    assert_eq!(millis_of_reading(Some(0)), 0);
    assert_eq!(millis_of_reading(Some(1_700_000_000_123)), 1_700_000_000_123);
    assert_eq!(millis_of_reading(Some(u64::MAX as u128)), u64::MAX);
    assert_eq!(millis_of_reading(Some(u64::MAX as u128 + 8)), 7);
    assert_eq!(millis_of_reading(Some(u128::MAX)), u64::MAX);
    assert_eq!(millis_of_reading(None), 0);
}
