use penrose::text::{bytes_eq, chars_of, join_utf8, str_eq, to_decimal, to_low_i16, to_low_u32};

#[test]
fn chars_of_lists_the_characters() {
    assert_eq!(chars_of(""), Vec::<char>::new());
    assert_eq!(chars_of("a\0\u{e9}"), vec!['a', '\0', '\u{e9}']);
}

#[test]
fn str_eq_compares_whole_strings() {
    assert!(str_eq("", ""));
    assert!(str_eq("WM_NAME", "WM_NAME"));
    assert!(!str_eq("WM_NAME", "WM_NAM"));
    assert!(!str_eq("WM_NAME", "WM_NAMF"));
    assert!(!str_eq("WM_NAME", "_NET_WM_NAME"));
    assert!(bytes_eq(&[1, 2], &[1, 2]));
    assert!(!bytes_eq(&[1, 2], &[2, 1]));
    assert!(!bytes_eq(&[1, 2], &[1]));
}

#[test]
fn join_utf8_puts_the_separator_between() {
    assert_eq!(join_utf8(&[], 0), Vec::<u8>::new());
    assert_eq!(join_utf8(&["one"], 0), b"one".to_vec());
    assert_eq!(join_utf8(&["1", "2", "web"], 0), b"1\x002\x00web".to_vec());
    assert_eq!(join_utf8(&["", ""], 0), vec![0]);
    assert_eq!(join_utf8(&["a", "", "b"], b'/'), b"a//b".to_vec());
    assert_eq!(join_utf8(&["\u{e9}", "x"], 0), vec![0xc3, 0xa9, 0, b'x']);
    for parts in [vec!["1", "2", "3"], vec!["", "mail"], vec![]] {
        assert_eq!(join_utf8(&parts, 0), parts.join("\0").into_bytes());
    }
}

#[test]
fn to_decimal_writes_numbers_without_leading_zeros() {
    assert_eq!(to_decimal(0), "0");
    assert_eq!(to_decimal(7), "7");
    assert_eq!(to_decimal(10), "10");
    assert_eq!(to_decimal(4294967295), "4294967295");
    for n in [9u32, 99, 100, 101, 12345, 1_000_000, 305419896] {
        assert_eq!(to_decimal(n), n.to_string());
    }
}

#[test]
fn to_low_i16_keeps_the_low_sixteen_bits() {
    assert_eq!(to_low_i16(0), 0);
    assert_eq!(to_low_i16(32767), 32767);
    assert_eq!(to_low_i16(32768), -32768);
    assert_eq!(to_low_i16(40000), -25536);
    assert_eq!(to_low_i16(65535), -1);
    assert_eq!(to_low_i16(65536), 0);
    assert_eq!(to_low_i16(66000), 464);
    for v in [1u64, 960, 70000, 0xffff_ffff, 0x1_2345_6789] {
        assert_eq!(to_low_i16(v), v as i16);
    }
}

#[test]
fn to_low_u32_keeps_the_low_thirty_two_bits() {
    assert_eq!(to_low_u32(0), 0);
    assert_eq!(to_low_u32(9), 9);
    assert_eq!(to_low_u32(0xffff_ffff), 0xffff_ffff);
    for v in [1usize, 4096, usize::MAX, usize::MAX / 3] {
        assert_eq!(to_low_u32(v), v as u32);
    }
}
