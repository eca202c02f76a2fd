use api::decimal::{parse_u64, parse_usize, u64_to_decimal, usize_to_decimal};

#[test]
fn formats_like_to_string() {
    for n in [0u64, 1, 9, 10, 11, 99, 100, 101, 12345, u32::MAX as u64, u64::MAX] {
        assert_eq!(u64_to_decimal(n), n.to_string());
    }
    assert_eq!(usize_to_decimal(25), "25");
}

#[test]
fn parses_like_std() {
    let inputs = [
        "0", "+5", "-5", "", "+", "18446744073709551615", "18446744073709551616", "0x10", "1_000",
        "٣", "000123", " 7", "7\n",
    ];
    for s in inputs {
        assert_eq!(parse_u64(s), s.parse::<u64>().ok(), "{:?}", s);
        assert_eq!(parse_usize(s), s.parse::<usize>().ok(), "{:?}", s);
    }
}

#[test]
fn round_trip_many() {
    let mut n: u64 = 1;
    while n < u64::MAX / 3 {
        assert_eq!(parse_u64(&u64_to_decimal(n)), Some(n));
        assert_eq!(parse_u64(&u64_to_decimal(n - 1)), Some(n - 1));
        n = n * 3 + 1;
    }
}
