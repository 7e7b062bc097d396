use invader_core::codec::decode_info;
use invader_core::codec::decode_position;
use invader_core::codec::encode_i64;
use invader_core::codec::encode_info;
use invader_core::codec::encode_position;
use invader_core::codec::parse_i64_range;
use invader_core::codec::InfoTag;

#[test]
fn encoding_is_plain_decimal_text() {
    assert_eq!(encode_i64(0), b"0".to_vec());
    assert_eq!(encode_i64(37), b"37".to_vec());
    assert_eq!(encode_i64(-45), b"-45".to_vec());
    assert_eq!(encode_i64(i64::MAX), b"9223372036854775807".to_vec());
    assert_eq!(encode_i64(i64::MIN), b"-9223372036854775808".to_vec());
}

#[test]
fn parse_accepts_exactly_the_grammar() {
    let ok = |s: &[u8], v: i64| {
        let bytes = s.to_vec();
        assert_eq!(parse_i64_range(&bytes, 0, bytes.len()), Some(v));
    };
    let bad = |s: &[u8]| {
        let bytes = s.to_vec();
        assert_eq!(parse_i64_range(&bytes, 0, bytes.len()), None);
    };
    ok(b"0", 0);
    ok(b"007", 7);
    ok(b"-12", -12);
    ok(b"9223372036854775807", i64::MAX);
    ok(b"-9223372036854775808", i64::MIN);
    bad(b"");
    bad(b"-");
    bad(b"12a");
    bad(b" 12");
    bad(b"+12");
    bad(b"9223372036854775808");
    bad(b"-9223372036854775809");
    bad(b"99999999999999999999999999");
}

#[test]
fn info_round_trip_hp_37_tagged_mine() {
    let msg = encode_info(37, InfoTag::Mine);
    assert_eq!(msg, b"37 m".to_vec());
    assert_eq!(decode_info(&msg), Some((37, InfoTag::Mine)));
}

#[test]
fn info_round_trip_negative_and_opponent() {
    let msg = encode_info(-3, InfoTag::Opponent);
    assert_eq!(msg, b"-3 o".to_vec());
    assert_eq!(decode_info(&msg), Some((-3, InfoTag::Opponent)));
}

#[test]
fn malformed_info_datagrams_are_rejected() {
    let bad = |s: &[u8]| {
        assert_eq!(decode_info(&s.to_vec()), None);
    };
    bad(b"");
    bad(b"37");
    bad(b"37m");
    bad(b"37 z");
    bad(b"37  m");
    bad(b"a7 m");
    bad(b" m");
    bad(b"99999999999999999999 m");
}

#[test]
fn position_round_trip() {
    let msg = encode_position(123, -450);
    assert_eq!(msg, b"123 -450".to_vec());
    assert_eq!(decode_position(&msg), Some((123, -450)));
    assert_eq!(decode_position(&b"0 0".to_vec()), Some((0, 0)));
}

#[test]
fn malformed_position_datagrams_are_rejected() {
    let bad = |s: &[u8]| {
        assert_eq!(decode_position(&s.to_vec()), None);
    };
    bad(b"");
    bad(b"12");
    bad(b"12 ");
    bad(b" 34");
    bad(b"12 34 56");
    bad(b"12  34");
    bad(b"x y");
}
