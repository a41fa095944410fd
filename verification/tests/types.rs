use yew_ethereum_provider::types::{Address, Uint256};

fn small(n: u64) -> Uint256 {
    Uint256 { limbs: [n, 0, 0, 0] }
}

fn counting_address() -> Address {
    let mut bytes = [0u8; 20];
    for (i, b) in bytes.iter_mut().enumerate() {
        *b = (i as u8) * 13 + 1;
    }
    Address { bytes }
}

#[test]
fn parses_small_decimal() {
    let v = Uint256::from_dec_str("137").expect("a decimal number");
    assert_eq!(v.limbs, [137, 0, 0, 0]);
}

#[test]
fn parses_empty_text_as_zero() {
    let v = Uint256::from_dec_str("").expect("the empty text stands for zero");
    assert_eq!(v.limbs, [0, 0, 0, 0]);
}

#[test]
fn parses_leading_zeros() {
    let v = Uint256::from_dec_str("0007").expect("leading zeros do not count");
    assert_eq!(v.limbs, [7, 0, 0, 0]);
}

#[test]
fn parses_across_limbs() {
    let v = Uint256::from_dec_str("18446744073709551616").expect("two to the 64th");
    assert_eq!(v.limbs, [0, 1, 0, 0]);
    let w = Uint256::from_dec_str("340282366920938463463374607431768211457").expect("2^128 + 1");
    assert_eq!(w.limbs, [1, 0, 1, 0]);
}

#[test]
fn parses_largest_value() {
    let text = "115792089237316195423570985008687907853269984665640564039457584007913129639935";
    let v = Uint256::from_dec_str(text).expect("two to the 256th less one");
    assert_eq!(v.limbs, [u64::MAX, u64::MAX, u64::MAX, u64::MAX]);
}

#[test]
fn rejects_value_at_the_limit() {
    let text = "115792089237316195423570985008687907853269984665640564039457584007913129639936";
    assert!(Uint256::from_dec_str(text).is_none());
    let longer = "1157920892373161954235709850086879078532699846656405640394575840079131296399350";
    assert!(Uint256::from_dec_str(longer).is_none());
}

#[test]
fn rejects_text_that_is_not_decimal() {
    assert!(Uint256::from_dec_str("12a").is_none());
    assert!(Uint256::from_dec_str("0x10").is_none());
    assert!(Uint256::from_dec_str("+1").is_none());
    assert!(Uint256::from_dec_str("-1").is_none());
    assert!(Uint256::from_dec_str(" 1").is_none());
    assert!(Uint256::from_dec_str("1.0").is_none());
    assert!(Uint256::from_dec_str("\u{ff11}").is_none());
    assert!(Uint256::from_dec_str("/").is_none());
    assert!(Uint256::from_dec_str(":").is_none());
}

#[test]
fn as_u64_gives_the_low_limb() {
    assert_eq!(small(0).as_u64(), 0);
    assert_eq!(small(5).as_u64(), 5);
    assert_eq!(small(u64::MAX).as_u64(), u64::MAX);
}

#[test]
fn hex_of_small_values() {
    assert_eq!(small(0).to_hex(), "0x0");
    assert_eq!(small(1).to_hex(), "0x1");
    assert_eq!(small(10).to_hex(), "0xA");
    assert_eq!(small(137).to_hex(), "0x89");
    assert_eq!(small(255).to_hex(), "0xFF");
    assert_eq!(small(43981).to_hex(), "0xABCD");
}

#[test]
fn hex_across_limbs() {
    assert_eq!(Uint256 { limbs: [0, 1, 0, 0] }.to_hex(), "0x10000000000000000");
    assert_eq!(
        Uint256 { limbs: [u64::MAX, u64::MAX, u64::MAX, u64::MAX] }.to_hex(),
        format!("0x{}", "F".repeat(64))
    );
    assert_eq!(
        Uint256 { limbs: [0x1f, 0, 0, 0xa0] }.to_hex(),
        format!("0xA0{}1F", "0".repeat(46))
    );
}

#[test]
fn decimal_of_values() {
    assert_eq!(small(0).to_decimal(), "0");
    assert_eq!(small(9).to_decimal(), "9");
    assert_eq!(small(10).to_decimal(), "10");
    assert_eq!(small(137).to_decimal(), "137");
    assert_eq!(Uint256 { limbs: [0, 1, 0, 0] }.to_decimal(), "18446744073709551616");
    assert_eq!(
        Uint256 { limbs: [u64::MAX, u64::MAX, u64::MAX, u64::MAX] }.to_decimal(),
        "115792089237316195423570985008687907853269984665640564039457584007913129639935"
    );
}

#[test]
fn decimal_text_reads_back() {
    let values = [
        [0u64, 0, 0, 0],
        [1, 0, 0, 0],
        [u64::MAX, 0, 0, 0],
        [0, 0, 0, 1],
        [3, 1, 4, 1],
        [u64::MAX, u64::MAX, u64::MAX, u64::MAX],
    ];
    for limbs in values {
        let text = Uint256 { limbs }.to_decimal();
        let back = Uint256::from_dec_str(&text).expect("decimal text reads back");
        assert_eq!(back.limbs, limbs);
    }
}

#[test]
fn full_address_text() {
    let a = counting_address();
    assert_eq!(a.to_full_string(), "0x010e1b2835424f5c697683909daab7c4d1deebf8");
    let zero = Address { bytes: [0u8; 20] };
    assert_eq!(zero.to_full_string(), format!("0x{}", "0".repeat(40)));
    let ones = Address { bytes: [0xffu8; 20] };
    assert_eq!(ones.to_full_string(), format!("0x{}", "f".repeat(40)));
}

#[test]
fn short_address_text() {
    let a = counting_address();
    assert_eq!(a.to_short_string(), "0x010e\u{2026}ebf8");
    let zero = Address { bytes: [0u8; 20] };
    assert_eq!(zero.to_short_string(), "0x0000\u{2026}0000");
    assert_eq!(zero.to_short_string().chars().count(), 11);
}

#[test]
fn short_text_is_cut_from_the_full_text() {
    for a in [counting_address(), Address { bytes: [0u8; 20] }, Address { bytes: [0x9cu8; 20] }] {
        let full: Vec<char> = a.to_full_string().chars().collect();
        let short: Vec<char> = a.to_short_string().chars().collect();
        assert_eq!(full.len(), 42);
        assert_eq!(short.len(), 11);
        let mut cut: Vec<char> = full[0..6].to_vec();
        cut.push('\u{2026}');
        cut.extend_from_slice(&full[38..42]);
        assert_eq!(short, cut);
    }
}
