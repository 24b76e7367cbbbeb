use crypto::hmac::Hmac;
use crypto::mac::Mac;
use crypto::sha2::Sha512;
use epifetch::signing::{do_hamxc_login_passwd, hash_passwd};
use epifetch::text::{bytes_to_hex, i32_to_decimal, json_quote, parse_i32, u64_to_decimal};

#[test]
fn decimal_of_unsigned() {
    assert_eq!(u64_to_decimal(0), "0");
    assert_eq!(u64_to_decimal(7), "7");
    assert_eq!(u64_to_decimal(1234), "1234");
    assert_eq!(u64_to_decimal(u64::MAX), u64::MAX.to_string());
}

#[test]
fn decimal_of_signed() {
    assert_eq!(i32_to_decimal(0), "0");
    assert_eq!(i32_to_decimal(-5), "-5");
    assert_eq!(i32_to_decimal(2019), "2019");
    assert_eq!(i32_to_decimal(i32::MAX), "2147483647");
    assert_eq!(i32_to_decimal(i32::MIN), "-2147483648");
}

#[test]
fn parse_accepts_what_std_accepts() {
    assert_eq!(parse_i32("42"), Some(42));
    assert_eq!(parse_i32("+7"), Some(7));
    assert_eq!(parse_i32("-0"), Some(0));
    assert_eq!(parse_i32("007"), Some(7));
    assert_eq!(parse_i32("-2147483648"), Some(i32::MIN));
    assert_eq!(parse_i32("2147483647"), Some(i32::MAX));
}

#[test]
fn parse_refuses_what_std_refuses() {
    for s in ["", "-", "+", "12a", " 1", "1 ", "2147483648", "-2147483649", "99999999999999999999", "+-1", "1.5"] {
        assert_eq!(parse_i32(s), None, "{:?}", s);
        assert!(s.parse::<i32>().is_err());
    }
}

#[test]
fn parse_reads_back_decimal_text() {
    for n in [0, 1, -1, 9, 10, -10, 45, 100, 65535, i32::MAX, i32::MIN, -123456789] {
        assert_eq!(parse_i32(&i32_to_decimal(n)), Some(n));
    }
}

#[test]
fn hex_of_bytes() {
    assert_eq!(bytes_to_hex(&[]), "");
    assert_eq!(bytes_to_hex(&[0x00, 0xab, 0xff, 0x10]), "00abff10");
}

#[test]
fn json_string_literals() {
    assert_eq!(json_quote("login"), "\"login\"");
    assert_eq!(json_quote(""), "\"\"");
    assert_eq!(json_quote("a\"b\\c\nd\te\u{1}\u{8}\u{c}\r"), "\"a\\\"b\\\\c\\nd\\te\\u0001\\b\\f\\r\"");
    assert_eq!(json_quote("é/ü"), "\"é/ü\"");
}

#[test]
fn password_is_stored_as_sha512_hex() {
    let h = hash_passwd(&"abc".to_string());
    assert_eq!(
        h,
        "ddaf35a193617abacc417349ae20413112e6fa4e89a97ea20a9eeee64b55d39a2192992a274fc1a836ba3c23a3feebbd454d4423643ce80e2a9ac94fa54ca49f"
    );
    let empty = hash_passwd(&String::new());
    assert_eq!(
        empty,
        "cf83e1357eefb8bdf1542850d66d8007d620e4050b5715dc83f4a921d36ce9ce47d0d13c5d85f2b0ff8318d2877eec2f63b931bd47417a81a538327af927da3e"
    );
    assert_eq!(empty.len(), 128);
}

const JEFE_HMAC: &str = "164b7a7bfcf819e2e395fbe73b56e0a387bd64222e831fd610270cd7ea2505549758bf75c05a994a6d034f65f8f0e6fdcaeab1a34d4a6b4b636e070a38bce737";

#[test]
fn signature_is_hmac_sha512_of_login() {
    let sig = do_hamxc_login_passwd(&"Jefe".to_string(), &"what do ya want for nothing?".to_string(), None);
    assert_eq!(sig, JEFE_HMAC);
}

#[test]
fn signature_covers_login_then_data() {
    let sig = do_hamxc_login_passwd(
        &"Jefe".to_string(),
        &"what do ya want ".to_string(),
        Some("for nothing?".to_string()),
    );
    assert_eq!(sig, JEFE_HMAC);
    let other = do_hamxc_login_passwd(&"Jefe".to_string(), &"what do ya want ".to_string(), None);
    assert_ne!(other, JEFE_HMAC);
    assert_eq!(other.len(), 128);
}

#[test]
fn signature_with_a_key_longer_than_a_block() {
    let key = "k".repeat(200);
    let mut mac = Hmac::new(Sha512::new(), key.as_bytes());
    mac.input(b"loginpayload");
    let expected = bytes_to_hex(mac.result().code());
    let sig = do_hamxc_login_passwd(&key, &"login".to_string(), Some("payload".to_string()));
    assert_eq!(sig, expected);
    assert_eq!(sig.len(), 128);
}
