use std::str::FromStr;

use neon_core::bigint::{bigint, digits_from_le_bytes, GetBigIntLossyValueResult, JsBigInt, Sign};
use num_bigint_dig::BigInt;

// A `BigInt` written as a decimal literal; the tests use it where a
// JavaScript test would evaluate a literal such as `42n`.
fn lit(n: &str) -> JsBigInt {
    bigint(n).unwrap()
}

fn strict_eq(l: &JsBigInt, r: &JsBigInt) {
    assert!(l.strict_equals(r), "Expected {:?} to equal {:?}", l, r);
}

// Converts to a `num_bigint_dig::BigInt` through the little-endian digits.
fn to_bigint(b: &JsBigInt) -> BigInt {
    let (sign, digits) = b.to_digits_le();
    let mut bytes = Vec::new();
    for d in digits {
        bytes.extend_from_slice(&d.to_le_bytes());
    }
    let sign = match sign {
        Sign::Positive => num_bigint_dig::Sign::Plus,
        Sign::Negative => num_bigint_dig::Sign::Minus,
    };
    BigInt::from_bytes_le(sign, &bytes)
}

#[test]
fn test_from_u64() {
    strict_eq(&JsBigInt::from_u64(0), &lit("0"));
    strict_eq(&JsBigInt::from_u64(42), &lit("42"));
    strict_eq(&JsBigInt::from_u64(u64::MAX), &lit(&u64::MAX.to_string()));
}

#[test]
fn test_from_i64() {
    strict_eq(&JsBigInt::from_i64(0), &lit("0"));
    strict_eq(&JsBigInt::from_i64(42), &lit("42"));
    strict_eq(&JsBigInt::from_i64(-42), &lit("-42"));
    strict_eq(&JsBigInt::from_i64(i64::MAX), &lit(&i64::MAX.to_string()));
    strict_eq(&JsBigInt::from_i64(i64::MIN), &lit(&i64::MIN.to_string()));
}

#[test]
fn test_from_u128() {
    strict_eq(&JsBigInt::from_u128(0), &lit("0"));
    strict_eq(&JsBigInt::from_u128(42), &lit("42"));
    // 2n ** 128n - 1n
    strict_eq(
        &JsBigInt::from_u128(u128::MAX),
        &lit("340282366920938463463374607431768211455"),
    );
    // 2n ** 128n - 2n
    strict_eq(
        &JsBigInt::from_u128(u128::MAX - 1),
        &lit("340282366920938463463374607431768211454"),
    );
}

#[test]
fn test_from_i128() {
    strict_eq(&JsBigInt::from_i128(0), &lit("0"));
    strict_eq(&JsBigInt::from_i128(42), &lit("42"));
    strict_eq(&JsBigInt::from_i128(-42), &lit("-42"));
    // 2n ** 127n - 1n
    strict_eq(
        &JsBigInt::from_i128(i128::MAX),
        &lit("170141183460469231731687303715884105727"),
    );
    // 2n ** 127n - 2n
    strict_eq(
        &JsBigInt::from_i128(i128::MAX - 1),
        &lit("170141183460469231731687303715884105726"),
    );
    // -(2n ** 127n)
    strict_eq(
        &JsBigInt::from_i128(i128::MIN),
        &lit("-170141183460469231731687303715884105728"),
    );
    // -(2n ** 127n - 1n)
    strict_eq(
        &JsBigInt::from_i128(i128::MIN + 1),
        &lit("-170141183460469231731687303715884105727"),
    );
}

#[test]
fn test_from_digits_le() {
    strict_eq(&lit("0"), &JsBigInt::from_u64(0));
    strict_eq(&lit("42"), &JsBigInt::from_u64(42));
    strict_eq(&lit("-42"), &JsBigInt::from_i64(-42));
    strict_eq(
        &lit("170141183460469231731687303715884105727"),
        &JsBigInt::from_i128(i128::MAX),
    );
    strict_eq(
        &lit("-170141183460469231731687303715884105728"),
        &JsBigInt::from_i128(i128::MIN),
    );
    let ten_pow_40 = lit("10000000000000000000000000000000000000000");
    assert_eq!(
        to_bigint(&ten_pow_40),
        BigInt::from_str("10000000000000000000000000000000000000000").unwrap()
    );
    let minus_ten_pow_40 = lit("-10000000000000000000000000000000000000000");
    assert_eq!(
        to_bigint(&minus_ten_pow_40),
        BigInt::from_str("-10000000000000000000000000000000000000000").unwrap()
    );
    let (sign, digits) = ten_pow_40.to_digits_le();
    strict_eq(&JsBigInt::from_digits_le(sign, &digits), &ten_pow_40);
    strict_eq(
        &JsBigInt::from_digits_le(Sign::Negative, &digits),
        &minus_ten_pow_40,
    );
}

#[test]
fn test_to_u64() {
    assert_eq!(JsBigInt::from_u64(0).to_u64().unwrap(), 0);
    assert_eq!(JsBigInt::from_u64(42).to_u64().unwrap(), 42);
    assert_eq!(JsBigInt::from_u64(u64::MAX).to_u64().unwrap(), u64::MAX);
}

#[test]
fn test_to_i64() {
    assert_eq!(JsBigInt::from_i64(0).to_i64().unwrap(), 0);
    assert_eq!(JsBigInt::from_i64(42).to_i64().unwrap(), 42);
    assert_eq!(JsBigInt::from_i64(-42).to_i64().unwrap(), -42);
    assert_eq!(JsBigInt::from_i64(i64::MAX).to_i64().unwrap(), i64::MAX);
    assert_eq!(JsBigInt::from_i64(i64::MIN).to_i64().unwrap(), i64::MIN);
}

#[test]
fn test_to_u128() {
    assert_eq!(JsBigInt::from_u128(0).to_u128().unwrap(), 0);
    assert_eq!(JsBigInt::from_u128(42).to_u128().unwrap(), 42);
    assert_eq!(JsBigInt::from_u128(u128::MAX).to_u128().unwrap(), u128::MAX);

    // Extra trailing zeroes
    assert_eq!(
        JsBigInt::from_digits_le(JsBigInt::POSITIVE, &[u64::MAX, u64::MAX, 0, 0, 0, 0])
            .to_u128()
            .unwrap(),
        u128::MAX
    );
}

#[test]
fn test_to_i128() {
    assert_eq!(JsBigInt::from_i128(0).to_i128().unwrap(), 0);
    assert_eq!(JsBigInt::from_i128(42).to_i128().unwrap(), 42);
    assert_eq!(JsBigInt::from_i128(-42).to_i128().unwrap(), -42);
    assert_eq!(JsBigInt::from_i128(i128::MAX).to_i128().unwrap(), i128::MAX);
    assert_eq!(JsBigInt::from_i128(i128::MIN).to_i128().unwrap(), i128::MIN);
}

#[test]
fn test_to_digits_le() {
    for s in [
        "0",
        "42",
        "-42",
        "170141183460469231731687303715884105727",
        "-170141183460469231731687303715884105728",
        "10000000000000000000000000000000000000000",
        "-10000000000000000000000000000000000000000",
    ] {
        assert_eq!(to_bigint(&lit(s)), BigInt::from_str(s).unwrap());
    }
}

#[test]
fn test_very_large_number() {
    // 2048-bit prime; unlike the rest of the tests, this number is big-endian
    let n = BigInt::from_bytes_be(
        num_bigint_dig::Sign::Plus,
        &[
            228, 178, 58, 23, 125, 164, 107, 153, 254, 98, 85, 252, 29, 61, 8, 237, 212, 36, 173,
            205, 116, 52, 16, 155, 131, 82, 59, 211, 132, 139, 212, 101, 10, 26, 60, 44, 172, 86,
            50, 42, 9, 124, 188, 236, 77, 46, 209, 64, 239, 34, 99, 8, 235, 165, 5, 41, 159, 211,
            186, 197, 140, 111, 43, 15, 111, 132, 255, 148, 36, 12, 25, 221, 208, 162, 234, 45, 22,
            13, 251, 157, 103, 50, 181, 2, 53, 81, 15, 137, 129, 10, 130, 212, 74, 125, 80, 188,
            19, 218, 236, 189, 234, 145, 234, 232, 9, 218, 167, 111, 33, 62, 81, 96, 83, 125, 242,
            217, 179, 211, 109, 16, 210, 250, 133, 130, 86, 182, 110, 213, 74, 78, 34, 210, 88, 3,
            178, 73, 231, 53, 188, 187, 76, 247, 205, 154, 190, 200, 211, 75, 63, 34, 246, 160,
            193, 98, 7, 85, 40, 208, 47, 157, 34, 120, 235, 136, 101, 88, 174, 149, 180, 114, 197,
            230, 116, 47, 152, 253, 212, 191, 90, 151, 204, 6, 51, 179, 73, 128, 141, 192, 107, 74,
            205, 130, 56, 115, 202, 96, 79, 187, 196, 49, 118, 18, 251, 34, 64, 208, 38, 25, 35,
            195, 231, 195, 201, 224, 110, 205, 213, 92, 192, 23, 48, 165, 126, 145, 18, 30, 230,
            83, 229, 187, 138, 177, 74, 15, 209, 151, 83, 160, 246, 77, 59, 228, 57, 112, 165, 4,
            10, 11, 95, 213, 115, 187, 240, 57, 5, 117,
        ],
    );

    assert_eq!(to_bigint(&lit(&n.to_string())), n);
}

#[test]
fn test_i64_out_of_range() {
    let r = JsBigInt::from_i128((i64::MIN as i128) - 1).to_i64();
    assert!(r.is_err());
    assert_eq!(*r.unwrap_err().get_lossy(), i64::MAX);
}

#[test]
fn test_u64_out_of_range() {
    let r = JsBigInt::from_u128((u64::MAX as u128) + 1).to_u64();
    assert!(r.is_err());
    assert_eq!(r.unwrap_err().into_lossy(), 0);
}

#[test]
fn test_i128_extra_digits() {
    // 2n ** 128n
    let r = lit("340282366920938463463374607431768211456").to_i128();
    assert!(r.is_err());
    assert_eq!(*r.unwrap_err().get_lossy(), 0);
}

#[test]
fn test_i128_overflow() {
    // 2n ** 127n
    let r = lit("170141183460469231731687303715884105728").to_i128();
    assert!(r.is_err());
    assert_eq!(*r.unwrap_err().get_lossy(), i128::MIN);
}

#[test]
fn test_i128_underflow() {
    // -(2n ** 127n + 1n)
    let r = lit("-170141183460469231731687303715884105729").to_i128();
    assert!(r.is_err());
    assert_eq!(*r.unwrap_err().get_lossy(), i128::MAX);
}

#[test]
fn test_u128_overflow() {
    // 2n ** 127n, read as a signed 128-bit integer
    let r = lit("170141183460469231731687303715884105728").to_i128();
    assert!(r.is_err());
}

#[test]
fn test_u128_underflow() {
    let r = lit("-1").to_u128();
    assert!(r.is_err());
    assert_eq!(*r.unwrap_err().get_lossy(), u128::MAX);
}

#[test]
fn u128_too_large_is_lossy() {
    let r = lit("340282366920938463463374607431768211457").to_u128();
    assert_eq!(*r.unwrap_err().get_lossy(), 1);
}

#[test]
fn value_i64_reports_loss() {
    assert_eq!(
        JsBigInt::from_i64(-5).value_i64(),
        GetBigIntLossyValueResult { value: -5, lossless: true }
    );
    assert_eq!(
        JsBigInt::from_u64(u64::MAX).value_i64(),
        GetBigIntLossyValueResult { value: -1, lossless: false }
    );
    assert_eq!(
        JsBigInt::from_i64(-1).value_u64(),
        GetBigIntLossyValueResult { value: u64::MAX, lossless: false }
    );
    assert_eq!(
        JsBigInt::from_u64(7).value_u64(),
        GetBigIntLossyValueResult { value: 7, lossless: true }
    );
}

#[test]
fn new_is_from_i64() {
    assert!(JsBigInt::new(-9).strict_equals(&JsBigInt::from_i64(-9)));
}

#[test]
fn zero_is_positive() {
    let z = JsBigInt::from_digits_le(Sign::Negative, &[0, 0]);
    assert_eq!(z.to_digits_le(), (Sign::Positive, vec![]));
    assert!(z.strict_equals(&JsBigInt::from_u64(0)));
    assert!(lit("-0").strict_equals(&JsBigInt::from_u64(0)));
}

#[test]
fn strict_equals_distinguishes_sign() {
    assert!(!JsBigInt::from_i64(5).strict_equals(&JsBigInt::from_i64(-5)));
    assert!(!JsBigInt::from_u64(5).strict_equals(&JsBigInt::from_u64(6)));
}

#[test]
fn literal_parse_errors() {
    assert_eq!(bigint("").unwrap_err(), "cannot parse integer from empty string");
    assert_eq!(bigint("-").unwrap_err(), "cannot parse integer from empty string");
    assert_eq!(bigint("12a").unwrap_err(), "invalid digit found in string");
    assert_eq!(bigint("_1").unwrap_err(), "invalid digit found in string");
    assert_eq!(bigint("--1").unwrap_err(), "invalid digit found in string");
    assert_eq!(bigint("-+42").unwrap_err(), "invalid digit found in string");
    assert_eq!(bigint("+").unwrap_err(), "cannot parse integer from empty string");
}

#[test]
fn literal_signs_and_separators() {
    assert!(lit("+42").strict_equals(&JsBigInt::from_u64(42)));
    assert!(lit("1_000").strict_equals(&JsBigInt::from_u64(1000)));
}

#[test]
fn le_bytes_become_digits() {
    assert_eq!(digits_from_le_bytes(&[]), Vec::<u64>::new());
    assert_eq!(digits_from_le_bytes(&[1, 2]), vec![0x0201]);
    assert_eq!(
        digits_from_le_bytes(&[0, 0, 0, 0, 0, 0, 0, 0, 5]),
        vec![0, 5]
    );
}

#[test]
fn lossy_result_display_and_value() {
    let r = JsBigInt::from_i64(-42).value_i64();
    assert_eq!(r.to_string(), "-42");
    assert_eq!(r.into_value(), -42);
    let r = JsBigInt::from_u64(u64::MAX).value_u64();
    assert_eq!(r.to_string(), u64::MAX.to_string());
}
