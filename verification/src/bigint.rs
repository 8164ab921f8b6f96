//! JavaScript `BigInt` values as a sign and little-endian 64-bit digits, with
//! the conversions to and from Rust integers.
//!
//! A value is kept in normal form: no trailing zero digit, and zero is
//! positive with no digits. The conversions to Rust integers report whether
//! they were lossless; a lossy conversion keeps the value modulo `2^bits`, in
//! two's complement for the signed types.

use vstd::arithmetic::div_mod::{
    lemma_fundamental_div_mod, lemma_fundamental_div_mod_converse_div,
    lemma_fundamental_div_mod_converse_mod,
};
use crate::text::{decimal_chars, digit_char, i64_to_decimal, int_decimal_chars, u64_to_decimal};
use num_bigint_dig::BigInt;
use std::str::FromStr;
use vstd::prelude::*;

verus! {

/// The base of the digits, `2^64`.
pub open spec fn digit_base() -> int {
    0x1_0000_0000_0000_0000int
}

/// `2^128`.
pub open spec fn double_digit_base() -> int {
    0x1_0000_0000_0000_0000_0000_0000_0000_0000int
}

/// The natural number written by little-endian 64-bit digits.
pub open spec fn digits_value(d: Seq<u64>) -> nat
    decreases d.len(),
{
    if d.len() == 0 {
        0
    } else {
        (d[0] as nat) + 0x1_0000_0000_0000_0000nat * digits_value(d.drop_first())
    }
}

/// No trailing zero digit.
pub open spec fn digits_normalized(d: Seq<u64>) -> bool {
    d.len() == 0 || d.last() != 0
}

/// The sign of a `BigInt`.
#[derive(Clone, Copy, Debug, PartialEq, Eq, Structural)]
pub enum Sign {
    Positive,
    Negative,
}

/// Digits are read least significant first, in base `2^64`.
pub proof fn lemma_digits_value_base(x: u64, y: u64)
    ensures
        digits_value(Seq::<u64>::empty()) == 0,
        digits_value(seq![x]) == x,
        digits_value(seq![x, y]) == x + 0x1_0000_0000_0000_0000 * y,
{
    assert(seq![x].drop_first() =~= Seq::<u64>::empty());
    assert(seq![x, y].drop_first() =~= seq![y]);
    assert(seq![y].drop_first() =~= Seq::<u64>::empty());
    assert(digits_value(seq![y].drop_first()) == 0);
    assert(seq![y][0] == y);
    assert(digits_value(seq![y]) == y);
    assert(seq![x, y][0] == x);
    assert(digits_value(seq![x, y]) == x + 0x1_0000_0000_0000_0000nat * digits_value(seq![y]));
}

/// A trailing zero digit does not change the value.
pub proof fn lemma_push_zero(d: Seq<u64>)
    ensures
        digits_value(d.push(0)) == digits_value(d),
    decreases d.len(),
{
    if d.len() == 0 {
        assert(d.push(0).drop_first() =~= Seq::<u64>::empty());
        assert(digits_value(d.push(0).drop_first()) == 0);
    } else {
        lemma_push_zero(d.drop_first());
        assert(d.push(0).drop_first() =~= d.drop_first().push(0));
    }
}

/// Digits from position `k` on that are all zero do not count.
pub proof fn lemma_trailing_zeros(d: Seq<u64>, k: int)
    requires
        0 <= k <= d.len(),
        forall|j: int| k <= j < d.len() ==> d[j] == 0,
    ensures
        digits_value(d.subrange(0, k)) == digits_value(d),
    decreases d.len() - k,
{
    if k < d.len() {
        lemma_trailing_zeros(d, k + 1);
        assert(d.subrange(0, k + 1) =~= d.subrange(0, k).push(0));
        lemma_push_zero(d.subrange(0, k));
    } else {
        assert(d.subrange(0, k) =~= d);
    }
}

/// A nonzero digit makes the value nonzero.
pub proof fn lemma_nonzero_digit(d: Seq<u64>, i: int)
    requires
        0 <= i < d.len(),
        d[i] != 0,
    ensures
        digits_value(d) > 0,
    decreases d.len(),
{
    if i > 0 {
        lemma_nonzero_digit(d.drop_first(), i - 1);
    }
}

/// The value of normalized digits is at least `2^64` once there are two of
/// them, and at least `2^128` once there are three.
pub proof fn lemma_normalized_lower_bound(d: Seq<u64>)
    requires
        digits_normalized(d),
    ensures
        d.len() >= 1 ==> digits_value(d) >= 1,
        d.len() >= 2 ==> digits_value(d) >= digit_base(),
        d.len() >= 3 ==> digits_value(d) >= double_digit_base(),
{
    if d.len() >= 1 {
        lemma_nonzero_digit(d, d.len() - 1);
    }
    if d.len() >= 2 {
        let r = d.drop_first();
        assert(r.last() == d.last());
        lemma_nonzero_digit(r, r.len() - 1);
        if d.len() >= 3 {
            let r2 = r.drop_first();
            assert(r2.last() == d.last());
            lemma_nonzero_digit(r2, r2.len() - 1);
            assert(digits_value(r) >= digit_base());
        }
    }
}

/// The value of at most one digit is below `2^64`; of at most two, below `2^128`.
pub proof fn lemma_short_upper_bound(d: Seq<u64>)
    ensures
        d.len() <= 1 ==> digits_value(d) < digit_base(),
        d.len() <= 2 ==> digits_value(d) < double_digit_base(),
{
    if d.len() == 1 {
        assert(d.drop_first() =~= Seq::<u64>::empty());
        assert(digits_value(d.drop_first()) == 0);
    }
    if d.len() == 2 {
        let r = d.drop_first();
        assert(r.drop_first() =~= Seq::<u64>::empty());
        assert(digits_value(r.drop_first()) == 0);
        assert(digits_value(r) == r[0] as nat);
        assert(r[0] == d[1]);
    }
}

/// The lowest digit, or zero.
pub open spec fn low_digit(d: Seq<u64>) -> nat {
    if d.len() == 0 {
        0
    } else {
        d[0] as nat
    }
}

/// The second lowest digit, or zero.
pub open spec fn high_digit(d: Seq<u64>) -> nat {
    if d.len() <= 1 {
        0
    } else {
        d[1] as nat
    }
}

/// The value modulo `2^64` is the lowest digit; modulo `2^128`, the two
/// lowest digits.
pub proof fn lemma_value_mod(d: Seq<u64>)
    ensures
        digits_value(d) as int % digit_base() == low_digit(d),
        digits_value(d) as int % double_digit_base() == low_digit(d) + digit_base() * high_digit(d),
{
    if d.len() == 0 {
    } else {
        let v = digits_value(d) as int;
        let r = digits_value(d.drop_first());
        lemma_fundamental_div_mod_converse_mod(v, digit_base(), r as int, d[0] as int);
        if d.len() == 1 {
            assert(d.drop_first() =~= Seq::<u64>::empty());
            assert(digits_value(d.drop_first()) == 0);
            lemma_fundamental_div_mod_converse_mod(v, double_digit_base(), 0, d[0] as int);
        } else {
            let r2 = digits_value(d.drop_first().drop_first());
            assert(r == d[1] as nat + digit_base() * r2);
            assert(v == d[0] + digit_base() * d[1] + double_digit_base() * r2);
            lemma_fundamental_div_mod_converse_mod(
                v,
                double_digit_base(),
                r2 as int,
                d[0] + digit_base() * d[1],
            );
        }
    }
}

/// Normalized digits are determined by their value.
pub proof fn lemma_normal_form_unique(a: Seq<u64>, b: Seq<u64>)
    requires
        digits_normalized(a),
        digits_normalized(b),
        digits_value(a) == digits_value(b),
    ensures
        a == b,
    decreases a.len(),
{
    lemma_normalized_lower_bound(a);
    lemma_normalized_lower_bound(b);
    if a.len() == 0 || b.len() == 0 {
        assert(a.len() == 0 && b.len() == 0);
        assert(a =~= b);
    } else {
        lemma_value_mod(a);
        lemma_value_mod(b);
        let ra = a.drop_first();
        let rb = b.drop_first();
        assert(a[0] == b[0]);
        assert(digits_value(ra) == digits_value(rb));
        assert(digits_normalized(ra)) by {
            if ra.len() > 0 {
                assert(ra.last() == a.last());
            }
        }
        assert(digits_normalized(rb)) by {
            if rb.len() > 0 {
                assert(rb.last() == b.last());
            }
        }
        lemma_normal_form_unique(ra, rb);
        assert(a =~= seq![a[0]] + ra);
        assert(b =~= seq![b[0]] + rb);
    }
}

/// The remainder of a negated natural number.
pub proof fn lemma_neg_mod(m: int, modulus: int)
    requires
        m >= 0,
        modulus > 0,
    ensures
        (-m) % modulus == (if m % modulus == 0 {
            0
        } else {
            modulus - m % modulus
        }),
{
    lemma_fundamental_div_mod(m, modulus);
    let q = m / modulus;
    let r = m % modulus;
    if r == 0 {
        assert(-m == (-q) * modulus + 0) by (nonlinear_arith)
            requires
                m == modulus * q + r,
                r == 0,
        ;
        lemma_fundamental_div_mod_converse_mod(-m, modulus, -q, 0);
    } else {
        assert(-m == (-q - 1) * modulus + (modulus - r)) by (nonlinear_arith)
            requires
                m == modulus * q + r,
        ;
        lemma_fundamental_div_mod_converse_mod(-m, modulus, -q - 1, modulus - r);
    }
}

/// `v` reduced modulo `modulus` into `[0, modulus)`.
pub open spec fn wrap_unsigned(v: int, modulus: int) -> int {
    v % modulus
}

/// `v` reduced modulo `modulus` into `[-modulus/2, modulus/2)`: the two's
/// complement reading of its low bits.
pub open spec fn wrap_signed(v: int, modulus: int) -> int {
    if v % modulus >= modulus / 2 {
        v % modulus - modulus
    } else {
        v % modulus
    }
}

/// The error of a lossy conversion of a `BigInt`; it holds the value that
/// the lossy conversion produced.
#[derive(Debug, PartialEq, Eq, Structural)]
pub struct RangeError<T>(T);

impl<T> RangeError<T> {
    pub closed spec fn spec_lossy(&self) -> T {
        self.0
    }

    /// The value of the lossy conversion.
    pub fn get_lossy(&self) -> (r: &T)
        ensures
            *r == self.spec_lossy(),
    {
        &self.0
    }

    /// The value of the lossy conversion, by value.
    pub fn into_lossy(self) -> (r: T)
        ensures
            r == self.spec_lossy(),
    {
        self.0
    }
}

/// The result of a possibly lossy conversion of a `BigInt` to a Rust integer.
#[derive(Debug, PartialEq, Eq, Structural)]
pub struct GetBigIntLossyValueResult<T> {
    pub value: T,
    /// Indicates whether the BigInt value was converted losslessly
    pub lossless: bool,
}

impl<T> GetBigIntLossyValueResult<T> {
    /// The converted value, lossy or not.
    pub fn into_value(self) -> (r: T)
        ensures
            r == self.value,
    {
        self.value
    }
}

impl GetBigIntLossyValueResult<i64> {
    /// How the result is displayed: its value in decimal.
    pub fn to_string(&self) -> (s: String)
        ensures
            s@ == int_decimal_chars(self.value as int),
    {
        i64_to_decimal(self.value)
    }
}

impl GetBigIntLossyValueResult<u64> {
    /// How the result is displayed: its value in decimal.
    pub fn to_string(&self) -> (s: String)
        ensures
            s@ == decimal_chars(self.value as nat),
    {
        u64_to_decimal(self.value)
    }
}

/// A JavaScript `BigInt` value.
#[derive(Debug)]
pub struct JsBigInt {
    sign: Sign,
    digits: Vec<u64>,
}

/// Digits without trailing zeros: the prefix of `digits` up to its last
/// nonzero digit.
fn normalize(digits: &[u64]) -> (r: Vec<u64>)
    ensures
        digits_normalized(r@),
        digits_value(r@) == digits_value(digits@),
        r@ == digits@.subrange(0, r@.len() as int),
{
    let mut k = digits.len();
    while k > 0 && digits[k - 1] == 0
        invariant
            k <= digits@.len(),
            forall|j: int| k <= j < digits@.len() ==> digits@[j] == 0,
        decreases k,
    {
        k = k - 1;
    }
    let mut r: Vec<u64> = Vec::new();
    let mut i: usize = 0;
    while i < k
        invariant
            i <= k <= digits@.len(),
            r@ == digits@.subrange(0, i as int),
        decreases k - i,
    {
        r.push(digits[i]);
        i = i + 1;
        assert(r@ =~= digits@.subrange(0, i as int));
    }
    proof {
        lemma_trailing_zeros(digits@, k as int);
    }
    r
}

impl JsBigInt {
    /// The positive sign.
    pub const POSITIVE: Sign = Sign::Positive;

    /// The negative sign.
    pub const NEGATIVE: Sign = Sign::Negative;

    pub closed spec fn spec_sign(&self) -> Sign {
        self.sign
    }

    pub closed spec fn spec_digits(&self) -> Seq<u64> {
        self.digits@
    }

    /// Normal form: no trailing zero digit, and zero is positive.
    #[verifier::type_invariant]
    pub closed spec fn inv(&self) -> bool {
        &&& digits_normalized(self.digits@)
        &&& (self.digits@.len() == 0 ==> self.sign == Sign::Positive)
    }

    /// The normal form, as callers see it.
    pub open spec fn normal(&self) -> bool {
        &&& digits_normalized(self.spec_digits())
        &&& (self.spec_digits().len() == 0 ==> self.spec_sign() == Sign::Positive)
    }

    /// The integer this `BigInt` denotes.
    pub open spec fn value(&self) -> int {
        if self.spec_sign() == Sign::Negative {
            -(digits_value(self.spec_digits()) as int)
        } else {
            digits_value(self.spec_digits()) as int
        }
    }

    /// A `BigInt` from a sign and little-endian 64-bit digits. Zero is
    /// positive, whatever sign is given.
    pub fn from_digits_le(sign: Sign, digits: &[u64]) -> (b: JsBigInt)
        ensures
            b.normal(),
            b.value() == (if sign == Sign::Negative {
                -(digits_value(digits@) as int)
            } else {
                digits_value(digits@) as int
            }),
    {
        let d = normalize(digits);
        let s = if d.len() == 0 {
            Sign::Positive
        } else {
            sign
        };
        JsBigInt { sign: s, digits: d }
    }

    /// The `BigInt` with the value of an unsigned 64-bit integer.
    pub fn from_u64(n: u64) -> (b: JsBigInt)
        ensures
            b.normal(),
            b.value() == n,
    {
        let mut d: Vec<u64> = Vec::new();
        if n != 0 {
            d.push(n);
        }
        proof {
            if n != 0 {
                assert(d@.drop_first() =~= Seq::<u64>::empty());
                assert(digits_value(d@.drop_first()) == 0);
            }
        }
        JsBigInt { sign: Sign::Positive, digits: d }
    }

    /// Digits of an unsigned 128-bit magnitude, in normal form.
    fn digits_of_u128(n: u128) -> (d: Vec<u64>)
        ensures
            digits_normalized(d@),
            digits_value(d@) == n,
    {
        let low = (n % 0x1_0000_0000_0000_0000u128) as u64;
        let high = (n / 0x1_0000_0000_0000_0000u128) as u64;
        let mut d: Vec<u64> = Vec::new();
        if high != 0 {
            d.push(low);
            d.push(high);
            proof {
                let r = d@.drop_first();
                assert(r.drop_first() =~= Seq::<u64>::empty());
                assert(digits_value(r.drop_first()) == 0);
                assert(digits_value(r) == high as nat);
            }
        } else if low != 0 {
            d.push(low);
            proof {
                assert(d@.drop_first() =~= Seq::<u64>::empty());
                assert(digits_value(d@.drop_first()) == 0);
            }
        }
        d
    }

    /// The `BigInt` with the value of an unsigned 128-bit integer.
    pub fn from_u128(n: u128) -> (b: JsBigInt)
        ensures
            b.normal(),
            b.value() == n,
    {
        let d = Self::digits_of_u128(n);
        JsBigInt { sign: Sign::Positive, digits: d }
    }

    /// The `BigInt` with the value of a signed 64-bit integer.
    pub fn from_i64(n: i64) -> (b: JsBigInt)
        ensures
            b.normal(),
            b.value() == n,
    {
        if n >= 0 {
            Self::from_u64(n as u64)
        } else {
            let m: u64 = (0i128 - n as i128) as u64;
            let mut d: Vec<u64> = Vec::new();
            d.push(m);
            proof {
                assert(d@.drop_first() =~= Seq::<u64>::empty());
                assert(digits_value(d@.drop_first()) == 0);
            }
            JsBigInt { sign: Sign::Negative, digits: d }
        }
    }

    /// The `BigInt` with the value of a signed 128-bit integer.
    pub fn from_i128(n: i128) -> (b: JsBigInt)
        ensures
            b.normal(),
            b.value() == n,
    {
        if n >= 0 {
            Self::from_u128(n as u128)
        } else {
            let m: u128 = if n == i128::MIN {
                0x8000_0000_0000_0000_0000_0000_0000_0000u128
            } else {
                (0i128 - n) as u128
            };
            let d = Self::digits_of_u128(m);
            JsBigInt { sign: Sign::Negative, digits: d }
        }
    }

    /// A `BigInt` from a signed 64-bit integer.
    pub fn new(x: i64) -> (b: JsBigInt)
        ensures
            b.normal(),
            b.value() == x,
    {
        Self::from_i64(x)
    }

    /// The sign and the little-endian 64-bit digits, without trailing zeros.
    pub fn to_digits_le(&self) -> (r: (Sign, Vec<u64>))
        ensures
            r.0 == self.spec_sign(),
            r.1@ == self.spec_digits(),
    {
        (self.sign, self.digits.clone())
    }

    /// The value modulo `2^64`.
    fn wrapped_u64(&self) -> (r: u64)
        ensures
            r as int == wrap_unsigned(self.value(), digit_base()),
    {
        proof {
            use_type_invariant(self);
            lemma_value_mod(self.digits@);
            lemma_neg_mod(digits_value(self.digits@) as int, digit_base());
        }
        let low: u64 = if self.digits.len() == 0 {
            0
        } else {
            self.digits[0]
        };
        match self.sign {
            Sign::Positive => low,
            Sign::Negative => if low == 0 {
                0
            } else {
                u64::MAX - low + 1
            },
        }
    }

    /// The value modulo `2^128`.
    fn wrapped_u128(&self) -> (r: u128)
        ensures
            r as int == wrap_unsigned(self.value(), double_digit_base()),
    {
        proof {
            use_type_invariant(self);
            lemma_value_mod(self.digits@);
            lemma_neg_mod(digits_value(self.digits@) as int, double_digit_base());
        }
        let low: u64 = if self.digits.len() == 0 {
            0
        } else {
            self.digits[0]
        };
        let high: u64 = if self.digits.len() <= 1 {
            0
        } else {
            self.digits[1]
        };
        let m: u128 = (high as u128) * 0x1_0000_0000_0000_0000u128 + low as u128;
        match self.sign {
            Sign::Positive => m,
            Sign::Negative => if m == 0 {
                0
            } else {
                u128::MAX - m + 1
            },
        }
    }

    /// Converts to an unsigned 64-bit integer; lossy exactly when the value
    /// is out of range.
    pub fn to_u64(&self) -> (r: Result<u64, RangeError<u64>>)
        ensures
            r is Ok <==> 0 <= self.value() < digit_base(),
            r matches Ok(x) ==> x as int == self.value(),
            r matches Err(e) ==> e.spec_lossy() as int == wrap_unsigned(self.value(), digit_base()),
    {
        proof {
            use_type_invariant(self);
            lemma_normalized_lower_bound(self.digits@);
            lemma_short_upper_bound(self.digits@);
            lemma_value_mod(self.digits@);
        }
        let w = self.wrapped_u64();
        let fits = match self.sign {
            Sign::Positive => self.digits.len() <= 1,
            Sign::Negative => false,
        };
        if fits {
            Ok(w)
        } else {
            Err(RangeError(w))
        }
    }

    /// Converts to a signed 64-bit integer; lossy exactly when the value is
    /// out of range.
    pub fn to_i64(&self) -> (r: Result<i64, RangeError<i64>>)
        ensures
            r is Ok <==> -0x8000_0000_0000_0000 <= self.value() < 0x8000_0000_0000_0000,
            r matches Ok(x) ==> x as int == self.value(),
            r matches Err(e) ==> e.spec_lossy() as int == wrap_signed(self.value(), digit_base()),
    {
        proof {
            use_type_invariant(self);
            lemma_normalized_lower_bound(self.digits@);
            lemma_short_upper_bound(self.digits@);
            lemma_value_mod(self.digits@);
        }
        let w = self.wrapped_u64();
        let s: i64 = if w >= 0x8000_0000_0000_0000u64 {
            (w as i128 - 0x1_0000_0000_0000_0000i128) as i64
        } else {
            w as i64
        };
        let low: u64 = if self.digits.len() == 0 {
            0
        } else {
            self.digits[0]
        };
        let fits = self.digits.len() <= 1 && match self.sign {
            Sign::Positive => low < 0x8000_0000_0000_0000u64,
            Sign::Negative => low <= 0x8000_0000_0000_0000u64,
        };
        if fits {
            Ok(s)
        } else {
            Err(RangeError(s))
        }
    }

    /// Converts to an unsigned 128-bit integer; lossy exactly when the value
    /// is out of range.
    pub fn to_u128(&self) -> (r: Result<u128, RangeError<u128>>)
        ensures
            r is Ok <==> 0 <= self.value() < double_digit_base(),
            r matches Ok(x) ==> x as int == self.value(),
            r matches Err(e) ==> e.spec_lossy() as int == wrap_unsigned(
                self.value(),
                double_digit_base(),
            ),
    {
        proof {
            use_type_invariant(self);
            lemma_normalized_lower_bound(self.digits@);
            lemma_short_upper_bound(self.digits@);
            lemma_value_mod(self.digits@);
        }
        let w = self.wrapped_u128();
        let fits = match self.sign {
            Sign::Positive => self.digits.len() <= 2,
            Sign::Negative => false,
        };
        if fits {
            Ok(w)
        } else {
            Err(RangeError(w))
        }
    }

    /// Converts to a signed 128-bit integer; lossy exactly when the value is
    /// out of range.
    pub fn to_i128(&self) -> (r: Result<i128, RangeError<i128>>)
        ensures
            r is Ok <==> -0x8000_0000_0000_0000_0000_0000_0000_0000 <= self.value()
                < 0x8000_0000_0000_0000_0000_0000_0000_0000,
            r matches Ok(x) ==> x as int == self.value(),
            r matches Err(e) ==> e.spec_lossy() as int == wrap_signed(
                self.value(),
                double_digit_base(),
            ),
    {
        proof {
            use_type_invariant(self);
            lemma_normalized_lower_bound(self.digits@);
            lemma_short_upper_bound(self.digits@);
            lemma_value_mod(self.digits@);
        }
        let w = self.wrapped_u128();
        let s: i128 = if w >= 0x8000_0000_0000_0000_0000_0000_0000_0000u128 {
            if w == 0x8000_0000_0000_0000_0000_0000_0000_0000u128 {
                i128::MIN
            } else {
                0i128 - ((u128::MAX - w + 1) as i128)
            }
        } else {
            w as i128
        };
        let low: u64 = if self.digits.len() == 0 {
            0
        } else {
            self.digits[0]
        };
        let high: u64 = if self.digits.len() <= 1 {
            0
        } else {
            self.digits[1]
        };
        let m: u128 = (high as u128) * 0x1_0000_0000_0000_0000u128 + low as u128;
        let fits = self.digits.len() <= 2 && match self.sign {
            Sign::Positive => m < 0x8000_0000_0000_0000_0000_0000_0000_0000u128,
            Sign::Negative => m <= 0x8000_0000_0000_0000_0000_0000_0000_0000u128,
        };
        if fits {
            Ok(s)
        } else {
            Err(RangeError(s))
        }
    }

    /// The value as a signed 64-bit integer, with whether it was converted
    /// losslessly.
    pub fn value_i64(&self) -> (r: GetBigIntLossyValueResult<i64>)
        ensures
            r.lossless <==> -0x8000_0000_0000_0000 <= self.value() < 0x8000_0000_0000_0000,
            r.value as int == wrap_signed(self.value(), digit_base()),
    {
        match self.to_i64() {
            Ok(x) => {
                proof {
                    lemma_fundamental_div_mod_converse_mod(
                        self.value(),
                        digit_base(),
                        if self.value() < 0 { -1int } else { 0int },
                        if self.value() < 0 { self.value() + digit_base() } else { self.value() },
                    );
                }
                GetBigIntLossyValueResult { value: x, lossless: true }
            },
            Err(e) => GetBigIntLossyValueResult { value: e.into_lossy(), lossless: false },
        }
    }

    /// The value as an unsigned 64-bit integer, with whether it was converted
    /// losslessly.
    pub fn value_u64(&self) -> (r: GetBigIntLossyValueResult<u64>)
        ensures
            r.lossless <==> 0 <= self.value() < digit_base(),
            r.value as int == wrap_unsigned(self.value(), digit_base()),
    {
        match self.to_u64() {
            Ok(x) => {
                proof {
                    lemma_fundamental_div_mod_converse_mod(self.value(), digit_base(), 0, self.value());
                }
                GetBigIntLossyValueResult { value: x, lossless: true }
            },
            Err(e) => GetBigIntLossyValueResult { value: e.into_lossy(), lossless: false },
        }
    }
}

impl JsBigInt {
    /// JavaScript strict equality of two `BigInt` values.
    pub fn strict_equals(&self, other: &JsBigInt) -> (r: bool)
        ensures
            r == (self.value() == other.value()),
    {
        proof {
            use_type_invariant(self);
            use_type_invariant(other);
            if self.value() == other.value() {
                lemma_normalized_lower_bound(self.digits@);
                lemma_normalized_lower_bound(other.digits@);
                lemma_normal_form_unique(self.digits@, other.digits@);
            }
        }
        let same_sign = match (self.sign, other.sign) {
            (Sign::Positive, Sign::Positive) => true,
            (Sign::Negative, Sign::Negative) => true,
            _ => false,
        };
        if !same_sign || self.digits.len() != other.digits.len() {
            proof {
                if self.value() == other.value() {
                    assert(self.digits@ == other.digits@);
                }
            }
            return false;
        }
        let mut i: usize = 0;
        while i < self.digits.len()
            invariant
                i <= self.digits@.len(),
                self.digits@.len() == other.digits@.len(),
                self.sign == other.sign,
                forall|k: int| 0 <= k < i ==> self.digits@[k] == other.digits@[k],
                self.value() == other.value() ==> self.digits@ == other.digits@,
            decreases self.digits@.len() - i,
        {
            if self.digits[i] != other.digits[i] {
                return false;
            }
            i = i + 1;
        }
        assert(self.digits@ =~= other.digits@);
        true
    }
}

/// A `BigInt` in normal form is determined by its value: two with the same
/// value have the same sign and the same digits, so reading the digits of a
/// value and building it back from them gives the same `BigInt`.
pub proof fn lemma_bigint_determined_by_value(a: JsBigInt, b: JsBigInt)
    requires
        a.normal(),
        b.normal(),
        a.value() == b.value(),
    ensures
        a.spec_sign() == b.spec_sign(),
        a.spec_digits() == b.spec_digits(),
{
    lemma_normalized_lower_bound(a.spec_digits());
    lemma_normalized_lower_bound(b.spec_digits());
    lemma_normal_form_unique(a.spec_digits(), b.spec_digits());
}

/// Within its range, the wrapped value of an integer is the integer itself:
/// a lossy conversion agrees with the lossless one where both apply.
pub proof fn lemma_wrap_in_range(v: int, modulus: int)
    requires
        modulus > 0,
        modulus % 2 == 0,
    ensures
        0 <= v < modulus ==> wrap_unsigned(v, modulus) == v,
        -(modulus / 2) <= v < modulus / 2 ==> wrap_signed(v, modulus) == v,
{
    if 0 <= v < modulus {
        lemma_fundamental_div_mod_converse_mod(v, modulus, 0, v);
    }
    if -(modulus / 2) <= v < 0 {
        lemma_fundamental_div_mod_converse_mod(v, modulus, -1, v + modulus);
    }
    if 0 <= v < modulus / 2 {
        lemma_fundamental_div_mod_converse_mod(v, modulus, 0, v);
    }
}

// ---------------------------------------------------------------------------
// BigInt literals written in decimal.

/// The natural number written by little-endian bytes.
pub open spec fn le_bytes_value(b: Seq<u8>) -> nat
    decreases b.len(),
{
    if b.len() == 0 {
        0
    } else {
        (b[0] as nat) + 256 * le_bytes_value(b.drop_first())
    }
}

/// `s` without one leading `-`, unless a `+` follows it.
pub open spec fn strip_minus(s: Seq<char>) -> Seq<char> {
    if s.len() > 0 && s[0] == '-' && !(s.len() > 1 && s[1] == '+') {
        s.drop_first()
    } else {
        s
    }
}

/// `s` without one leading `+`, unless another `+` follows it.
pub open spec fn strip_plus(s: Seq<char>) -> Seq<char> {
    if s.len() > 0 && s[0] == '+' && !(s.len() > 1 && s[1] == '+') {
        s.drop_first()
    } else {
        s
    }
}

/// The digits of a decimal literal, without its sign.
pub open spec fn decimal_body(s: Seq<char>) -> Seq<char> {
    strip_plus(strip_minus(s))
}

/// A decimal digit or the separator `_`.
pub open spec fn is_digit_or_separator(c: char) -> bool {
    (48 <= (c as u32) && (c as u32) <= 57) || c == '_'
}

/// Decimal digits and separators, at least one character, not starting with `_`.
pub open spec fn decimal_digits_well_formed(b: Seq<char>) -> bool {
    &&& b.len() > 0
    &&& b[0] != '_'
    &&& forall|i: int| 0 <= i < b.len() ==> is_digit_or_separator(#[trigger] b[i])
}

/// The number written by decimal digits, separators skipped.
pub open spec fn decimal_digits_value(b: Seq<char>) -> nat
    decreases b.len(),
{
    if b.len() == 0 {
        0
    } else if b.last() == '_' {
        decimal_digits_value(b.drop_last())
    } else {
        10 * decimal_digits_value(b.drop_last()) + ((b.last() as u32) - 48) as nat
    }
}

/// `s` is a decimal integer literal.
pub open spec fn decimal_parses(s: Seq<char>) -> bool {
    decimal_digits_well_formed(decimal_body(s))
}

/// The magnitude of the decimal literal `s`.
pub open spec fn decimal_magnitude(s: Seq<char>) -> nat {
    decimal_digits_value(decimal_body(s))
}

/// The decimal literal `s` denotes a negative number.
pub open spec fn decimal_negative(s: Seq<char>) -> bool {
    s.len() > 0 && s[0] == '-' && decimal_magnitude(s) > 0
}

/// The integer the decimal literal `s` denotes.
pub open spec fn decimal_value(s: Seq<char>) -> int {
    if decimal_negative(s) {
        -(decimal_magnitude(s) as int)
    } else {
        decimal_magnitude(s) as int
    }
}

/// The message of the error for a literal that does not parse.
pub open spec fn decimal_error_message(s: Seq<char>) -> Seq<char> {
    if decimal_body(s).len() == 0 {
        "cannot parse integer from empty string"@
    } else {
        "invalid digit found in string"@
    }
}

/// The decimal numeral of a natural number is a literal of its digits alone.
proof fn lemma_decimal_chars_digits(n: nat)
    ensures
        decimal_digits_well_formed(decimal_chars(n)),
        decimal_digits_value(decimal_chars(n)) == n,
        48 <= (decimal_chars(n)[0] as u32) <= 57,
    decreases n,
{
    if n < 10 {
        let c = digit_char(n);
        assert((c as u32) == 48 + n);
        assert(decimal_chars(n) =~= seq![c]);
        assert(seq![c].drop_last() =~= Seq::<char>::empty());
        assert(c != '_');
        assert(seq![c].last() == c);
        assert(decimal_digits_value(Seq::<char>::empty()) == 0);
        assert(decimal_digits_value(seq![c]) == n);
    } else {
        lemma_decimal_chars_digits(n / 10);
        let c = digit_char(n % 10);
        assert((c as u32) == 48 + n % 10);
        let d = decimal_chars(n / 10);
        assert(decimal_chars(n) == d.push(c));
        assert(d.push(c).drop_last() =~= d);
        assert(d.push(c)[0] == d[0]);
        assert(c != '_');
        assert(d.push(c).last() == c);
        assert(decimal_digits_value(d.push(c)) == 10 * (n / 10) + n % 10);
        assert forall|i: int| 0 <= i < d.push(c).len() implies is_digit_or_separator(
            #[trigger] d.push(c)[i],
        ) by {
            if i < d.len() {
                assert(d.push(c)[i] == d[i]);
            }
        }
    }
}

/// The decimal numeral of an integer, as `to_string` writes it, parses back
/// to the integer.
pub proof fn lemma_decimal_round_trip(v: int)
    ensures
        decimal_parses(int_decimal_chars(v)),
        decimal_value(int_decimal_chars(v)) == v,
{
    if v < 0 {
        let m = (-v) as nat;
        lemma_decimal_chars_digits(m);
        let d = decimal_chars(m);
        let s = seq!['-'] + d;
        assert(s[0] == '-');
        assert(s[1] == d[0]);
        assert(s.drop_first() =~= d);
        assert(strip_minus(s) == d);
        assert(strip_plus(d) == d);
    } else {
        let m = v as nat;
        lemma_decimal_chars_digits(m);
        let d = decimal_chars(m);
        assert(strip_minus(d) == d);
        assert(strip_plus(d) == d);
    }
}

/// Parses a decimal integer with `num_bigint_dig`'s `BigInt::from_str` and
/// reads it back with `BigInt::to_bytes_le`. The contract restates what that
/// crate's source does: an optional sign (a `-`, then or instead a `+`, as
/// `from_str_radix` strips them), then decimal digits and `_` separators,
/// not starting with `_`; the sign of zero is not negative; the bytes are the
/// little-endian magnitude, at least one byte; the error's message is that of
/// `ParseBigIntError` for an empty or an invalid literal.
#[verifier::external_body]
fn parse_decimal_le_bytes(s: &str) -> (r: Result<(bool, Vec<u8>), String>)
    ensures
        r is Ok <==> decimal_parses(s@),
        r matches Ok(p) ==> p.0 == decimal_negative(s@) && le_bytes_value(p.1@)
            == decimal_magnitude(s@) && p.1@.len() >= 1,
        r matches Err(msg) ==> msg@ == decimal_error_message(s@),
{
    match BigInt::from_str(s) {
        Ok(n) => {
            let (sign, bytes) = n.to_bytes_le();
            match sign {
                num_bigint_dig::Sign::Minus => Ok((true, bytes)),
                num_bigint_dig::Sign::NoSign => Ok((false, bytes)),
                num_bigint_dig::Sign::Plus => Ok((false, bytes)),
            }
        },
        Err(e) => Err(e.to_string()),
    }
}

/// `256^n`.
pub open spec fn pow256(n: nat) -> nat
    decreases n,
{
    if n == 0 {
        1
    } else {
        256 * pow256((n - 1) as nat)
    }
}

/// Splitting little-endian bytes after `k` of them.
proof fn lemma_le_bytes_split(b: Seq<u8>, k: nat)
    requires
        k <= b.len(),
    ensures
        le_bytes_value(b) == le_bytes_value(b.subrange(0, k as int)) + pow256(k) * le_bytes_value(
            b.subrange(k as int, b.len() as int),
        ),
    decreases k,
{
    if k == 0 {
        assert(b.subrange(0, 0) =~= Seq::<u8>::empty());
        assert(le_bytes_value(b.subrange(0, 0)) == 0);
        assert(pow256(0) == 1);
        assert(b.subrange(0, b.len() as int) =~= b);
    } else {
        let t = b.drop_first();
        assert(pow256(k) == 256 * pow256((k - 1) as nat));
        assert(b.subrange(0, k as int)[0] == b[0]);
        lemma_le_bytes_split(t, (k - 1) as nat);
        assert(b.subrange(0, k as int).drop_first() =~= t.subrange(0, k - 1));
        assert(b.subrange(k as int, b.len() as int) =~= t.subrange(k - 1, t.len() as int));
        let x = le_bytes_value(t.subrange(0, k - 1));
        let y = le_bytes_value(t.subrange(k - 1, t.len() as int));
        let p = pow256((k - 1) as nat);
        assert(256 * (x + p * y) == 256 * x + (256 * p) * y) by (nonlinear_arith);
    }
}

/// The digit written by the little-endian bytes `b[start..end)`, at most eight.
fn chunk_digit(b: &[u8], start: usize, end: usize) -> (d: u64)
    requires
        start <= end <= b@.len(),
        end - start <= 8,
    ensures
        d as nat == le_bytes_value(b@.subrange(start as int, end as int)),
{
    let mut acc: u64 = 0;
    let mut j = end;
    assert(b@.subrange(end as int, end as int) =~= Seq::<u8>::empty());
    assert(pow256(0) == 1);
    proof {
        lemma_pow256_monotone(0, 8);
    }
    while j > start
        invariant
            start <= j <= end <= b@.len(),
            end - start <= 8,
            acc as nat == le_bytes_value(b@.subrange(j as int, end as int)),
            acc < pow256((end - j) as nat),
            pow256((end - j) as nat) <= pow256(8),
        decreases j,
    {
        proof {
            reveal_with_fuel(pow256, 9);
            assert(pow256(8) == 0x1_0000_0000_0000_0000);
            if end - j + 1 <= 8 {
                lemma_pow256_monotone((end - j + 1) as nat, 8);
            }
        }
        j = j - 1;
        assert(b@.subrange(j as int, end as int).drop_first() =~= b@.subrange(
            j + 1,
            end as int,
        ));
        acc = acc * 256 + b[j] as u64;
    }
    acc
}

/// `pow256` grows with its exponent.
proof fn lemma_pow256_monotone(a: nat, b: nat)
    requires
        a <= b,
    ensures
        pow256(a) <= pow256(b),
        pow256(a) >= 1,
    decreases b,
{
    if b > a {
        lemma_pow256_monotone(a, (b - 1) as nat);
    } else if a > 0 {
        lemma_pow256_monotone((a - 1) as nat, (a - 1) as nat);
    }
}

/// The 64-bit digits written by little-endian bytes, eight bytes to a digit.
pub open spec fn chunked_digits(b: Seq<u8>) -> Seq<u64>
    decreases b.len(),
{
    if b.len() <= 8 {
        if b.len() == 0 {
            Seq::empty()
        } else {
            seq![le_bytes_value(b) as u64]
        }
    } else {
        seq![le_bytes_value(b.subrange(0, 8)) as u64] + chunked_digits(b.subrange(8, b.len() as int))
    }
}

/// Reading bytes as 64-bit digits keeps their value.
pub proof fn lemma_chunked_value(b: Seq<u8>)
    ensures
        digits_value(chunked_digits(b)) == le_bytes_value(b),
    decreases b.len(),
{
    reveal_with_fuel(pow256, 9);
    if b.len() == 0 {
    } else if b.len() <= 8 {
        let c = chunked_digits(b);
        assert(c.drop_first() =~= Seq::<u64>::empty());
        assert(digits_value(c.drop_first()) == 0);
        lemma_le_bytes_split(b, b.len());
        assert(b.subrange(0, b.len() as int) =~= b);
        lemma_pow256_monotone(b.len(), 8);
        lemma_le_bytes_bound(b);
    } else {
        let rest = b.subrange(8, b.len() as int);
        lemma_chunked_value(rest);
        lemma_le_bytes_split(b, 8);
        lemma_le_bytes_bound(b.subrange(0, 8));
        let c = chunked_digits(b);
        assert(c.drop_first() =~= chunked_digits(rest));
    }
}

/// Little-endian bytes stay below `256^len`.
proof fn lemma_le_bytes_bound(b: Seq<u8>)
    ensures
        le_bytes_value(b) < pow256(b.len()),
    decreases b.len(),
{
    if b.len() > 0 {
        lemma_le_bytes_bound(b.drop_first());
        let p = pow256((b.len() - 1) as nat);
        let x = le_bytes_value(b.drop_first());
        assert(b[0] as nat + 256 * x < 256 * p) by (nonlinear_arith)
            requires
                x < p,
                b[0] < 256,
        ;
    }
}

/// The element of `chunked_digits` at position `i` is the digit of bytes
/// `8i .. 8i+8`.
proof fn lemma_chunked_index(b: Seq<u8>, i: int)
    requires
        0 <= i,
        8 * i < b.len(),
    ensures
        chunked_digits(b).len() > i,
        chunked_digits(b)[i] == le_bytes_value(
            b.subrange(8 * i, if 8 * i + 8 <= b.len() { 8 * i + 8 } else { b.len() as int }),
        ) as u64,
    decreases b.len(),
{
    if b.len() <= 8 {
        assert(i == 0);
        assert(b.subrange(0, b.len() as int) =~= b);
    } else if i == 0 {
    } else {
        let rest = b.subrange(8, b.len() as int);
        lemma_chunked_index(rest, i - 1);
        let hi = if 8 * i + 8 <= b.len() { 8 * i + 8 } else { b.len() as int };
        assert(rest.subrange(8 * (i - 1), hi - 8) =~= b.subrange(8 * i, hi));
    }
}

/// The number of 64-bit digits that `n` bytes fill.
proof fn lemma_chunked_len(b: Seq<u8>)
    ensures
        chunked_digits(b).len() == (b.len() + 7) / 8,
    decreases b.len(),
{
    if b.len() > 8 {
        lemma_chunked_len(b.subrange(8, b.len() as int));
    }
}

/// Reads little-endian bytes as little-endian 64-bit digits, eight bytes to
/// a digit, the last digit padded with zeros.
pub fn digits_from_le_bytes(bytes: &[u8]) -> (d: Vec<u64>)
    ensures
        d@ == chunked_digits(bytes@),
        digits_value(d@) == le_bytes_value(bytes@),
{
    let mut d: Vec<u64> = Vec::new();
    let mut start: usize = 0;
    let n = bytes.len();
    proof {
        lemma_chunked_len(bytes@);
    }
    while start < n
        invariant
            n == bytes@.len(),
            start <= n,
            start < n ==> start % 8 == 0,
            d@.len() == (start + 7) / 8,
            chunked_digits(bytes@).len() == (n + 7) / 8,
            forall|k: int| 0 <= k < d@.len() ==> d@[k] == chunked_digits(bytes@)[k],
        decreases n - start,
    {
        let end = if n - start >= 8 {
            start + 8
        } else {
            n
        };
        let digit = chunk_digit(bytes, start, end);
        proof {
            lemma_chunked_index(bytes@, (start / 8) as int);
        }
        d.push(digit);
        start = end;
    }
    assert(d@ =~= chunked_digits(bytes@));
    proof {
        lemma_chunked_value(bytes@);
    }
    d
}

/// The `BigInt` written by a decimal literal, such as `-42` or
/// `10000000000000000000000000000000000000000`; the error is the message of
/// the parse error.
pub fn bigint(n: &str) -> (r: Result<JsBigInt, String>)
    ensures
        r is Ok <==> decimal_parses(n@),
        r matches Ok(b) ==> b.normal() && b.value() == decimal_value(n@),
        r matches Err(msg) ==> msg@ == decimal_error_message(n@),
{
    match parse_decimal_le_bytes(n) {
        Ok((negative, bytes)) => {
            let digits = digits_from_le_bytes(bytes.as_slice());
            let sign = if negative {
                Sign::Negative
            } else {
                Sign::Positive
            };
            let b = JsBigInt::from_digits_le(sign, digits.as_slice());
            Ok(b)
        },
        Err(msg) => Err(msg),
    }
}

} // verus!
