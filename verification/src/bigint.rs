//! Arbitrary-precision signed integers.
//!
//! A `BigInt` holds its value as the little-endian two's-complement byte
//! string that `num_bigint` produces, so the value is a plain `Vec<u8>` that
//! contracts can speak of.  Every arithmetic operation hands the work to
//! `num_bigint` through a small trusted wrapper whose contract states the
//! mathematical result over the value `@` (an `int`).
use vstd::prelude::*;
use vstd::arithmetic::power::pow;
use vstd::arithmetic::power2::pow2;

verus! {

/// Value of a little-endian byte string read as an unsigned number.
pub open spec fn le_nat(b: Seq<u8>) -> nat
    decreases b.len(),
{
    if b.len() == 0 {
        0
    } else {
        b[0] as nat + 256 * le_nat(b.drop_first())
    }
}

/// Value of a little-endian two's-complement byte string.
pub open spec fn signed_le_value(b: Seq<u8>) -> int {
    if b.len() > 0 && b.last() >= 128 {
        le_nat(b) - pow2(8 * b.len())
    } else {
        le_nat(b) as int
    }
}

/// Floored remainder: the result has the sign of the divisor (or is zero).
pub open spec fn floor_mod(a: int, m: int) -> int
    recommends
        m != 0,
{
    if m > 0 {
        a % m
    } else if a % m == 0 {
        0
    } else {
        a % m + m
    }
}

pub open spec fn abs(a: int) -> int {
    if a < 0 {
        -a
    } else {
        a
    }
}

/// Quotient rounded towards zero.
pub open spec fn trunc_div(a: int, m: int) -> int
    recommends
        m != 0,
{
    let q = abs(a) / abs(m);
    if (a < 0) != (m < 0) {
        -q
    } else {
        q
    }
}

/// Bitwise and on two's-complement integers of unbounded width.
pub open spec fn bit_and(a: int, b: int) -> int
    decreases abs(a) + abs(b),
{
    if a == 0 || b == 0 {
        0
    } else if a == -1 {
        b
    } else if b == -1 {
        a
    } else {
        2 * bit_and(a / 2, b / 2) + (if a % 2 == 1 && b % 2 == 1 {
            1int
        } else {
            0int
        })
    }
}

/// The character of a decimal digit.
pub open spec fn digit_char(d: int) -> char {
    if d == 0 {
        '0'
    } else if d == 1 {
        '1'
    } else if d == 2 {
        '2'
    } else if d == 3 {
        '3'
    } else if d == 4 {
        '4'
    } else if d == 5 {
        '5'
    } else if d == 6 {
        '6'
    } else if d == 7 {
        '7'
    } else if d == 8 {
        '8'
    } else {
        '9'
    }
}

/// Decimal digits of a natural number, most significant first, no leading zeros.
pub open spec fn nat_decimal(n: nat) -> Seq<char>
    decreases n,
{
    if n < 10 {
        seq![digit_char(n as int)]
    } else {
        nat_decimal(n / 10).push(digit_char((n % 10) as int))
    }
}

/// The character of a hexadecimal digit, lower case.
pub open spec fn hex_digit_char(d: int) -> char {
    if d < 10 {
        digit_char(d)
    } else if d == 10 {
        'a'
    } else if d == 11 {
        'b'
    } else if d == 12 {
        'c'
    } else if d == 13 {
        'd'
    } else if d == 14 {
        'e'
    } else {
        'f'
    }
}

/// Hexadecimal digits of a natural number, most significant first, no leading zeros.
pub open spec fn nat_hex(n: nat) -> Seq<char>
    decreases n,
{
    if n < 16 {
        seq![hex_digit_char(n as int)]
    } else {
        nat_hex(n / 16).push(hex_digit_char((n % 16) as int))
    }
}

/// Hexadecimal notation of an integer, lower case, with a leading '-' when negative.
pub open spec fn int_hex(v: int) -> Seq<char> {
    if v < 0 {
        seq!['-'] + nat_hex((-v) as nat)
    } else {
        nat_hex(v as nat)
    }
}

/// The notation of `v` in base 10 or 16.
pub open spec fn int_in_radix(v: int, radix: u32) -> Seq<char> {
    if radix == 16 {
        int_hex(v)
    } else {
        int_decimal(v)
    }
}

/// Decimal notation of an integer, with a leading '-' when negative.
pub open spec fn int_decimal(v: int) -> Seq<char> {
    if v < 0 {
        seq!['-'] + nat_decimal((-v) as nat)
    } else {
        nat_decimal(v as nat)
    }
}

/// The sign given to `BigInt::new` together with a magnitude.
#[derive(Clone, Copy, Debug, PartialEq, Eq, Hash)]
pub enum Sign {
    Minus,
    NoSign,
    Plus,
}

/// An arbitrary-precision signed integer.
#[derive(Clone, Debug, PartialEq, Eq, Hash)]
pub struct BigInt {
    bytes: Vec<u8>,
}

impl View for BigInt {
    type V = int;

    closed spec fn view(&self) -> int {
        signed_le_value(self.bytes@)
    }
}

impl BigInt {
    /// The byte string that holds the value.
    pub closed spec fn spec_bytes(&self) -> Seq<u8> {
        self.bytes@
    }

    /// The value is the two's-complement little-endian value of the bytes.
    pub proof fn lemma_view_is_bytes(&self)
        ensures
            self@ == signed_le_value(self.spec_bytes()),
    {
    }

    /// A copy with the same value.
    pub fn duplicate(&self) -> (r: BigInt)
        ensures
            r@ == self@,
    {
        let mut bytes: Vec<u8> = Vec::new();
        let mut i: usize = 0;
        while i < self.bytes.len()
            invariant
                i <= self.bytes@.len(),
                bytes@ == self.bytes@.subrange(0, i as int),
            decreases self.bytes@.len() - i,
        {
            bytes.push(self.bytes[i]);
            i = i + 1;
        }
        assert(bytes@ == self.bytes@);
        BigInt { bytes }
    }

    /// The value as a little-endian two's-complement byte string.
    pub fn to_signed_bytes_le(&self) -> (r: Vec<u8>)
        ensures
            signed_le_value(r@) == self@,
    {
        let c = self.duplicate();
        c.bytes
    }

    /// Builds the integer whose two's-complement little-endian bytes are given.
    pub fn from_signed_bytes_le(bytes: &[u8]) -> (r: BigInt)
        ensures
            r@ == signed_le_value(bytes@),
    {
        big_from_signed_bytes(bytes)
    }

    /// Builds `sign * digits`, the digits being base-2^32 little-endian; a
    /// `NoSign` sign gives zero whatever the digits.
    pub fn new(sign: Sign, digits: Vec<u32>) -> (r: BigInt)
        ensures
            r@ == (match sign {
                Sign::Plus => digits_value(digits@) as int,
                Sign::Minus => -digits_value(digits@),
                Sign::NoSign => 0,
            }),
    {
        big_new(sign, digits)
    }

    pub fn from_i128(v: i128) -> (r: BigInt)
        ensures
            r@ == v,
    {
        big_from_i128(v)
    }

    pub fn from_usize(v: usize) -> (r: BigInt)
        ensures
            r@ == v,
    {
        big_from_usize(v)
    }

    pub fn from_isize(v: isize) -> (r: BigInt)
        ensures
            r@ == v,
    {
        big_from_i128(v as i128)
    }

    pub fn zero() -> (r: BigInt)
        ensures
            r@ == 0,
    {
        let mut bytes: Vec<u8> = Vec::new();
        bytes.push(0u8);
        proof {
            reveal_with_fuel(le_nat, 2);
            assert(bytes@.drop_first().len() == 0);
            assert(le_nat(bytes@) == 0);
        }
        BigInt { bytes }
    }

    /// `Some(v)` exactly when the value fits in a `usize`.
    pub fn to_usize(&self) -> (r: Option<usize>)
        ensures
            r == (if 0 <= self@ <= usize::MAX {
                Some(self@ as usize)
            } else {
                None::<usize>
            }),
    {
        big_to_usize(self)
    }

    pub fn is_negative(&self) -> (r: bool)
        ensures
            r == (self@ < 0),
    {
        big_is_negative(self)
    }

    pub fn is_zero(&self) -> (r: bool)
        ensures
            r == (self@ == 0),
    {
        big_eq(self, &BigInt::zero())
    }

    /// Value equality.
    pub fn equals(&self, other: &BigInt) -> (r: bool)
        ensures
            r == (self@ == other@),
    {
        big_eq(self, other)
    }

    pub fn less_than(&self, other: &BigInt) -> (r: bool)
        ensures
            r == (self@ < other@),
    {
        big_lt(self, other)
    }

    pub fn plus(&self, other: &BigInt) -> (r: BigInt)
        ensures
            r@ == self@ + other@,
    {
        big_add(self, other)
    }

    pub fn minus(&self, other: &BigInt) -> (r: BigInt)
        ensures
            r@ == self@ - other@,
    {
        big_sub(self, other)
    }

    /// Floored remainder, with the sign of `m`.
    pub fn mod_floor(&self, m: &BigInt) -> (r: BigInt)
        requires
            m@ != 0,
        ensures
            r@ == floor_mod(self@, m@),
    {
        big_mod_floor(self, m)
    }

    /// Quotient rounded towards zero.
    pub fn div_trunc(&self, m: &BigInt) -> (r: BigInt)
        requires
            m@ != 0,
        ensures
            r@ == trunc_div(self@, m@),
    {
        big_div(self, m)
    }

    pub fn shift_left(&self, k: usize) -> (r: BigInt)
        ensures
            r@ == self@ * pow2(k as nat),
    {
        big_shl(self, k)
    }

    /// Shift right, rounding towards negative infinity.
    pub fn shift_right(&self, k: usize) -> (r: BigInt)
        ensures
            r@ == self@ / (pow2(k as nat) as int),
    {
        big_shr(self, k)
    }

    pub fn bitand(&self, other: &BigInt) -> (r: BigInt)
        ensures
            r@ == bit_and(self@, other@),
    {
        big_and(self, other)
    }

    pub fn power(&self, e: u32) -> (r: BigInt)
        ensures
            r@ == pow(self@, e as nat),
    {
        big_pow(self, e)
    }

    /// Decimal notation of the value.
    pub fn to_decimal_string(&self) -> (r: String)
        ensures
            r@ == int_decimal(self@),
    {
        big_to_str_radix(self, 10)
    }

    /// Hexadecimal notation of the value, lower case.
    pub fn to_hex_string(&self) -> (r: String)
        ensures
            r@ == int_hex(self@),
    {
        big_to_str_radix(self, 16)
    }
}

/// Value of base-2^32 little-endian digits.
pub open spec fn digits_value(d: Seq<u32>) -> nat
    decreases d.len(),
{
    if d.len() == 0 {
        0
    } else {
        d[0] as nat + 4294967296 * digits_value(d.drop_first())
    }
}

/// `num_bigint::BigInt::from_signed_bytes_le`, read back through
/// `to_signed_bytes_le`: the value is the two's-complement reading of the bytes.
#[verifier::external_body]
fn big_from_signed_bytes(bytes: &[u8]) -> (r: BigInt)
    ensures
        r@ == signed_le_value(bytes@),
{
    BigInt { bytes: num_bigint::BigInt::from_signed_bytes_le(bytes).to_signed_bytes_le() }
}

/// `num_bigint::BigInt::new`: a `NoSign` sign gives zero, otherwise the sign
/// applied to the base-2^32 magnitude.
#[verifier::external_body]
fn big_new(sign: Sign, digits: Vec<u32>) -> (r: BigInt)
    ensures
        r@ == (match sign {
            Sign::Plus => digits_value(digits@) as int,
            Sign::Minus => -digits_value(digits@),
            Sign::NoSign => 0,
        }),
{
    let s = match sign {
        Sign::Minus => num_bigint::Sign::Minus,
        Sign::NoSign => num_bigint::Sign::NoSign,
        Sign::Plus => num_bigint::Sign::Plus,
    };
    BigInt { bytes: num_bigint::BigInt::new(s, digits).to_signed_bytes_le() }
}

/// `num_bigint::BigInt::from(i128)`: the same value.
#[verifier::external_body]
fn big_from_i128(v: i128) -> (r: BigInt)
    ensures
        r@ == v,
{
    BigInt { bytes: num_bigint::BigInt::from(v).to_signed_bytes_le() }
}

/// `num_bigint::BigInt::from(usize)`: the same value.
#[verifier::external_body]
fn big_from_usize(v: usize) -> (r: BigInt)
    ensures
        r@ == v,
{
    BigInt { bytes: num_bigint::BigInt::from(v).to_signed_bytes_le() }
}

/// `num_traits::ToPrimitive::to_usize` on a `num_bigint::BigInt`: `Some`
/// exactly when the value is in the range of `usize`.
#[verifier::external_body]
fn big_to_usize(a: &BigInt) -> (r: Option<usize>)
    ensures
        r == (if 0 <= a@ <= usize::MAX {
            Some(a@ as usize)
        } else {
            None::<usize>
        }),
{
    num_traits::ToPrimitive::to_usize(&num_bigint::BigInt::from_signed_bytes_le(&a.bytes))
}

/// `num_traits::Signed::is_negative` on a `num_bigint::BigInt`.
#[verifier::external_body]
fn big_is_negative(a: &BigInt) -> (r: bool)
    ensures
        r == (a@ < 0),
{
    num_traits::Signed::is_negative(&num_bigint::BigInt::from_signed_bytes_le(&a.bytes))
}

/// `==` on `num_bigint::BigInt`: value equality.
#[verifier::external_body]
fn big_eq(a: &BigInt, b: &BigInt) -> (r: bool)
    ensures
        r == (a@ == b@),
{
    num_bigint::BigInt::from_signed_bytes_le(&a.bytes) == num_bigint::BigInt::from_signed_bytes_le(
        &b.bytes,
    )
}

/// `<` on `num_bigint::BigInt`: the order of the integers.
#[verifier::external_body]
fn big_lt(a: &BigInt, b: &BigInt) -> (r: bool)
    ensures
        r == (a@ < b@),
{
    num_bigint::BigInt::from_signed_bytes_le(&a.bytes) < num_bigint::BigInt::from_signed_bytes_le(
        &b.bytes,
    )
}

/// `+` on `num_bigint::BigInt`: the exact sum.
#[verifier::external_body]
fn big_add(a: &BigInt, b: &BigInt) -> (r: BigInt)
    ensures
        r@ == a@ + b@,
{
    let x = num_bigint::BigInt::from_signed_bytes_le(&a.bytes);
    let y = num_bigint::BigInt::from_signed_bytes_le(&b.bytes);
    BigInt { bytes: (x + y).to_signed_bytes_le() }
}

/// `-` on `num_bigint::BigInt`: the exact difference.
#[verifier::external_body]
fn big_sub(a: &BigInt, b: &BigInt) -> (r: BigInt)
    ensures
        r@ == a@ - b@,
{
    let x = num_bigint::BigInt::from_signed_bytes_le(&a.bytes);
    let y = num_bigint::BigInt::from_signed_bytes_le(&b.bytes);
    BigInt { bytes: (x - y).to_signed_bytes_le() }
}

/// `num_integer::Integer::mod_floor` on `num_bigint::BigInt`: the remainder
/// of floored division, with the sign of the divisor; it panics on a zero
/// divisor, which `requires` leaves out.
#[verifier::external_body]
fn big_mod_floor(a: &BigInt, m: &BigInt) -> (r: BigInt)
    requires
        m@ != 0,
    ensures
        r@ == floor_mod(a@, m@),
{
    let x = num_bigint::BigInt::from_signed_bytes_le(&a.bytes);
    let y = num_bigint::BigInt::from_signed_bytes_le(&m.bytes);
    BigInt { bytes: num_integer::Integer::mod_floor(&x, &y).to_signed_bytes_le() }
}

/// `/` on `num_bigint::BigInt`: the quotient rounded towards zero; it panics
/// on a zero divisor, which `requires` leaves out.
#[verifier::external_body]
fn big_div(a: &BigInt, m: &BigInt) -> (r: BigInt)
    requires
        m@ != 0,
    ensures
        r@ == trunc_div(a@, m@),
{
    let x = num_bigint::BigInt::from_signed_bytes_le(&a.bytes);
    let y = num_bigint::BigInt::from_signed_bytes_le(&m.bytes);
    BigInt { bytes: (x / y).to_signed_bytes_le() }
}

/// `<<` on `num_bigint::BigInt`: multiplication by `2^k`.
#[verifier::external_body]
fn big_shl(a: &BigInt, k: usize) -> (r: BigInt)
    ensures
        r@ == a@ * pow2(k as nat),
{
    let x = num_bigint::BigInt::from_signed_bytes_le(&a.bytes);
    BigInt { bytes: (x << k).to_signed_bytes_le() }
}

/// `>>` on `num_bigint::BigInt`: division by `2^k` rounded towards negative
/// infinity.
#[verifier::external_body]
fn big_shr(a: &BigInt, k: usize) -> (r: BigInt)
    ensures
        r@ == a@ / (pow2(k as nat) as int),
{
    let x = num_bigint::BigInt::from_signed_bytes_le(&a.bytes);
    BigInt { bytes: (x >> k).to_signed_bytes_le() }
}

/// `&` on `num_bigint::BigInt`: bitwise and in two's complement.
#[verifier::external_body]
fn big_and(a: &BigInt, b: &BigInt) -> (r: BigInt)
    ensures
        r@ == bit_and(a@, b@),
{
    let x = num_bigint::BigInt::from_signed_bytes_le(&a.bytes);
    let y = num_bigint::BigInt::from_signed_bytes_le(&b.bytes);
    BigInt { bytes: (x & y).to_signed_bytes_le() }
}

/// `num_bigint::BigInt::pow`: the value raised to the power `e`.
#[verifier::external_body]
fn big_pow(a: &BigInt, e: u32) -> (r: BigInt)
    ensures
        r@ == pow(a@, e as nat),
{
    let x = num_bigint::BigInt::from_signed_bytes_le(&a.bytes);
    BigInt { bytes: x.pow(e).to_signed_bytes_le() }
}

/// `num_bigint::BigInt::to_str_radix`, in base 10 or 16: the digits without
/// leading zeros, lower case, preceded by '-' for a negative value.
#[verifier::external_body]
fn big_to_str_radix(a: &BigInt, radix: u32) -> (r: String)
    requires
        radix == 10 || radix == 16,
    ensures
        r@ == int_in_radix(a@, radix),
{
    num_bigint::BigInt::from_signed_bytes_le(&a.bytes).to_str_radix(radix)
}

} // verus!
