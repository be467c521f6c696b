//! Numbers as text: decimal and hexadecimal digits, and the parsing rules of
//! `str::parse` for integers.

use crate::text::chars_of;
use vstd::prelude::*;
use vstd::string::*;

verus! {

/// The decimal digit of `d`, for `d < 10`.
pub open spec fn digit(d: nat) -> char {
    (48 + d) as char
}

/// The lower-case hexadecimal digit of `d`, for `d < 16`.
pub open spec fn hex_digit(d: nat) -> char {
    if d < 10 {
        (48 + d) as char
    } else {
        (87 + d) as char
    }
}

/// The decimal digits of `n`, without leading zeros.
pub open spec fn decimal(n: nat) -> Seq<char>
    decreases n,
{
    if n < 10 {
        seq![digit(n)]
    } else {
        decimal(n / 10).push(digit(n % 10))
    }
}

/// The decimal text of a signed number.
pub open spec fn decimal_int(n: int) -> Seq<char> {
    if n < 0 {
        seq!['-'] + decimal((-n) as nat)
    } else {
        decimal(n as nat)
    }
}

/// The last `k` hexadecimal digits of `n`.
pub open spec fn hex(n: nat, k: nat) -> Seq<char>
    decreases k,
{
    if k == 0 {
        Seq::empty()
    } else {
        hex(n / 16, (k - 1) as nat).push(hex_digit(n % 16))
    }
}

pub fn decimal_u64(n: u64) -> (r: String)
    ensures
        r@ == decimal(n as nat),
    decreases n,
{
    let mut s = if n < 10 {
        String::new()
    } else {
        decimal_u64(n / 10)
    };
    let d: u8 = (n % 10) as u8;
    s.push((48 + d) as char);
    proof {
        if n < 10 {
            assert(s@ =~= seq![digit(n as nat)]);
        }
    }
    s
}

pub fn decimal_i64(n: i64) -> (r: String)
    ensures
        r@ == decimal_int(n as int),
{
    if n >= 0 {
        decimal_u64(n as u64)
    } else {
        let m: u64 = if n == i64::MIN {
            9223372036854775808
        } else {
            (-n) as u64
        };
        let mut s = String::new();
        s.push('-');
        proof {
            assert(s@ =~= seq!['-']);
        }
        s.concat(decimal_u64(m).as_str())
    }
}

/// The eight hexadecimal digits of `n`, zero padded.
pub fn hex_u32(n: u32) -> (r: String)
    ensures
        r@ == hex(n as nat, 8),
{
    hex_digits(n, 8)
}

fn hex_digits(n: u32, k: u32) -> (r: String)
    ensures
        r@ == hex(n as nat, k as nat),
    decreases k,
{
    if k == 0 {
        return String::new();
    }
    let mut s = hex_digits(n / 16, k - 1);
    let d: u8 = (n % 16) as u8;
    if d < 10 {
        s.push((48 + d) as char);
    } else {
        s.push((87 + d) as char);
    }
    s
}

/// Why a text is not an integer of the wanted type.
#[derive(Debug, Clone, Copy, PartialEq, Eq, Structural)]
pub enum IntError {
    Empty,
    InvalidDigit,
    TooLarge,
    TooSmall,
}

impl IntError {
    pub open spec fn text(self) -> Seq<char> {
        match self {
            IntError::Empty => "cannot parse integer from empty string"@,
            IntError::InvalidDigit => "invalid digit found in string"@,
            IntError::TooLarge => "number too large to fit in target type"@,
            IntError::TooSmall => "number too small to fit in target type"@,
        }
    }

    pub fn message(&self) -> (r: &'static str)
        ensures
            r@ == self.text(),
    {
        match self {
            IntError::Empty => "cannot parse integer from empty string",
            IntError::InvalidDigit => "invalid digit found in string",
            IntError::TooLarge => "number too large to fit in target type",
            IntError::TooSmall => "number too small to fit in target type",
        }
    }
}

pub open spec fn is_digit(c: char) -> bool {
    48 <= c as u32 <= 57
}

/// The value of the digits `s` read after `acc`, as long as it stays within
/// `max`; reading past `max` is `over`.
pub open spec fn digits_value(s: Seq<char>, acc: nat, max: nat, over: IntError) -> Result<
    nat,
    IntError,
>
    decreases s.len(),
{
    if s.len() == 0 {
        Ok(acc)
    } else if !is_digit(s[0]) {
        Err(IntError::InvalidDigit)
    } else {
        let next = acc * 10 + (s[0] as u32 - 48) as nat;
        if next > max {
            Err(over)
        } else {
            digits_value(s.drop_first(), next, max, over)
        }
    }
}

/// An unsigned decimal number of at most `max`, with an optional `+`.
pub open spec fn unsigned_value(s: Seq<char>, max: nat) -> Result<nat, IntError> {
    if s.len() == 0 {
        Err(IntError::Empty)
    } else if s.len() == 1 && (s[0] == '+' || s[0] == '-') {
        Err(IntError::InvalidDigit)
    } else if s[0] == '+' {
        digits_value(s.drop_first(), 0, max, IntError::TooLarge)
    } else {
        digits_value(s, 0, max, IntError::TooLarge)
    }
}

/// A signed decimal number of 64 bits, with an optional sign.
pub open spec fn signed_value(s: Seq<char>) -> Result<int, IntError> {
    if s.len() == 0 {
        Err(IntError::Empty)
    } else if s.len() == 1 && (s[0] == '+' || s[0] == '-') {
        Err(IntError::InvalidDigit)
    } else if s[0] == '-' {
        match digits_value(s.drop_first(), 0, 9223372036854775808, IntError::TooSmall) {
            Ok(n) => Ok(-(n as int)),
            Err(e) => Err(e),
        }
    } else if s[0] == '+' {
        match digits_value(s.drop_first(), 0, 9223372036854775807, IntError::TooLarge) {
            Ok(n) => Ok(n as int),
            Err(e) => Err(e),
        }
    } else {
        match digits_value(s, 0, 9223372036854775807, IntError::TooLarge) {
            Ok(n) => Ok(n as int),
            Err(e) => Err(e),
        }
    }
}

fn read_digits(v: &Vec<char>, from: usize, max: u64, over: IntError) -> (r: Result<u64, IntError>)
    requires
        from <= v@.len(),
    ensures
        match r {
            Ok(n) => digits_value(v@.skip(from as int), 0, max as nat, over) == Ok::<
                nat,
                IntError,
            >(n as nat),
            Err(e) => digits_value(v@.skip(from as int), 0, max as nat, over) == Err::<
                nat,
                IntError,
            >(e),
        },
{
    let mut acc: u64 = 0;
    let mut i: usize = from;
    while i < v.len()
        invariant
            from <= i <= v@.len(),
            acc <= max,
            digits_value(v@.skip(i as int), acc as nat, max as nat, over) == digits_value(
                v@.skip(from as int),
                0,
                max as nat,
                over,
            ),
        decreases v@.len() - i,
    {
        proof {
            assert(v@.skip(i as int).drop_first() =~= v@.skip(i + 1));
        }
        let u: u32 = v[i] as u32;
        if u < 48 || u > 57 {
            return Err(IntError::InvalidDigit);
        }
        let next: u128 = acc as u128 * 10 + (u - 48) as u128;
        if next > max as u128 {
            return Err(over);
        }
        acc = next as u64;
        i = i + 1;
    }
    Ok(acc)
}

/// `str::parse` for `u64`.
pub fn parse_u64(s: &str) -> (r: Result<u64, IntError>)
    ensures
        match r {
            Ok(n) => unsigned_value(s@, u64::MAX as nat) == Ok::<nat, IntError>(n as nat),
            Err(e) => unsigned_value(s@, u64::MAX as nat) == Err::<nat, IntError>(e),
        },
{
    parse_unsigned(s, u64::MAX)
}

fn parse_unsigned(s: &str, max: u64) -> (r: Result<u64, IntError>)
    ensures
        match r {
            Ok(n) => n <= max && unsigned_value(s@, max as nat) == Ok::<nat, IntError>(n as nat),
            Err(e) => unsigned_value(s@, max as nat) == Err::<nat, IntError>(e),
        },
{
    let v = chars_of(s);
    if v.len() == 0 {
        return Err(IntError::Empty);
    }
    if v.len() == 1 && (v[0] == '+' || v[0] == '-') {
        return Err(IntError::InvalidDigit);
    }
    proof {
        assert(v@.skip(0) =~= v@);
        assert(v@.skip(1) =~= v@.drop_first());
        lemma_digits_bound(v@, 0, max as nat, IntError::TooLarge);
        lemma_digits_bound(v@.drop_first(), 0, max as nat, IntError::TooLarge);
    }
    if v[0] == '+' {
        read_digits(&v, 1, max, IntError::TooLarge)
    } else {
        read_digits(&v, 0, max, IntError::TooLarge)
    }
}

proof fn lemma_digits_bound(s: Seq<char>, acc: nat, max: nat, over: IntError)
    requires
        acc <= max,
    ensures
        digits_value(s, acc, max, over) matches Ok(n) ==> n <= max,
    decreases s.len(),
{
    if s.len() > 0 && is_digit(s[0]) {
        let next = acc * 10 + (s[0] as u32 - 48) as nat;
        if next <= max {
            lemma_digits_bound(s.drop_first(), next, max, over);
        }
    }
}

/// `str::parse` for `usize`.
pub fn parse_usize(s: &str) -> (r: Result<usize, IntError>)
    ensures
        match r {
            Ok(n) => unsigned_value(s@, usize::MAX as nat) == Ok::<nat, IntError>(n as nat),
            Err(e) => unsigned_value(s@, usize::MAX as nat) == Err::<nat, IntError>(e),
        },
{
    match parse_unsigned(s, usize::MAX as u64) {
        Ok(n) => Ok(n as usize),
        Err(e) => Err(e),
    }
}

/// `str::parse` for `i64`.
pub fn parse_i64(s: &str) -> (r: Result<i64, IntError>)
    ensures
        match r {
            Ok(n) => signed_value(s@) == Ok::<int, IntError>(n as int),
            Err(e) => signed_value(s@) == Err::<int, IntError>(e),
        },
{
    let v = chars_of(s);
    if v.len() == 0 {
        return Err(IntError::Empty);
    }
    if v.len() == 1 && (v[0] == '+' || v[0] == '-') {
        return Err(IntError::InvalidDigit);
    }
    proof {
        assert(v@.skip(0) =~= v@);
        assert(v@.skip(1) =~= v@.drop_first());
        lemma_digits_bound(v@, 0, 9223372036854775807, IntError::TooLarge);
        lemma_digits_bound(v@.drop_first(), 0, 9223372036854775807, IntError::TooLarge);
        lemma_digits_bound(v@.drop_first(), 0, 9223372036854775808, IntError::TooSmall);
    }
    if v[0] == '-' {
        match read_digits(&v, 1, 9223372036854775808, IntError::TooSmall) {
            Ok(n) => if n == 9223372036854775808 {
                Ok(i64::MIN)
            } else {
                Ok(-(n as i64))
            },
            Err(e) => Err(e),
        }
    } else {
        let from: usize = if v[0] == '+' {
            1
        } else {
            0
        };
        match read_digits(&v, from, 9223372036854775807, IntError::TooLarge) {
            Ok(n) => Ok(n as i64),
            Err(e) => Err(e),
        }
    }
}

} // verus!
