//! Decimal integers in text: parsing `u32` and `i32` with the error kinds that
//! std's `str::parse` reports, and writing an `i32` in decimal.

use vstd::prelude::*;

use crate::text::{chars_of, push_char};

verus! {

/// Why a decimal integer could not be parsed (the kinds of std's `IntErrorKind`
/// that base-10 parsing of `u32` and `i32` can report).
#[derive(Clone, Copy, Debug, PartialEq, Eq, Structural)]
pub enum IntErrorKind {
    /// The text is empty.
    Empty,
    /// The text holds a character that is not a decimal digit, or is a lone sign.
    InvalidDigit,
    /// The number is larger than the type's maximum.
    PosOverflow,
    /// The number is smaller than the type's minimum.
    NegOverflow,
}

/// A failed integer parse, carrying its kind.
#[derive(Clone, Copy, Debug, PartialEq, Eq, Structural)]
pub struct ParseIntError {
    pub kind: IntErrorKind,
}

impl ParseIntError {
    /// The kind of failure.
    pub fn kind(&self) -> (k: IntErrorKind)
        ensures
            k == self.kind,
    {
        self.kind
    }
}

pub open spec fn is_ascii_digit(c: char) -> bool {
    '0' <= c <= '9'
}

pub open spec fn digit_value(c: char) -> int {
    c as int - '0' as int
}

/// The character of a single decimal digit `d` (0 to 9; `'9'` for any larger value).
pub open spec fn digit_char(d: int) -> char {
    if d <= 0 {
        '0'
    } else if d == 1 {
        '1'
    } else if d == 2 {
        '2'
    } else if d == 3 {
        '3'
    } else if d == 4 {
        '4'
    } else if d == 5 {
        '5'
    } else if d == 6 {
        '6'
    } else if d == 7 {
        '7'
    } else if d == 8 {
        '8'
    } else {
        '9'
    }
}

/// The lowercase hexadecimal digit of `n` (0 to 15).
pub open spec fn hex_char(n: u8) -> char {
    if n < 10 {
        digit_char(n as int)
    } else if n == 10 {
        'a'
    } else if n == 11 {
        'b'
    } else if n == 12 {
        'c'
    } else if n == 13 {
        'd'
    } else if n == 14 {
        'e'
    } else {
        'f'
    }
}

/// Reading the digits `d` from the left onto the accumulated magnitude `acc`,
/// stopping at the first character that is not a digit (`InvalidDigit`) or at
/// the first digit that takes the magnitude past `bound` (`over`).
pub open spec fn scan_digits(d: Seq<char>, acc: int, bound: int, over: IntErrorKind) -> Result<
    int,
    IntErrorKind,
>
    decreases d.len(),
{
    if d.len() == 0 {
        Ok(acc)
    } else if !is_ascii_digit(d[0]) {
        Err(IntErrorKind::InvalidDigit)
    } else if acc * 10 + digit_value(d[0]) > bound {
        Err(over)
    } else {
        scan_digits(d.drop_first(), acc * 10 + digit_value(d[0]), bound, over)
    }
}

/// What `s.parse::<u32>()` gives: an optional leading `+`, then decimal digits.
pub open spec fn parse_u32_spec(s: Seq<char>) -> Result<int, IntErrorKind> {
    if s.len() == 0 {
        Err(IntErrorKind::Empty)
    } else if s.len() == 1 && (s[0] == '+' || s[0] == '-') {
        Err(IntErrorKind::InvalidDigit)
    } else if s[0] == '+' {
        scan_digits(s.drop_first(), 0, u32::MAX as int, IntErrorKind::PosOverflow)
    } else {
        scan_digits(s, 0, u32::MAX as int, IntErrorKind::PosOverflow)
    }
}

/// What `s.parse::<i32>()` gives: an optional leading `+` or `-`, then decimal digits.
pub open spec fn parse_i32_spec(s: Seq<char>) -> Result<int, IntErrorKind> {
    if s.len() == 0 {
        Err(IntErrorKind::Empty)
    } else if s.len() == 1 && (s[0] == '+' || s[0] == '-') {
        Err(IntErrorKind::InvalidDigit)
    } else if s[0] == '+' {
        scan_digits(s.drop_first(), 0, i32::MAX as int, IntErrorKind::PosOverflow)
    } else if s[0] == '-' {
        match scan_digits(s.drop_first(), 0, 0x8000_0000int, IntErrorKind::NegOverflow) {
            Ok(m) => Ok(-m),
            Err(e) => Err(e),
        }
    } else {
        scan_digits(s, 0, i32::MAX as int, IntErrorKind::PosOverflow)
    }
}

/// The decimal digits of `n`, most significant first, without leading zeros.
pub open spec fn nat_digits(n: nat) -> Seq<char>
    decreases n,
{
    if n < 10 {
        seq![digit_char(n as int)]
    } else {
        nat_digits(n / 10).push(digit_char(n as int % 10))
    }
}

/// `x` written in decimal, with a leading `-` when negative (as `format!("{}", x)`).
pub open spec fn int_to_decimal(x: int) -> Seq<char> {
    if x < 0 {
        seq!['-'] + nat_digits((-x) as nat)
    } else {
        nat_digits(x as nat)
    }
}

/// The digit characters, one by one, and each reads back as its digit.
pub proof fn lemma_digit_char(d: int)
    requires
        0 <= d < 10,
    ensures
        digit_char(0) == '0' && digit_char(1) == '1' && digit_char(2) == '2' && digit_char(3)
            == '3' && digit_char(4) == '4',
        digit_char(5) == '5' && digit_char(6) == '6' && digit_char(7) == '7' && digit_char(8)
            == '8' && digit_char(9) == '9',
        is_ascii_digit(digit_char(d)),
        digit_value(digit_char(d)) == d,
{
}

/// Every character of a decimal numeral is a digit.
pub proof fn lemma_nat_digits_are_digits(n: nat)
    ensures
        nat_digits(n).len() >= 1,
        forall|j: int| 0 <= j < nat_digits(n).len() ==> is_ascii_digit(#[trigger] nat_digits(n)[j]),
    decreases n,
{
    if n < 10 {
        lemma_digit_char(n as int);
    } else {
        lemma_nat_digits_are_digits(n / 10);
        lemma_digit_char(n as int % 10);
    }
}

/// Reading one more digit multiplies what was read by ten and adds the digit.
proof fn lemma_scan_digits_push(d: Seq<char>, c: char, acc: int, v: int, bound: int, over: IntErrorKind)
    requires
        scan_digits(d, acc, bound, over) == Ok::<int, IntErrorKind>(v),
        is_ascii_digit(c),
        v * 10 + digit_value(c) <= bound,
    ensures
        scan_digits(d.push(c), acc, bound, over) == Ok::<int, IntErrorKind>(v * 10 + digit_value(c)),
    decreases d.len(),
{
    if d.len() == 0 {
        assert(v == acc);
        assert(d.push(c)[0] == c);
        assert(d.push(c).drop_first() =~= Seq::<char>::empty());
        assert(scan_digits(Seq::<char>::empty(), acc * 10 + digit_value(c), bound, over) == Ok::<
            int,
            IntErrorKind,
        >(acc * 10 + digit_value(c)));
    } else {
        assert(is_ascii_digit(d[0]));
        assert(acc * 10 + digit_value(d[0]) <= bound);
        assert(d.push(c)[0] == d[0]);
        assert(d.push(c).drop_first() =~= d.drop_first().push(c));
        lemma_scan_digits_push(d.drop_first(), c, acc * 10 + digit_value(d[0]), v, bound, over);
    }
}

/// Reading the decimal numeral of `n` gives `n` back, when `n` is within the bound.
proof fn lemma_scan_nat_digits(n: nat, bound: int, over: IntErrorKind)
    requires
        n <= bound,
    ensures
        scan_digits(nat_digits(n), 0, bound, over) == Ok::<int, IntErrorKind>(n as int),
    decreases n,
{
    if n < 10 {
        lemma_digit_char(n as int);
        let s = nat_digits(n);
        assert(s == seq![digit_char(n as int)]);
        assert(s[0] == digit_char(n as int));
        assert(s.drop_first() =~= Seq::<char>::empty());
        assert(0 * 10 + digit_value(s[0]) == n);
        assert(scan_digits(Seq::<char>::empty(), n as int, bound, over) == Ok::<int, IntErrorKind>(
            n as int,
        ));
    } else {
        let q = n / 10;
        let r = n as int % 10;
        assert(q * 10 + r == n) by (nonlinear_arith)
            requires
                q == n / 10,
                r == n as int % 10,
        ;
        lemma_scan_nat_digits(q, bound, over);
        lemma_digit_char(r);
        lemma_scan_digits_push(nat_digits(q), digit_char(r), 0, q as int, bound, over);
    }
}

/// `str::parse::<u32>` reads the decimal numeral of every `u32` back as that number.
pub proof fn lemma_parse_u32_of_digits(n: u32)
    ensures
        parse_u32_spec(nat_digits(n as nat)) == Ok::<int, IntErrorKind>(n as int),
{
    lemma_nat_digits_are_digits(n as nat);
    lemma_scan_nat_digits(n as nat, u32::MAX as int, IntErrorKind::PosOverflow);
    assert(is_ascii_digit(nat_digits(n as nat)[0]));
}

/// What `parse_u32_spec` reads is a `u32`.
pub proof fn lemma_parse_u32_in_range(s: Seq<char>)
    ensures
        parse_u32_spec(s) matches Ok(v) ==> 0 <= v <= u32::MAX,
{
    if s.len() > 0 && s[0] == '+' {
        lemma_scan_digits_in_range(s.drop_first(), 0, u32::MAX as int, IntErrorKind::PosOverflow);
    } else {
        lemma_scan_digits_in_range(s, 0, u32::MAX as int, IntErrorKind::PosOverflow);
    }
}

proof fn lemma_scan_digits_in_range(d: Seq<char>, acc: int, bound: int, over: IntErrorKind)
    requires
        0 <= acc <= bound,
    ensures
        scan_digits(d, acc, bound, over) matches Ok(v) ==> 0 <= v <= bound,
    decreases d.len(),
{
    if d.len() > 0 && is_ascii_digit(d[0]) && acc * 10 + digit_value(d[0]) <= bound {
        assert(acc * 10 >= 0) by (nonlinear_arith)
            requires
                acc >= 0,
        ;
        lemma_scan_digits_in_range(d.drop_first(), acc * 10 + digit_value(d[0]), bound, over);
    }
}

/// Reads the digits `cs[start..]` as `scan_digits` does, from a zero magnitude.
fn scan_digits_exec(cs: &Vec<char>, start: usize, bound: u64, over: IntErrorKind) -> (res: Result<
    u64,
    IntErrorKind,
>)
    requires
        start <= cs@.len(),
        bound <= 0x1_0000_0000u64,
    ensures
        match res {
            Ok(v) => scan_digits(cs@.skip(start as int), 0, bound as int, over) == Ok::<
                int,
                IntErrorKind,
            >(v as int) && v <= bound,
            Err(e) => scan_digits(cs@.skip(start as int), 0, bound as int, over) == Err::<
                int,
                IntErrorKind,
            >(e),
        },
{
    let mut acc: u64 = 0;
    let mut i: usize = start;
    let n = cs.len();
    while i < n
        invariant
            start <= i <= n,
            n == cs@.len(),
            acc <= bound,
            bound <= 0x1_0000_0000u64,
            scan_digits(cs@.skip(start as int), 0, bound as int, over) == scan_digits(
                cs@.skip(i as int),
                acc as int,
                bound as int,
                over,
            ),
        decreases n - i,
    {
        let c = cs[i];
        let ghost rest = cs@.skip(i as int);
        assert(rest[0] == c);
        assert(rest.drop_first() =~= cs@.skip(i + 1));
        if !('0' <= c && c <= '9') {
            return Err(IntErrorKind::InvalidDigit);
        }
        let d: u64 = (c as u64) - ('0' as u64);
        let next: u64 = acc * 10 + d;
        if next > bound {
            return Err(over);
        }
        acc = next;
        i = i + 1;
    }
    assert(cs@.skip(n as int) =~= Seq::<char>::empty());
    Ok(acc)
}

/// Parses a `u32` from decimal text (std's `s.parse::<u32>()`).
pub fn parse_u32(s: &str) -> (res: Result<u32, ParseIntError>)
    ensures
        match res {
            Ok(v) => parse_u32_spec(s@) == Ok::<int, IntErrorKind>(v as int),
            Err(e) => parse_u32_spec(s@) == Err::<int, IntErrorKind>(e.kind),
        },
{
    let cs = chars_of(s);
    let n = cs.len();
    if n == 0 {
        return Err(ParseIntError { kind: IntErrorKind::Empty });
    }
    if n == 1 && (cs[0] == '+' || cs[0] == '-') {
        return Err(ParseIntError { kind: IntErrorKind::InvalidDigit });
    }
    let start: usize = if cs[0] == '+' { 1 } else { 0 };
    assert(cs@.skip(1) =~= cs@.drop_first());
    assert(cs@.skip(0) =~= cs@);
    match scan_digits_exec(&cs, start, 0xffff_ffffu64, IntErrorKind::PosOverflow) {
        Ok(v) => Ok(v as u32),
        Err(e) => Err(ParseIntError { kind: e }),
    }
}

/// Parses an `i32` from decimal text (std's `s.parse::<i32>()`).
pub fn parse_i32(s: &str) -> (res: Result<i32, ParseIntError>)
    ensures
        match res {
            Ok(v) => parse_i32_spec(s@) == Ok::<int, IntErrorKind>(v as int),
            Err(e) => parse_i32_spec(s@) == Err::<int, IntErrorKind>(e.kind),
        },
{
    let cs = chars_of(s);
    let n = cs.len();
    if n == 0 {
        return Err(ParseIntError { kind: IntErrorKind::Empty });
    }
    if n == 1 && (cs[0] == '+' || cs[0] == '-') {
        return Err(ParseIntError { kind: IntErrorKind::InvalidDigit });
    }
    assert(cs@.skip(1) =~= cs@.drop_first());
    assert(cs@.skip(0) =~= cs@);
    if cs[0] == '-' {
        match scan_digits_exec(&cs, 1, 0x8000_0000u64, IntErrorKind::NegOverflow) {
            Ok(m) => {
                if m == 0x8000_0000u64 {
                    Ok(i32::MIN)
                } else {
                    let v: i32 = m as i32;
                    Ok(-v)
                }
            },
            Err(e) => Err(ParseIntError { kind: e }),
        }
    } else {
        let start: usize = if cs[0] == '+' { 1 } else { 0 };
        match scan_digits_exec(&cs, start, 0x7fff_ffffu64, IntErrorKind::PosOverflow) {
            Ok(v) => Ok(v as i32),
            Err(e) => Err(ParseIntError { kind: e }),
        }
    }
}

/// Writes `x` in decimal (as `format!("{}", x)` does for an `i32`).
pub fn format_i32(x: i32) -> (res: String)
    ensures
        res@ == int_to_decimal(x as int),
{
    let neg = x < 0;
    let mag: u64 = if neg {
        (0i64 - (x as i64)) as u64
    } else {
        x as u64
    };
    let mut m: u64 = mag;
    let mut tail: Vec<char> = Vec::new();
    while m >= 10
        invariant
            nat_digits(mag as nat) == nat_digits(m as nat) + tail@,
        decreases m,
    {
        let d: u64 = m % 10;
        let c: char = digit_of(d);
        let ghost t0 = tail@;
        tail.insert(0, c);
        assert(tail@ =~= seq![c] + t0);
        assert(nat_digits(m as nat) == nat_digits((m / 10) as nat).push(digit_char(m as int % 10)));
        assert(nat_digits((m / 10) as nat).push(c) + t0 =~= nat_digits((m / 10) as nat) + tail@);
        m = m / 10;
    }
    let mut out = String::new();
    if neg {
        push_char(&mut out, '-');
    }
    push_char(&mut out, digit_of(m));
    let n = tail.len();
    for i in 0..n
        invariant
            n == tail@.len(),
            out@ == (if neg { seq!['-'] } else { Seq::<char>::empty() }) + nat_digits(m as nat)
                + tail@.take(i as int),
    {
        push_char(&mut out, tail[i]);
        assert(tail@.take(i + 1) =~= tail@.take(i as int).push(tail@[i as int]));
    }
    assert(tail@.take(n as int) =~= tail@);
    out
}

/// The character of the digit `d`.
fn digit_of(d: u64) -> (c: char)
    requires
        d < 10,
    ensures
        c == digit_char(d as int),
{
    match d {
        0 => '0',
        1 => '1',
        2 => '2',
        3 => '3',
        4 => '4',
        5 => '5',
        6 => '6',
        7 => '7',
        8 => '8',
        _ => '9',
    }
}

} // verus!
