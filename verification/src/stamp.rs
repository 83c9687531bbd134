//! Fresh identities and creation times for new events.

use vstd::prelude::*;

use crate::decimal::hex_char;
use crate::events::EventStamp;

verus! {

pub open spec fn is_lower_hex(c: char) -> bool {
    ('0' <= c && c <= '9') || ('a' <= c && c <= 'f')
}

/// `s` is a version 4 UUID in hyphenated lowercase form, such as
/// `66b3a3a0-30b5-41f2-9907-a335de57c921`: 36 characters, `-` at 8, 13, 18 and
/// 23, lowercase hex digits elsewhere, the version digit `4` at 14 and a variant
/// digit of `8`, `9`, `a` or `b` at 19.
pub open spec fn is_uuid_v4_text(s: Seq<char>) -> bool {
    &&& s.len() == 36
    &&& forall|i: int|
        0 <= i < 36 ==> if i == 8 || i == 13 || i == 18 || i == 23 {
            s[i] == '-'
        } else {
            is_lower_hex(#[trigger] s[i])
        }
    &&& s[14] == '4'
    &&& (s[19] == '8' || s[19] == '9' || s[19] == 'a' || s[19] == 'b')
}

/// The bytes `b` in lowercase hexadecimal, two digits each, high nibble first.
pub open spec fn hex_of(b: Seq<u8>) -> Seq<char>
    decreases b.len(),
{
    if b.len() == 0 {
        Seq::<char>::empty()
    } else {
        seq![hex_char(b[0] >> 4u8), hex_char(b[0] & 0x0fu8)] + hex_of(b.drop_first())
    }
}

/// The sixteen random bytes `b` made a version 4 UUID: the high nibble of byte 6
/// set to the version `4`, the top two bits of byte 8 set to the variant `10`.
pub open spec fn v4_bytes(b: Seq<u8>) -> Seq<u8> {
    b.update(6, (b[6] & 0x0fu8) | 0x40u8).update(8, (b[8] & 0x3fu8) | 0x80u8)
}

/// The hyphenated lowercase text of the version 4 UUID made from the sixteen
/// random bytes `b`: groups of 4, 2, 2, 2 and 6 bytes joined by `-`.
pub open spec fn uuid_v4_text(b: Seq<u8>) -> Seq<char> {
    let v = v4_bytes(b);
    hex_of(v.subrange(0, 4)) + "-"@ + hex_of(v.subrange(4, 6)) + "-"@ + hex_of(v.subrange(6, 8))
        + "-"@ + hex_of(v.subrange(8, 10)) + "-"@ + hex_of(v.subrange(10, 16))
}

pub open spec fn all_ascii_digits(s: Seq<char>) -> bool {
    forall|i: int| 0 <= i < s.len() ==> crate::decimal::is_ascii_digit(#[trigger] s[i])
}

/// `s` follows the template `t`, where `D` stands for any decimal digit and
/// every other character for itself.
pub open spec fn fits_template(s: Seq<char>, t: Seq<char>) -> bool {
    &&& s.len() == t.len()
    &&& forall|i: int|
        0 <= i < s.len() ==> if t[i] == 'D' {
            crate::decimal::is_ascii_digit(#[trigger] s[i])
        } else {
            s[i] == t[i]
        }
}

/// A year as RFC 3339 text from chrono: four digits, or, outside 0 to 9999, a
/// sign and four to six digits.
pub open spec fn is_rfc3339_year(y: Seq<char>) -> bool {
    ||| y.len() == 4 && all_ascii_digits(y)
    ||| 5 <= y.len() <= 7 && (y[0] == '+' || y[0] == '-') && all_ascii_digits(y.drop_first())
}

/// `s` is an RFC 3339 date and time in UTC with a numeric offset, as chrono's
/// `to_rfc3339` writes it: a year, `-MM-DD`, `T`, `HH:MM:SS`, a fraction of
/// the second of 3, 6 or 9 digits when it is not zero, and `+00:00`.
pub open spec fn is_utc_rfc3339_text(s: Seq<char>) -> bool {
    exists|k: int|
        0 <= k <= s.len() && is_rfc3339_year(#[trigger] s.subrange(0, k)) && {
            let rest = s.subrange(k, s.len() as int);
            ||| fits_template(rest, "-DD-DDTDD:DD:DD+00:00"@)
            ||| fits_template(rest, "-DD-DDTDD:DD:DD.DDD+00:00"@)
            ||| fits_template(rest, "-DD-DDTDD:DD:DD.DDDDDD+00:00"@)
            ||| fits_template(rest, "-DD-DDTDD:DD:DD.DDDDDDDDD+00:00"@)
        }
}

/// Calls `getrandom::fill` on sixteen bytes: the operating system's random
/// source. `None` when that source fails. Which bytes come out is left open:
/// they are random.
#[verifier::external_body]
fn random_bytes() -> (res: Option<[u8; 16]>) {
    let mut bytes = [0u8; 16];
    match getrandom::fill(&mut bytes) {
        Ok(()) => Some(bytes),
        Err(_) => None,
    }
}

/// Calls `uuid::Builder::from_random_bytes`, which sets the version and variant
/// bits of the bytes as `v4_bytes` says, and writes the UUID with `to_string`,
/// which gives the hyphenated lowercase form.
#[verifier::external_body]
fn uuid_text_from_random_bytes(bytes: [u8; 16]) -> (id: String)
    ensures
        id@ == uuid_v4_text(bytes@),
{
    uuid::Builder::from_random_bytes(bytes).into_uuid().to_string()
}

/// Reads the system clock (`std::time::SystemTime::now`), converts it with
/// chrono's `From<SystemTime> for DateTime<Utc>` (times before 1970 included)
/// and writes it with `DateTime::to_rfc3339`, which writes the date, the time
/// with the fraction of the second it needs, and the numeric offset `+00:00`
/// (chrono writes `Z` only when asked to). Which time comes out is left open:
/// it is the clock's. The conversion stops only on a clock beyond chrono's
/// range of about 262,000 years, which is not excluded.
#[verifier::external_body]
fn now_utc_rfc3339() -> (t: String)
    ensures
        is_utc_rfc3339_text(t@),
{
    let now: chrono::DateTime<chrono::Utc> = std::time::SystemTime::now().into();
    now.to_rfc3339()
}

proof fn lemma_hex_char(n: u8)
    requires
        n < 16,
    ensures
        is_lower_hex(hex_char(n)),
{
    if n < 10 {
        crate::decimal::lemma_digit_char(n as int);
    }
}

proof fn lemma_hex_of(x: Seq<u8>)
    ensures
        hex_of(x).len() == 2 * x.len(),
        forall|j: int| 0 <= j < hex_of(x).len() ==> is_lower_hex(#[trigger] hex_of(x)[j]),
        x.len() >= 1 ==> hex_of(x)[0] == hex_char(x[0] >> 4u8),
    decreases x.len(),
{
    if x.len() > 0 {
        lemma_hex_of(x.drop_first());
        let b = x[0];
        assert(b >> 4u8 < 16u8) by (bit_vector);
        assert(b & 0x0fu8 < 16u8) by (bit_vector);
        lemma_hex_char(b >> 4u8);
        lemma_hex_char(b & 0x0fu8);
        let h = seq![hex_char(b >> 4u8), hex_char(b & 0x0fu8)];
        assert forall|j: int| 0 <= j < hex_of(x).len() implies is_lower_hex(#[trigger] hex_of(x)[j]) by {
            if j >= 2 {
                assert(hex_of(x)[j] == hex_of(x.drop_first())[j - 2]);
            }
        }
    }
}

/// Every UUID text made from sixteen random bytes is a version 4 UUID in
/// hyphenated lowercase form.
pub proof fn lemma_uuid_v4_text_shape(b: Seq<u8>)
    requires
        b.len() == 16,
    ensures
        is_uuid_v4_text(uuid_v4_text(b)),
{
    let v = v4_bytes(b);
    let x6 = b[6];
    let x8 = b[8];
    assert(((x6 & 0x0fu8) | 0x40u8) >> 4u8 == 4u8) by (bit_vector);
    let hi8 = ((x8 & 0x3fu8) | 0x80u8) >> 4u8;
    assert(8u8 <= hi8 <= 11u8) by (bit_vector)
        requires
            hi8 == ((x8 & 0x3fu8) | 0x80u8) >> 4u8,
    ;
    let a = hex_of(v.subrange(0, 4));
    let c = hex_of(v.subrange(4, 6));
    let d = hex_of(v.subrange(6, 8));
    let e = hex_of(v.subrange(8, 10));
    let f = hex_of(v.subrange(10, 16));
    lemma_hex_of(v.subrange(0, 4));
    lemma_hex_of(v.subrange(4, 6));
    lemma_hex_of(v.subrange(6, 8));
    lemma_hex_of(v.subrange(8, 10));
    lemma_hex_of(v.subrange(10, 16));
    assert(v.subrange(6, 8)[0] == (x6 & 0x0fu8) | 0x40u8);
    assert(v.subrange(8, 10)[0] == (x8 & 0x3fu8) | 0x80u8);
    crate::decimal::lemma_digit_char(4);
    let s = uuid_v4_text(b);
    reveal_strlit("-");
    assert("-"@ =~= seq!['-']);
    assert(s =~= a + seq!['-'] + c + seq!['-'] + d + seq!['-'] + e + seq!['-'] + f);
    assert(s.len() == 36);
    assert forall|i: int| 0 <= i < 36 implies if i == 8 || i == 13 || i == 18 || i == 23 {
        s[i] == '-'
    } else {
        is_lower_hex(#[trigger] s[i])
    } by {
        if i < 8 {
            assert(s[i] == a[i]);
        } else if i == 8 {
        } else if i < 13 {
            assert(s[i] == c[i - 9]);
        } else if i == 13 {
        } else if i < 18 {
            assert(s[i] == d[i - 14]);
        } else if i == 18 {
        } else if i < 23 {
            assert(s[i] == e[i - 19]);
        } else if i == 23 {
        } else {
            assert(s[i] == f[i - 24]);
        }
    }
    assert(s[14] == d[0]);
    assert(s[19] == e[0]);
}

impl EventStamp {
    /// A stamp with the version 4 UUID made from the sixteen random bytes
    /// `bytes` and the creation time `created_dt`.
    pub fn from_random_bytes(bytes: [u8; 16], created_dt: String) -> (s: EventStamp)
        ensures
            s.id@ == uuid_v4_text(bytes@),
            is_uuid_v4_text(s.id@),
            s.created_dt@ == created_dt@,
    {
        proof {
            lemma_uuid_v4_text_shape(bytes@);
        }
        EventStamp { id: uuid_text_from_random_bytes(bytes), created_dt }
    }

    /// A new random id and the current time; `None` when the operating
    /// system's random source fails.
    pub fn fresh() -> (res: Option<EventStamp>)
        ensures
            res matches Some(s) ==> {
                &&& exists|b: Seq<u8>| b.len() == 16 && s.id@ == #[trigger] uuid_v4_text(b)
                &&& is_uuid_v4_text(s.id@)
                &&& is_utc_rfc3339_text(s.created_dt@)
            },
    {
        match random_bytes() {
            Some(bytes) => {
                let created_dt = now_utc_rfc3339();
                Some(EventStamp::from_random_bytes(bytes, created_dt))
            },
            None => None,
        }
    }
}

} // verus!
