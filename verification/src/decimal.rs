//! Reading a decimal numeral as a count of units.
//!
//! A numeral is one or more digits, optionally followed by a point and one
//! to eight digits: `"350000"`, `"350000.5"`, `"0.00012345"`. No sign, no
//! exponent, no blank. It stands for as many units as its digits read with
//! the point taken out and the fraction filled up to eight places.

use vstd::prelude::*;
use vstd::string::is_ascii_spec_bytes;
use crate::units::MAX_UNITS;

verus! {

/// Whether `c` is one of the ten digits.
pub open spec fn is_digit(c: char) -> bool {
    '0' <= c && c <= '9'
}

/// The number that the digit `c` stands for.
pub open spec fn digit_value(c: char) -> nat
    recommends
        is_digit(c),
{
    (c as int - '0' as int) as nat
}

/// Whether `s` holds digits only.
pub open spec fn all_digits(s: Seq<char>) -> bool {
    forall|i: int| 0 <= i < s.len() ==> is_digit(#[trigger] s[i])
}

/// The number that the digits `s` write in base ten; zero for no digit.
pub open spec fn digits_value(s: Seq<char>) -> nat
    recommends
        all_digits(s),
    decreases s.len(),
{
    if s.len() == 0 {
        0
    } else {
        digits_value(s.drop_last()) * 10 + digit_value(s.last())
    }
}

/// Where the first point of `s` stands; the length of `s` if it has none.
pub open spec fn point_at(s: Seq<char>) -> int
    decreases s.len(),
{
    if s.len() == 0 || s[0] == '.' {
        0
    } else {
        1 + point_at(s.drop_first())
    }
}

/// What stands before the first point of `s`.
pub open spec fn whole_part(s: Seq<char>) -> Seq<char> {
    s.take(point_at(s))
}

/// What stands behind the first point of `s`; nothing if it has no point.
pub open spec fn fraction_part(s: Seq<char>) -> Seq<char> {
    if point_at(s) < s.len() {
        s.skip(point_at(s) + 1)
    } else {
        Seq::empty()
    }
}

/// So many zeros.
pub open spec fn zeros(n: int) -> Seq<char> {
    Seq::new(
        if n >= 0 {
            n as nat
        } else {
            0
        },
        |i: int| '0',
    )
}

/// Whether `s` is a numeral: digits, then nothing more, or a point and one
/// to eight digits.
pub open spec fn is_numeral(s: Seq<char>) -> bool {
    &&& whole_part(s).len() >= 1
    &&& all_digits(whole_part(s))
    &&& all_digits(fraction_part(s))
    &&& fraction_part(s).len() <= 8
    &&& point_at(s) < s.len() ==> fraction_part(s).len() >= 1
}

/// The digits of the numeral `s` with the point taken out and the fraction
/// filled up with zeros to eight places.
pub open spec fn unit_digits(s: Seq<char>) -> Seq<char> {
    whole_part(s) + fraction_part(s) + zeros(8 - fraction_part(s).len())
}

/// The units that `s` stands for, if it is a numeral.
pub open spec fn decimal_units(s: Seq<char>) -> Option<nat> {
    if is_numeral(s) {
        Some(digits_value(unit_digits(s)))
    } else {
        None
    }
}

/// The units that `s` stands for, if it is a numeral of at most
/// [`MAX_UNITS`].
pub open spec fn parse_units(s: Seq<char>) -> Option<u64> {
    match decimal_units(s) {
        Some(units) => if units <= MAX_UNITS {
            Some(units as u64)
        } else {
            None
        },
        None => None,
    }
}

/// The first point stands within `s` or at its end, with no point before
/// it.
proof fn lemma_point_at(s: Seq<char>)
    ensures
        0 <= point_at(s) <= s.len(),
        forall|j: int| 0 <= j < point_at(s) ==> #[trigger] s[j] != '.',
        point_at(s) < s.len() ==> s[point_at(s)] == '.',
    decreases s.len(),
{
    if s.len() > 0 && s[0] != '.' {
        let rest = s.drop_first();
        lemma_point_at(rest);
        assert forall|j: int| 0 <= j < point_at(s) implies #[trigger] s[j] != '.' by {
            if j > 0 {
                assert(rest[j - 1] == s[j]);
            }
        }
        assert(point_at(rest) < rest.len() ==> rest[point_at(rest)] == s[point_at(s)]);
    }
}

/// A place with no point before it, which holds a point or is the end of
/// `s`, is where the first point stands.
proof fn lemma_point_found(s: Seq<char>, i: int)
    requires
        0 <= i <= s.len(),
        forall|j: int| 0 <= j < i ==> #[trigger] s[j] != '.',
        i < s.len() ==> s[i] == '.',
    ensures
        point_at(s) == i,
{
    lemma_point_at(s);
    let p = point_at(s);
    if p < i {
        assert(s[p] == '.');
    } else if p > i {
        assert(s[i] != '.');
    }
}

/// A place with no point before it and none at it lies before the first
/// point.
proof fn lemma_point_beyond(s: Seq<char>, i: int)
    requires
        0 <= i < s.len(),
        forall|j: int| 0 <= j <= i ==> #[trigger] s[j] != '.',
    ensures
        i < point_at(s) <= s.len(),
{
    lemma_point_at(s);
    let p = point_at(s);
    if p <= i {
        assert(s[p] == '.');
    }
}

/// One digit more multiplies what was read by ten and adds the digit.
proof fn lemma_value_of_next(digits: Seq<char>, m: int)
    requires
        0 <= m < digits.len(),
    ensures
        digits_value(digits.take(m + 1)) == digits_value(digits.take(m)) * 10 + digit_value(
            digits[m],
        ),
{
    assert(digits.take(m + 1).drop_last() =~= digits.take(m));
}

/// What a prefix of the digits reads as is no more than what all of them
/// read as.
proof fn lemma_value_grows(digits: Seq<char>, m: int)
    requires
        0 <= m <= digits.len(),
    ensures
        digits_value(digits.take(m)) <= digits_value(digits),
    decreases digits.len() - m,
{
    if m < digits.len() {
        lemma_value_of_next(digits, m);
        lemma_value_grows(digits, m + 1);
        assert(digits_value(digits.take(m)) * 10 >= digits_value(digits.take(m)));
    } else {
        assert(digits.take(m) =~= digits);
    }
}

/// A numeral holds nothing but digits and a point.
pub proof fn lemma_numeral_chars(s: Seq<char>)
    requires
        is_numeral(s),
    ensures
        forall|i: int| 0 <= i < s.len() ==> is_digit(#[trigger] s[i]) || s[i] == '.',
        all_digits(unit_digits(s)),
        unit_digits(s).len() == whole_part(s).len() + 8,
{
    lemma_point_at(s);
    let p = point_at(s);
    let whole = whole_part(s);
    let fraction = fraction_part(s);
    assert forall|i: int| 0 <= i < s.len() implies is_digit(#[trigger] s[i]) || s[i] == '.' by {
        if i < p {
            assert(whole[i] == s[i]);
        } else if i > p {
            assert(fraction[i - p - 1] == s[i]);
        }
    }
    let digits = unit_digits(s);
    assert forall|i: int| 0 <= i < digits.len() implies is_digit(#[trigger] digits[i]) by {
        if i < whole.len() {
            assert(digits[i] == whole[i]);
        } else if i < whole.len() + fraction.len() {
            assert(digits[i] == fraction[i - whole.len()]);
        } else {
            assert(digits[i] == '0');
        }
    }
}

/// Whether `bytes` are the characters of `s`, one byte for each: so it is
/// with the bytes of a text that holds none but the first 128 characters.
spec fn spells(bytes: Seq<u8>, s: Seq<char>) -> bool {
    &&& bytes.len() == s.len()
    &&& forall|i: int|
        0 <= i < s.len() ==> #[trigger] s[i] <= '\u{7f}' && bytes[i] == s[i] as u8
}

/// A character of the first 128 is what its byte is: the byte of a digit is
/// 48 more than the digit's value, and the byte of the point is 46.
proof fn lemma_byte_of(c: char)
    requires
        c <= '\u{7f}',
    ensures
        48 <= c as u8 <= 57 <==> is_digit(c),
        is_digit(c) ==> c as u8 - 48 == digit_value(c),
        c as u8 == 46 <==> c == '.',
{
}

/// Whether the byte is one of the ten digits.
fn is_digit_byte(byte: u8) -> (digit: bool)
    ensures
        digit == (48 <= byte <= 57),
{
    48 <= byte && byte <= 57
}

/// Appends one digit to a count of units, unless the count would then pass
/// [`MAX_UNITS`].
fn shift_in(units: u64, digit: u8) -> (next: Option<u64>)
    requires
        units <= MAX_UNITS,
        digit <= 9,
    ensures
        next == if units * 10 + digit <= MAX_UNITS {
            Some((units * 10 + digit) as u64)
        } else {
            None::<u64>
        },
{
    let next = units * 10 + digit as u64;
    if next <= MAX_UNITS {
        Some(next)
    } else {
        None
    }
}

/// Where the point of a numeral stands in `bytes`, or where it ends if it
/// has no point; nothing if `bytes` is no numeral.
fn numeral_point(bytes: &[u8], Ghost(s): Ghost<Seq<char>>) -> (point: Option<usize>)
    requires
        spells(bytes@, s),
    ensures
        point is Some <==> is_numeral(s),
        point matches Some(p) ==> p == point_at(s),
{
    let n = bytes.len();
    let mut point: usize = 0;
    while point < n && is_digit_byte(bytes[point])
        invariant
            n == bytes@.len(),
            spells(bytes@, s),
            point <= n,
            forall|j: int| 0 <= j < point ==> is_digit(#[trigger] s[j]),
        decreases n - point,
    {
        proof {
            lemma_byte_of(s[point as int]);
        }
        point += 1;
    }
    proof {
        lemma_point_at(s);
        if point < n {
            lemma_byte_of(s[point as int]);
        }
    }
    if point == 0 {
        proof {
            if point_at(s) > 0 {
                lemma_byte_of(s[0]);
                assert(whole_part(s)[0] == s[0]);
            }
        }
        return None;
    }
    if point == n {
        proof {
            lemma_point_found(s, n as int);
            assert(whole_part(s) =~= s);
        }
        return Some(point);
    }
    if bytes[point] != 46 {
        proof {
            lemma_point_beyond(s, point as int);
            assert(whole_part(s)[point as int] == s[point as int]);
        }
        return None;
    }
    proof {
        lemma_point_found(s, point as int);
        assert forall|j: int| 0 <= j < whole_part(s).len() implies is_digit(
            #[trigger] whole_part(s)[j],
        ) by {
            assert(whole_part(s)[j] == s[j]);
        }
    }
    let mut end: usize = point + 1;
    while end < n && is_digit_byte(bytes[end])
        invariant
            n == bytes@.len(),
            spells(bytes@, s),
            point < end <= n,
            forall|j: int| point < j < end ==> is_digit(#[trigger] s[j]),
        decreases n - end,
    {
        proof {
            lemma_byte_of(s[end as int]);
        }
        end += 1;
    }
    if end < n {
        proof {
            lemma_byte_of(s[end as int]);
            assert(fraction_part(s)[end - point - 1] == s[end as int]);
        }
        return None;
    }
    let places = n - point - 1;
    if places == 0 || places > 8 {
        return None;
    }
    proof {
        assert forall|j: int| 0 <= j < fraction_part(s).len() implies is_digit(
            #[trigger] fraction_part(s)[j],
        ) by {
            assert(fraction_part(s)[j] == s[point + 1 + j]);
        }
    }
    Some(point)
}

/// Reads a numeral as a count of units.
pub fn parse_decimal(text: &str) -> (units: Option<u64>)
    ensures
        units == parse_units(text@),
{
    if !text.is_ascii() {
        proof {
            if is_numeral(text@) {
                lemma_numeral_chars(text@);
            }
        }
        return None;
    }
    let bytes = text.as_bytes();
    proof {
        is_ascii_spec_bytes(text);
    }
    let n = bytes.len();
    let point = match numeral_point(bytes, Ghost(text@)) {
        Some(point) => point,
        None => {
            return None;
        },
    };
    let ghost s = text@;
    let ghost digits = unit_digits(s);
    let ghost whole = whole_part(s);
    let ghost fraction = fraction_part(s);
    proof {
        lemma_numeral_chars(s);
        lemma_point_at(s);
    }
    let mut units: u64 = 0;
    let mut i: usize = 0;
    assert(digits.take(0) =~= Seq::<char>::empty());
    while i < point
        invariant
            n == bytes@.len(),
            spells(bytes@, s),
            i <= point <= n,
            point == point_at(s),
            s == text@,
            is_numeral(s),
            digits == unit_digits(s),
            all_digits(digits),
            digits.len() == point + 8,
            units <= MAX_UNITS,
            units == digits_value(digits.take(i as int)),
        decreases point - i,
    {
        proof {
            assert(digits[i as int] == whole_part(s)[i as int]);
            assert(whole_part(s)[i as int] == s[i as int]);
            lemma_byte_of(s[i as int]);
            lemma_value_of_next(digits, i as int);
            lemma_value_grows(digits, i + 1);
        }
        units = match shift_in(units, bytes[i] - 48) {
            Some(next) => next,
            None => {
                return None;
            },
        };
        i += 1;
    }
    let mut places: usize = 0;
    if point < n {
        i = point + 1;
        while i < n
            invariant
                n == bytes@.len(),
                spells(bytes@, s),
                point < i <= n,
                point == point_at(s),
                s == text@,
                is_numeral(s),
                digits == unit_digits(s),
                all_digits(digits),
                digits.len() == point + 8,
                units <= MAX_UNITS,
                units == digits_value(digits.take(i - 1)),
            decreases n - i,
        {
            proof {
                assert(digits[i - 1] == fraction_part(s)[i - point - 1]);
                assert(fraction_part(s)[i - point - 1] == s[i as int]);
                lemma_byte_of(s[i as int]);
                lemma_value_of_next(digits, i - 1);
                lemma_value_grows(digits, i as int);
            }
            units = match shift_in(units, bytes[i] - 48) {
                Some(next) => next,
                None => {
                    return None;
                },
            };
            i += 1;
        }
        places = n - point - 1;
    }
    while places < 8
        invariant
            places <= 8,
            places >= fraction_part(s).len(),
            s == text@,
            is_numeral(s),
            point == point_at(s),
            digits == unit_digits(s),
            all_digits(digits),
            digits.len() == point + 8,
            units <= MAX_UNITS,
            units == digits_value(digits.take(point + places)),
        decreases 8 - places,
    {
        proof {
            assert(digits[point + places] == '0');
            lemma_value_of_next(digits, point + places);
            lemma_value_grows(digits, point + places + 1);
        }
        units = match shift_in(units, 0) {
            Some(next) => next,
            None => {
                return None;
            },
        };
        places += 1;
    }
    assert(digits.take(point + 8) =~= digits);
    Some(units)
}

} // verus!
