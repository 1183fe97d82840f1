//! What the validation rules of the project model accept, stated against the
//! characters and calendar they are about.

use vstd::prelude::*;

use crate::domain::project::{
    date_range_outcome, date_day, digit_value, date_month, date_year, has_date_shape, is_ascii_digit, is_ascii_hex_digit,
    is_canonical_uuid, is_iso_date,
};
use crate::text::lex_less;

verus! {

/// The decimal digits are exactly the characters `0` to `9`.
pub proof fn law_decimal_digits(c: char)
    ensures
        is_ascii_digit(c) <==> ('0' <= c && c <= '9'),
{
}

/// The hexadecimal digits are exactly `0` to `9`, `a` to `f` and `A` to `F`:
/// lower and upper case are both accepted.
pub proof fn law_hexadecimal_digits(c: char)
    ensures
        is_ascii_hex_digit(c) <==> (('0' <= c && c <= '9') || ('a' <= c && c <= 'f') || ('A' <= c
            && c <= 'F')),
{
}

/// A canonical UUID text has 36 characters: dashes at positions 8, 13, 18
/// and 23, and a hexadecimal digit of either case everywhere else.
pub proof fn law_canonical_uuid_text(s: Seq<char>)
    ensures
        is_canonical_uuid(s) <==> {
            &&& s.len() == 36
            &&& s[8] == '-' && s[13] == '-' && s[18] == '-' && s[23] == '-'
            &&& forall|i: int|
                0 <= i < 36 && i != 8 && i != 13 && i != 18 && i != 23 ==> {
                    let c = #[trigger] s[i];
                    ('0' <= c && c <= '9') || ('a' <= c && c <= 'f') || ('A' <= c && c <= 'F')
                }
        },
{
    let shaped = s.len() == 36 && s[8] == '-' && s[13] == '-' && s[18] == '-' && s[23] == '-'
        && forall|i: int|
        0 <= i < 36 && i != 8 && i != 13 && i != 18 && i != 23 ==> {
            let c = #[trigger] s[i];
            ('0' <= c && c <= '9') || ('a' <= c && c <= 'f') || ('A' <= c && c <= 'F')
        };
    if is_canonical_uuid(s) {
        assert(s[8] == '-' && s[13] == '-' && s[18] == '-' && s[23] == '-');
        assert forall|i: int| 0 <= i < 36 && i != 8 && i != 13 && i != 18 && i != 23 implies {
            let c = #[trigger] s[i];
            ('0' <= c && c <= '9') || ('a' <= c && c <= 'f') || ('A' <= c && c <= 'F')
        } by {
            law_hexadecimal_digits(s[i]);
        }
    }
    if shaped {
        assert forall|i: int| 0 <= i < 36 implies if i == 8 || i == 13 || i == 18 || i == 23 {
            #[trigger] s[i] == '-'
        } else {
            is_ascii_hex_digit(s[i])
        } by {
            law_hexadecimal_digits(s[i]);
        }
    }
}

/// A text of the form `YYYY-MM-DD` is a calendar date exactly when its year is
/// at least 1, its month is 1 to 12, and its day lies within the month:
/// 31 days in January, March, May, July, August, October and December, 30 in
/// April, June, September and November, and in February 29 in a leap year
/// (divisible by 4, and by 400 when divisible by 100) and 28 otherwise.
pub proof fn law_calendar_dates(s: Seq<char>)
    requires
        has_date_shape(s),
    ensures
        is_iso_date(s) <==> {
            let y = date_year(s);
            let m = date_month(s);
            let d = date_day(s);
            let leap = y % 4 == 0 && (y % 100 != 0 || y % 400 == 0);
            &&& y >= 1
            &&& 1 <= m <= 12
            &&& 1 <= d
            &&& (m == 1 || m == 3 || m == 5 || m == 7 || m == 8 || m == 10 || m == 12 ==> d <= 31)
            &&& (m == 4 || m == 6 || m == 9 || m == 11 ==> d <= 30)
            &&& (m == 2 && leap ==> d <= 29)
            &&& (m == 2 && !leap ==> d <= 28)
        },
{
    assert(date_year(s) >= 0) by {
        assert(is_ascii_digit(s[0]) && is_ascii_digit(s[1]) && is_ascii_digit(s[2]) && is_ascii_digit(s[3]));
    }
}

/// Of two texts of the same length, the first is smaller exactly where they
/// first differ by a smaller character.
proof fn lemma_lex_first_difference(a: Seq<char>, b: Seq<char>)
    requires
        a.len() == b.len(),
    ensures
        lex_less(a, b) ==> exists|i: int|
            0 <= i < a.len() && (a[i] as u32) < (b[i] as u32) && #[trigger] a.subrange(0, i)
                =~= b.subrange(0, i),
    decreases a.len(),
{
    if a.len() > 0 && lex_less(a, b) {
        if a[0] != b[0] {
            assert(a.subrange(0, 0) =~= b.subrange(0, 0));
        } else {
            let (x, y) = (a.drop_first(), b.drop_first());
            lemma_lex_first_difference(x, y);
            let i = choose|i: int|
                0 <= i < x.len() && (x[i] as u32) < (y[i] as u32) && #[trigger] x.subrange(0, i)
                    =~= y.subrange(0, i);
            assert forall|j: int| 0 <= j < i + 1 implies a[j] == b[j] by {
                if j > 0 {
                    assert(x.subrange(0, i)[j - 1] == y.subrange(0, i)[j - 1]);
                }
            }
            assert(a.subrange(0, i + 1) =~= b.subrange(0, i + 1));
            assert(a[i + 1] == x[i] && b[i + 1] == y[i]);
        }
    }
}

/// Distinct characters have distinct codes.
proof fn lemma_distinct_codes(c: char, d: char)
    requires
        c != d,
    ensures
        (c as u32) != (d as u32),
{
}

/// Two texts of the same length are equal or one is smaller.
proof fn lemma_lex_total(a: Seq<char>, b: Seq<char>)
    requires
        a.len() == b.len(),
    ensures
        a =~= b || lex_less(a, b) || lex_less(b, a),
    decreases a.len(),
{
    if a.len() > 0 && a[0] == b[0] {
        lemma_lex_first_difference(a, b);
        lemma_lex_total(a.drop_first(), b.drop_first());
        if a.drop_first() =~= b.drop_first() {
            assert forall|j: int| 0 <= j < a.len() implies a[j] == b[j] by {
                if j > 0 {
                    assert(a[j] == a.drop_first()[j - 1]);
                }
            }
        }
    } else if a.len() > 0 {
        lemma_distinct_codes(a[0], b[0]);
    }
}

/// The date of a text of the form `YYYY-MM-DD` precedes another's.
pub open spec fn date_before(a: Seq<char>, b: Seq<char>) -> bool {
    ||| date_year(a) < date_year(b)
    ||| date_year(a) == date_year(b) && date_month(a) < date_month(b)
    ||| date_year(a) == date_year(b) && date_month(a) == date_month(b) && date_day(a) < date_day(b)
}

proof fn lemma_digit(c: char)
    requires
        is_ascii_digit(c),
    ensures
        0 <= digit_value(c) <= 9,
{
}

/// A smaller date text is an earlier date.
proof fn lemma_smaller_text_is_earlier(a: Seq<char>, b: Seq<char>)
    requires
        has_date_shape(a),
        has_date_shape(b),
        lex_less(a, b),
    ensures
        date_before(a, b),
{
    lemma_lex_first_difference(a, b);
    let i = choose|i: int|
        0 <= i < a.len() && (a[i] as u32) < (b[i] as u32) && #[trigger] a.subrange(0, i)
            =~= b.subrange(0, i);
    assert forall|j: int| 0 <= j < i implies a[j] == b[j] by {
        assert(a.subrange(0, i)[j] == b.subrange(0, i)[j]);
    }
    assert(i != 4 && i != 7);
    assert forall|k: int| 0 <= k < 10 && k != 4 && k != 7 implies 0 <= #[trigger] digit_value(a[k])
        <= 9 && 0 <= digit_value(b[k]) <= 9 by {
        lemma_digit(a[k]);
        lemma_digit(b[k]);
    }
    assert(digit_value(a[i]) < digit_value(b[i]));
    assert(0 <= digit_value(a[0]) <= 9 && 0 <= digit_value(b[0]) <= 9);
    assert(0 <= digit_value(a[1]) <= 9 && 0 <= digit_value(b[1]) <= 9);
    assert(0 <= digit_value(a[2]) <= 9 && 0 <= digit_value(b[2]) <= 9);
    assert(0 <= digit_value(a[3]) <= 9 && 0 <= digit_value(b[3]) <= 9);
    assert(0 <= digit_value(a[5]) <= 9 && 0 <= digit_value(b[5]) <= 9);
    assert(0 <= digit_value(a[6]) <= 9 && 0 <= digit_value(b[6]) <= 9);
    assert(0 <= digit_value(a[8]) <= 9 && 0 <= digit_value(b[8]) <= 9);
    assert(0 <= digit_value(a[9]) <= 9 && 0 <= digit_value(b[9]) <= 9);
}

/// For texts of the form `YYYY-MM-DD`, the order of the texts is the order
/// of the dates: by year, then month, then day.
pub proof fn law_date_texts_order_as_dates(a: Seq<char>, b: Seq<char>)
    requires
        has_date_shape(a),
        has_date_shape(b),
    ensures
        lex_less(a, b) <==> date_before(a, b),
{
    lemma_lex_total(a, b);
    if lex_less(a, b) {
        lemma_smaller_text_is_earlier(a, b);
    } else if lex_less(b, a) {
        lemma_smaller_text_is_earlier(b, a);
    }
}

/// Two calendar dates form a valid range exactly when the target date is
/// not earlier than the start date; a range with one date or none is valid
/// when the dates given are calendar dates.
pub proof fn law_date_ranges(s: Seq<char>, t: Seq<char>)
    requires
        is_iso_date(s),
        is_iso_date(t),
    ensures
        date_range_outcome(Some(s), Some(t)) is Ok <==> !date_before(t, s),
        date_range_outcome(Some(s), None) is Ok,
        date_range_outcome(None, Some(t)) is Ok,
        date_range_outcome(None, None) is Ok,
{
    law_date_texts_order_as_dates(t, s);
}

} // verus!
