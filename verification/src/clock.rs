use vstd::prelude::*;
use crate::text::{digit_char, digits};

verus! {

/// `s` padded on the left with zeros to at least `width` characters.
pub open spec fn zero_padded(s: Seq<char>, width: int) -> Seq<char> {
    if s.len() < width {
        Seq::new((width - s.len()) as nat, |i: int| '0') + s
    } else {
        s
    }
}

/// The two decimal digits of `n` (0 to 99).
pub open spec fn two_digits(n: int) -> Seq<char> {
    seq![digit_char(n / 10), digit_char(n % 10)]
}

/// A year as `%Y` writes it: at least four digits, and a sign when it is
/// before year 0 or after year 9999.
pub open spec fn year_text(y: int) -> Seq<char> {
    if 0 <= y <= 9999 {
        zero_padded(digits(y as nat), 4)
    } else if y < 0 {
        seq!['-'] + zero_padded(digits((-y) as nat), 4)
    } else {
        seq!['+'] + zero_padded(digits(y as nat), 4)
    }
}

/// A calendar day as `%Y-%m-%d` writes it.
pub open spec fn date_text(y: int, month: int, day: int) -> Seq<char> {
    year_text(y) + seq!['-'] + two_digits(month) + seq!['-'] + two_digits(day)
}

/// A moment as `%Y-%m-%d %H:%M:%S` writes it.
pub open spec fn timestamp_text(y: int, month: int, day: int, h: int, m: int, s: int) -> Seq<
    char,
> {
    date_text(y, month, day) + seq![' '] + two_digits(h) + seq![':'] + two_digits(m) + seq![':']
        + two_digits(s)
}

/// Month and day within their ranges.
pub open spec fn valid_day(month: int, day: int) -> bool {
    1 <= month <= 12 && 1 <= day <= 31
}

/// Hour, minute and second within their ranges; a leap second reads as 60.
pub open spec fn valid_time(h: int, m: int, s: int) -> bool {
    0 <= h <= 23 && 0 <= m <= 59 && 0 <= s <= 60
}

/// `t` is the text `%Y-%m-%d %H:%M:%S` gives for some valid moment.
pub open spec fn is_timestamp(t: Seq<char>) -> bool {
    exists|y: int, mo: int, d: int, h: int, mi: int, s: int|
        valid_day(mo, d) && valid_time(h, mi, s) && t == #[trigger] timestamp_text(y, mo, d, h, mi, s)
}

/// `t` is the text `%Y-%m-%d` gives for some valid day.
pub open spec fn is_date(t: Seq<char>) -> bool {
    exists|y: int, mo: int, d: int| valid_day(mo, d) && t == #[trigger] date_text(y, mo, d)
}

/// The local date and time now, written with `chrono::Local::now().format(..)`.
/// What time it is is not stated; what is stated is the shape that chrono's
/// formatting gives each of the two patterns the application uses.
#[verifier::external_body]
fn format_local_now(pattern: &str) -> (res: String)
    requires
        pattern@ == "%Y-%m-%d %H:%M:%S"@ || pattern@ == "%Y-%m-%d"@,
    ensures
        pattern@ == "%Y-%m-%d %H:%M:%S"@ ==> is_timestamp(res@),
        pattern@ == "%Y-%m-%d"@ ==> is_date(res@),
{
    chrono::Local::now().format(pattern).to_string()
}

/// The local date and time now, as `YYYY-MM-DD HH:MM:SS`; every record is
/// stamped with it.
pub fn now() -> (res: String)
    ensures
        is_timestamp(res@),
{
    format_local_now("%Y-%m-%d %H:%M:%S")
}

/// The local date today, as `YYYY-MM-DD`; the daily figures are taken for it.
pub fn today() -> (res: String)
    ensures
        is_date(res@),
{
    format_local_now("%Y-%m-%d")
}

// ---------------------------------------------------------------------------
// Order of dates and timestamps
// ---------------------------------------------------------------------------

/// `a` sorts before `b` when texts are compared character by character, as
/// the database compares them.
pub open spec fn text_less(a: Seq<char>, b: Seq<char>) -> bool
    decreases a.len(),
{
    if a.len() == 0 {
        b.len() > 0
    } else if b.len() == 0 {
        false
    } else if a[0] != b[0] {
        (a[0] as int) < (b[0] as int)
    } else {
        text_less(a.drop_first(), b.drop_first())
    }
}

/// Day `(y1, m1, d1)` comes before day `(y2, m2, d2)`.
pub open spec fn day_before(y1: int, m1: int, d1: int, y2: int, m2: int, d2: int) -> bool {
    y1 < y2 || (y1 == y2 && (m1 < m2 || (m1 == m2 && d1 < d2)))
}

/// Comparing two texts of the same length first: the first parts decide,
/// unless they are equal.
proof fn lemma_less_concat(x: Seq<char>, y: Seq<char>, x2: Seq<char>, y2: Seq<char>)
    requires
        x.len() == x2.len(),
    ensures
        text_less(x + y, x2 + y2) == (if x == x2 {
            text_less(y, y2)
        } else {
            text_less(x, x2)
        }),
    decreases x.len(),
{
    if x.len() == 0 {
        assert(x + y =~= y);
        assert(x2 + y2 =~= y2);
        assert(x =~= x2);
    } else {
        assert((x + y)[0] == x[0]);
        assert((x2 + y2)[0] == x2[0]);
        if x[0] == x2[0] {
            lemma_less_concat(x.drop_first(), y, x2.drop_first(), y2);
            assert((x + y).drop_first() =~= x.drop_first() + y);
            assert((x2 + y2).drop_first() =~= x2.drop_first() + y2);
            if x.drop_first() =~= x2.drop_first() {
                assert forall|i: int| 0 <= i < x.len() implies x[i] == x2[i] by {
                    if i > 0 {
                        assert(x[i] == x.drop_first()[i - 1]);
                        assert(x2[i] == x2.drop_first()[i - 1]);
                    }
                }
                assert(x =~= x2);
            } else {
                assert(x != x2);
            }
        } else {
            assert(x != x2);
        }
    }
}

proof fn lemma_digit_char_code(d: int)
    requires
        0 <= d < 10,
    ensures
        digit_char(d) as int == 48 + d,
{
}

proof fn lemma_single_less(p: char, q: char)
    ensures
        text_less(seq![p], seq![q]) == ((p as int) < (q as int)),
{
    assert(seq![p][0] == p);
    assert(seq![q][0] == q);
    if p == q {
        assert(seq![p].drop_first() =~= Seq::<char>::empty());
        assert(seq![q].drop_first() =~= Seq::<char>::empty());
        assert(!text_less(Seq::<char>::empty(), Seq::<char>::empty()));
    }
}

/// Two-digit numerals sort as their numbers do.
proof fn lemma_two_digits_order(a: int, b: int)
    requires
        0 <= a <= 99,
        0 <= b <= 99,
    ensures
        text_less(two_digits(a), two_digits(b)) == (a < b),
        (two_digits(a) == two_digits(b)) == (a == b),
{
    let x = seq![digit_char(a / 10)];
    let y = seq![digit_char(a % 10)];
    let x2 = seq![digit_char(b / 10)];
    let y2 = seq![digit_char(b % 10)];
    assert(two_digits(a) =~= x + y);
    assert(two_digits(b) =~= x2 + y2);
    lemma_less_concat(x, y, x2, y2);
    lemma_digit_char_code(a / 10);
    lemma_digit_char_code(a % 10);
    lemma_digit_char_code(b / 10);
    lemma_digit_char_code(b % 10);
    lemma_single_less(digit_char(a / 10), digit_char(b / 10));
    lemma_single_less(digit_char(a % 10), digit_char(b % 10));
    if two_digits(a) == two_digits(b) {
        assert(two_digits(a)[0] == two_digits(b)[0]);
        assert(two_digits(a)[1] == two_digits(b)[1]);
    }
}

/// A year from 0 to 9999 is written as its hundreds and its rest, two digits each.
proof fn lemma_year_text_split(y: int)
    requires
        0 <= y <= 9999,
    ensures
        year_text(y) == two_digits(y / 100) + two_digits(y % 100),
{
    let n = y as nat;
    if n >= 10 {
        assert(digits(n) == digits(n / 10).push(digit_char((n % 10) as int)));
        if n / 10 >= 10 {
            assert(digits(n / 10) == digits(n / 100).push(digit_char(((n / 10) % 10) as int)));
            if n / 100 >= 10 {
                assert(digits(n / 100) == digits(n / 1000).push(
                    digit_char(((n / 100) % 10) as int),
                ));
                assert(digits(n / 1000) == seq![digit_char((n / 1000) as int)]);
            } else {
                assert(digits(n / 100) == seq![digit_char((n / 100) as int)]);
            }
        } else {
            assert(digits(n / 10) == seq![digit_char((n / 10) as int)]);
        }
    } else {
        assert(digits(n) == seq![digit_char(n as int)]);
    }
    assert(year_text(y) =~= two_digits(y / 100) + two_digits(y % 100));
}

/// Years from 0 to 9999 sort as their numbers do.
proof fn lemma_year_order(a: int, b: int)
    requires
        0 <= a <= 9999,
        0 <= b <= 9999,
    ensures
        text_less(year_text(a), year_text(b)) == (a < b),
        (year_text(a) == year_text(b)) == (a == b),
{
    lemma_year_text_split(a);
    lemma_year_text_split(b);
    lemma_less_concat(
        two_digits(a / 100),
        two_digits(a % 100),
        two_digits(b / 100),
        two_digits(b % 100),
    );
    lemma_two_digits_order(a / 100, b / 100);
    lemma_two_digits_order(a % 100, b % 100);
    if year_text(a) == year_text(b) {
        assert(two_digits(a / 100) =~= year_text(a).subrange(0, 2));
        assert(two_digits(b / 100) =~= year_text(b).subrange(0, 2));
        assert(two_digits(a % 100) =~= year_text(a).subrange(2, 4));
        assert(two_digits(b % 100) =~= year_text(b).subrange(2, 4));
    }
}

proof fn lemma_sep_then(c: char, x: Seq<char>, x2: Seq<char>)
    ensures
        text_less(seq![c] + x, seq![c] + x2) == text_less(x, x2),
        (seq![c] + x == seq![c] + x2) == (x == x2),
{
    lemma_less_concat(seq![c], x, seq![c], x2);
    if seq![c] + x == seq![c] + x2 {
        assert(x =~= (seq![c] + x).drop_first());
        assert(x2 =~= (seq![c] + x2).drop_first());
    }
}

/// Dates written as `YYYY-MM-DD` (years 0 to 9999) sort as the calendar orders
/// them: comparing the texts compares the days.
pub proof fn lemma_date_text_order(y1: int, m1: int, d1: int, y2: int, m2: int, d2: int)
    requires
        0 <= y1 <= 9999,
        0 <= y2 <= 9999,
        valid_day(m1, d1),
        valid_day(m2, d2),
    ensures
        text_less(date_text(y1, m1, d1), date_text(y2, m2, d2)) == day_before(
            y1,
            m1,
            d1,
            y2,
            m2,
            d2,
        ),
        (date_text(y1, m1, d1) == date_text(y2, m2, d2)) == (y1 == y2 && m1 == m2 && d1 == d2),
{
    let dd1 = seq!['-'] + two_digits(d1);
    let dd2 = seq!['-'] + two_digits(d2);
    let md1 = seq!['-'] + (two_digits(m1) + dd1);
    let md2 = seq!['-'] + (two_digits(m2) + dd2);
    assert(date_text(y1, m1, d1) =~= year_text(y1) + md1);
    assert(date_text(y2, m2, d2) =~= year_text(y2) + md2);
    lemma_year_text_split(y1);
    lemma_year_text_split(y2);
    lemma_year_order(y1, y2);
    lemma_less_concat(year_text(y1), md1, year_text(y2), md2);
    lemma_sep_then('-', two_digits(m1) + dd1, two_digits(m2) + dd2);
    lemma_two_digits_order(m1, m2);
    lemma_less_concat(two_digits(m1), dd1, two_digits(m2), dd2);
    lemma_sep_then('-', two_digits(d1), two_digits(d2));
    lemma_two_digits_order(d1, d2);
    if date_text(y1, m1, d1) == date_text(y2, m2, d2) {
        assert(year_text(y1) =~= date_text(y1, m1, d1).subrange(0, 4));
        assert(year_text(y2) =~= date_text(y2, m2, d2).subrange(0, 4));
        assert(md1 =~= date_text(y1, m1, d1).subrange(4, 10));
        assert(md2 =~= date_text(y2, m2, d2).subrange(4, 10));
        assert(two_digits(m1) + dd1 =~= md1.drop_first());
        assert(two_digits(m2) + dd2 =~= md2.drop_first());
        assert(two_digits(m1) =~= (two_digits(m1) + dd1).subrange(0, 2));
        assert(two_digits(m2) =~= (two_digits(m2) + dd2).subrange(0, 2));
        assert(dd1 =~= (two_digits(m1) + dd1).subrange(2, 5));
        assert(dd2 =~= (two_digits(m2) + dd2).subrange(2, 5));
    }
}

/// Moment `(h1, m1, s1)` of day 1 comes before moment `(h2, m2, s2)` of day 2.
pub open spec fn moment_before(
    day1: (int, int, int),
    time1: (int, int, int),
    day2: (int, int, int),
    time2: (int, int, int),
) -> bool {
    ||| day_before(day1.0, day1.1, day1.2, day2.0, day2.1, day2.2)
    ||| day1 == day2 && day_before(time1.0, time1.1, time1.2, time2.0, time2.1, time2.2)
}

/// Timestamps written as `YYYY-MM-DD HH:MM:SS` (years 0 to 9999) sort as time
/// runs: comparing the texts compares the moments.
pub proof fn lemma_timestamp_text_order(
    day1: (int, int, int),
    time1: (int, int, int),
    day2: (int, int, int),
    time2: (int, int, int),
)
    requires
        0 <= day1.0 <= 9999,
        0 <= day2.0 <= 9999,
        valid_day(day1.1, day1.2),
        valid_day(day2.1, day2.2),
        valid_time(time1.0, time1.1, time1.2),
        valid_time(time2.0, time2.1, time2.2),
    ensures
        text_less(
            timestamp_text(day1.0, day1.1, day1.2, time1.0, time1.1, time1.2),
            timestamp_text(day2.0, day2.1, day2.2, time2.0, time2.1, time2.2),
        ) == moment_before(day1, time1, day2, time2),
{
    let (y1, mo1, d1) = day1;
    let (y2, mo2, d2) = day2;
    let (h1, mi1, s1) = time1;
    let (h2, mi2, s2) = time2;
    let ss1 = seq![':'] + two_digits(s1);
    let ss2 = seq![':'] + two_digits(s2);
    let ms1 = seq![':'] + (two_digits(mi1) + ss1);
    let ms2 = seq![':'] + (two_digits(mi2) + ss2);
    let hs1 = seq![' '] + (two_digits(h1) + ms1);
    let hs2 = seq![' '] + (two_digits(h2) + ms2);
    let t1 = timestamp_text(y1, mo1, d1, h1, mi1, s1);
    let t2 = timestamp_text(y2, mo2, d2, h2, mi2, s2);
    assert(t1 =~= date_text(y1, mo1, d1) + hs1);
    assert(t2 =~= date_text(y2, mo2, d2) + hs2);
    lemma_year_text_split(y1);
    lemma_year_text_split(y2);
    lemma_date_text_order(y1, mo1, d1, y2, mo2, d2);
    lemma_less_concat(date_text(y1, mo1, d1), hs1, date_text(y2, mo2, d2), hs2);
    lemma_sep_then(' ', two_digits(h1) + ms1, two_digits(h2) + ms2);
    lemma_two_digits_order(h1, h2);
    lemma_less_concat(two_digits(h1), ms1, two_digits(h2), ms2);
    lemma_sep_then(':', two_digits(mi1) + ss1, two_digits(mi2) + ss2);
    lemma_two_digits_order(mi1, mi2);
    lemma_less_concat(two_digits(mi1), ss1, two_digits(mi2), ss2);
    lemma_sep_then(':', two_digits(s1), two_digits(s2));
    lemma_two_digits_order(s1, s2);
}

} // verus!
