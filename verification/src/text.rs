use vstd::prelude::*;

verus! {

// ---------------------------------------------------------------------------
// White space and trimming
// ---------------------------------------------------------------------------

/// The characters with the Unicode `White_Space` property.
pub open spec fn is_white_space(c: char) -> bool {
    let n = c as int;
    ||| 9 <= n <= 13
    ||| n == 0x20
    ||| n == 0x85
    ||| n == 0xA0
    ||| n == 0x1680
    ||| 0x2000 <= n <= 0x200A
    ||| n == 0x2028
    ||| n == 0x2029
    ||| n == 0x202F
    ||| n == 0x205F
    ||| n == 0x3000
}

/// `s` without its leading white space.
pub open spec fn trim_start(s: Seq<char>) -> Seq<char>
    decreases s.len(),
{
    if s.len() > 0 && is_white_space(s[0]) {
        trim_start(s.drop_first())
    } else {
        s
    }
}

/// `s` without its trailing white space.
pub open spec fn trim_end(s: Seq<char>) -> Seq<char>
    decreases s.len(),
{
    if s.len() > 0 && is_white_space(s.last()) {
        trim_end(s.drop_last())
    } else {
        s
    }
}

/// `s` without leading and trailing white space.
pub open spec fn trimmed(s: Seq<char>) -> Seq<char> {
    trim_end(trim_start(s))
}

/// Nothing but white space (or nothing at all).
pub open spec fn is_blank(s: Seq<char>) -> bool {
    trimmed(s).len() == 0
}

/// Tells whether `c` has the Unicode `White_Space` property.
pub fn white_space(c: char) -> (res: bool)
    ensures
        res == is_white_space(c),
{
    let n: u32 = c as u32;
    (9 <= n && n <= 13) || n == 0x20 || n == 0x85 || n == 0xA0 || n == 0x1680 || (0x2000 <= n
        && n <= 0x200A) || n == 0x2028 || n == 0x2029 || n == 0x202F || n == 0x205F || n == 0x3000
}

proof fn lemma_trim_start_skip(s: Seq<char>, i: int)
    requires
        0 <= i < s.len(),
        is_white_space(s[i]),
    ensures
        trim_start(s.subrange(i, s.len() as int)) == trim_start(s.subrange(i + 1, s.len() as int)),
{
    let t = s.subrange(i, s.len() as int);
    assert(t.drop_first() =~= s.subrange(i + 1, s.len() as int));
}

/// `trim_start(s)` is a suffix of `s` whose first character, if any, is not white space.
proof fn lemma_trim_start_shape(s: Seq<char>)
    ensures
        trim_start(s).len() <= s.len(),
        trim_start(s) =~= s.subrange(s.len() - trim_start(s).len(), s.len() as int),
        trim_start(s).len() > 0 ==> !is_white_space(trim_start(s)[0]),
        forall|k: int|
            0 <= k < s.len() - trim_start(s).len() ==> is_white_space(#[trigger] s[k]),
    decreases s.len(),
{
    if s.len() > 0 && is_white_space(s[0]) {
        lemma_trim_start_shape(s.drop_first());
        let t = trim_start(s.drop_first());
        assert forall|k: int| 0 <= k < s.len() - t.len() implies is_white_space(#[trigger] s[k]) by {
            if k > 0 {
                assert(s[k] == s.drop_first()[k - 1]);
            }
        }
    }
}

/// `trim_end(s)` is a prefix of `s` whose last character, if any, is not white space.
proof fn lemma_trim_end_shape(s: Seq<char>)
    ensures
        trim_end(s).len() <= s.len(),
        trim_end(s) =~= s.subrange(0, trim_end(s).len() as int),
        trim_end(s).len() > 0 ==> !is_white_space(trim_end(s).last()),
        forall|k: int| trim_end(s).len() <= k < s.len() ==> is_white_space(#[trigger] s[k]),
    decreases s.len(),
{
    if s.len() > 0 && is_white_space(s.last()) {
        lemma_trim_end_shape(s.drop_last());
        let t = trim_end(s.drop_last());
        assert forall|k: int| t.len() <= k < s.len() implies is_white_space(#[trigger] s[k]) by {
            if k < s.len() - 1 {
                assert(s[k] == s.drop_last()[k]);
            }
        }
    }
}

proof fn lemma_trim_start_fixed(s: Seq<char>)
    requires
        s.len() > 0 ==> !is_white_space(s[0]),
    ensures
        trim_start(s) == s,
{
}

proof fn lemma_trim_end_fixed(s: Seq<char>)
    requires
        s.len() > 0 ==> !is_white_space(s.last()),
    ensures
        trim_end(s) == s,
{
}

/// Trimming twice is trimming once.
pub proof fn lemma_trim_idempotent(s: Seq<char>)
    ensures
        trimmed(trimmed(s)) == trimmed(s),
{
    let t = trim_start(s);
    lemma_trim_start_shape(s);
    lemma_trim_end_shape(t);
    let u = trim_end(t);
    if u.len() > 0 {
        assert(u[0] == t[0]);
    }
    lemma_trim_start_fixed(u);
    lemma_trim_end_fixed(u);
}

/// `t` is `s` with white space removed at both ends only: a run of `s`,
/// everything before and after it white space, and its own ends, if any,
/// not white space.
pub open spec fn trim_shape(s: Seq<char>, t: Seq<char>) -> bool {
    exists|start: int|
        0 <= start && start + t.len() <= s.len() && #[trigger] s.subrange(start, start + t.len()) == t
            && (forall|k: int| 0 <= k < start ==> is_white_space(#[trigger] s[k])) && (forall|k: int|
            start + t.len() <= k < s.len() ==> is_white_space(#[trigger] s[k])) && (t.len() > 0
            ==> !is_white_space(t[0]) && !is_white_space(t.last()))
}

/// Trimming removes white space at both ends and nothing else.
pub proof fn lemma_trim_shape(s: Seq<char>)
    ensures
        trim_shape(s, trimmed(s)),
{
    let t = trim_start(s);
    lemma_trim_start_shape(s);
    lemma_trim_end_shape(t);
    let u = trim_end(t);
    let start = s.len() - t.len();
    assert(s.subrange(start, start + u.len()) =~= u) by {
        assert forall|k: int| 0 <= k < u.len() implies s.subrange(start, start + u.len())[k]
            == u[k] by {
            assert(u[k] == t[k]);
            assert(t[k] == s[start + k]);
        }
    }
    assert forall|k: int| start + u.len() <= k < s.len() implies is_white_space(#[trigger] s[k]) by {
        assert(t[k - start] == s[k]);
    }
    if u.len() > 0 {
        assert(u[0] == t[0]);
    }
}

/// `s` trimmed of leading and trailing white space, as `str::trim` does.
pub fn trim(s: &str) -> (res: String)
    ensures
        res@ == trimmed(s@),
        trim_shape(s@, res@),
{
    let n = s.unicode_len();
    let ghost full = s@;
    let mut i: usize = 0;
    assert(full.subrange(0, n as int) =~= full);
    while i < n && white_space(s.get_char(i))
        invariant
            n == full.len(),
            full == s@,
            i <= n,
            trim_start(full) == trim_start(full.subrange(i as int, n as int)),
        decreases n - i,
    {
        proof {
            lemma_trim_start_skip(full, i as int);
        }
        i = i + 1;
    }
    let ghost rest = full.subrange(i as int, n as int);
    assert(trim_start(full) == rest) by {
        if i < n {
            assert(rest[0] == full[i as int]);
        }
        lemma_trim_start_fixed(rest);
    }
    let mut j: usize = n;
    assert(full.subrange(i as int, j as int) == rest);
    while j > i && white_space(s.get_char(j - 1))
        invariant
            n == full.len(),
            full == s@,
            i <= j <= n,
            rest == full.subrange(i as int, n as int),
            trim_end(rest) == trim_end(full.subrange(i as int, j as int)),
        decreases j - i,
    {
        proof {
            let w = full.subrange(i as int, j as int);
            assert(w.drop_last() =~= full.subrange(i as int, j - 1));
            assert(w.last() == full[j - 1]);
        }
        j = j - 1;
    }
    let ghost kept = full.subrange(i as int, j as int);
    assert(trim_end(rest) == kept) by {
        if j > i {
            assert(kept.last() == full[j - 1]);
        }
        lemma_trim_end_fixed(kept);
    }
    proof {
        lemma_trim_shape(full);
    }
    s.substring_char(i, j).to_owned()
}

/// Tells whether `s` holds nothing but white space.
pub fn blank(s: &str) -> (res: bool)
    ensures
        res == is_blank(s@),
{
    let t = trim(s);
    t.as_str().is_empty()
}

// ---------------------------------------------------------------------------
// Comparison and search
// ---------------------------------------------------------------------------

/// Tells whether two texts are the same.
pub fn same_text(a: &str, b: &str) -> (res: bool)
    ensures
        res == (a@ == b@),
{
    a.to_owned() == b.to_owned()
}

/// `needle` occurs in `hay` as a run of consecutive characters.
pub open spec fn contains_text(hay: Seq<char>, needle: Seq<char>) -> bool {
    exists|i: int|
        0 <= i && i + needle.len() <= hay.len() && #[trigger] hay.subrange(i, i + needle.len())
            == needle
}

/// The characters of `s`, one by one.
fn chars_of(s: &str) -> (res: Vec<char>)
    ensures
        res@ == s@,
{
    let n = s.unicode_len();
    let mut v: Vec<char> = Vec::new();
    let mut i: usize = 0;
    while i < n
        invariant
            n == s@.len(),
            i <= n,
            v@ == s@.subrange(0, i as int),
        decreases n - i,
    {
        v.push(s.get_char(i));
        i = i + 1;
        assert(v@ =~= s@.subrange(0, i as int));
    }
    assert(v@ =~= s@);
    v
}

/// Tells whether `needle` occurs in `hay`, as `str::contains` does.
pub fn contains(hay: &str, needle: &str) -> (res: bool)
    ensures
        res == contains_text(hay@, needle@),
{
    let h = chars_of(hay);
    let p = chars_of(needle);
    let hn = h.len();
    let pn = p.len();
    if pn == 0 {
        assert(hay@.subrange(0, 0int + needle@.len()) =~= needle@);
        return true;
    }
    if pn > hn {
        assert(!contains_text(hay@, needle@));
        return false;
    }
    let mut i: usize = 0;
    while i <= hn - pn
        invariant
            h@ == hay@,
            p@ == needle@,
            hn == h.len(),
            pn == p.len(),
            0 < pn <= hn,
            i <= hn - pn + 1,
            forall|k: int| 0 <= k < i ==> #[trigger] hay@.subrange(k, k + pn) != needle@,
        decreases hn - pn + 1 - i,
    {
        let mut j: usize = 0;
        let mut same = true;
        while j < pn
            invariant
                h@ == hay@,
                p@ == needle@,
                hn == h.len(),
                pn == p.len(),
                i + pn <= hn,
                j <= pn,
                same ==> forall|l: int| 0 <= l < j ==> h@[i + l] == p@[l],
                !same ==> hay@.subrange(i as int, i + pn) != needle@,
            decreases pn - j,
        {
            if h[i + j] != p[j] {
                if same {
                    assert(hay@.subrange(i as int, i + pn)[j as int] == h@[i + j]);
                }
                same = false;
            }
            j = j + 1;
        }
        if same {
            assert(hay@.subrange(i as int, i + pn) =~= needle@);
            return true;
        }
        i = i + 1;
    }
    assert forall|k: int|
        0 <= k && k + needle@.len() <= hay@.len() implies #[trigger] hay@.subrange(
        k,
        k + needle@.len(),
    ) != needle@ by {
        assert(k < i);
    }
    false
}

// ---------------------------------------------------------------------------
// Building text
// ---------------------------------------------------------------------------

/// Appends one character to a string (`String::push`).
#[verifier::external_body]
fn push_char(s: &mut String, c: char)
    ensures
        final(s)@ == old(s)@.push(c),
{
    s.push(c);
}

/// `a` followed by `b`.
pub fn join(a: &str, b: &str) -> (res: String)
    ensures
        res@ == a@ + b@,
{
    let mut r = a.to_owned();
    r.append(b);
    r
}

/// The pattern that a SQL `LIKE` uses to find `s` anywhere in a text.
pub open spec fn like_text(s: Seq<char>) -> Seq<char> {
    seq!['%'] + s + seq!['%']
}

/// Wraps `s` in `%` on both sides, as `format!("%{}%", s)` does.
pub fn like_pattern(s: &str) -> (res: String)
    ensures
        res@ == like_text(s@),
        res@.len() == s@.len() + 2,
        res@[0] == '%',
        res@.last() == '%',
        res@.subrange(1, res@.len() - 1) == s@,
{
    let mut r = String::new();
    push_char(&mut r, '%');
    r.append(s);
    push_char(&mut r, '%');
    assert(r@ =~= like_text(s@));
    assert(r@.subrange(1, r@.len() - 1) =~= s@);
    r
}

// ---------------------------------------------------------------------------
// Decimal numerals
// ---------------------------------------------------------------------------

/// The character of the decimal digit `d`.
pub open spec fn digit_char(d: int) -> char {
    if d == 0 {
        '0'
    } else if d == 1 {
        '1'
    } else if d == 2 {
        '2'
    } else if d == 3 {
        '3'
    } else if d == 4 {
        '4'
    } else if d == 5 {
        '5'
    } else if d == 6 {
        '6'
    } else if d == 7 {
        '7'
    } else if d == 8 {
        '8'
    } else {
        '9'
    }
}

/// The decimal digits of `n`, most significant first, without leading zeros.
pub open spec fn digits(n: nat) -> Seq<char>
    decreases n,
{
    if n < 10 {
        seq![digit_char(n as int)]
    } else {
        digits(n / 10).push(digit_char((n % 10) as int))
    }
}

/// The decimal numeral of `n`, with a leading `-` when it is negative.
pub open spec fn decimal(n: int) -> Seq<char> {
    if n < 0 {
        seq!['-'] + digits((-n) as nat)
    } else {
        digits(n as nat)
    }
}

fn digit(d: u64) -> (c: char)
    requires
        d < 10,
    ensures
        c == digit_char(d as int),
{
    if d == 0 {
        '0'
    } else if d == 1 {
        '1'
    } else if d == 2 {
        '2'
    } else if d == 3 {
        '3'
    } else if d == 4 {
        '4'
    } else if d == 5 {
        '5'
    } else if d == 6 {
        '6'
    } else if d == 7 {
        '7'
    } else if d == 8 {
        '8'
    } else {
        '9'
    }
}

/// The decimal numeral of `n`, as `n.to_string()` writes it.
pub fn decimal_text(n: i64) -> (res: String)
    ensures
        res@ == decimal(n as int),
{
    let magnitude: u64 = if n < 0 {
        ((-(n + 1)) as u64) + 1
    } else {
        n as u64
    };
    let ghost whole: nat = magnitude as nat;
    let mut m: u64 = magnitude;
    let mut tail: Vec<char> = Vec::new();
    assert(digits(whole) =~= digits(m as nat) + tail@);
    while m >= 10
        invariant
            digits(whole) == digits(m as nat) + tail@,
        decreases m,
    {
        let c = digit(m % 10);
        proof {
            assert(digits(m as nat) == digits((m / 10) as nat).push(digit_char((m % 10) as int)));
            assert(digits(m as nat) + tail@ =~= digits((m / 10) as nat) + tail@.insert(0, c));
        }
        tail.insert(0, c);
        m = m / 10;
    }
    let c = digit(m);
    proof {
        assert(digits(m as nat) == seq![c]);
    }
    tail.insert(0, c);
    assert(tail@ =~= digits(whole));
    let mut r = String::new();
    if n < 0 {
        push_char(&mut r, '-');
    }
    let ghost prefix = r@;
    let k = tail.len();
    let mut i: usize = 0;
    while i < k
        invariant
            k == tail.len(),
            i <= k,
            r@ == prefix + tail@.subrange(0, i as int),
        decreases k - i,
    {
        push_char(&mut r, tail[i]);
        i = i + 1;
        assert(r@ =~= prefix + tail@.subrange(0, i as int));
    }
    assert(tail@.subrange(0, k as int) =~= tail@);
    if n < 0 {
        assert(r@ =~= decimal(n as int));
    } else {
        assert(r@ =~= decimal(n as int));
    }
    r
}

proof fn lemma_digits_len(n: nat)
    ensures
        digits(n).len() >= 1,
        n < 10 <==> digits(n).len() == 1,
    decreases n,
{
    if n >= 10 {
        lemma_digits_len(n / 10);
    }
}

proof fn lemma_digit_char_injective(a: int, b: int)
    requires
        0 <= a < 10,
        0 <= b < 10,
        digit_char(a) == digit_char(b),
    ensures
        a == b,
{
}

proof fn lemma_digits_injective(a: nat, b: nat)
    requires
        digits(a) == digits(b),
    ensures
        a == b,
    decreases a,
{
    lemma_digits_len(a);
    lemma_digits_len(b);
    if a < 10 {
        assert(digits(a)[0] == digit_char(a as int));
        assert(digits(b)[0] == digit_char(b as int));
        lemma_digit_char_injective(a as int, b as int);
    } else {
        let da = digits(a / 10);
        let db = digits(b / 10);
        assert(digits(a).last() == digit_char((a % 10) as int));
        assert(digits(b).last() == digit_char((b % 10) as int));
        lemma_digit_char_injective((a % 10) as int, (b % 10) as int);
        assert(da =~= digits(a).drop_last());
        assert(db =~= digits(b).drop_last());
        lemma_digits_injective(a / 10, b / 10);
    }
}

proof fn lemma_digits_first_is_digit(n: nat)
    ensures
        digits(n)[0] != '-',
    decreases n,
{
    lemma_digits_len(n);
    if n >= 10 {
        lemma_digits_len(n / 10);
        lemma_digits_first_is_digit(n / 10);
        assert(digits(n)[0] == digits(n / 10)[0]);
    }
}

/// Different numbers have different numerals.
pub proof fn lemma_decimal_injective(a: int, b: int)
    requires
        decimal(a) == decimal(b),
    ensures
        a == b,
{
    if a < 0 && b < 0 {
        assert(digits((-a) as nat) =~= decimal(a).drop_first());
        assert(digits((-b) as nat) =~= decimal(b).drop_first());
        lemma_digits_injective((-a) as nat, (-b) as nat);
    } else if a >= 0 && b >= 0 {
        lemma_digits_injective(a as nat, b as nat);
    } else if a < 0 {
        lemma_digits_first_is_digit(b as nat);
        assert(decimal(a)[0] == '-');
    } else {
        lemma_digits_first_is_digit(a as nat);
        assert(decimal(b)[0] == '-');
    }
}

} // verus!
