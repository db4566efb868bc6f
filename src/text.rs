//! Character classes, whitespace splitting, trimming and decimal numerals,
//! stated as spec functions over `Seq<char>` and implemented over `Vec<char>`.
use vstd::prelude::*;

verus! {

/// `char::is_whitespace`: the Unicode `White_Space` property.
pub open spec fn is_ws(c: char) -> bool {
    ('\u{9}' <= c && c <= '\u{d}') || c == ' ' || c == '\u{85}' || c == '\u{a0}'
        || c == '\u{1680}' || ('\u{2000}' <= c && c <= '\u{200a}') || c == '\u{2028}'
        || c == '\u{2029}' || c == '\u{202f}' || c == '\u{205f}' || c == '\u{3000}'
}

/// A field separator: whitespace, and also a comma when `commas` is set.
pub open spec fn is_sep(c: char, commas: bool) -> bool {
    is_ws(c) || (commas && c == ',')
}

pub open spec fn is_digit(c: char) -> bool {
    '0' <= c && c <= '9'
}

pub open spec fn digit_value(c: char) -> nat {
    (c as nat - '0' as nat) as nat
}

pub open spec fn ascii_lower(c: char) -> char {
    if 'A' <= c && c <= 'Z' {
        ((c as u32) + 32) as char
    } else {
        c
    }
}

pub open spec fn lower_seq(s: Seq<char>) -> Seq<char> {
    s.map_values(|c: char| ascii_lower(c))
}

/// Number of leading characters of `s` that are not separators.
pub open spec fn word_len(s: Seq<char>, commas: bool) -> nat
    decreases s.len(),
{
    if s.len() == 0 || is_sep(s[0], commas) {
        0
    } else {
        1 + word_len(s.drop_first(), commas)
    }
}

/// The maximal runs of non-separator characters of `s`, in order
/// (`str::split_whitespace`, with commas counted as spaces when `commas` holds).
pub open spec fn fields(s: Seq<char>, commas: bool) -> Seq<Seq<char>>
    decreases s.len(),
{
    if s.len() == 0 {
        Seq::empty()
    } else if is_sep(s[0], commas) {
        fields(s.drop_first(), commas)
    } else {
        let n = word_len(s, commas);
        if n == 0 || n > s.len() {
            Seq::empty()
        } else {
            seq![s.take(n as int)] + fields(s.skip(n as int), commas)
        }
    }
}

/// `str::split_whitespace`.
pub open spec fn words(s: Seq<char>) -> Seq<Seq<char>> {
    fields(s, false)
}

/// Number of leading whitespace characters.
pub open spec fn lead_ws(s: Seq<char>) -> nat
    decreases s.len(),
{
    if s.len() > 0 && is_ws(s[0]) {
        1 + lead_ws(s.drop_first())
    } else {
        0
    }
}

/// Number of trailing whitespace characters.
pub open spec fn trail_ws(s: Seq<char>) -> nat
    decreases s.len(),
{
    if s.len() > 0 && is_ws(s.last()) {
        1 + trail_ws(s.drop_last())
    } else {
        0
    }
}

/// `str::trim`.
pub open spec fn trim(s: Seq<char>) -> Seq<char> {
    let a = lead_ws(s);
    if a == s.len() {
        Seq::empty()
    } else {
        s.subrange(a as int, s.len() - trail_ws(s))
    }
}

pub open spec fn all_digits(s: Seq<char>) -> bool {
    forall|i: int| 0 <= i < s.len() ==> is_digit(#[trigger] s[i])
}

/// Value of a run of decimal digits, most significant first.
pub open spec fn digits_value(s: Seq<char>) -> nat
    decreases s.len(),
{
    if s.len() == 0 {
        0
    } else {
        digits_value(s.drop_last()) * 10 + digit_value(s.last())
    }
}

/// The value that `str::parse` gives for an unsigned integer type, before the
/// range check: an optional `+`, then at least one decimal digit.
pub open spec fn unsigned_value(s: Seq<char>) -> Option<nat> {
    let d = unsigned_digits(s);
    if d.len() > 0 && all_digits(d) {
        Some(digits_value(d))
    } else {
        None
    }
}

/// The digits of an unsigned numeral: `s` without one leading `+`.
pub open spec fn unsigned_digits(s: Seq<char>) -> Seq<char> {
    if s.len() > 0 && s[0] == '+' {
        s.drop_first()
    } else {
        s
    }
}

/// `str::parse::<T>()` for an unsigned integer type whose largest value is `max`.
pub open spec fn parse_unsigned(s: Seq<char>, max: nat) -> Option<nat> {
    match unsigned_value(s) {
        Some(v) => if v <= max {
            Some(v)
        } else {
            None
        },
        None => None,
    }
}

pub open spec fn digit_char(d: nat) -> char {
    (('0' as nat) + d) as char
}

/// Decimal numeral of `n` without leading zeros (`Display` for integers).
pub open spec fn decimal(n: nat) -> Seq<char>
    decreases n,
{
    if n < 10 {
        seq![digit_char(n)]
    } else {
        decimal(n / 10).push(digit_char(n % 10))
    }
}

pub fn is_ws_char(c: char) -> (r: bool)
    ensures
        r == is_ws(c),
{
    ('\u{9}' <= c && c <= '\u{d}') || c == ' ' || c == '\u{85}' || c == '\u{a0}' || c
        == '\u{1680}' || ('\u{2000}' <= c && c <= '\u{200a}') || c == '\u{2028}' || c
        == '\u{2029}' || c == '\u{202f}' || c == '\u{205f}' || c == '\u{3000}'
}

pub fn is_sep_char(c: char, commas: bool) -> (r: bool)
    ensures
        r == is_sep(c, commas),
{
    is_ws_char(c) || (commas && c == ',')
}

pub fn lower_char(c: char) -> (r: char)
    ensures
        r == ascii_lower(c),
{
    if 'A' <= c && c <= 'Z' {
        ((c as u8) + 32) as char
    } else {
        c
    }
}

/// Copy of `s[from..to]`.
pub fn slice_chars(s: &Vec<char>, from: usize, to: usize) -> (r: Vec<char>)
    requires
        from <= to <= s.len(),
    ensures
        r@ == s@.subrange(from as int, to as int),
{
    let mut r: Vec<char> = Vec::new();
    let mut i: usize = from;
    while i < to
        invariant
            from <= i <= to <= s.len(),
            r@ == s@.subrange(from as int, i as int),
        decreases to - i,
    {
        r.push(s[i]);
        i = i + 1;
    }
    r
}

pub fn chars_equal(a: &Vec<char>, b: &Vec<char>) -> (r: bool)
    ensures
        r == (a@ == b@),
{
    if a.len() != b.len() {
        return false;
    }
    let mut i: usize = 0;
    while i < a.len()
        invariant
            a.len() == b.len(),
            i <= a.len(),
            forall|j: int| 0 <= j < i ==> a@[j] == b@[j],
        decreases a.len() - i,
    {
        if a[i] != b[i] {
            return false;
        }
        i = i + 1;
    }
    assert(a@ =~= b@);
    true
}

/// Whether `s` begins with `p`.
pub fn starts_with(s: &Vec<char>, p: &Vec<char>) -> (r: bool)
    ensures
        r == (p@.len() <= s@.len() && s@.take(p@.len() as int) == p@),
{
    if p.len() > s.len() {
        return false;
    }
    let mut i: usize = 0;
    while i < p.len()
        invariant
            p.len() <= s.len(),
            i <= p.len(),
            forall|j: int| 0 <= j < i ==> s@[j] == p@[j],
        decreases p.len() - i,
    {
        if s[i] != p[i] {
            assert(s@.take(p@.len() as int)[i as int] != p@[i as int]);
            return false;
        }
        i = i + 1;
    }
    assert(s@.take(p@.len() as int) =~= p@);
    true
}

/// Splits `s` into its fields (see `fields`).
pub fn split_fields(s: &Vec<char>, commas: bool) -> (r: Vec<Vec<char>>)
    ensures
        r@.len() == fields(s@, commas).len(),
        forall|i: int| 0 <= i < r@.len() ==> #[trigger] r@[i]@ == fields(s@, commas)[i],
{
    let mut out: Vec<Vec<char>> = Vec::new();
    let mut i: usize = 0;
    let ghost done: Seq<Seq<char>> = Seq::empty();
    assert(s@.skip(0) =~= s@);
    assert(done + fields(s@.skip(0), commas) =~= fields(s@, commas));
    while i < s.len()
        invariant
            i <= s.len(),
            out@.len() == done.len(),
            forall|k: int| 0 <= k < out@.len() ==> #[trigger] out@[k]@ == done[k],
            done + fields(s@.skip(i as int), commas) == fields(s@, commas),
        decreases s.len() - i,
    {
        let ghost rest = s@.skip(i as int);
        if is_sep_char(s[i], commas) {
            assert(rest.drop_first() =~= s@.skip(i + 1));
            i = i + 1;
        } else {
            let mut j: usize = i;
            while j < s.len() && !is_sep_char(s[j], commas)
                invariant
                    i <= j <= s.len(),
                    forall|k: int| i <= k < j ==> !is_sep(#[trigger] s@[k], commas),
                decreases s.len() - j,
            {
                j = j + 1;
            }
            proof {
                lemma_word_len_exact(rest, commas, (j - i) as nat);
                assert(rest.take((j - i) as int) =~= s@.subrange(i as int, j as int));
                assert(rest.skip((j - i) as int) =~= s@.skip(j as int));
            }
            let w = slice_chars(s, i, j);
            proof {
                done = done.push(w@);
                assert(done + fields(s@.skip(j as int), commas) =~= (done.drop_last() + (seq![
                    w@,
                ] + fields(s@.skip(j as int), commas))));
            }
            out.push(w);
            i = j;
        }
    }
    assert(s@.skip(i as int).len() == 0);
    assert(done =~= fields(s@, commas));
    out
}

pub proof fn lemma_word_len_exact(s: Seq<char>, commas: bool, n: nat)
    requires
        0 < n <= s.len(),
        forall|k: int| 0 <= k < n ==> !is_sep(#[trigger] s[k], commas),
        n == s.len() || is_sep(s[n as int], commas),
    ensures
        word_len(s, commas) == n,
        fields(s, commas) == seq![s.take(n as int)] + fields(s.skip(n as int), commas),
    decreases n,
{
    assert(!is_sep(s[0], commas));
    if n > 1 {
        assert forall|k: int| 0 <= k < n - 1 implies !is_sep(
            #[trigger] s.drop_first()[k],
            commas,
        ) by {
            assert(s.drop_first()[k] == s[k + 1]);
        }
        if (n as int) < s.len() {
            assert(s.drop_first()[n - 1] == s[n as int]);
        }
        lemma_word_len_exact(s.drop_first(), commas, (n - 1) as nat);
    } else {
        if s.len() > 1 {
            assert(s.drop_first()[0] == s[1]);
        }
    }
}

/// `str::trim`: drops leading and trailing whitespace.
pub fn trim_chars(s: &Vec<char>) -> (r: Vec<char>)
    ensures
        r@ == trim(s@),
{
    let mut a: usize = 0;
    assert(s@.skip(0) =~= s@);
    while a < s.len() && is_ws_char(s[a])
        invariant
            a <= s.len(),
            lead_ws(s@) == a + lead_ws(s@.skip(a as int)),
        decreases s.len() - a,
    {
        assert(s@.skip(a as int).drop_first() =~= s@.skip(a + 1));
        a = a + 1;
    }
    if a == s.len() {
        assert(s@.skip(a as int).len() == 0);
        return Vec::new();
    }
    assert(s@.skip(a as int)[0] == s@[a as int]);
    let mut k: usize = 0;
    assert(s@.take(s.len() as int) =~= s@);
    while k < s.len() - a && is_ws_char(s[s.len() - 1 - k])
        invariant
            a < s.len(),
            !is_ws(s@[a as int]),
            forall|j: int| s.len() - k <= j < s.len() ==> is_ws(#[trigger] s@[j]),
            k <= s.len() - a,
            trail_ws(s@) == k + trail_ws(s@.take(s.len() - k)),
        decreases s.len() - a - k,
    {
        assert(s@.take(s.len() - k).drop_last() =~= s@.take(s.len() - k - 1));
        assert(s@.take(s.len() - k).last() == s@[s.len() - 1 - k]);
        k = k + 1;
    }
    assert(k < s.len() - a);
    assert(s@.take(s.len() - k).last() == s@[s.len() - 1 - k]);
    slice_chars(s, a, s.len() - k)
}

/// `str::parse` for an unsigned integer type whose largest value is `max`.
pub fn parse_unsigned_chars(s: &Vec<char>, max: u64) -> (r: Option<u64>)
    ensures
        match parse_unsigned(s@, max as nat) {
            Some(v) => r == Some(v as u64),
            None => r is None,
        },
{
    let start: usize = if s.len() > 0 && s[0] == '+' {
        1
    } else {
        0
    };
    let ghost d = unsigned_digits(s@);
    assert(d =~= s@.skip(start as int));
    if start == s.len() {
        assert(d.len() == 0);
        return None;
    }
    let mut acc: u64 = 0;
    let mut over = false;
    let mut i: usize = start;
    while i < s.len()
        invariant
            start <= i <= s.len(),
            d == unsigned_digits(s@),
            d =~= s@.skip(start as int),
            forall|j: int| start <= j < i ==> is_digit(#[trigger] s@[j]),
            !over ==> acc as nat == digits_value(d.take(i - start)) && acc <= max,
            over ==> digits_value(d.take(i - start)) > max,
        decreases s.len() - i,
    {
        let c = s[i];
        if !('0' <= c && c <= '9') {
            assert(d[i - start] == s@[i as int]);
            assert(!all_digits(d));
            assert(unsigned_value(s@) is None);
            return None;
        }
        let dig: u64 = (c as u64) - ('0' as u64);
        assert(d.take(i - start + 1).drop_last() =~= d.take(i - start));
        assert(d.take(i - start + 1).last() == c);
        if !over {
            let next: u128 = (acc as u128) * 10 + (dig as u128);
            if next > max as u128 {
                over = true;
            } else {
                acc = next as u64;
            }
        }
        i = i + 1;
    }
    assert(d.take(i - start) =~= d);
    assert(all_digits(d)) by {
        assert forall|j: int| 0 <= j < d.len() implies is_digit(#[trigger] d[j]) by {
            assert(d[j] == s@[start + j]);
        }
    }
    if over {
        None
    } else {
        Some(acc)
    }
}

pub fn digit_to_char(d: u8) -> (c: char)
    requires
        d < 10,
    ensures
        c == digit_char(d as nat),
{
    (48u8 + d) as char
}

/// Decimal numeral of `n` (`Display` for integers).
pub fn decimal_chars(n: u128) -> (r: Vec<char>)
    ensures
        r@ == decimal(n as nat),
    decreases n,
{
    if n < 10 {
        let mut v: Vec<char> = Vec::new();
        v.push(digit_to_char(n as u8));
        assert(v@ =~= seq![digit_char(n as nat)]);
        v
    } else {
        let mut v = decimal_chars(n / 10);
        v.push(digit_to_char((n % 10) as u8));
        v
    }
}

/// Appends a copy of `b` to `a`.
pub fn extend_chars(a: &mut Vec<char>, b: &Vec<char>)
    ensures
        final(a)@ == old(a)@ + b@,
{
    let mut i: usize = 0;
    while i < b.len()
        invariant
            i <= b.len(),
            a@ == old(a)@ + b@.take(i as int),
        decreases b.len() - i,
    {
        a.push(b[i]);
        assert(b@.take(i + 1) =~= b@.take(i as int).push(b@[i as int]));
        i = i + 1;
    }
    assert(b@.take(i as int) =~= b@);
}

/// Relies on `FromIterator<char>` for `String`: the string holds the given
/// characters, in order.
#[verifier::external_body]
pub fn string_of(chars: &Vec<char>) -> (r: String)
    ensures
        r@ == chars@,
{
    chars.iter().collect()
}

/// Relies on `str::chars`: the characters of `s`, in order.
#[verifier::external_body]
pub fn chars_of(s: &str) -> (r: Vec<char>)
    ensures
        r@ == s@,
{
    s.chars().collect()
}

/// `vals` joined by single spaces.
pub open spec fn join_words(vals: Seq<Seq<char>>) -> Seq<char>
    decreases vals.len(),
{
    if vals.len() == 0 {
        Seq::empty()
    } else if vals.len() == 1 {
        vals[0]
    } else {
        vals[0] + seq![' '] + join_words(vals.drop_first())
    }
}

/// A non-empty run of characters none of which separates fields.
pub open spec fn is_word(w: Seq<char>, commas: bool) -> bool {
    w.len() > 0 && forall|j: int| 0 <= j < w.len() ==> !is_sep(#[trigger] w[j], commas)
}

/// Splitting words joined by spaces gives the words back.
pub proof fn lemma_fields_join(vals: Seq<Seq<char>>, commas: bool)
    requires
        forall|i: int| 0 <= i < vals.len() ==> is_word(#[trigger] vals[i], commas),
    ensures
        fields(join_words(vals), commas) == vals,
    decreases vals.len(),
{
    if vals.len() == 0 {
        assert(fields(join_words(vals), commas) =~= vals);
    } else {
        let w = vals[0];
        assert(is_word(w, commas));
        let n = w.len();
        if vals.len() == 1 {
            lemma_word_len_exact(w, commas, n);
            assert(w.take(n as int) =~= w);
            assert(w.skip(n as int) =~= Seq::<char>::empty());
            assert(fields(Seq::<char>::empty(), commas) =~= Seq::<Seq<char>>::empty());
            assert(fields(join_words(vals), commas) =~= vals);
        } else {
            let rest = vals.drop_first();
            assert forall|i: int| 0 <= i < rest.len() implies is_word(#[trigger] rest[i], commas) by {
                assert(rest[i] == vals[i + 1]);
            }
            lemma_fields_join(rest, commas);
            let s = join_words(vals);
            assert(s == w + seq![' '] + join_words(rest));
            assert forall|k: int| 0 <= k < n implies !is_sep(#[trigger] s[k], commas) by {
                assert(s[k] == w[k]);
            }
            assert(s[n as int] == ' ');
            lemma_word_len_exact(s, commas, n);
            assert(s.take(n as int) =~= w);
            let t = s.skip(n as int);
            assert(t.drop_first() =~= join_words(rest));
            assert(t[0] == ' ');
            assert(fields(t, commas) == fields(t.drop_first(), commas));
            assert(fields(s, commas) =~= vals);
        }
    }
}

/// A decimal numeral is a non-empty run of digits that reads back as its value.
pub proof fn lemma_decimal(n: nat)
    ensures
        decimal(n).len() > 0,
        all_digits(decimal(n)),
        digits_value(decimal(n)) == n,
        decimal(n)[0] != '+',
    decreases n,
{
    if n < 10 {
        let s = decimal(n);
        assert(s.drop_last() =~= Seq::<char>::empty());
        assert(digit_char(n) as nat == '0' as nat + n);
        assert(digits_value(Seq::<char>::empty()) == 0);
        assert(digit_value(s.last()) == n);
    } else {
        lemma_decimal(n / 10);
        let s = decimal(n);
        assert(s.drop_last() =~= decimal(n / 10));
        assert(digit_char(n % 10) as nat == '0' as nat + n % 10);
        assert(digit_value(s.last()) == n % 10);
        assert(n == (n / 10) * 10 + n % 10);
        assert(s[0] == decimal(n / 10)[0]);
        assert forall|i: int| 0 <= i < s.len() implies is_digit(#[trigger] s[i]) by {
            if i < s.len() - 1 {
                assert(s[i] == decimal(n / 10)[i]);
            }
        }
    }
}

/// A decimal numeral up to `max` parses back to its value.
pub proof fn lemma_parse_decimal(n: nat, max: nat)
    requires
        n <= max,
    ensures
        parse_unsigned(decimal(n), max) == Some(n),
        is_word(decimal(n), true),
{
    lemma_decimal(n);
    assert(unsigned_digits(decimal(n)) == decimal(n));
    assert forall|j: int| 0 <= j < decimal(n).len() implies !is_sep(#[trigger] decimal(n)[j], true) by {
        assert(is_digit(decimal(n)[j]));
    }
}

} // verus!
