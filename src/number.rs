//! Numbers as they are written in the document. A `Number` holds the text of
//! a literal that Rust's floating-point parser accepts, so the value it denotes
//! is fixed by its text; converting it to a machine float is left to the caller.
use crate::text::{
    all_digits, ascii_lower, chars_equal, chars_of, is_digit, is_sep, is_word, lower_char,
    lower_seq, slice_chars, string_of,
};
use vstd::prelude::*;

verus! {

/// `s` without one leading sign character.
pub open spec fn strip_sign(s: Seq<char>) -> Seq<char> {
    if s.len() > 0 && (s[0] == '+' || s[0] == '-') {
        s.drop_first()
    } else {
        s
    }
}

/// Number of `c` in `s`.
pub open spec fn count_char(s: Seq<char>, c: char) -> nat
    decreases s.len(),
{
    if s.len() == 0 {
        0
    } else {
        count_char(s.drop_last(), c) + if s.last() == c {
            1nat
        } else {
            0nat
        }
    }
}

/// `Digit+ | Digit+ '.' Digit* | Digit* '.' Digit+`: digits with at most
/// one decimal point and at least one digit.
pub open spec fn is_mantissa(m: Seq<char>) -> bool {
    &&& forall|i: int| 0 <= i < m.len() ==> is_digit(#[trigger] m[i]) || m[i] == '.'
    &&& count_char(m, '.') <= 1
    &&& exists|i: int| 0 <= i < m.len() && is_digit(#[trigger] m[i])
}

pub open spec fn is_exp_mark(c: char) -> bool {
    c == 'e' || c == 'E'
}

/// `Number ::= Mantissa ('e' Sign? Digit+)?`, with `e` in either case.
pub open spec fn is_decimal_literal(t: Seq<char>) -> bool {
    is_mantissa(t) || exists|e: int|
        0 <= e < t.len() && is_exp_mark(#[trigger] t[e]) && is_mantissa(t.take(e))
            && strip_sign(t.skip(e + 1)).len() > 0 && all_digits(strip_sign(t.skip(e + 1)))
}

/// `inf`, `infinity` or `nan`, in any letter case.
pub open spec fn is_special_literal(t: Seq<char>) -> bool {
    lower_seq(t) == seq!['i', 'n', 'f'] || lower_seq(t) == seq![
        'i',
        'n',
        'f',
        'i',
        'n',
        'i',
        't',
        'y',
    ] || lower_seq(t) == seq!['n', 'a', 'n']
}

/// The strings that `str::parse::<f64>()` (and `f32`) accepts, as its
/// documentation gives them: `Sign? ('inf' | 'infinity' | 'nan' | Number)`.
pub open spec fn is_float_literal(s: Seq<char>) -> bool {
    is_special_literal(strip_sign(s)) || is_decimal_literal(strip_sign(s))
}

/// A literal whose value carries no sign: it is zero, positive or NaN.
pub open spec fn is_unsigned_literal(s: Seq<char>) -> bool {
    is_float_literal(s) && strip_sign(s) == s
}

/// A number, kept as the literal it was read from.
#[derive(Clone, Debug)]
pub struct Number {
    text: Vec<char>,
}

impl View for Number {
    type V = Seq<char>;

    closed spec fn view(&self) -> Seq<char> {
        self.text@
    }
}

impl Number {
    /// The number written as `text`, if it is a float literal.
    pub fn from_chars(text: &Vec<char>) -> (r: Option<Number>)
        ensures
            r is Some <==> is_float_literal(text@),
            r matches Some(n) ==> n@ == text@,
    {
        if is_float_chars(text) {
            let t = slice_chars(text, 0, text.len());
            assert(t@ =~= text@);
            Some(Number { text: t })
        } else {
            None
        }
    }

    /// The number written as `text`, if it is a float literal.
    pub fn new(text: &str) -> (r: Option<Number>)
        ensures
            r is Some <==> is_float_literal(text@),
            r matches Some(n) ==> n@ == text@,
    {
        let v = chars_of(text);
        Number::from_chars(&v)
    }

    /// The literal, as a string.
    pub fn text(&self) -> (r: String)
        ensures
            r@ == self@,
    {
        string_of(&self.text)
    }

    /// The literal, as characters.
    pub fn chars(&self) -> (r: Vec<char>)
        ensures
            r@ == self@,
    {
        let t = slice_chars(&self.text, 0, self.text.len());
        assert(t@ =~= self.text@);
        t
    }

    /// A copy of this number.
    pub fn duplicate(&self) -> (r: Number)
        ensures
            r@ == self@,
    {
        Number { text: self.chars() }
    }

    /// The absolute value: the same literal without its sign.
    pub fn abs(&self) -> (r: Number)
        ensures
            r@ == strip_sign(self@),
    {
        let n = self.text.len();
        if n > 0 && (self.text[0] == '+' || self.text[0] == '-') {
            let t = slice_chars(&self.text, 1, n);
            assert(t@ =~= self@.drop_first());
            Number { text: t }
        } else {
            Number { text: self.chars() }
        }
    }
}

/// A float literal has no second sign after the first.
pub proof fn lemma_strip_sign_literal(s: Seq<char>)
    requires
        is_float_literal(s),
    ensures
        is_float_literal(strip_sign(s)),
        strip_sign(strip_sign(s)) == strip_sign(s),
{
    let t = strip_sign(s);
    if t.len() > 0 && (t[0] == '+' || t[0] == '-') {
        if is_special_literal(t) {
            assert(lower_seq(t)[0] == ascii_lower(t[0]));
        } else if is_mantissa(t) {
            assert(!(is_digit(t[0]) || t[0] == '.'));
        } else {
            let e = choose|e: int|
                0 <= e < t.len() && is_exp_mark(#[trigger] t[e]) && is_mantissa(t.take(e))
                    && strip_sign(t.skip(e + 1)).len() > 0 && all_digits(
                    strip_sign(t.skip(e + 1)),
                );
            if e == 0 {
                assert(is_exp_mark(t[0]));
            } else {
                assert(t.take(e)[0] == t[0]);
            }
        }
    }
}

proof fn lemma_count_step(s: Seq<char>, i: int, c: char)
    requires
        0 <= i < s.len(),
    ensures
        count_char(s.take(i + 1), c) == count_char(s.take(i), c) + if s[i] == c {
            1nat
        } else {
            0nat
        },
{
    assert(s.take(i + 1).drop_last() =~= s.take(i));
}

/// Whether `s[from..to]` is a mantissa.
fn is_mantissa_range(s: &Vec<char>, from: usize, to: usize) -> (r: bool)
    requires
        from <= to <= s.len(),
    ensures
        r == is_mantissa(s@.subrange(from as int, to as int)),
{
    let ghost m = s@.subrange(from as int, to as int);
    let mut dots: usize = 0;
    let mut digit = false;
    let mut i: usize = from;
    assert(m.take(0) =~= Seq::<char>::empty());
    while i < to
        invariant
            from <= i <= to <= s.len(),
            m == s@.subrange(from as int, to as int),
            forall|j: int| 0 <= j < i - from ==> is_digit(#[trigger] m[j]) || m[j] == '.',
            dots == count_char(m.take(i - from), '.'),
            dots <= 1,
            digit <==> exists|j: int| 0 <= j < i - from && is_digit(#[trigger] m[j]),
        decreases to - i,
    {
        let c = s[i];
        assert(m[i - from] == c);
        proof {
            lemma_count_step(m, i - from, '.');
        }
        if c == '.' {
            if dots == 1 {
                proof {
                    lemma_count_prefix(m, i - from + 1);
                }
                return false;
            }
            dots = dots + 1;
        } else if '0' <= c && c <= '9' {
            digit = true;
        } else {
            return false;
        }
        i = i + 1;
    }
    assert(m.take(i - from) =~= m);
    digit
}

proof fn lemma_count_prefix(s: Seq<char>, k: int)
    requires
        0 <= k <= s.len(),
    ensures
        count_char(s.take(k), '.') <= count_char(s, '.'),
    decreases s.len() - k,
{
    if k < s.len() {
        lemma_count_prefix(s, k + 1);
        lemma_count_step(s, k, '.');
    } else {
        assert(s.take(k) =~= s);
    }
}

/// Whether `s` (lowered) is one of the special literals.
fn is_special_chars(t: &Vec<char>) -> (r: bool)
    ensures
        r == is_special_literal(t@),
{
    let mut low: Vec<char> = Vec::new();
    let mut i: usize = 0;
    while i < t.len()
        invariant
            i <= t.len(),
            low@ == lower_seq(t@.take(i as int)),
        decreases t.len() - i,
    {
        low.push(lower_char(t[i]));
        assert(lower_seq(t@.take(i + 1)) =~= lower_seq(t@.take(i as int)).push(ascii_lower(t@[i as int])));
        i = i + 1;
    }
    assert(t@.take(i as int) =~= t@);
    let inf = chars_of("inf");
    let infinity = chars_of("infinity");
    let nan = chars_of("nan");
    proof {
        reveal_strlit("inf");
        reveal_strlit("infinity");
        reveal_strlit("nan");
        assert(inf@ =~= seq!['i', 'n', 'f']);
        assert(infinity@ =~= seq!['i', 'n', 'f', 'i', 'n', 'i', 't', 'y']);
        assert(nan@ =~= seq!['n', 'a', 'n']);
    }
    chars_equal(&low, &inf) || chars_equal(&low, &infinity) || chars_equal(&low, &nan)
}

/// Whether `s` is a float literal.
pub fn is_float_chars(s: &Vec<char>) -> (r: bool)
    ensures
        r == is_float_literal(s@),
{
    let n = s.len();
    let start: usize = if n > 0 && (s[0] == '+' || s[0] == '-') {
        1
    } else {
        0
    };
    let t = slice_chars(s, start, n);
    assert(t@ =~= strip_sign(s@));
    if is_special_chars(&t) {
        return true;
    }
    let m = t.len();
    let mut e: usize = 0;
    while e < m && !(t[e] == 'e' || t[e] == 'E')
        invariant
            e <= m == t.len(),
            forall|j: int| 0 <= j < e ==> !is_exp_mark(#[trigger] t@[j]),
        decreases m - e,
    {
        e = e + 1;
    }
    if e == m {
        assert(t@.subrange(0, m as int) =~= t@);
        return is_mantissa_range(&t, 0, m);
    }
    assert(!is_mantissa(t@)) by {
        assert(!(is_digit(t@[e as int]) || t@[e as int] == '.'));
    }
    let head = is_mantissa_range(&t, 0, e);
    assert(t@.subrange(0, e as int) =~= t@.take(e as int));
    let tail = slice_chars(&t, e + 1, m);
    assert(tail@ =~= t@.skip(e + 1));
    let k = tail.len();
    let ds: usize = if k > 0 && (tail[0] == '+' || tail[0] == '-') {
        1
    } else {
        0
    };
    let mut ok = ds < k;
    let mut j: usize = ds;
    while j < k
        invariant
            ds <= j <= k == tail.len(),
            ok ==> ds < k && forall|q: int| ds <= q < j ==> is_digit(#[trigger] tail@[q]),
            !ok ==> !(ds < k && forall|q: int| ds <= q < k ==> is_digit(#[trigger] tail@[q])),
        decreases k - j,
    {
        if !('0' <= tail[j] && tail[j] <= '9') {
            ok = false;
        }
        j = j + 1;
    }
    let ghost u = strip_sign(tail@);
    assert(u =~= tail@.skip(ds as int));
    assert(ok == (u.len() > 0 && all_digits(u))) by {
        if ok {
            assert forall|q: int| 0 <= q < u.len() implies is_digit(#[trigger] u[q]) by {
                assert(u[q] == tail@[ds + q]);
            }
        } else if u.len() > 0 && all_digits(u) {
            assert forall|q: int| ds <= q < k implies is_digit(#[trigger] tail@[q]) by {
                assert(u[q - ds] == tail@[q]);
            }
        }
    }
    let r = head && ok;
    proof {
        if r {
            assert(is_exp_mark(t@[e as int]));
        } else {
            assert forall|x: int|
                0 <= x < t@.len() && is_exp_mark(#[trigger] t@[x]) && is_mantissa(t@.take(x))
                    implies !(strip_sign(t@.skip(x + 1)).len() > 0 && all_digits(
                    strip_sign(t@.skip(x + 1)),
                )) by {
                if x > e {
                    assert(t@.take(x)[e as int] == t@[e as int]);
                    assert(!(is_digit(t@.take(x)[e as int]) || t@.take(x)[e as int] == '.'));
                }
            }
        }
    }
    r
}

/// A float literal is a non-empty run of signs, digits, points and letters:
/// it holds neither whitespace nor commas.
pub proof fn lemma_literal_is_word(s: Seq<char>)
    requires
        is_float_literal(s),
    ensures
        is_word(s, true),
{
    let t = strip_sign(s);
    let off: int = if s.len() > 0 && (s[0] == '+' || s[0] == '-') {
        1
    } else {
        0
    };
    assert(t =~= s.skip(off));
    assert forall|j: int| 0 <= j < t.len() implies !is_sep(#[trigger] t[j], true) by {
        if is_special_literal(t) {
            assert(lower_seq(t)[j] == ascii_lower(t[j]));
            assert(lower_seq(t).len() == t.len());
        } else if is_mantissa(t) {
            assert(is_digit(t[j]) || t[j] == '.');
        } else {
            let e = choose|e: int|
                0 <= e < t.len() && is_exp_mark(#[trigger] t[e]) && is_mantissa(t.take(e))
                    && strip_sign(t.skip(e + 1)).len() > 0 && all_digits(
                    strip_sign(t.skip(e + 1)),
                );
            if j < e {
                assert(t.take(e)[j] == t[j]);
                assert(is_digit(t.take(e)[j]) || t.take(e)[j] == '.');
            } else if j > e {
                let u = t.skip(e + 1);
                assert(u[j - e - 1] == t[j]);
                if u[0] == '+' || u[0] == '-' {
                    if j - e - 1 > 0 {
                        assert(strip_sign(u)[j - e - 2] == u[j - e - 1]);
                        assert(is_digit(strip_sign(u)[j - e - 2]));
                    }
                } else {
                    assert(is_digit(strip_sign(u)[j - e - 1]));
                }
            }
        }
    }
    assert(t.len() > 0) by {
        if is_special_literal(t) {
            assert(lower_seq(t).len() == t.len());
        } else if !is_mantissa(t) {
            let e = choose|e: int|
                0 <= e < t.len() && is_exp_mark(#[trigger] t[e]) && is_mantissa(t.take(e))
                    && strip_sign(t.skip(e + 1)).len() > 0 && all_digits(
                    strip_sign(t.skip(e + 1)),
                );
        }
    }
    assert forall|j: int| 0 <= j < s.len() implies !is_sep(#[trigger] s[j], true) by {
        if j >= off {
            assert(s[j] == t[j - off]);
        }
    }
}

} // verus!
