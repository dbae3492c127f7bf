//! Characters, words and decimal numbers: the small vocabulary that the
//! protocol's grammar is written in.
//!
//! Every function here is stated over `Seq<char>`, the view of a `&str`, of
//! a `String` and of a `Vec<char>` alike.

use vstd::prelude::*;

verus! {

/// `String::push` appends one character to the end of the string.
pub assume_specification[ String::push ](s: &mut String, c: char)
    ensures
        final(s)@ == old(s)@.push(c),
;

// ---------------------------------------------------------------------
// Between strings and character vectors
// ---------------------------------------------------------------------

/// What a vector of strings holds.
pub open spec fn texts_of(strings: Seq<String>) -> Seq<Seq<char>> {
    Seq::new(strings.len(), |i: int| strings[i]@)
}

/// What a vector of words holds.
pub open spec fn words_of(words: Seq<Vec<char>>) -> Seq<Seq<char>> {
    Seq::new(words.len(), |i: int| words[i]@)
}

/// The characters of `s`, in order.
pub fn chars_of(s: &str) -> (v: Vec<char>)
    ensures
        v@ == s@,
{
    let mut v: Vec<char> = Vec::new();
    for c in it: s.chars()
        invariant
            v@ == s@.take(it.index() as int),
            it.seq() == s@,
    {
        v.push(c);
    }
    v
}

/// Appends the characters `v[from..to]` to `out`.
pub fn push_chars(out: &mut String, v: &Vec<char>, from: usize, to: usize)
    requires
        from <= to <= v.len(),
    ensures
        final(out)@ == old(out)@ + v@.subrange(from as int, to as int),
{
    let mut i: usize = from;
    while i < to
        invariant
            from <= i <= to <= v.len(),
            out@ == old(out)@ + v@.subrange(from as int, i as int),
        decreases to - i,
    {
        out.push(v[i]);
        i += 1;
        assert(v@.subrange(from as int, i as int) == v@.subrange(from as int, i - 1).push(
            v@[i - 1],
        ));
    }
}

/// The string made of the characters `v[from..to]`.
pub fn string_of(v: &Vec<char>, from: usize, to: usize) -> (s: String)
    requires
        from <= to <= v.len(),
    ensures
        s@ == v@.subrange(from as int, to as int),
{
    let mut s = String::new();
    push_chars(&mut s, v, from, to);
    s
}

/// A copy of the characters `v[from..to]`.
pub fn subrange(v: &Vec<char>, from: usize, to: usize) -> (r: Vec<char>)
    requires
        from <= to <= v.len(),
    ensures
        r@ == v@.subrange(from as int, to as int),
{
    let mut r: Vec<char> = Vec::new();
    let mut i: usize = from;
    while i < to
        invariant
            from <= i <= to <= v.len(),
            r@ == v@.subrange(from as int, i as int),
        decreases to - i,
    {
        r.push(v[i]);
        i += 1;
    }
    r
}

/// Whether `v` spells exactly `word`.
pub fn spells(v: &Vec<char>, word: &str) -> (r: bool)
    ensures
        r == (v@ == word@),
{
    let mut i: usize = 0;
    for c in it: word.chars()
        invariant
            it.seq() == word@,
            i == it.index(),
            i <= v.len(),
            v@.take(i as int) == word@.take(i as int),
    {
        if i >= v.len() || v[i] != c {
            assert(v@ != word@) by {
                if v@ == word@ {
                    assert(v@[i as int] == word@[i as int]);
                }
            }
            return false;
        }
        i += 1;
        assert(v@.take(i as int) == v@.take(i - 1).push(v@[i - 1]));
        assert(word@.take(i as int) == word@.take(i - 1).push(word@[i - 1]));
    }
    assert(word@.take(i as int) == word@);
    if i == v.len() {
        assert(v@.take(i as int) == v@);
        true
    } else {
        false
    }
}

// ---------------------------------------------------------------------
// Classes of characters
// ---------------------------------------------------------------------

/// The code points that carry Unicode's `White_Space` property.
pub open spec fn is_whitespace(c: char) -> bool {
    let n = c as u32;
    ||| 0x09 <= n <= 0x0d
    ||| n == 0x20
    ||| n == 0x85
    ||| n == 0xa0
    ||| n == 0x1680
    ||| 0x2000 <= n <= 0x200a
    ||| n == 0x2028
    ||| n == 0x2029
    ||| n == 0x202f
    ||| n == 0x205f
    ||| n == 0x3000
}

/// Whether `c` is white space.
pub fn char_is_whitespace(c: char) -> (r: bool)
    ensures
        r == is_whitespace(c),
{
    let n: u32 = c as u32;
    (0x09 <= n && n <= 0x0d) || n == 0x20 || n == 0x85 || n == 0xa0 || n == 0x1680 || (0x2000 <= n
        && n <= 0x200a) || n == 0x2028 || n == 0x2029 || n == 0x202f || n == 0x205f || n == 0x3000
}

/// The control characters that a line never keeps: every code below 32 but
/// tab and line feed, and delete.
pub open spec fn is_control(c: char) -> bool {
    let n = c as u32;
    n <= 8 || 11 <= n <= 31 || n == 127
}

/// Whether `c` is a control character.
pub fn char_is_control(c: char) -> (r: bool)
    ensures
        r == is_control(c),
{
    let n: u32 = c as u32;
    n <= 8 || (11 <= n && n <= 31) || n == 127
}

/// Whether every character of `s` is white space.
pub open spec fn is_blank(s: Seq<char>) -> bool {
    forall|i: int| 0 <= i < s.len() ==> is_whitespace(#[trigger] s[i])
}

/// Whether every character of `v` is white space.
pub fn chars_are_blank(v: &Vec<char>) -> (r: bool)
    ensures
        r == is_blank(v@),
{
    let mut i: usize = 0;
    while i < v.len()
        invariant
            i <= v.len(),
            is_blank(v@.take(i as int)),
        decreases v.len() - i,
    {
        if !char_is_whitespace(v[i]) {
            return false;
        }
        i += 1;
    }
    assert(v@.take(i as int) == v@);
    true
}

/// The lower-case form of `c` as far as words of ASCII letters go: a capital
/// ASCII letter gives its small letter, the Kelvin sign gives `k` (Unicode
/// lowers it so), and every other character stands for itself.
pub open spec fn lower(c: char) -> char {
    if 'A' <= c <= 'Z' {
        ((c as u32) + 32) as char
    } else if c as u32 == 0x212a {
        'k'
    } else {
        c
    }
}

/// `s` with every character in lower case.
pub open spec fn lowered(s: Seq<char>) -> Seq<char> {
    Seq::new(s.len(), |i: int| lower(s[i]))
}

/// The lower-case form of `c`.
pub fn to_lower(c: char) -> (r: char)
    ensures
        r == lower(c),
{
    if 'A' <= c && c <= 'Z' {
        let n: u8 = c as u8;
        (n + 32) as char
    } else if c as u32 == 0x212a {
        'k'
    } else {
        c
    }
}

/// The characters of `v`, each in lower case.
pub fn lowered_chars(v: &Vec<char>) -> (r: Vec<char>)
    ensures
        r@ == lowered(v@),
{
    let mut r: Vec<char> = Vec::new();
    let mut i: usize = 0;
    while i < v.len()
        invariant
            i <= v.len(),
            r@ == lowered(v@.take(i as int)),
        decreases v.len() - i,
    {
        r.push(to_lower(v[i]));
        i += 1;
        assert(r@ == lowered(v@.take(i as int)));
    }
    assert(v@.take(i as int) == v@);
    r
}

// ---------------------------------------------------------------------
// Finding a character, and splitting at it
// ---------------------------------------------------------------------

/// Where `c` first stands in `s`, or the length of `s` where it does not
/// occur.
pub open spec fn position(s: Seq<char>, c: char) -> int
    decreases s.len(),
{
    if s.len() == 0 || s[0] == c {
        0
    } else {
        1 + position(s.drop_first(), c)
    }
}

/// `position` gives the first occurrence, and nothing else does.
pub proof fn lemma_position(s: Seq<char>, c: char)
    ensures
        0 <= position(s, c) <= s.len(),
        position(s, c) < s.len() ==> s[position(s, c)] == c,
        forall|j: int| 0 <= j < position(s, c) ==> s[j] != c,
    decreases s.len(),
{
    if s.len() == 0 || s[0] == c {
    } else {
        lemma_position(s.drop_first(), c);
        assert forall|j: int| 0 <= j < position(s, c) implies s[j] != c by {
            if j > 0 {
                assert(s[j] == s.drop_first()[j - 1]);
            }
        }
    }
}

/// An index before which `c` does not occur, and which holds `c` or ends
/// `s`, is the position of `c`.
pub proof fn lemma_position_is(s: Seq<char>, c: char, i: int)
    requires
        0 <= i <= s.len(),
        i < s.len() ==> s[i] == c,
        forall|j: int| 0 <= j < i ==> s[j] != c,
    ensures
        position(s, c) == i,
{
    lemma_position(s, c);
    let p = position(s, c);
    if p < i {
        assert(s[p] == c);
    } else if i < p {
        assert(s[i] == c);
    }
}

/// The first index at or after `from` where `v` holds `c`, or the length of
/// `v`.
pub fn find_from(v: &Vec<char>, from: usize, c: char) -> (i: usize)
    requires
        from <= v.len(),
    ensures
        i == from + position(v@.skip(from as int), c),
        from <= i <= v.len(),
{
    let mut i: usize = from;
    while i < v.len() && v[i] != c
        invariant
            from <= i <= v.len(),
            forall|j: int| from <= j < i ==> v@[j] != c,
        decreases v.len() - i,
    {
        i += 1;
    }
    proof {
        lemma_position_is(v@.skip(from as int), c, i - from);
    }
    i
}

/// The words of `s`: the pieces that its separators `sep` part, in order.
/// There is one word more than there are separators, and a word is empty
/// where nothing stands between two of them, or before the first, or after
/// the last.
pub open spec fn split(s: Seq<char>, sep: char) -> Seq<Seq<char>>
    decreases s.len(),
{
    let i = position(s, sep);
    if 0 <= i < s.len() {
        seq![s.take(i)] + split(s.skip(i + 1), sep)
    } else {
        seq![s]
    }
}

/// Splits `v` at every `sep`.
pub fn split_chars(v: &Vec<char>, sep: char) -> (words: Vec<Vec<char>>)
    ensures
        words_of(words@) == split(v@, sep),
{
    let mut words: Vec<Vec<char>> = Vec::new();
    let mut start: usize = 0;
    assert(v@.skip(0) == v@);
    assert(words_of(words@) + split(v@, sep) == split(v@, sep));
    loop
        invariant
            start <= v.len(),
            split(v@, sep) == words_of(words@) + split(v@.skip(start as int), sep),
        decreases v.len() - start,
    {
        let ghost rest = v@.skip(start as int);
        let ghost before = words_of(words@);
        let i: usize = find_from(v, start, sep);
        let word = subrange(v, start, i);
        words.push(word);
        proof {
            lemma_position(rest, sep);
            assert(word@ == rest.take(i - start));
            assert(words_of(words@) == before.push(word@));
        }
        if i >= v.len() {
            proof {
                assert(rest.take(i - start) == rest);
                assert(before + seq![rest] == before.push(rest));
            }
            return words;
        }
        proof {
            assert(rest.skip(i - start + 1) == v@.skip(i + 1));
            let tail = split(v@.skip(i + 1), sep);
            assert(before + (seq![word@] + tail) == before.push(word@) + tail);
        }
        start = i + 1;
    }
}

// ---------------------------------------------------------------------
// Decimal numbers
// ---------------------------------------------------------------------

/// Whether `c` is one of the ten ASCII digits.
pub open spec fn is_digit(c: char) -> bool {
    '0' <= c <= '9'
}

/// The number that the digit `c` stands for.
pub open spec fn digit_value(c: char) -> nat {
    (c as u32 - 0x30) as nat
}

/// The character of the digit `d`.
pub open spec fn digit_char(d: nat) -> char {
    (d + 0x30) as char
}

/// Whether `s` holds digits only.
pub open spec fn all_digits(s: Seq<char>) -> bool {
    forall|i: int| 0 <= i < s.len() ==> is_digit(#[trigger] s[i])
}

/// The number that the digits of `s` spell in base ten.
pub open spec fn digits_value(s: Seq<char>) -> nat
    decreases s.len(),
{
    if s.len() == 0 {
        0
    } else {
        digits_value(s.drop_last()) * 10 + digit_value(s.last())
    }
}

/// The digits of an unsigned literal: what follows the one `+` that may
/// lead it.
pub open spec fn literal_digits(s: Seq<char>) -> Seq<char> {
    if s.len() > 0 && s[0] == '+' {
        s.skip(1)
    } else {
        s
    }
}

/// The number that `s` spells as an unsigned decimal literal of at most
/// `max`: an optional `+`, then one digit or more and nothing else. Zeros
/// may lead the digits.
pub open spec fn unsigned_of(s: Seq<char>, max: nat) -> Option<nat> {
    let d = literal_digits(s);
    if d.len() > 0 && all_digits(d) && digits_value(d) <= max {
        Some(digits_value(d))
    } else {
        None
    }
}

/// Digits appended to a number never make it smaller.
pub proof fn lemma_digits_value_grows(s: Seq<char>, k: int)
    requires
        0 <= k <= s.len(),
    ensures
        digits_value(s.take(k)) <= digits_value(s),
    decreases s.len(),
{
    if k == s.len() {
        assert(s.take(k) == s);
    } else {
        lemma_digits_value_grows(s.drop_last(), k);
        assert(s.drop_last().take(k) == s.take(k));
    }
}

/// Reads `v[from..]` as an unsigned decimal literal of at most `max`.
pub fn parse_unsigned(v: &Vec<char>, from: usize, max: u64) -> (r: Option<u64>)
    requires
        from <= v.len(),
    ensures
        r == match unsigned_of(v@.skip(from as int), max as nat) {
            Some(n) => Some(n as u64),
            None => None,
        },
{
    let ghost s = v@.skip(from as int);
    let start: usize = if from < v.len() && v[from] == '+' {
        from + 1
    } else {
        from
    };
    let ghost d = literal_digits(s);
    assert(d == v@.skip(start as int));
    if start == v.len() {
        return None;
    }
    let mut acc: u64 = 0;
    let mut i: usize = start;
    while i < v.len()
        invariant
            start <= i <= v.len(),
            d == v@.skip(start as int),
            d == literal_digits(v@.skip(from as int)),
            all_digits(d.take(i - start)),
            acc == digits_value(d.take(i - start)),
            acc <= max,
        decreases v.len() - i,
    {
        let c: char = v[i];
        assert(c == d[i - start]);
        if !('0' <= c && c <= '9') {
            return None;
        }
        let digit: u64 = (c as u32 - 0x30) as u64;
        proof {
            let next = d.take(i - start + 1);
            assert(next.drop_last() == d.take(i - start));
            assert(next.last() == c);
            assert(digits_value(next) == acc * 10 + digit);
            lemma_digits_value_grows(d, i - start + 1);
        }
        if acc > max / 10 {
            return None;
        }
        let tens: u64 = acc * 10;
        if digit > max - tens {
            return None;
        }
        acc = tens + digit;
        i += 1;
    }
    assert(d.take(i - start) == d);
    Some(acc)
}

/// The digits of `n` in base ten, the most significant first; `0` is one
/// digit.
pub open spec fn decimal_text(n: nat) -> Seq<char>
    decreases n,
{
    if n < 10 {
        seq![digit_char(n)]
    } else {
        decimal_text(n / 10).push(digit_char(n % 10))
    }
}

/// Appends the decimal text of `n` to `out`.
pub fn push_decimal(out: &mut String, n: u64)
    ensures
        final(out)@ == old(out)@ + decimal_text(n as nat),
    decreases n,
{
    if n >= 10 {
        push_decimal(out, n / 10);
    }
    let d: u8 = (n % 10) as u8;
    out.push((d + 0x30) as char);
}

/// A number's decimal text reads back as the number.
pub proof fn lemma_decimal_round_trip(n: nat, max: nat)
    requires
        n <= max,
    ensures
        unsigned_of(decimal_text(n), max) == Some(n),
{
    lemma_decimal_text(n);
}

/// The decimal text of a number is made of digits, at least one, and spells
/// the number.
pub proof fn lemma_decimal_text(n: nat)
    ensures
        decimal_text(n).len() > 0,
        all_digits(decimal_text(n)),
        digits_value(decimal_text(n)) == n,
        n < 10 ==> decimal_text(n).len() == 1,
        10 <= n < 100 ==> decimal_text(n).len() == 2,
    decreases n,
{
    if n < 10 {
        let t = decimal_text(n);
        assert(t.drop_last().len() == 0);
        assert(digits_value(t) == digits_value(t.drop_last()) * 10 + digit_value(t.last()));
    } else {
        lemma_decimal_text(n / 10);
        let t = decimal_text(n);
        assert(t.drop_last() == decimal_text(n / 10));
    }
}

// ---------------------------------------------------------------------
// Literals of floating-point numbers
// ---------------------------------------------------------------------

/// How many digits lead `s`.
pub open spec fn leading_digits(s: Seq<char>) -> int
    decreases s.len(),
{
    if s.len() > 0 && is_digit(s[0]) {
        1 + leading_digits(s.drop_first())
    } else {
        0
    }
}

/// Whether `s` is an exponent: `e` in either case, a sign if any, and
/// digits to the end, at least one.
pub open spec fn is_exponent(s: Seq<char>) -> bool {
    s.len() >= 2 && (s[0] == 'e' || s[0] == 'E') && {
        let digits = if s[1] == '+' || s[1] == '-' {
            s.skip(2)
        } else {
            s.skip(1)
        };
        digits.len() > 0 && all_digits(digits)
    }
}

/// Whether `s` is a decimal number: digits, then a point and digits if
/// any, with a digit on one side of the point at least, then an exponent if
/// any.
pub open spec fn is_decimal(s: Seq<char>) -> bool {
    let whole = leading_digits(s);
    let rest = s.skip(whole);
    let pointed = rest.len() > 0 && rest[0] == '.';
    let fraction = if pointed {
        leading_digits(rest.skip(1))
    } else {
        0
    };
    let tail = if pointed {
        rest.skip(1 + fraction)
    } else {
        rest
    };
    whole + fraction > 0 && (tail.len() == 0 || is_exponent(tail))
}

/// What follows the sign of `s`, or `s` where no sign leads it.
pub open spec fn unsigned_part(s: Seq<char>) -> Seq<char> {
    if s.len() > 0 && (s[0] == '+' || s[0] == '-') {
        s.skip(1)
    } else {
        s
    }
}

/// Whether `s` is the literal of a floating-point number: a sign if any,
/// and then a decimal number or, in any case of the letters, one of `inf`,
/// `infinity` and `nan`. No white space leads or trails it.
pub open spec fn is_float_literal(s: Seq<char>) -> bool {
    let body = unsigned_part(s);
    let word = lowered(body);
    word == "inf"@ || word == "infinity"@ || word == "nan"@ || is_decimal(body)
}

/// The digits that lead `s` are digits, they end at what is none, and they
/// are all of `s` exactly where `s` holds digits only.
pub proof fn lemma_leading_digits(s: Seq<char>)
    ensures
        0 <= leading_digits(s) <= s.len(),
        all_digits(s.take(leading_digits(s))),
        leading_digits(s) < s.len() ==> !is_digit(s[leading_digits(s)]),
        all_digits(s) <==> leading_digits(s) == s.len(),
    decreases s.len(),
{
    if s.len() > 0 && is_digit(s[0]) {
        let rest = s.drop_first();
        lemma_leading_digits(rest);
        let n = leading_digits(s);
        assert forall|i: int| 0 <= i < n implies is_digit(#[trigger] s.take(n)[i]) by {
            if i > 0 {
                assert(s.take(n)[i] == rest.take(n - 1)[i - 1]);
            }
        }
        if all_digits(s) {
            assert forall|i: int| 0 <= i < rest.len() implies is_digit(#[trigger] rest[i]) by {
                assert(rest[i] == s[i + 1]);
            }
        }
        if n == s.len() {
            assert(s.take(n) == s);
        }
    } else if s.len() > 0 {
        assert(!all_digits(s)) by {
            if all_digits(s) {
                assert(is_digit(s[0]));
            }
        }
    }
}

/// An index up to which `s` holds digits, and which holds none or ends
/// `s`, is the number of digits that lead `s`.
pub proof fn lemma_leading_digits_is(s: Seq<char>, n: int)
    requires
        0 <= n <= s.len(),
        forall|i: int| 0 <= i < n ==> is_digit(#[trigger] s[i]),
        n < s.len() ==> !is_digit(s[n]),
    ensures
        leading_digits(s) == n,
    decreases s.len(),
{
    if n > 0 {
        let rest = s.drop_first();
        assert(is_digit(s[0]));
        assert forall|i: int| 0 <= i < n - 1 implies is_digit(#[trigger] rest[i]) by {
            assert(rest[i] == s[i + 1]);
        }
        lemma_leading_digits_is(rest, n - 1);
    }
}

/// The first index at or after `from` where `v` holds no digit, or the
/// length of `v`.
pub fn skip_digits(v: &Vec<char>, from: usize) -> (i: usize)
    requires
        from <= v.len(),
    ensures
        i == from + leading_digits(v@.skip(from as int)),
        from <= i <= v.len(),
{
    let mut i: usize = from;
    while i < v.len() && '0' <= v[i] && v[i] <= '9'
        invariant
            from <= i <= v.len(),
            forall|j: int| from <= j < i ==> is_digit(#[trigger] v@[j]),
        decreases v.len() - i,
    {
        i += 1;
    }
    proof {
        lemma_leading_digits_is(v@.skip(from as int), i - from);
    }
    i
}

/// Whether `v` is a decimal number.
pub fn chars_are_decimal(v: &Vec<char>) -> (r: bool)
    ensures
        r == is_decimal(v@),
{
    assert(v@.skip(0) == v@);
    let whole: usize = skip_digits(v, 0);
    let ghost rest = v@.skip(whole as int);
    let pointed = whole < v.len() && v[whole] == '.';
    let end: usize = if pointed {
        assert(rest.skip(1) == v@.skip(whole + 1));
        skip_digits(v, whole + 1)
    } else {
        whole
    };
    let fraction: usize = if pointed {
        end - whole - 1
    } else {
        0
    };
    let ghost tail = v@.skip(end as int);
    assert(tail == if pointed {
        rest.skip(1 + fraction)
    } else {
        rest
    });
    if whole == 0 && fraction == 0 {
        return false;
    }
    if end == v.len() {
        return true;
    }
    if !(v[end] == 'e' || v[end] == 'E') || v.len() - end < 2 {
        return false;
    }
    let digits: usize = if v[end + 1] == '+' || v[end + 1] == '-' {
        end + 2
    } else {
        end + 1
    };
    proof {
        assert(tail[0] == v@[end as int]);
        assert(tail[1] == v@[end + 1]);
        assert(tail.skip(digits - end) == v@.skip(digits as int));
        lemma_leading_digits(v@.skip(digits as int));
    }
    digits < v.len() && skip_digits(v, digits) == v.len()
}

/// Whether `v` is the literal of a floating-point number.
pub fn chars_are_float_literal(v: &Vec<char>) -> (r: bool)
    ensures
        r == is_float_literal(v@),
{
    let start: usize = if v.len() > 0 && (v[0] == '+' || v[0] == '-') {
        1
    } else {
        0
    };
    let body = subrange(v, start, v.len());
    assert(body@ == unsigned_part(v@));
    let word = lowered_chars(&body);
    spells(&word, "inf") || spells(&word, "infinity") || spells(&word, "nan") || chars_are_decimal(
        &body,
    )
}

} // verus!
