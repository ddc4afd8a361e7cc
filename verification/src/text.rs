//! Characters, tokens and decimal numbers.

use vstd::prelude::*;

verus! {

/// The characters of `s`, in order.
pub fn chars_of(s: &str) -> (v: Vec<char>)
    ensures
        v@ == s@,
{
    let mut v: Vec<char> = Vec::new();
    for c in it: s.chars()
        invariant
            v@ == it.seq().take(it.index() as int),
            it.seq() == s@,
    {
        v.push(c);
    }
    v
}

/// Appends `c` to `s` by `String::push` of the standard library. It is taken
/// on trust that the text afterwards is the text before with `c` at its end.
#[verifier::external_body]
fn push_char(s: &mut String, c: char)
    ensures
        final(s)@ == old(s)@.push(c),
{
    s.push(c);
}

/// The string whose characters are `v`.
pub fn string_of(v: &Vec<char>) -> (s: String)
    ensures
        s@ == v@,
{
    let mut s = String::new();
    let mut i: usize = 0;
    while i < v.len()
        invariant
            i <= v.len(),
            s@ == v@.take(i as int),
        decreases v.len() - i,
    {
        push_char(&mut s, v[i]);
        i += 1;
    }
    s
}

/// Whether two character vectors hold the same text.
pub fn same_text(a: &Vec<char>, b: &Vec<char>) -> (r: bool)
    ensures
        r == (a@ == b@),
{
    if a.len() != b.len() {
        return false;
    }
    let mut i: usize = 0;
    while i < a.len()
        invariant
            i <= a.len(),
            a.len() == b.len(),
            a@.take(i as int) == b@.take(i as int),
        decreases a.len() - i,
    {
        if a[i] != b[i] {
            return false;
        }
        assert(a@.take(i + 1) == a@.take(i as int).push(a@[i as int]));
        assert(b@.take(i + 1) == b@.take(i as int).push(b@[i as int]));
        i += 1;
    }
    assert(a@.take(a.len() as int) == a@);
    assert(b@.take(b.len() as int) == b@);
    true
}

/// Whether `v` spells the literal `word`.
pub fn is_word(v: &Vec<char>, word: &str) -> (r: bool)
    ensures
        r == (v@ == word@),
{
    let w = chars_of(word);
    same_text(v, &w)
}

/// White space as Unicode defines it (the property `White_Space`).
pub open spec fn spec_is_whitespace(c: char) -> bool {
    let n = c as u32;
    ||| 0x09 <= n <= 0x0d
    ||| n == 0x20
    ||| n == 0x85
    ||| n == 0xa0
    ||| n == 0x1680
    ||| 0x2000 <= n <= 0x200a
    ||| n == 0x2028
    ||| n == 0x2029
    ||| n == 0x202f
    ||| n == 0x205f
    ||| n == 0x3000
}

/// Whether `c` is white space.
#[verifier::when_used_as_spec(spec_is_whitespace)]
pub fn is_whitespace(c: char) -> (r: bool)
    ensures
        r == spec_is_whitespace(c),
{
    let n: u32 = c as u32;
    (0x09 <= n && n <= 0x0d) || n == 0x20 || n == 0x85 || n == 0xa0 || n == 0x1680 || (0x2000 <= n
        && n <= 0x200a) || n == 0x2028 || n == 0x2029 || n == 0x202f || n == 0x205f || n == 0x3000
}

/// An ASCII decimal digit.
pub open spec fn spec_is_digit(c: char) -> bool {
    '0' <= c <= '9'
}

/// Whether `c` is a decimal digit.
#[verifier::when_used_as_spec(spec_is_digit)]
pub fn is_digit(c: char) -> (r: bool)
    ensures
        r == spec_is_digit(c),
{
    '0' <= c && c <= '9'
}

/// The number a decimal digit stands for.
pub open spec fn digit_value(c: char) -> nat
    recommends
        spec_is_digit(c),
{
    (c as u32 - '0' as u32) as nat
}

/// Whether every character of `s` is a decimal digit.
pub open spec fn all_digits(s: Seq<char>) -> bool {
    forall|i: int| 0 <= i < s.len() ==> spec_is_digit(#[trigger] s[i])
}

/// The number that a run of decimal digits writes; 0 for the empty run.
pub open spec fn digits_value(s: Seq<char>) -> nat
    decreases s.len(),
{
    if s.len() == 0 {
        0
    } else {
        digits_value(s.drop_last()) * 10 + digit_value(s.last())
    }
}

/// The integer that `s` writes as an optional sign (`+` or `-`) and at least
/// one decimal digit, and nothing else.
pub open spec fn signed_decimal(s: Seq<char>) -> Option<int> {
    if s.len() > 0 && (s[0] == '+' || s[0] == '-') {
        let d = s.drop_first();
        if d.len() > 0 && all_digits(d) {
            Some(
                if s[0] == '-' {
                    -(digits_value(d) as int)
                } else {
                    digits_value(d) as int
                },
            )
        } else {
            None
        }
    } else if s.len() > 0 && all_digits(s) {
        Some(digits_value(s) as int)
    } else {
        None
    }
}

/// The natural number that `s` writes as an optional `+` and at least one
/// decimal digit, and nothing else.
pub open spec fn unsigned_decimal(s: Seq<char>) -> Option<nat> {
    if s.len() > 0 && s[0] == '+' {
        let d = s.drop_first();
        if d.len() > 0 && all_digits(d) {
            Some(digits_value(d))
        } else {
            None
        }
    } else if s.len() > 0 && all_digits(s) {
        Some(digits_value(s))
    } else {
        None
    }
}

/// What `s` reads as a 64-bit signed integer: its value where it is a signed
/// decimal within range.
pub open spec fn spec_parse_i64(s: Seq<char>) -> Option<i64> {
    match signed_decimal(s) {
        Some(n) => if i64::MIN <= n <= i64::MAX {
            Some(n as i64)
        } else {
            None
        },
        None => None,
    }
}

/// What `s` reads as a 64-bit unsigned integer: its value where it is an
/// unsigned decimal within range.
pub open spec fn spec_parse_u64(s: Seq<char>) -> Option<u64> {
    match unsigned_decimal(s) {
        Some(n) => if n <= u64::MAX {
            Some(n as u64)
        } else {
            None
        },
        None => None,
    }
}

/// What a scan of a run of digits found.
pub enum Digits {
    /// Some character is no digit.
    Malformed,
    /// The run is made of digits and writes this number, which is within the cap.
    Value(u64),
    /// The run is made of digits and writes a number above the cap.
    TooLarge,
}

/// One digit more makes ten times the number, and the digit.
proof fn lemma_digits_grow(s: Seq<char>, i: int)
    requires
        0 <= i < s.len(),
    ensures
        digits_value(s.take(i + 1)) == digits_value(s.take(i)) * 10 + digit_value(s[i]),
        digits_value(s.take(i + 1)) >= digits_value(s.take(i)),
{
    assert(s.take(i + 1).drop_last() == s.take(i));
}

/// Scans `v[from..to]` as a run of decimal digits with values up to `cap`.
pub fn read_digits(v: &Vec<char>, from: usize, to: usize, cap: u64) -> (r: Digits)
    requires
        from <= to <= v.len(),
    ensures
        r is Malformed <==> !all_digits(v@.subrange(from as int, to as int)),
        r matches Digits::Value(n) ==> n == digits_value(v@.subrange(from as int, to as int)) && n
            <= cap,
        r is TooLarge ==> digits_value(v@.subrange(from as int, to as int)) > cap,
{
    let ghost run = v@.subrange(from as int, to as int);
    let mut acc: u128 = 0;
    let mut over = false;
    let mut i: usize = from;
    while i < to
        invariant
            from <= i <= to <= v.len(),
            run == v@.subrange(from as int, to as int),
            all_digits(run.take(i - from)),
            !over ==> acc == digits_value(run.take(i - from)) && acc <= cap,
            over ==> digits_value(run.take(i - from)) > cap,
        decreases to - i,
    {
        let c = v[i];
        assert(run[i - from] == c);
        if !is_digit(c) {
            return Digits::Malformed;
        }
        proof {
            lemma_digits_grow(run, i - from);
            assert forall|j: int| 0 <= j < i - from + 1 implies spec_is_digit(
                #[trigger] run.take(i - from + 1)[j],
            ) by {
                if j < i - from {
                    assert(run.take(i - from)[j] == run[j]);
                }
            }
        }
        if !over {
            let d: u128 = (c as u32 - '0' as u32) as u128;
            acc = acc * 10 + d;
            if acc > cap as u128 {
                over = true;
            }
        }
        i += 1;
    }
    assert(run.take(to - from) == run);
    if over {
        Digits::TooLarge
    } else {
        Digits::Value(acc as u64)
    }
}

/// Reads `v` as a 64-bit signed integer in decimal.
pub fn parse_i64(v: &Vec<char>) -> (r: Option<i64>)
    ensures
        r == spec_parse_i64(v@),
{
    if v.len() == 0 {
        return None;
    }
    let signed = v[0] == '+' || v[0] == '-';
    let negative = v[0] == '-';
    let from: usize = if signed {
        1
    } else {
        0
    };
    if from == v.len() {
        return None;
    }
    assert(v@.subrange(1, v.len() as int) == v@.drop_first());
    assert(v@.subrange(0, v.len() as int) == v@);
    match read_digits(v, from, v.len(), 0x8000_0000_0000_0000) {
        Digits::Malformed => None,
        Digits::TooLarge => None,
        Digits::Value(n) => {
            if negative {
                if n == 0x8000_0000_0000_0000 {
                    Some(i64::MIN)
                } else {
                    Some(-(n as i64))
                }
            } else if n == 0x8000_0000_0000_0000 {
                None
            } else {
                Some(n as i64)
            }
        },
    }
}

/// Reads `v` as a 64-bit unsigned integer in decimal.
pub fn parse_u64(v: &Vec<char>) -> (r: Option<u64>)
    ensures
        r == spec_parse_u64(v@),
{
    if v.len() == 0 {
        return None;
    }
    let from: usize = if v[0] == '+' {
        1
    } else {
        0
    };
    if from == v.len() {
        return None;
    }
    assert(v@.subrange(1, v.len() as int) == v@.drop_first());
    assert(v@.subrange(0, v.len() as int) == v@);
    match read_digits(v, from, v.len(), u64::MAX) {
        Digits::Malformed => None,
        Digits::TooLarge => None,
        Digits::Value(n) => Some(n),
    }
}

/// The position of the first `.` in `s`, or the length of `s` where it has none.
pub open spec fn first_dot(s: Seq<char>) -> int
    decreases s.len(),
{
    if s.len() == 0 || s[0] == '.' {
        0
    } else {
        1 + first_dot(s.drop_first())
    }
}

/// The thousandths that the digits after a decimal point write; digits after
/// the third are dropped.
pub open spec fn frac_millis(fp: Seq<char>) -> nat {
    if fp.len() >= 3 {
        digits_value(fp.take(3))
    } else if fp.len() == 2 {
        digits_value(fp) * 10
    } else if fp.len() == 1 {
        digits_value(fp) * 100
    } else {
        0
    }
}

/// The thousandths that an unsigned decimal fraction writes: digits, then
/// optionally a point and more digits, with a digit on at least one side.
pub open spec fn unsigned_millis(s: Seq<char>) -> Option<nat> {
    let dot = first_dot(s);
    let whole = s.take(dot);
    let frac = if dot < s.len() {
        s.skip(dot + 1)
    } else {
        Seq::<char>::empty()
    };
    if all_digits(whole) && all_digits(frac) && whole.len() + frac.len() > 0 {
        Some(digits_value(whole) * 1000 + frac_millis(frac))
    } else {
        None
    }
}

/// What `s` reads as a number of seconds, in milliseconds: an optional sign,
/// then an unsigned decimal fraction, where the result is within range.
pub open spec fn spec_parse_millis(s: Seq<char>) -> Option<i64> {
    let signed = s.len() > 0 && (s[0] == '+' || s[0] == '-');
    let body = if signed {
        s.drop_first()
    } else {
        s
    };
    match unsigned_millis(body) {
        Some(n) => {
            let v = if signed && s[0] == '-' {
                -(n as int)
            } else {
                n as int
            };
            if i64::MIN <= v <= i64::MAX {
                Some(v as i64)
            } else {
                None
            }
        },
        None => None,
    }
}

/// The first point stands where no point stands before.
proof fn lemma_first_dot(s: Seq<char>, k: int)
    requires
        0 <= k <= s.len(),
        forall|j: int| 0 <= j < k ==> s[j] != '.',
        k < s.len() ==> s[k] == '.',
    ensures
        first_dot(s) == k,
    decreases s.len(),
{
    if s.len() == 0 || s[0] == '.' {
    } else {
        let t = s.drop_first();
        assert forall|j: int| 0 <= j < k - 1 implies t[j] != '.' by {
            assert(t[j] == s[j + 1]);
        }
        lemma_first_dot(t, k - 1);
    }
}

/// A run is made of digits exactly when both of its parts are.
proof fn lemma_all_digits_split(s: Seq<char>, k: int)
    requires
        0 <= k <= s.len(),
    ensures
        all_digits(s) <==> all_digits(s.take(k)) && all_digits(s.skip(k)),
{
    let head = s.take(k);
    let rest = s.skip(k);
    if all_digits(s) {
        assert forall|j: int| 0 <= j < head.len() implies spec_is_digit(#[trigger] head[j]) by {
            assert(head[j] == s[j]);
        }
        assert forall|j: int| 0 <= j < rest.len() implies spec_is_digit(#[trigger] rest[j]) by {
            assert(rest[j] == s[j + k]);
        }
    }
    if all_digits(head) && all_digits(rest) {
        assert forall|j: int| 0 <= j < s.len() implies spec_is_digit(#[trigger] s[j]) by {
            if j < k {
                assert(s[j] == head[j]);
            } else {
                assert(s[j] == rest[j - k]);
            }
        }
    }
}

/// Finds the first `.` in `v[from..]`, or the end of `v`.
fn find_dot(v: &Vec<char>, from: usize) -> (dot: usize)
    requires
        from <= v.len(),
    ensures
        from <= dot <= v.len(),
        dot - from == first_dot(v@.subrange(from as int, v.len() as int)),
        dot < v.len() ==> v[dot as int] == '.',
{
    let ghost body = v@.subrange(from as int, v.len() as int);
    let mut dot: usize = from;
    while dot < v.len() && v[dot] != '.'
        invariant
            from <= dot <= v.len(),
            body == v@.subrange(from as int, v.len() as int),
            forall|j: int| 0 <= j < dot - from ==> body[j] != '.',
        decreases v.len() - dot,
    {
        dot += 1;
    }
    proof {
        lemma_first_dot(body, dot - from);
    }
    dot
}

/// Reads `v[from..]` as the digits after a decimal point, in thousandths.
fn read_frac_millis(v: &Vec<char>, from: usize) -> (r: Option<u64>)
    requires
        from <= v.len(),
    ensures
        r is None <==> !all_digits(v@.subrange(from as int, v.len() as int)),
        r matches Some(n) ==> n == frac_millis(v@.subrange(from as int, v.len() as int)) && n
            <= 999,
{
    let ghost frac = v@.subrange(from as int, v.len() as int);
    let to: usize = if v.len() - from > 3 {
        from + 3
    } else {
        v.len()
    };
    let head = read_digits(v, from, to, 999);
    let rest = read_digits(v, to, v.len(), 0);
    proof {
        lemma_all_digits_split(frac, to - from);
        assert(frac.take(to - from) == v@.subrange(from as int, to as int));
        assert(frac.skip(to - from) == v@.subrange(to as int, v.len() as int));
        if all_digits(frac.take(to - from)) {
            lemma_digits_bound(frac.take(to - from));
        }
        if frac.len() < 3 {
            assert(frac.take(to - from) == frac);
        }
    }
    if let Digits::Malformed = rest {
        return None;
    }
    match head {
        Digits::Malformed => None,
        Digits::TooLarge => None,
        Digits::Value(n) => {
            let len: usize = to - from;
            if len >= 3 {
                Some(n)
            } else if len == 2 {
                Some(n * 10)
            } else if len == 1 {
                Some(n * 100)
            } else {
                Some(0)
            }
        },
    }
}

/// What a scan of an unsigned decimal fraction found.
enum Millis {
    /// The text is no decimal fraction.
    Malformed,
    /// The thousandths that it writes, at most 2^63.
    Value(u64),
    /// It writes more than 2^63 thousandths.
    TooLarge,
}

/// Reads `v[from..]` as an unsigned decimal fraction, in thousandths.
fn read_unsigned_millis(v: &Vec<char>, from: usize) -> (r: Millis)
    requires
        from <= v.len(),
    ensures
        r is Malformed <==> unsigned_millis(v@.subrange(from as int, v.len() as int)) is None,
        r matches Millis::Value(n) ==> unsigned_millis(v@.subrange(from as int, v.len() as int))
            == Some(n as nat) && n <= 0x8000_0000_0000_0000,
        r is TooLarge ==> unsigned_millis(v@.subrange(from as int, v.len() as int)) is Some
            && unsigned_millis(v@.subrange(from as int, v.len() as int))->0
            > 0x8000_0000_0000_0000,
{
    let ghost body = v@.subrange(from as int, v.len() as int);
    let dot = find_dot(v, from);
    let frac_from: usize = if dot < v.len() {
        dot + 1
    } else {
        dot
    };
    assert(body.take(dot - from) == v@.subrange(from as int, dot as int));
    assert(dot < v.len() ==> body.skip(dot - from + 1) == v@.subrange(
        frac_from as int,
        v.len() as int,
    ));
    assert(dot == v.len() ==> v@.subrange(frac_from as int, v.len() as int) == Seq::<
        char,
    >::empty());
    if (dot - from) + (v.len() - frac_from) == 0 {
        return Millis::Malformed;
    }
    let whole = read_digits(v, from, dot, 9_300_000_000_000_000);
    let frac = read_frac_millis(v, frac_from);
    match (whole, frac) {
        (Digits::Malformed, _) => Millis::Malformed,
        (_, None) => Millis::Malformed,
        (Digits::TooLarge, Some(_)) => Millis::TooLarge,
        (Digits::Value(w), Some(f)) => {
            let total: u128 = (w as u128) * 1000 + f as u128;
            if total > 0x8000_0000_0000_0000 {
                Millis::TooLarge
            } else {
                Millis::Value(total as u64)
            }
        },
    }
}

/// Reads `v` as a number of seconds and gives it in milliseconds.
pub fn parse_millis(v: &Vec<char>) -> (r: Option<i64>)
    ensures
        r == spec_parse_millis(v@),
{
    let signed = v.len() > 0 && (v[0] == '+' || v[0] == '-');
    let negative = signed && v[0] == '-';
    let from: usize = if signed {
        1
    } else {
        0
    };
    assert(v@.subrange(from as int, v.len() as int) == if signed {
        v@.drop_first()
    } else {
        v@
    });
    match read_unsigned_millis(v, from) {
        Millis::Malformed => None,
        Millis::TooLarge => None,
        Millis::Value(n) => {
            if negative {
                if n == 0x8000_0000_0000_0000 {
                    Some(i64::MIN)
                } else {
                    Some(-(n as i64))
                }
            } else if n == 0x8000_0000_0000_0000 {
                None
            } else {
                Some(n as i64)
            }
        },
    }
}

/// A run of `n` digits writes a number below the `n`-th power of ten.
proof fn lemma_digits_bound(s: Seq<char>)
    requires
        all_digits(s),
        s.len() <= 3,
    ensures
        s.len() == 0 ==> digits_value(s) == 0,
        s.len() == 1 ==> digits_value(s) <= 9,
        s.len() == 2 ==> digits_value(s) <= 99,
        s.len() == 3 ==> digits_value(s) <= 999,
    decreases s.len(),
{
    if s.len() > 0 {
        let t = s.drop_last();
        assert forall|j: int| 0 <= j < t.len() implies spec_is_digit(#[trigger] t[j]) by {
            assert(t[j] == s[j]);
        }
        lemma_digits_bound(t);
        assert(spec_is_digit(s[s.len() - 1]));
    }
}

/// The words of `s`: its maximal runs of characters that are not white space,
/// in order. Read from the left, a character either is white space and ends the
/// word before it, or extends the word that the character before it belongs to,
/// or starts a new word.
pub open spec fn tokens(s: Seq<char>) -> Seq<Seq<char>>
    decreases s.len(),
{
    if s.len() == 0 {
        Seq::empty()
    } else {
        let before = tokens(s.drop_last());
        let c = s.last();
        if spec_is_whitespace(c) {
            before
        } else if s.len() >= 2 && !spec_is_whitespace(s[s.len() - 2]) && before.len() > 0 {
            before.drop_last().push(before.last().push(c))
        } else {
            before.push(seq![c])
        }
    }
}

/// The texts that the vectors of `v` hold.
pub open spec fn texts(v: Seq<Vec<char>>) -> Seq<Seq<char>> {
    v.map_values(|t: Vec<char>| t@)
}

/// No word is empty and no word holds white space.
pub proof fn lemma_tokens_are_words(s: Seq<char>)
    ensures
        forall|k: int, j: int|
            0 <= k < tokens(s).len() && 0 <= j < tokens(s)[k].len() ==> !spec_is_whitespace(
                #[trigger] tokens(s)[k][j],
            ),
        forall|k: int| 0 <= k < tokens(s).len() ==> (#[trigger] tokens(s)[k]).len() > 0,
        s.len() > 0 && !spec_is_whitespace(s.last()) ==> tokens(s).len() > 0,
    decreases s.len(),
{
    if s.len() > 0 {
        lemma_tokens_are_words(s.drop_last());
        let before = tokens(s.drop_last());
        let now = tokens(s);
        assert forall|k: int| 0 <= k < now.len() implies (#[trigger] now[k]).len() > 0 && (forall|
            j: int,
        |
            0 <= j < now[k].len() ==> !spec_is_whitespace(#[trigger] now[k][j])) by {
            if k < before.len() && now[k] == before[k] {
                assert(before[k].len() > 0);
            } else if now.len() == before.len() {
                let last = before.last();
                assert(now[k] == last.push(s.last()));
                assert forall|j: int| 0 <= j < now[k].len() implies !spec_is_whitespace(
                    #[trigger] now[k][j],
                ) by {
                    if j < last.len() {
                        assert(now[k][j] == before[before.len() - 1][j]);
                    }
                }
            } else {
                assert(now[k] == seq![s.last()]);
            }
        }
    }
}

/// A text without white space that is not empty is one word.
pub proof fn law_word_is_one_token(s: Seq<char>)
    requires
        s.len() > 0,
        forall|i: int| 0 <= i < s.len() ==> !spec_is_whitespace(s[i]),
    ensures
        tokens(s) == seq![s],
    decreases s.len(),
{
    assert(!spec_is_whitespace(s[s.len() - 1]));
    if s.len() == 1 {
        assert(s.drop_last() == Seq::<char>::empty());
        assert(tokens(s.drop_last()) == Seq::<Seq<char>>::empty());
        assert(seq![s.last()] == s);
        assert(Seq::<Seq<char>>::empty().push(seq![s.last()]) == seq![s]);
    } else {
        assert(!spec_is_whitespace(s[s.len() - 2]));
        let head = s.drop_last();
        assert forall|i: int| 0 <= i < head.len() implies !spec_is_whitespace(head[i]) by {
            assert(head[i] == s[i]);
        }
        law_word_is_one_token(head);
        assert(head.push(s.last()) == s);
        assert(seq![head].drop_last().push(head.push(s.last())) == seq![s]);
    }
}

/// White space parts words: the words of a text with a white-space character
/// in it are the words before that character, then the words behind it.
pub proof fn law_whitespace_parts_words(a: Seq<char>, space: char, b: Seq<char>)
    requires
        spec_is_whitespace(space),
    ensures
        tokens(a + seq![space] + b) == tokens(a) + tokens(b),
    decreases b.len(),
{
    let whole = a + seq![space] + b;
    if b.len() == 0 {
        assert(whole.drop_last() == a);
        assert(tokens(a) + tokens(b) == tokens(a));
    } else {
        let head = b.drop_last();
        let c = b.last();
        assert(whole.drop_last() == a + seq![space] + head);
        assert(whole.last() == c);
        law_whitespace_parts_words(a, space, head);
        lemma_tokens_are_words(head);
        let before = tokens(a) + tokens(head);
        if spec_is_whitespace(c) {
        } else if b.len() >= 2 && !spec_is_whitespace(b[b.len() - 2]) {
            assert(head.last() == b[b.len() - 2]);
            assert(whole[whole.len() - 2] == b[b.len() - 2]);
            assert(tokens(head).len() > 0);
            assert(before.last() == tokens(head).last());
            assert(before.drop_last() == tokens(a) + tokens(head).drop_last());
            assert(before.drop_last().push(before.last().push(c)) == tokens(a) + tokens(
                head,
            ).drop_last().push(tokens(head).last().push(c)));
        } else {
            if b.len() >= 2 {
                assert(whole[whole.len() - 2] == b[b.len() - 2]);
            } else {
                assert(whole[whole.len() - 2] == space);
            }
            assert(before.push(seq![c]) == tokens(a) + tokens(head).push(seq![c]));
        }
    }
}

/// Splits `v` into its words.
pub fn split_words(v: &Vec<char>) -> (words: Vec<Vec<char>>)
    ensures
        texts(words@) == tokens(v@),
{
    let mut words: Vec<Vec<char>> = Vec::new();
    let mut word: Vec<char> = Vec::new();
    let mut i: usize = 0;
    assert(texts(words@) == tokens(v@.take(0)));
    while i < v.len()
        invariant
            i <= v.len(),
            word.len() > 0 <==> (i > 0 && !spec_is_whitespace(v@[i - 1])),
            word.len() == 0 ==> texts(words@) == tokens(v@.take(i as int)),
            word.len() > 0 ==> texts(words@).push(word@) == tokens(v@.take(i as int)),
        decreases v.len() - i,
    {
        let c = v[i];
        proof {
            assert(v@.take(i + 1).drop_last() == v@.take(i as int));
            lemma_tokens_are_words(v@.take(i as int));
        }
        let ghost before = texts(words@);
        if is_whitespace(c) {
            if word.len() > 0 {
                let ghost done = word@;
                words.push(word);
                word = Vec::new();
                assert(texts(words@) == before.push(done));
            }
        } else {
            let ghost open = word@;
            word.push(c);
            proof {
                if open.len() > 0 {
                    assert(before.push(open).drop_last() == before);
                } else {
                    assert(word@ == seq![c]);
                }
            }
        }
        i += 1;
    }
    assert(v@.take(v.len() as int) == v@);
    if word.len() > 0 {
        let ghost before = texts(words@);
        let ghost done = word@;
        words.push(word);
        assert(texts(words@) == before.push(done));
    }
    words
}

/// The character that writes the digit `d`.
pub open spec fn digit_char(d: nat) -> char
    recommends
        d < 10,
{
    ((0x30 + d) as u8) as char
}

/// `n` written in decimal, without leading zeros.
pub open spec fn decimal(n: nat) -> Seq<char>
    decreases n,
{
    if n < 10 {
        seq![digit_char(n)]
    } else {
        decimal(n / 10).push(digit_char(n % 10))
    }
}

/// `n` written in decimal, with `-` before a negative number.
pub open spec fn signed_text(n: int) -> Seq<char> {
    if n < 0 {
        seq!['-'] + decimal((-n) as nat)
    } else {
        decimal(n as nat)
    }
}

/// `n` written in decimal with at least two digits.
pub open spec fn two_digits(n: nat) -> Seq<char> {
    if n < 10 {
        seq!['0'] + decimal(n)
    } else {
        decimal(n)
    }
}

/// A run of `n` spaces.
pub open spec fn spaces(n: nat) -> Seq<char> {
    Seq::new(n, |i: int| ' ')
}

/// `s`, followed by as many spaces as it lacks to `width` characters.
pub open spec fn padded(s: Seq<char>, width: nat) -> Seq<char> {
    if s.len() < width {
        s + spaces((width - s.len()) as nat)
    } else {
        s
    }
}

/// `s` without the characters `c` at its end.
pub open spec fn trimmed_end(s: Seq<char>, c: char) -> Seq<char>
    decreases s.len(),
{
    if s.len() > 0 && s.last() == c {
        trimmed_end(s.drop_last(), c)
    } else {
        s
    }
}

/// What is written in decimal reads back as the number it was written for.
pub proof fn law_decimal_reads_back(n: nat)
    ensures
        decimal(n).len() > 0,
        all_digits(decimal(n)),
        digits_value(decimal(n)) == n,
        unsigned_decimal(decimal(n)) == Some(n),
    decreases n,
{
    let last = digit_char(n % 10);
    assert(last as u32 == 0x30 + n % 10);
    assert(spec_is_digit(last) && digit_value(last) == n % 10);
    if n < 10 {
        assert(decimal(n).drop_last() == Seq::<char>::empty());
        assert(digits_value(decimal(n).drop_last()) == 0);
    } else {
        law_decimal_reads_back(n / 10);
        let head = decimal(n / 10);
        let whole = head.push(digit_char(n % 10));
        assert(whole.drop_last() == head);
        assert forall|i: int| 0 <= i < whole.len() implies spec_is_digit(#[trigger] whole[i]) by {
            if i < head.len() {
                assert(whole[i] == head[i]);
            }
        }
    }
    assert(decimal(n)[0] != '+');
}

/// Appends the decimal digits of `n`.
pub fn push_decimal(out: &mut Vec<char>, n: u64)
    ensures
        final(out)@ == old(out)@ + decimal(n as nat),
    decreases n,
{
    if n >= 10 {
        push_decimal(out, n / 10);
    }
    let d: u8 = (n % 10) as u8;
    out.push((0x30 + d) as char);
}

/// Appends `n` in decimal, with its sign where it is negative.
pub fn push_signed(out: &mut Vec<char>, n: i64)
    ensures
        final(out)@ == old(out)@ + signed_text(n as int),
{
    if n < 0 {
        out.push('-');
        let magnitude: u64 = if n == i64::MIN {
            0x8000_0000_0000_0000
        } else {
            (-n) as u64
        };
        push_decimal(out, magnitude);
        assert(out@ == old(out)@ + (seq!['-'] + decimal((-n) as nat)));
    } else {
        push_decimal(out, n as u64);
    }
}

/// Appends `n` in decimal with at least two digits.
pub fn push_two_digits(out: &mut Vec<char>, n: u64)
    ensures
        final(out)@ == old(out)@ + two_digits(n as nat),
{
    if n < 10 {
        out.push('0');
        push_decimal(out, n);
        assert(out@ == old(out)@ + (seq!['0'] + decimal(n as nat)));
    } else {
        push_decimal(out, n);
    }
}

/// Appends the characters of `more`.
pub fn push_all(out: &mut Vec<char>, more: &Vec<char>)
    ensures
        final(out)@ == old(out)@ + more@,
{
    let mut i: usize = 0;
    while i < more.len()
        invariant
            i <= more.len(),
            out@ == old(out)@ + more@.take(i as int),
        decreases more.len() - i,
    {
        out.push(more[i]);
        assert(more@.take(i + 1) == more@.take(i as int).push(more@[i as int]));
        i += 1;
    }
    assert(more@.take(more.len() as int) == more@);
}

/// Appends the characters of `more`.
pub fn push_str(out: &mut Vec<char>, more: &str)
    ensures
        final(out)@ == old(out)@ + more@,
{
    let chars = chars_of(more);
    push_all(out, &chars);
}

/// Appends `more`, then spaces up to `width` characters in all.
pub fn push_padded(out: &mut Vec<char>, more: &Vec<char>, width: usize)
    ensures
        final(out)@ == old(out)@ + padded(more@, width as nat),
{
    push_all(out, more);
    let mut n: usize = more.len();
    assert(more@ + spaces(0) == more@);
    while n < width
        invariant
            more.len() <= n,
            more.len() < width ==> n <= width,
            more.len() >= width ==> n == more.len(),
            out@ == old(out)@ + (more@ + spaces((n - more.len()) as nat)),
        decreases width - n,
    {
        out.push(' ');
        assert(spaces((n + 1 - more.len()) as nat) == spaces((n - more.len()) as nat).push(' '));
        n += 1;
    }
    assert(more@ + spaces(0) == more@);
}

/// The number of characters of `v` that remain when the characters `c` at its
/// end are left out.
pub fn trimmed_len(v: &Vec<char>, c: char) -> (n: usize)
    ensures
        n <= v.len(),
        v@.take(n as int) == trimmed_end(v@, c),
{
    let mut n: usize = v.len();
    assert(v@.take(n as int) == v@);
    while n > 0 && v[n - 1] == c
        invariant
            n <= v.len(),
            trimmed_end(v@.take(n as int), c) == trimmed_end(v@, c),
        decreases n,
    {
        assert(v@.take(n as int).drop_last() == v@.take(n - 1));
        n -= 1;
    }
    n
}

/// Whether `v` begins with the characters of `prefix`.
pub fn starts_with(v: &Vec<char>, prefix: &Vec<char>) -> (r: bool)
    ensures
        r == prefix@.is_prefix_of(v@),
{
    if prefix.len() > v.len() {
        return false;
    }
    let mut i: usize = 0;
    while i < prefix.len()
        invariant
            i <= prefix.len() <= v.len(),
            forall|j: int| 0 <= j < i ==> prefix@[j] == v@[j],
        decreases prefix.len() - i,
    {
        if prefix[i] != v[i] {
            return false;
        }
        i += 1;
    }
    assert(prefix@ == v@.subrange(0, prefix.len() as int));
    true
}

/// The characters of `v` from position `from` on.
pub fn tail_of(v: &Vec<char>, from: usize) -> (r: Vec<char>)
    requires
        from <= v.len(),
    ensures
        r@ == v@.skip(from as int),
{
    let mut r: Vec<char> = Vec::new();
    let mut i: usize = from;
    while i < v.len()
        invariant
            from <= i <= v.len(),
            r@ == v@.subrange(from as int, i as int),
        decreases v.len() - i,
    {
        r.push(v[i]);
        i += 1;
    }
    r
}

} // verus!
