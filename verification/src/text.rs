//! Character-sequence helpers shared by the other modules: comparison,
//! prefix and substring search, ASCII case folding, and decimal number
//! parsing and printing, each stated over `Seq<char>`.

use vstd::prelude::*;
use vstd::string::*;

verus! {

// ---------------------------------------------------------------------------
// Specifications
// ---------------------------------------------------------------------------

/// `p` is a prefix of `s`.
pub open spec fn seq_starts_with(s: Seq<char>, p: Seq<char>) -> bool {
    p.len() <= s.len() && s.subrange(0, p.len() as int) == p
}

/// `p` occurs in `s` starting at position `i`.
pub open spec fn occurs_at(s: Seq<char>, p: Seq<char>, i: int) -> bool {
    0 <= i && i + p.len() <= s.len() && s.subrange(i, i + p.len()) == p
}

/// `p` occurs somewhere in `s` (the empty sequence occurs everywhere).
pub open spec fn seq_contains(s: Seq<char>, p: Seq<char>) -> bool {
    exists|i: int| occurs_at(s, p, i)
}

/// ASCII lower-casing of one character; every other character is kept.
pub open spec fn ascii_lower(c: char) -> char {
    if 'A' <= c && c <= 'Z' {
        ((c as int) + 32) as char
    } else {
        c
    }
}

/// `s` equals `w` when ASCII letters are compared without regard to case.
pub open spec fn eq_ignore_ascii_case_spec(s: Seq<char>, w: Seq<char>) -> bool {
    s.len() == w.len() && forall|i: int| 0 <= i < s.len() ==> ascii_lower(s[i]) == ascii_lower(w[i])
}

pub open spec fn is_ascii_digit(c: char) -> bool {
    '0' <= c && c <= '9'
}

pub open spec fn all_digits(s: Seq<char>) -> bool {
    forall|i: int| 0 <= i < s.len() ==> is_ascii_digit(#[trigger] s[i])
}

pub open spec fn digit_value(c: char) -> nat {
    ((c as int) - ('0' as int)) as nat
}

/// The number that a string of decimal digits denotes.
pub open spec fn digits_value(s: Seq<char>) -> nat
    decreases s.len(),
{
    if s.len() == 0 {
        0
    } else {
        digits_value(s.drop_last()) * 10 + digit_value(s.last())
    }
}

/// The digits that unsigned `from_str` reads: one optional leading `+`.
pub open spec fn unsigned_body(s: Seq<char>) -> Seq<char> {
    if s.len() > 0 && s[0] == '+' {
        s.drop_first()
    } else {
        s
    }
}

/// Unsigned decimal parsing as std's `from_str` for an integer type whose
/// largest value is `max`: an optional `+`, then at least one ASCII digit and
/// nothing else, denoting a value no larger than `max`.
pub open spec fn parse_unsigned(s: Seq<char>, max: nat) -> Option<nat> {
    let b = unsigned_body(s);
    if b.len() > 0 && all_digits(b) && digits_value(b) <= max {
        Some(digits_value(b))
    } else {
        None
    }
}

pub open spec fn digit_char(d: nat) -> char {
    ((d as int) + ('0' as int)) as char
}

/// Shortest decimal rendering of a natural number.
pub open spec fn decimal(n: nat) -> Seq<char>
    decreases n,
{
    if n < 10 {
        seq![digit_char(n)]
    } else {
        decimal(n / 10).push(digit_char(n % 10))
    }
}

/// Decimal rendering of an integer, with a leading `-` when negative.
pub open spec fn signed_decimal(i: int) -> Seq<char> {
    if i < 0 {
        seq!['-'] + decimal((-i) as nat)
    } else {
        decimal(i as nat)
    }
}

// ---------------------------------------------------------------------------
// Lemmas
// ---------------------------------------------------------------------------

pub proof fn lemma_digits_value_step(s: Seq<char>, i: int)
    requires
        0 <= i < s.len(),
    ensures
        digits_value(s.subrange(0, i + 1)) == digits_value(s.subrange(0, i)) * 10 + digit_value(
            s[i],
        ),
{
    assert(s.subrange(0, i + 1).drop_last() =~= s.subrange(0, i));
}

// ---------------------------------------------------------------------------
// Trusted std calls
// ---------------------------------------------------------------------------

/// `String::push`: appends one character at the end.
#[verifier::external_body]
pub(crate) fn push_char(s: &mut String, c: char)
    ensures
        final(s)@ == old(s)@.push(c),
{
    s.push(c);
}

/// `String::push_str`: appends a string slice at the end.
#[verifier::external_body]
pub(crate) fn push_str(s: &mut String, t: &str)
    ensures
        final(s)@ == old(s)@ + t@,
{
    s.push_str(t);
}

// ---------------------------------------------------------------------------
// Executable helpers
// ---------------------------------------------------------------------------

/// An owned copy of a string slice.
pub fn owned(s: &str) -> (r: String)
    ensures
        r@ == s@,
{
    s.to_owned()
}

/// Character-wise equality of two string slices.
pub fn str_eq(a: &str, b: &str) -> (r: bool)
    ensures
        r == (a@ == b@),
{
    let n = a.unicode_len();
    if n != b.unicode_len() {
        return false;
    }
    let mut i: usize = 0;
    while i < n
        invariant
            n == a@.len(),
            n == b@.len(),
            i <= n,
            forall|j: int| 0 <= j < i ==> a@[j] == b@[j],
        decreases n - i,
    {
        if a.get_char(i) != b.get_char(i) {
            return false;
        }
        i = i + 1;
    }
    assert(a@ =~= b@);
    true
}

/// Whether `s` begins with `p`.
pub fn starts_with(s: &str, p: &str) -> (r: bool)
    ensures
        r == seq_starts_with(s@, p@),
{
    let n = s.unicode_len();
    let m = p.unicode_len();
    if m > n {
        return false;
    }
    let mut i: usize = 0;
    while i < m
        invariant
            n == s@.len(),
            m == p@.len(),
            m <= n,
            i <= m,
            forall|j: int| 0 <= j < i ==> s@[j] == p@[j],
        decreases m - i,
    {
        if s.get_char(i) != p.get_char(i) {
            assert(s@.subrange(0, m as int)[i as int] != p@[i as int]);
            return false;
        }
        i = i + 1;
    }
    assert(s@.subrange(0, m as int) =~= p@);
    true
}

/// Whether `p` occurs at position `at` of `s`.
fn occurs_at_exec(s: &str, p: &str, at: usize, n: usize, m: usize) -> (r: bool)
    requires
        n == s@.len(),
        m == p@.len(),
        at + m <= n,
    ensures
        r == occurs_at(s@, p@, at as int),
{
    let mut j: usize = 0;
    while j < m
        invariant
            n == s@.len(),
            m == p@.len(),
            at + m <= n,
            j <= m,
            forall|k: int| 0 <= k < j ==> s@[at + k] == p@[k],
        decreases m - j,
    {
        if s.get_char(at + j) != p.get_char(j) {
            assert(s@.subrange(at as int, at + m)[j as int] != p@[j as int]);
            return false;
        }
        j = j + 1;
    }
    assert(s@.subrange(at as int, at + m) =~= p@);
    true
}

/// Whether `p` occurs anywhere in `s`.
pub fn contains(s: &str, p: &str) -> (r: bool)
    ensures
        r == seq_contains(s@, p@),
{
    let n = s.unicode_len();
    let m = p.unicode_len();
    if m > n {
        assert forall|i: int| !occurs_at(s@, p@, i) by {}
        return false;
    }
    let last = n - m;
    let mut at: usize = 0;
    loop
        invariant
            n == s@.len(),
            m == p@.len(),
            m <= n,
            last == n - m,
            at <= last,
            forall|i: int| 0 <= i < at ==> !occurs_at(s@, p@, i),
        ensures
            at == last,
            forall|i: int| 0 <= i <= at ==> !occurs_at(s@, p@, i),
        decreases last - at,
    {
        if occurs_at_exec(s, p, at, n, m) {
            return true;
        }
        if at == last {
            break;
        }
        at = at + 1;
    }
    assert forall|i: int| !occurs_at(s@, p@, i) by {
        if 0 <= i && i + m <= n {
            assert(i <= at);
        }
    }
    false
}

/// Equality of `s` and `w` ignoring the case of ASCII letters.
pub fn eq_ignore_ascii_case(s: &str, w: &str) -> (r: bool)
    ensures
        r == eq_ignore_ascii_case_spec(s@, w@),
{
    let n = s.unicode_len();
    if n != w.unicode_len() {
        return false;
    }
    let mut i: usize = 0;
    while i < n
        invariant
            n == s@.len(),
            n == w@.len(),
            i <= n,
            forall|j: int| 0 <= j < i ==> ascii_lower(s@[j]) == ascii_lower(w@[j]),
        decreases n - i,
    {
        let a = lower_char(s.get_char(i));
        let b = lower_char(w.get_char(i));
        if a != b {
            return false;
        }
        i = i + 1;
    }
    true
}

fn lower_char(c: char) -> (r: char)
    ensures
        r == ascii_lower(c),
{
    if 'A' <= c && c <= 'Z' {
        let v: u8 = ((c as u32) + 32) as u8;
        v as char
    } else {
        c
    }
}

/// Parses an unsigned decimal number no larger than `max`, as std's
/// `from_str` does for the integer type whose largest value is `max`.
pub fn parse_unsigned_bounded(s: &str, max: u64) -> (r: Option<u64>)
    ensures
        match parse_unsigned(s@, max as nat) {
            Some(v) => r == Some(v as u64),
            None => r is None,
        },
{
    let n = s.unicode_len();
    let mut start: usize = 0;
    if n > 0 && s.get_char(0) == '+' {
        start = 1;
    }
    let ghost b = unsigned_body(s@);
    assert(b =~= s@.subrange(start as int, n as int));
    if start >= n {
        return None;
    }
    let mut i: usize = start;
    let mut acc: u64 = 0;
    let mut too_big = false;
    while i < n
        invariant
            n == s@.len(),
            start <= i <= n,
            b == unsigned_body(s@),
            b =~= s@.subrange(start as int, n as int),
            all_digits(b.subrange(0, i - start)),
            !too_big ==> acc as nat == digits_value(b.subrange(0, i - start)) && acc <= max,
            too_big ==> digits_value(b.subrange(0, i - start)) > max,
        decreases n - i,
    {
        let c = s.get_char(i);
        proof {
            assert(b[i - start] == c);
        }
        if !('0' <= c && c <= '9') {
            assert(!all_digits(b));
            return None;
        }
        proof {
            lemma_digits_value_step(b, i - start);
            assert(b.subrange(0, i - start + 1) =~= b.subrange(0, i - start).push(c));
        }
        if !too_big {
            let d = (c as u32 - '0' as u32) as u64;
            match acc.checked_mul(10) {
                Some(t) => match t.checked_add(d) {
                    Some(v) => {
                        if v <= max {
                            acc = v;
                        } else {
                            too_big = true;
                        }
                    },
                    None => {
                        too_big = true;
                    },
                },
                None => {
                    too_big = true;
                },
            }
        }
        i = i + 1;
    }
    assert(b.subrange(0, n - start) =~= b);
    if too_big {
        None
    } else {
        Some(acc)
    }
}

/// Appends the decimal rendering of `n`.
pub fn push_decimal(s: &mut String, n: u64)
    ensures
        final(s)@ == old(s)@ + decimal(n as nat),
    decreases n,
{
    if n >= 10 {
        push_decimal(s, n / 10);
    }
    let d = (n % 10) as u8;
    let c = (d + 48) as char;
    proof {
        assert(c == digit_char((n % 10) as nat));
    }
    push_char(s, c);
    proof {
        if n >= 10 {
            assert(decimal(n as nat) == decimal((n / 10) as nat).push(digit_char((n % 10) as nat)));
        }
    }
}

/// The decimal rendering of `n`.
pub fn u64_to_decimal(n: u64) -> (r: String)
    ensures
        r@ == decimal(n as nat),
{
    let mut s = String::new();
    push_decimal(&mut s, n);
    assert(s@ =~= decimal(n as nat));
    s
}

/// Appends the decimal rendering of a signed number.
pub fn push_signed_decimal(s: &mut String, n: i64)
    ensures
        final(s)@ == old(s)@ + signed_decimal(n as int),
{
    if n < 0 {
        push_char(s, '-');
        let m = (0i128 - n as i128) as u64;
        push_decimal(s, m);
        assert(final(s)@ =~= old(s)@ + signed_decimal(n as int));
    } else {
        push_decimal(s, n as u64);
    }
}

// ---------------------------------------------------------------------------
// Lines, whitespace and tokens
// ---------------------------------------------------------------------------

/// The characters with the Unicode `White_Space` property, which is what
/// `char::is_whitespace` tests.
pub open spec fn is_white_space(c: char) -> bool {
    ('\u{9}' <= c && c <= '\u{d}') || c == ' ' || c == '\u{85}' || c == '\u{a0}' || c
        == '\u{1680}' || ('\u{2000}' <= c && c <= '\u{200a}') || c == '\u{2028}' || c
        == '\u{2029}' || c == '\u{202f}' || c == '\u{205f}' || c == '\u{3000}'
}

/// Whether `c` has the Unicode `White_Space` property.
pub fn white_space(c: char) -> (r: bool)
    ensures
        r == is_white_space(c),
{
    ('\u{9}' <= c && c <= '\u{d}') || c == ' ' || c == '\u{85}' || c == '\u{a0}' || c
        == '\u{1680}' || ('\u{2000}' <= c && c <= '\u{200a}') || c == '\u{2028}' || c
        == '\u{2029}' || c == '\u{202f}' || c == '\u{205f}' || c == '\u{3000}'
}

/// The characters of `s` from position `a` up to, not including, `b`.
pub fn sub_text(s: &str, a: usize, b: usize) -> (r: String)
    requires
        a <= b <= s@.len(),
    ensures
        r@ == s@.subrange(a as int, b as int),
{
    let mut r = String::new();
    let mut i: usize = a;
    while i < b
        invariant
            a <= i <= b,
            b <= s@.len(),
            r@ == s@.subrange(a as int, i as int),
        decreases b - i,
    {
        push_char(&mut r, s.get_char(i));
        i = i + 1;
        assert(r@ =~= s@.subrange(a as int, i as int));
    }
    r
}

/// `t` without one trailing carriage return.
pub open spec fn strip_cr(t: Seq<char>) -> Seq<char> {
    if t.len() > 0 && t.last() == '\r' {
        t.drop_last()
    } else {
        t
    }
}

/// The lines of `s` scanning from `i`, the current line starting at
/// `start`.
pub open spec fn lines_from(s: Seq<char>, start: int, i: int) -> Seq<Seq<char>>
    decreases s.len() - i,
{
    if i >= s.len() {
        if start < s.len() {
            seq![s.subrange(start, s.len() as int)]
        } else {
            Seq::empty()
        }
    } else if s[i] == '\n' {
        seq![strip_cr(s.subrange(start, i))] + lines_from(s, i + 1, i + 1)
    } else {
        lines_from(s, start, i + 1)
    }
}

/// The lines of `s` as `str::lines` yields them: split at each line feed,
/// a carriage return just before the line feed dropped, and no empty line
/// after a final line feed.
pub open spec fn lines_of(s: Seq<char>) -> Seq<Seq<char>> {
    lines_from(s, 0, 0)
}

/// The lines of `s`.
pub fn split_lines(s: &str) -> (r: Vec<String>)
    ensures
        r@.map_values(|t: String| t@) == lines_of(s@),
{
    let n = s.unicode_len();
    let mut done: Vec<String> = Vec::new();
    let mut start: usize = 0;
    let mut i: usize = 0;
    while i < n
        invariant
            n == s@.len(),
            start <= i <= n,
            done@.map_values(|t: String| t@) + lines_from(s@, start as int, i as int) == lines_of(
                s@,
            ),
        decreases n - i,
    {
        if s.get_char(i) == '\n' {
            let line = if i > start && s.get_char(i - 1) == '\r' {
                sub_text(s, start, i - 1)
            } else {
                sub_text(s, start, i)
            };
            proof {
                assert(line@ =~= strip_cr(s@.subrange(start as int, i as int)));
                let before = done@.map_values(|t: String| t@);
                assert(before.push(line@) + lines_from(s@, i + 1, i + 1) =~= before + (seq![line@]
                    + lines_from(s@, i + 1, i + 1)));
            }
            done.push(line);
            start = i + 1;
        }
        i = i + 1;
    }
    if start < n {
        let line = sub_text(s, start, n);
        proof {
            let before = done@.map_values(|t: String| t@);
            assert(before.push(line@) =~= before + seq![line@]);
        }
        done.push(line);
    } else {
        assert(done@.map_values(|t: String| t@) + Seq::<Seq<char>>::empty() =~= done@.map_values(
            |t: String| t@,
        ));
    }
    done
}

/// The whitespace-separated tokens of `s` scanning from `i`, the current
/// token starting at `start`.
pub open spec fn tokens_from(s: Seq<char>, start: int, i: int) -> Seq<Seq<char>>
    decreases s.len() - i,
{
    if i >= s.len() {
        if start < s.len() {
            seq![s.subrange(start, s.len() as int)]
        } else {
            Seq::empty()
        }
    } else if is_white_space(s[i]) {
        (if start < i {
            seq![s.subrange(start, i)]
        } else {
            Seq::empty()
        }) + tokens_from(s, i + 1, i + 1)
    } else {
        tokens_from(s, start, i + 1)
    }
}

/// The tokens of `s` as `str::split_whitespace` yields them.
pub open spec fn tokens_of(s: Seq<char>) -> Seq<Seq<char>> {
    tokens_from(s, 0, 0)
}

/// The whitespace-separated tokens of `s`.
pub fn split_tokens(s: &str) -> (r: Vec<String>)
    ensures
        r@.map_values(|t: String| t@) == tokens_of(s@),
{
    let n = s.unicode_len();
    let mut done: Vec<String> = Vec::new();
    let mut start: usize = 0;
    let mut i: usize = 0;
    while i < n
        invariant
            n == s@.len(),
            start <= i <= n,
            done@.map_values(|t: String| t@) + tokens_from(s@, start as int, i as int)
                == tokens_of(s@),
        decreases n - i,
    {
        if white_space(s.get_char(i)) {
            if start < i {
                let tok = sub_text(s, start, i);
                proof {
                    let before = done@.map_values(|t: String| t@);
                    assert(before.push(tok@) + tokens_from(s@, i + 1, i + 1) =~= before + (seq![
                        tok@,
                    ] + tokens_from(s@, i + 1, i + 1)));
                }
                done.push(tok);
            } else {
                proof {
                    let before = done@.map_values(|t: String| t@);
                    assert(before + tokens_from(s@, i + 1, i + 1) =~= before + (Seq::empty()
                        + tokens_from(s@, i + 1, i + 1)));
                }
            }
            start = i + 1;
        }
        i = i + 1;
    }
    if start < n {
        let tok = sub_text(s, start, n);
        proof {
            let before = done@.map_values(|t: String| t@);
            assert(before.push(tok@) =~= before + seq![tok@]);
        }
        done.push(tok);
    } else {
        assert(done@.map_values(|t: String| t@) + Seq::<Seq<char>>::empty() =~= done@.map_values(
            |t: String| t@,
        ));
    }
    done
}

/// `s` without leading whitespace.
pub open spec fn trim_start_spec(s: Seq<char>) -> Seq<char>
    decreases s.len(),
{
    if s.len() > 0 && is_white_space(s[0]) {
        trim_start_spec(s.drop_first())
    } else {
        s
    }
}

/// `s` without trailing whitespace.
pub open spec fn trim_end_spec(s: Seq<char>) -> Seq<char>
    decreases s.len(),
{
    if s.len() > 0 && is_white_space(s.last()) {
        trim_end_spec(s.drop_last())
    } else {
        s
    }
}

/// `s` without leading and trailing whitespace, as `str::trim` gives it.
pub open spec fn trim_spec(s: Seq<char>) -> Seq<char> {
    trim_end_spec(trim_start_spec(s))
}

/// `s` without leading and trailing whitespace.
pub fn trim_text(s: &str) -> (r: String)
    ensures
        r@ == trim_spec(s@),
{
    let n = s.unicode_len();
    let mut a: usize = 0;
    assert(s@.subrange(0, n as int) =~= s@);
    while a < n && white_space(s.get_char(a))
        invariant
            n == s@.len(),
            a <= n,
            trim_start_spec(s@) == trim_start_spec(s@.subrange(a as int, n as int)),
        decreases n - a,
    {
        assert(s@.subrange(a as int, n as int).drop_first() =~= s@.subrange(a + 1, n as int));
        a = a + 1;
    }
    let ghost t = s@.subrange(a as int, n as int);
    assert(trim_start_spec(s@) == t);
    let mut b: usize = n;
    while b > a && white_space(s.get_char(b - 1))
        invariant
            n == s@.len(),
            a <= b <= n,
            t == s@.subrange(a as int, n as int),
            trim_end_spec(t) == trim_end_spec(s@.subrange(a as int, b as int)),
        decreases b - a,
    {
        assert(s@.subrange(a as int, b as int).drop_last() =~= s@.subrange(a as int, b - 1));
        b = b - 1;
    }
    sub_text(s, a, b)
}

} // verus!
