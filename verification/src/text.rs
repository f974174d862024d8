//! Character-level helpers shared by the parsers and formatters of this crate.
//!
//! The functions here work on the characters of a string (`Seq<char>` in specifications)
//! and follow the behaviour of the corresponding operations of Rust's `str`: whitespace is
//! Unicode `White_Space` as `char::is_whitespace` defines it, integers are read as
//! `str::parse::<i32>` reads them and written as `i32`'s `Display` writes them.

use vstd::prelude::*;

verus! {

/// Appends a character to a string.
///
/// Calls `String::push`, which the standard library documents as appending the given
/// `char` to the end of the string; the contract claims exactly that.
#[verifier::external_body]
pub(crate) fn push_char(s: &mut String, c: char)
    ensures
        final(s)@ == old(s)@.push(c),
{
    s.push(c);
}

/// The characters of `s`, in order.
pub fn chars_of(s: &str) -> (r: Vec<char>)
    ensures
        r@ == s@,
{
    let mut r: Vec<char> = Vec::new();
    for c in it: s.chars()
        invariant
            r@ == it.seq().take(it.index() as int),
    {
        r.push(c);
    }
    r
}

/// A string holding the characters of `cs`, in order.
pub fn string_of(cs: &[char]) -> (r: String)
    ensures
        r@ == cs@,
{
    let mut r = String::new();
    let mut i: usize = 0;
    while i < cs.len()
        invariant
            i <= cs@.len(),
            r@ == cs@.take(i as int),
        decreases cs@.len() - i,
    {
        push_char(&mut r, cs[i]);
        assert(cs@.take(i as int).push(cs@[i as int]) =~= cs@.take(i + 1));
        i = i + 1;
    }
    assert(cs@.take(cs@.len() as int) =~= cs@);
    r
}

/// A string holding the characters of `a` followed by those of `b`.
pub fn concat_str(a: &str, b: &str) -> (r: String)
    ensures
        r@ == a@ + b@,
{
    let mut r = String::new();
    push_str(&mut r, a);
    push_str(&mut r, b);
    assert(Seq::<char>::empty() + a@ + b@ =~= a@ + b@);
    r
}

/// Appends every character of `t` to `s`.
pub fn push_str(s: &mut String, t: &str)
    ensures
        final(s)@ == old(s)@ + t@,
{
    let cs = chars_of(t);
    let mut i: usize = 0;
    while i < cs.len()
        invariant
            i <= cs@.len(),
            cs@ == t@,
            s@ == old(s)@ + cs@.take(i as int),
        decreases cs@.len() - i,
    {
        push_char(s, cs[i]);
        assert(old(s)@ + cs@.take(i as int) + seq![cs@[i as int]] =~= old(s)@ + cs@.take(i + 1));
        i = i + 1;
    }
    assert(cs@.take(cs@.len() as int) =~= cs@);
}

// ---------------------------------------------------------------------------------------
// Whitespace

/// Unicode `White_Space`, the set of characters for which `char::is_whitespace` holds.
pub open spec fn is_white(c: char) -> bool {
    let u = c as u32;
    ||| 0x09 <= u <= 0x0D
    ||| u == 0x20
    ||| u == 0x85
    ||| u == 0xA0
    ||| u == 0x1680
    ||| 0x2000 <= u <= 0x200A
    ||| u == 0x2028
    ||| u == 0x2029
    ||| u == 0x202F
    ||| u == 0x205F
    ||| u == 0x3000
}

/// Whether `c` is whitespace.
pub fn is_whitespace(c: char) -> (r: bool)
    ensures
        r == is_white(c),
{
    let u: u32 = c as u32;
    (0x09 <= u && u <= 0x0D) || u == 0x20 || u == 0x85 || u == 0xA0 || u == 0x1680 || (0x2000
        <= u && u <= 0x200A) || u == 0x2028 || u == 0x2029 || u == 0x202F || u == 0x205F || u
        == 0x3000
}

/// `s` without its leading whitespace.
pub open spec fn trim_start(s: Seq<char>) -> Seq<char>
    decreases s.len(),
{
    if s.len() > 0 && is_white(s[0]) {
        trim_start(s.drop_first())
    } else {
        s
    }
}

/// `s` without its trailing whitespace.
pub open spec fn trim_end(s: Seq<char>) -> Seq<char>
    decreases s.len(),
{
    if s.len() > 0 && is_white(s.last()) {
        trim_end(s.drop_last())
    } else {
        s
    }
}

/// `s` without its leading and trailing whitespace, as `str::trim` gives it.
pub open spec fn trim(s: Seq<char>) -> Seq<char> {
    trim_end(trim_start(s))
}

proof fn lemma_trim_start_at(s: Seq<char>, a: int)
    requires
        0 <= a <= s.len(),
        forall|i: int| 0 <= i < a ==> is_white(#[trigger] s[i]),
        a == s.len() || !is_white(s[a]),
    ensures
        trim_start(s) == s.skip(a),
    decreases a,
{
    if a == 0 {
        assert(s.skip(0) =~= s);
    } else {
        let t = s.drop_first();
        assert forall|i: int| 0 <= i < a - 1 implies is_white(#[trigger] t[i]) by {
            assert(t[i] == s[i + 1]);
        }
        lemma_trim_start_at(t, a - 1);
        assert(t.skip(a - 1) =~= s.skip(a));
    }
}

proof fn lemma_trim_end_at(s: Seq<char>, b: int)
    requires
        0 <= b <= s.len(),
        forall|i: int| b <= i < s.len() ==> is_white(#[trigger] s[i]),
        b == 0 || !is_white(s[b - 1]),
    ensures
        trim_end(s) == s.take(b),
    decreases s.len() - b,
{
    if b == s.len() {
        assert(s.take(b) =~= s);
    } else {
        let t = s.drop_last();
        assert forall|i: int| b <= i < t.len() implies is_white(#[trigger] t[i]) by {
            assert(t[i] == s[i]);
        }
        lemma_trim_end_at(t, b);
        assert(t.take(b) =~= s.take(b));
    }
}

/// The characters of `s` without leading and trailing whitespace (`str::trim`).
pub fn trim_chars(s: &[char]) -> (r: Vec<char>)
    ensures
        r@ == trim(s@),
{
    let n: usize = s.len();
    let mut a: usize = 0;
    while a < n && is_whitespace(s[a])
        invariant
            a <= n,
            n == s@.len(),
            forall|i: int| 0 <= i < a ==> is_white(#[trigger] s@[i]),
        decreases n - a,
    {
        a = a + 1;
    }
    proof {
        lemma_trim_start_at(s@, a as int);
    }
    let ghost t = s@.skip(a as int);
    let mut b: usize = n;
    while b > a && is_whitespace(s[b - 1])
        invariant
            a <= b <= n,
            n == s@.len(),
            forall|i: int| b <= i < n ==> is_white(#[trigger] s@[i]),
        decreases b,
    {
        b = b - 1;
    }
    proof {
        let tb = (b - a) as int;
        assert forall|i: int| tb <= i < t.len() implies is_white(#[trigger] t[i]) by {
            assert(t[i] == s@[i + a]);
        }
        if tb > 0 {
            assert(t[tb - 1] == s@[b - 1]);
        }
        lemma_trim_end_at(t, tb);
    }
    let mut r: Vec<char> = Vec::new();
    let mut i: usize = a;
    while i < b
        invariant
            a <= i <= b <= n,
            n == s@.len(),
            r@ == s@.subrange(a as int, i as int),
        decreases b - i,
    {
        r.push(s[i]);
        assert(s@.subrange(a as int, i as int).push(s@[i as int]) =~= s@.subrange(
            a as int,
            i + 1,
        ));
        i = i + 1;
    }
    assert(s@.subrange(a as int, b as int) =~= t.take(b - a));
    r
}

// ---------------------------------------------------------------------------------------
// Splitting

/// The pieces of `s` between occurrences of `sep`, as `str::split` with a `char` pattern
/// gives them: always at least one piece, empty pieces included.
pub open spec fn split(s: Seq<char>, sep: char) -> Seq<Seq<char>> {
    split_from(s, sep, Seq::empty())
}

/// The pieces of `cur + s` between occurrences of `sep`, where `cur` holds no `sep`.
pub open spec fn split_from(s: Seq<char>, sep: char, cur: Seq<char>) -> Seq<Seq<char>>
    decreases s.len(),
{
    if s.len() == 0 {
        seq![cur]
    } else if s[0] == sep {
        seq![cur] + split_from(s.drop_first(), sep, Seq::empty())
    } else {
        split_from(s.drop_first(), sep, cur.push(s[0]))
    }
}

/// The maximal runs of non-whitespace characters of `s`, in order (`str::split_whitespace`).
pub open spec fn words(s: Seq<char>) -> Seq<Seq<char>> {
    words_from(s, Seq::empty())
}

/// The maximal runs of non-whitespace characters of `cur + s`, where `cur` holds no
/// whitespace.
pub open spec fn words_from(s: Seq<char>, cur: Seq<char>) -> Seq<Seq<char>>
    decreases s.len(),
{
    let done: Seq<Seq<char>> = if cur.len() > 0 {
        seq![cur]
    } else {
        Seq::empty()
    };
    if s.len() == 0 {
        done
    } else if is_white(s[0]) {
        done + words_from(s.drop_first(), Seq::empty())
    } else {
        words_from(s.drop_first(), cur.push(s[0]))
    }
}

/// Splits `s` at every occurrence of `sep`.
pub fn split_chars(s: &[char], sep: char) -> (r: Vec<Vec<char>>)
    ensures
        r@.map_values(|v: Vec<char>| v@) == split(s@, sep),
{
    let mut out: Vec<Vec<char>> = Vec::new();
    let mut cur: Vec<char> = Vec::new();
    let mut i: usize = 0;
    assert(s@.skip(0) =~= s@);
    assert(out@.map_values(|v: Vec<char>| v@) + split(s@, sep) =~= split(s@, sep));
    while i < s.len()
        invariant
            i <= s@.len(),
            split(s@, sep) == out@.map_values(|v: Vec<char>| v@) + split_from(
                s@.skip(i as int),
                sep,
                cur@,
            ),
        decreases s@.len() - i,
    {
        let ghost rest = s@.skip(i as int);
        assert(rest.drop_first() =~= s@.skip(i + 1));
        let ghost pre = out@.map_values(|v: Vec<char>| v@);
        if s[i] == sep {
            let piece = cur;
            cur = Vec::new();
            proof {
                assert(split_from(rest, sep, piece@) == seq![piece@] + split_from(
                    rest.drop_first(),
                    sep,
                    Seq::empty(),
                ));
                assert(out@.push(piece).map_values(|v: Vec<char>| v@) =~= pre + seq![piece@]);
                assert(pre + split_from(rest, sep, piece@) =~= (pre + seq![piece@])
                    + split_from(rest.drop_first(), sep, Seq::empty()));
            }
            out.push(piece);
        } else {
            proof {
                assert(split_from(rest, sep, cur@) == split_from(
                    rest.drop_first(),
                    sep,
                    cur@.push(s@[i as int]),
                ));
            }
            cur.push(s[i]);
        }
        i = i + 1;
    }
    assert(s@.skip(i as int) =~= Seq::<char>::empty());
    proof {
        assert(out@.push(cur).map_values(|v: Vec<char>| v@) =~= out@.map_values(
            |v: Vec<char>| v@,
        ) + seq![cur@]);
    }
    out.push(cur);
    out
}

/// Splits `s` into its maximal runs of non-whitespace characters.
pub fn split_whitespace_chars(s: &[char]) -> (r: Vec<Vec<char>>)
    ensures
        r@.map_values(|v: Vec<char>| v@) == words(s@),
{
    let mut out: Vec<Vec<char>> = Vec::new();
    let mut cur: Vec<char> = Vec::new();
    let mut i: usize = 0;
    assert(s@.skip(0) =~= s@);
    assert(out@.map_values(|v: Vec<char>| v@) + words(s@) =~= words(s@));
    while i < s.len()
        invariant
            i <= s@.len(),
            words(s@) == out@.map_values(|v: Vec<char>| v@) + words_from(
                s@.skip(i as int),
                cur@,
            ),
        decreases s@.len() - i,
    {
        let ghost rest = s@.skip(i as int);
        assert(rest.drop_first() =~= s@.skip(i + 1));
        let ghost pre = out@.map_values(|v: Vec<char>| v@);
        if is_whitespace(s[i]) {
            if cur.len() > 0 {
                let piece = cur;
                cur = Vec::new();
                proof {
                    assert(words_from(rest, piece@) == seq![piece@] + words_from(
                        rest.drop_first(),
                        Seq::empty(),
                    ));
                    assert(out@.push(piece).map_values(|v: Vec<char>| v@) =~= pre + seq![piece@]);
                    assert(pre + words_from(rest, piece@) =~= (pre + seq![piece@]) + words_from(
                        rest.drop_first(),
                        Seq::empty(),
                    ));
                }
                out.push(piece);
            } else {
                proof {
                    assert(words_from(rest, cur@) == Seq::<Seq<char>>::empty() + words_from(
                        rest.drop_first(),
                        Seq::empty(),
                    ));
                    assert(Seq::<Seq<char>>::empty() + words_from(rest.drop_first(), Seq::empty())
                        =~= words_from(rest.drop_first(), Seq::empty()));
                    assert(cur@ =~= Seq::<char>::empty());
                }
            }
        } else {
            proof {
                assert(words_from(rest, cur@) == words_from(
                    rest.drop_first(),
                    cur@.push(s@[i as int]),
                ));
            }
            cur.push(s[i]);
        }
        i = i + 1;
    }
    assert(s@.skip(i as int) =~= Seq::<char>::empty());
    if cur.len() > 0 {
        proof {
            assert(out@.push(cur).map_values(|v: Vec<char>| v@) =~= out@.map_values(
                |v: Vec<char>| v@,
            ) + seq![cur@]);
        }
        out.push(cur);
    } else {
        assert(out@.map_values(|v: Vec<char>| v@) + Seq::<Seq<char>>::empty() =~= out@.map_values(|v: Vec<char>| v@));
    }
    out
}

// ---------------------------------------------------------------------------------------
// Integers

/// Why a string is not an integer, as `std::num::IntErrorKind` tells it.
#[derive(Debug, Clone, Copy, PartialEq, Eq, Structural)]
pub enum IntErrorKind {
    Empty,
    InvalidDigit,
    PosOverflow,
    NegOverflow,
}

/// An ASCII decimal digit.
pub open spec fn is_digit(c: char) -> bool {
    '0' as u32 <= c as u32 <= '9' as u32
}

/// The value of a decimal digit.
pub open spec fn digit_value(c: char) -> int {
    c as u32 - '0' as u32
}

/// The value of a run of decimal digits, most significant first.
pub open spec fn digits_value(s: Seq<char>) -> int
    decreases s.len(),
{
    if s.len() == 0 {
        0
    } else {
        digits_value(s.drop_last()) * 10 + digit_value(s.last())
    }
}

/// The number of decimal digits at the start of `s`.
pub open spec fn digit_prefix_len(s: Seq<char>) -> nat
    decreases s.len(),
{
    if s.len() > 0 && is_digit(s[0]) {
        1 + digit_prefix_len(s.drop_first())
    } else {
        0
    }
}

/// What `str::parse::<i32>` gives for `s`: an optional sign, then decimal digits. Read from
/// left to right, the first digit that takes the value out of range gives an overflow and
/// the first character that is not a digit gives `InvalidDigit`, whichever comes first.
pub open spec fn parse_i32_spec(s: Seq<char>) -> Result<i32, IntErrorKind> {
    if s.len() == 0 {
        Err(IntErrorKind::Empty)
    } else {
        let signed = s[0] == '+' || s[0] == '-';
        let negative = s[0] == '-';
        if signed && s.len() == 1 {
            Err(IntErrorKind::InvalidDigit)
        } else {
            let rest = if signed {
                s.drop_first()
            } else {
                s
            };
            let k = digit_prefix_len(rest);
            let v = digits_value(rest.take(k as int));
            if !negative && v > i32::MAX {
                Err(IntErrorKind::PosOverflow)
            } else if negative && -v < i32::MIN {
                Err(IntErrorKind::NegOverflow)
            } else if k < rest.len() {
                Err(IntErrorKind::InvalidDigit)
            } else if negative {
                Ok((-v) as i32)
            } else {
                Ok(v as i32)
            }
        }
    }
}

proof fn lemma_digit_prefix_len_at(s: Seq<char>, j: int)
    requires
        0 <= j <= s.len(),
        forall|i: int| 0 <= i < j ==> is_digit(#[trigger] s[i]),
        j == s.len() || !is_digit(s[j]),
    ensures
        digit_prefix_len(s) == j,
    decreases j,
{
    if j > 0 {
        let t = s.drop_first();
        assert forall|i: int| 0 <= i < j - 1 implies is_digit(#[trigger] t[i]) by {
            assert(t[i] == s[i + 1]);
        }
        lemma_digit_prefix_len_at(t, j - 1);
    }
}

proof fn lemma_digit_prefix_len_at_least(s: Seq<char>, j: int)
    requires
        0 <= j <= s.len(),
        forall|i: int| 0 <= i < j ==> is_digit(#[trigger] s[i]),
    ensures
        j <= digit_prefix_len(s) <= s.len(),
    decreases j,
{
    lemma_digit_prefix_len_bounded(s);
    if j > 0 {
        let t = s.drop_first();
        assert forall|i: int| 0 <= i < j - 1 implies is_digit(#[trigger] t[i]) by {
            assert(t[i] == s[i + 1]);
        }
        lemma_digit_prefix_len_at_least(t, j - 1);
    }
}

proof fn lemma_digit_prefix_len_bounded(s: Seq<char>)
    ensures
        digit_prefix_len(s) <= s.len(),
        forall|i: int| 0 <= i < digit_prefix_len(s) ==> is_digit(#[trigger] s[i]),
    decreases s.len(),
{
    if s.len() > 0 && is_digit(s[0]) {
        let t = s.drop_first();
        lemma_digit_prefix_len_bounded(t);
        assert forall|i: int| 0 <= i < digit_prefix_len(s) implies is_digit(#[trigger] s[i]) by {
            if i > 0 {
                assert(s[i] == t[i - 1]);
            }
        }
    }
}

proof fn lemma_digits_value_monotone(s: Seq<char>, a: int, b: int)
    requires
        0 <= a <= b <= s.len(),
        forall|i: int| 0 <= i < b ==> is_digit(#[trigger] s[i]),
    ensures
        0 <= digits_value(s.take(a)) <= digits_value(s.take(b)),
    decreases b,
{
    if b == 0 {
    } else {
        assert(s.take(b).drop_last() =~= s.take(b - 1));
        assert(s.take(b).last() == s[b - 1]);
        if a < b {
            lemma_digits_value_monotone(s, a, b - 1);
        } else {
            lemma_digits_value_monotone(s, b - 1, b - 1);
        }
    }
}

/// Reads a decimal `i32` as `str::parse::<i32>` does.
pub fn parse_i32(s: &[char]) -> (r: Result<i32, IntErrorKind>)
    ensures
        r == parse_i32_spec(s@),
{
    if s.len() == 0 {
        return Err(IntErrorKind::Empty);
    }
    let signed = s[0] == '+' || s[0] == '-';
    let negative = s[0] == '-';
    if signed && s.len() == 1 {
        return Err(IntErrorKind::InvalidDigit);
    }
    let start: usize = if signed {
        1
    } else {
        0
    };
    let ghost rest = if signed {
        s@.drop_first()
    } else {
        s@
    };
    assert(rest =~= s@.skip(start as int));
    let limit: i64 = if negative {
        2147483648
    } else {
        2147483647
    };
    let mut acc: i64 = 0;
    let mut j: usize = start;
    while j < s.len()
        invariant
            start <= j <= s@.len(),
            s@.len() > 0,
            signed == (s@[0] == '+' || s@[0] == '-'),
            negative == (s@[0] == '-'),
            !(signed && s@.len() == 1),
            rest == (if signed { s@.drop_first() } else { s@ }),
            rest == s@.skip(start as int),
            limit == (if negative { 2147483648i64 } else { 2147483647i64 }),
            forall|i: int| 0 <= i < j - start ==> is_digit(#[trigger] rest[i]),
            acc == digits_value(rest.take(j - start)),
            0 <= acc <= limit,
        decreases s@.len() - j,
    {
        let c = s[j];
        let ghost jj = j - start;
        assert(rest[jj] == c);
        let u: u32 = c as u32;
        if !(48 <= u && u <= 57) {
            proof {
                lemma_digit_prefix_len_at(rest, jj);
            }
            return Err(IntErrorKind::InvalidDigit);
        }
        let d: i64 = (u - 48) as i64;
        assert(rest.take(jj + 1).drop_last() =~= rest.take(jj));
        let next: i64 = acc * 10 + d;
        assert(rest.take(jj + 1).last() == c);
        assert(digits_value(rest.take(jj + 1)) == next);
        if next > limit {
            proof {
                lemma_digit_prefix_len_at_least(rest, jj + 1);
                lemma_digit_prefix_len_bounded(rest);
                lemma_digits_value_monotone(rest, jj + 1, digit_prefix_len(rest) as int);
                assert(digits_value(rest.take(digit_prefix_len(rest) as int)) > limit);
            }
            if negative {
                return Err(IntErrorKind::NegOverflow);
            } else {
                return Err(IntErrorKind::PosOverflow);
            }
        }
        acc = next;
        j = j + 1;
    }
    proof {
        lemma_digit_prefix_len_at(rest, rest.len() as int);
        assert(rest.take(rest.len() as int) =~= rest);
    }
    if negative {
        Ok((-acc) as i32)
    } else {
        Ok(acc as i32)
    }
}

/// What `str::parse::<u64>` gives for `s`: an optional `+`, then decimal digits. A `-` is no
/// sign here but a character that is not a digit. Read from left to right, the first digit
/// that takes the value out of range gives an overflow and the first character that is not
/// a digit gives `InvalidDigit`, whichever comes first.
pub open spec fn parse_u64_spec(s: Seq<char>) -> Result<u64, IntErrorKind> {
    if s.len() == 0 {
        Err(IntErrorKind::Empty)
    } else if s.len() == 1 && (s[0] == '+' || s[0] == '-') {
        Err(IntErrorKind::InvalidDigit)
    } else {
        let rest = if s[0] == '+' {
            s.drop_first()
        } else {
            s
        };
        let k = digit_prefix_len(rest);
        let v = digits_value(rest.take(k as int));
        if v > u64::MAX {
            Err(IntErrorKind::PosOverflow)
        } else if k < rest.len() {
            Err(IntErrorKind::InvalidDigit)
        } else {
            Ok(v as u64)
        }
    }
}

/// Reads a decimal `u64` as `str::parse::<u64>` does.
pub fn parse_u64(s: &[char]) -> (r: Result<u64, IntErrorKind>)
    ensures
        r == parse_u64_spec(s@),
{
    if s.len() == 0 {
        return Err(IntErrorKind::Empty);
    }
    if s.len() == 1 && (s[0] == '+' || s[0] == '-') {
        return Err(IntErrorKind::InvalidDigit);
    }
    let signed = s[0] == '+';
    let start: usize = if signed {
        1
    } else {
        0
    };
    let ghost rest = if signed {
        s@.drop_first()
    } else {
        s@
    };
    assert(rest =~= s@.skip(start as int));
    let limit: u128 = 18446744073709551615;
    let mut acc: u128 = 0;
    let mut j: usize = start;
    while j < s.len()
        invariant
            start <= j <= s@.len(),
            s@.len() > 0,
            signed == (s@[0] == '+'),
            rest == (if signed { s@.drop_first() } else { s@ }),
            rest == s@.skip(start as int),
            limit == u64::MAX,
            forall|i: int| 0 <= i < j - start ==> is_digit(#[trigger] rest[i]),
            acc == digits_value(rest.take(j - start)),
            0 <= acc <= limit,
        decreases s@.len() - j,
    {
        let c = s[j];
        let ghost jj = j - start;
        assert(rest[jj] == c);
        let u: u32 = c as u32;
        if !(48 <= u && u <= 57) {
            proof {
                lemma_digit_prefix_len_at(rest, jj);
            }
            return Err(IntErrorKind::InvalidDigit);
        }
        let d: u128 = (u - 48) as u128;
        assert(rest.take(jj + 1).drop_last() =~= rest.take(jj));
        let next: u128 = acc * 10 + d;
        assert(rest.take(jj + 1).last() == c);
        assert(digits_value(rest.take(jj + 1)) == next);
        if next > limit {
            proof {
                lemma_digit_prefix_len_at_least(rest, jj + 1);
                lemma_digit_prefix_len_bounded(rest);
                lemma_digits_value_monotone(rest, jj + 1, digit_prefix_len(rest) as int);
            }
            return Err(IntErrorKind::PosOverflow);
        }
        acc = next;
        j = j + 1;
    }
    proof {
        lemma_digit_prefix_len_at(rest, rest.len() as int);
        assert(rest.take(rest.len() as int) =~= rest);
    }
    Ok(acc as u64)
}

/// The decimal digit for `d` in `0..10`.
pub open spec fn digit_char(d: int) -> char {
    ('0' as u32 + d) as char
}

/// The decimal representation of `n`, most significant digit first, without leading zeros.
pub open spec fn decimal_nat(n: nat) -> Seq<char>
    decreases n,
{
    if n < 10 {
        seq![digit_char(n as int)]
    } else {
        decimal_nat(n / 10).push(digit_char((n % 10) as int))
    }
}

/// The decimal representation of `n` as `Display` writes it: a `-` before negative values.
pub open spec fn decimal(n: int) -> Seq<char> {
    if n < 0 {
        seq!['-'] + decimal_nat((-n) as nat)
    } else {
        decimal_nat(n as nat)
    }
}

fn push_decimal_u64(s: &mut String, n: u64)
    ensures
        final(s)@ == old(s)@ + decimal_nat(n as nat),
    decreases n,
{
    if n >= 10 {
        push_decimal_u64(s, n / 10);
    }
    let d: u32 = (n % 10) as u32;
    let c: char = char_from_digit(d);
    push_char(s, c);
    proof {
        if n >= 10 {
            assert(old(s)@ + decimal_nat((n / 10) as nat) + seq![c] =~= old(s)@ + decimal_nat(
                n as nat,
            ));
        } else {
            assert(old(s)@ + seq![c] =~= old(s)@ + decimal_nat(n as nat));
        }
    }
}

fn char_from_digit(d: u32) -> (c: char)
    requires
        d < 10,
    ensures
        c == digit_char(d as int),
{
    match d {
        0 => '0',
        1 => '1',
        2 => '2',
        3 => '3',
        4 => '4',
        5 => '5',
        6 => '6',
        7 => '7',
        8 => '8',
        _ => '9',
    }
}

/// Writes `n` in decimal, as `i32`'s `Display` (and so `to_string`) writes it.
pub fn decimal_string(n: i32) -> (r: String)
    ensures
        r@ == decimal(n as int),
{
    let mut s = String::new();
    if n < 0 {
        push_char(&mut s, '-');
        let m: i64 = -(n as i64);
        push_decimal_u64(&mut s, m as u64);
    } else {
        push_decimal_u64(&mut s, n as u64);
    }
    s
}

// ---------------------------------------------------------------------------------------
// Floating-point literals

/// `c` with ASCII upper-case letters turned into lower case.
pub open spec fn ascii_lower(c: char) -> char {
    if 'A' as u32 <= c as u32 <= 'Z' as u32 {
        ((c as u32) + 32) as char
    } else {
        c
    }
}

/// `s` without one leading `+` or `-`.
pub open spec fn strip_sign(s: Seq<char>) -> Seq<char> {
    if s.len() > 0 && (s[0] == '+' || s[0] == '-') {
        s.drop_first()
    } else {
        s
    }
}

/// `Digit+ | Digit+ '.' Digit* | Digit* '.' Digit+`: digits with at most one point and at
/// least one digit.
pub open spec fn is_mantissa(m: Seq<char>) -> bool {
    &&& forall|i: int| 0 <= i < m.len() ==> is_digit(#[trigger] m[i]) || m[i] == '.'
    &&& forall|i: int, j: int|
        0 <= i < m.len() && 0 <= j < m.len() && #[trigger] m[i] == '.' && #[trigger] m[j] == '.'
            ==> i == j
    &&& exists|i: int| 0 <= i < m.len() && is_digit(#[trigger] m[i])
}

/// `Sign? Digit+`.
pub open spec fn is_exponent(x: Seq<char>) -> bool {
    let d = strip_sign(x);
    &&& d.len() > 0
    &&& forall|i: int| 0 <= i < d.len() ==> is_digit(#[trigger] d[i])
}

/// `Mantissa ('e' Exponent)?`, on lower-case text.
pub open spec fn is_number(b: Seq<char>) -> bool {
    ||| (forall|i: int| 0 <= i < b.len() ==> #[trigger] b[i] != 'e') && is_mantissa(b)
    ||| exists|e: int|
        0 <= e < b.len() && #[trigger] b[e] == 'e' && (forall|i: int| 0 <= i < e ==> #[trigger] b[i]
            != 'e') && is_mantissa(b.take(e)) && is_exponent(b.skip(e + 1))
}

/// The strings that `str::parse::<f32>` accepts: by its documentation, those that match
/// `Sign? ( 'inf' | 'infinity' | 'nan' | Number )` once lower-cased.
pub open spec fn is_float_literal(s: Seq<char>) -> bool {
    let b = strip_sign(s.map_values(|c: char| ascii_lower(c)));
    ||| b == seq!['i', 'n', 'f']
    ||| b == seq!['i', 'n', 'f', 'i', 'n', 'i', 't', 'y']
    ||| b == seq!['n', 'a', 'n']
    ||| is_number(b)
}

fn ascii_lower_char(c: char) -> (r: char)
    ensures
        r == ascii_lower(c),
{
    let u: u32 = c as u32;
    if 65 <= u && u <= 90 {
        char_from_ascii_upper(c)
    } else {
        c
    }
}

fn char_from_ascii_upper(c: char) -> (r: char)
    requires
        'A' as u32 <= c as u32 <= 'Z' as u32,
    ensures
        r == ((c as u32) + 32) as char,
{
    let b: u8 = c as u8;
    (b + 32) as char
}

fn is_digit_char(c: char) -> (r: bool)
    ensures
        r == is_digit(c),
{
    let u: u32 = c as u32;
    48 <= u && u <= 57
}

/// Whether `t[lo..hi]` is a mantissa.
fn check_mantissa(t: &[char], lo: usize, hi: usize) -> (r: bool)
    requires
        lo <= hi <= t@.len(),
    ensures
        r == is_mantissa(t@.subrange(lo as int, hi as int)),
{
    let ghost m = t@.subrange(lo as int, hi as int);
    let mut i: usize = lo;
    let mut dot: Option<usize> = None;
    let mut digit: Option<usize> = None;
    while i < hi
        invariant
            lo <= i <= hi <= t@.len(),
            m == t@.subrange(lo as int, hi as int),
            forall|k: int| 0 <= k < i - lo ==> is_digit(#[trigger] m[k]) || m[k] == '.',
            match dot {
                Some(d) => lo <= d < i && m[d - lo] == '.' && forall|k: int|
                    0 <= k < i - lo && #[trigger] m[k] == '.' ==> k == d - lo,
                None => forall|k: int| 0 <= k < i - lo ==> #[trigger] m[k] != '.',
            },
            match digit {
                Some(d) => lo <= d < i && is_digit(m[d - lo]),
                None => forall|k: int| 0 <= k < i - lo ==> !is_digit(#[trigger] m[k]),
            },
        decreases hi - i,
    {
        let c = t[i];
        assert(m[i - lo] == c);
        if is_digit_char(c) {
            digit = Some(i);
        } else if c == '.' {
            if dot.is_some() {
                proof {
                    let d = dot.unwrap();
                    assert(m[d - lo] == '.' && m[i - lo] == '.');
                }
                return false;
            }
            dot = Some(i);
        } else {
            return false;
        }
        i = i + 1;
    }
    match digit {
        Some(d) => {
            assert(is_digit(m[d - lo]));
            true
        },
        None => false,
    }
}

/// Whether `t[lo..]` is an exponent.
fn check_exponent(t: &[char], lo: usize) -> (r: bool)
    requires
        lo <= t@.len(),
    ensures
        r == is_exponent(t@.skip(lo as int)),
{
    let ghost x = t@.skip(lo as int);
    let start: usize = if lo < t.len() && (t[lo] == '+' || t[lo] == '-') {
        lo + 1
    } else {
        lo
    };
    let ghost d = strip_sign(x);
    assert(d =~= t@.skip(start as int));
    if start == t.len() {
        return false;
    }
    let mut i: usize = start;
    while i < t.len()
        invariant
            start <= i <= t@.len(),
            start < t@.len(),
            d == t@.skip(start as int),
            d == strip_sign(t@.skip(lo as int)),
            forall|k: int| 0 <= k < i - start ==> is_digit(#[trigger] d[k]),
        decreases t@.len() - i,
    {
        assert(d[i - start] == t@[i as int]);
        if !is_digit_char(t[i]) {
            return false;
        }
        i = i + 1;
    }
    true
}

fn equals_from(t: &[char], lo: usize, w: &[char]) -> (r: bool)
    requires
        lo <= t@.len(),
    ensures
        r == (t@.skip(lo as int) == w@),
{
    if t.len() - lo != w.len() {
        assert(t@.skip(lo as int).len() != w@.len());
        return false;
    }
    let mut i: usize = 0;
    while i < w.len()
        invariant
            lo + w@.len() == t.len(),
            lo <= t@.len(),
            i <= w@.len(),
            forall|k: int| 0 <= k < i ==> t@[lo + k] == #[trigger] w@[k],
        decreases w@.len() - i,
    {
        if t[lo + i] != w[i] {
            assert(t@.skip(lo as int)[i as int] != w@[i as int]);
            return false;
        }
        i = i + 1;
    }
    assert(t@.skip(lo as int) =~= w@);
    true
}

/// Whether `str::parse::<f32>` accepts the string made of `s`.
pub fn is_float_literal_chars(s: &[char]) -> (r: bool)
    ensures
        r == is_float_literal(s@),
{
    let mut t: Vec<char> = Vec::new();
    let mut i: usize = 0;
    while i < s.len()
        invariant
            i <= s@.len(),
            t@ == s@.take(i as int).map_values(|c: char| ascii_lower(c)),
        decreases s@.len() - i,
    {
        let c = ascii_lower_char(s[i]);
        t.push(c);
        assert(s@.take(i + 1).map_values(|c: char| ascii_lower(c)) =~= s@.take(i as int).map_values(
            |c: char| ascii_lower(c),
        ).push(c));
        i = i + 1;
    }
    assert(s@.take(s@.len() as int) =~= s@);
    let ghost low = s@.map_values(|c: char| ascii_lower(c));
    let start: usize = if t.len() > 0 && (t[0] == '+' || t[0] == '-') {
        1
    } else {
        0
    };
    let ghost b = strip_sign(low);
    assert(b =~= t@.skip(start as int));
    let inf: [char; 3] = ['i', 'n', 'f'];
    let infinity: [char; 8] = ['i', 'n', 'f', 'i', 'n', 'i', 't', 'y'];
    let nan: [char; 3] = ['n', 'a', 'n'];
    assert(inf@ =~= seq!['i', 'n', 'f']);
    assert(infinity@ =~= seq!['i', 'n', 'f', 'i', 'n', 'i', 't', 'y']);
    assert(nan@ =~= seq!['n', 'a', 'n']);
    if equals_from(&t, start, &inf) || equals_from(&t, start, &infinity) || equals_from(
        &t,
        start,
        &nan,
    ) {
        return true;
    }
    // find the first 'e'
    let mut e: usize = start;
    while e < t.len() && t[e] != 'e'
        invariant
            start <= e <= t@.len(),
            b == t@.skip(start as int),
            forall|k: int| 0 <= k < e - start ==> #[trigger] b[k] != 'e',
        decreases t@.len() - e,
    {
        assert(b[e - start] == t@[e as int]);
        e = e + 1;
    }
    if e == t.len() {
        assert(t@.subrange(start as int, e as int) =~= b);
        check_mantissa(&t, start, e)
    } else {
        let ghost eb = e - start;
        assert(b[eb] == 'e');
        assert(t@.subrange(start as int, e as int) =~= b.take(eb));
        assert(t@.skip(e + 1) =~= b.skip(eb + 1));
        let r = check_mantissa(&t, start, e) && check_exponent(&t, e + 1);
        proof {
            if !r {
                assert forall|e2: int|
                    0 <= e2 < b.len() && #[trigger] b[e2] == 'e' && (forall|i: int|
                        0 <= i < e2 ==> #[trigger] b[i] != 'e') implies e2 == eb by {
                    if e2 < eb {
                    } else if e2 > eb {
                        assert(b[eb] != 'e');
                    }
                }
            }
        }
        r
    }
}

/// Whether `a` and `b` hold the same characters.
pub fn chars_equal(a: &[char], b: &[char]) -> (r: bool)
    ensures
        r == (a@ == b@),
{
    if a.len() != b.len() {
        return false;
    }
    let mut i: usize = 0;
    while i < a.len()
        invariant
            a@.len() == b@.len(),
            i <= a@.len(),
            forall|k: int| 0 <= k < i ==> a@[k] == b@[k],
        decreases a@.len() - i,
    {
        if a[i] != b[i] {
            return false;
        }
        i = i + 1;
    }
    assert(a@ =~= b@);
    true
}

/// Whether the characters `a` spell the string `lit`.
pub fn chars_are(a: &[char], lit: &str) -> (r: bool)
    ensures
        r == (a@ == lit@),
{
    let b = chars_of(lit);
    chars_equal(a, b.as_slice())
}

// ---------------------------------------------------------------------------------------
// Laws

proof fn lemma_decimal_nat_digits(m: nat)
    ensures
        decimal_nat(m).len() >= 1,
        forall|i: int| 0 <= i < decimal_nat(m).len() ==> is_digit(#[trigger] decimal_nat(m)[i]),
        digits_value(decimal_nat(m)) == m,
    decreases m,
{
    let d = (m % 10) as int;
    assert(digit_char(d) as u32 == '0' as u32 + d);
    if m >= 10 {
        lemma_decimal_nat_digits(m / 10);
        let s = decimal_nat(m / 10);
        assert(decimal_nat(m).drop_last() =~= s);
        assert(decimal_nat(m).last() == digit_char(d));
        assert(digit_value(digit_char(d)) == d);
        assert(m == (m / 10) * 10 + m % 10);
        assert(digits_value(decimal_nat(m)) == digits_value(decimal_nat(m).drop_last()) * 10
            + digit_value(decimal_nat(m).last()));
        assert(digits_value(s) == m / 10);
    } else {
        assert(decimal_nat(m).drop_last() =~= Seq::<char>::empty());
        assert(digit_value(digit_char(d)) == d);
        assert(d == m);
        assert(decimal_nat(m).last() == digit_char(d));
        assert(digits_value(decimal_nat(m)) == digits_value(decimal_nat(m).drop_last()) * 10
            + digit_value(decimal_nat(m).last()));
        assert(digits_value(Seq::<char>::empty()) == 0);
    }
}

/// Writing an `i32` in decimal and reading it back gives the same number: a process id
/// written into a path is the one read back from a procfs entry name.
pub proof fn law_decimal_parses_back(n: i32)
    ensures
        parse_i32_spec(decimal(n as int)) == Ok::<i32, IntErrorKind>(n),
{
    if n < 0 {
        let m = (-(n as int)) as nat;
        lemma_decimal_nat_digits(m);
        let s = decimal(n as int);
        let rest = decimal_nat(m);
        assert(s.drop_first() =~= rest);
        lemma_digit_prefix_len_at(rest, rest.len() as int);
        assert(rest.take(rest.len() as int) =~= rest);
    } else {
        let m = n as nat;
        lemma_decimal_nat_digits(m);
        let s = decimal(n as int);
        assert(is_digit(s[0]));
        lemma_digit_prefix_len_at(s, s.len() as int);
        assert(s.take(s.len() as int) =~= s);
    }
}

} // verus!
