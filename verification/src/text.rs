//! Verified text utilities used by the pages: decimal rendering of numbers,
//! substring search, whitespace-delimited tokens, and validation of decimal
//! numerals, together with contracts for the two `String` mutators that the
//! standard library provides and vstd leaves unspecified.

use vstd::prelude::*;

verus! {

/// Relies on `String::push`: appends the given character to the end of the
/// string.
pub assume_specification[ String::push ](s: &mut String, ch: char)
    ensures
        final(s)@ == old(s)@.push(ch),
;

/// Relies on `String::pop`: removes and returns the last character, or
/// returns `None` and leaves the string unchanged when it is empty.
pub assume_specification[ String::pop ](s: &mut String) -> (r: Option<char>)
    ensures
        old(s)@.len() == 0 ==> r is None && final(s)@ == old(s)@,
        old(s)@.len() > 0 ==> r == Some(old(s)@.last()) && final(s)@ == old(s)@.drop_last(),
;

/// Decimal digit characters.
pub open spec fn spec_is_digit(c: char) -> bool {
    '0' <= c <= '9'
}

/// The whitespace characters that delimit tokens in a response body.
pub open spec fn spec_is_space(c: char) -> bool {
    c == ' ' || c == '\t' || c == '\n' || c == '\r'
}

/// Exec mirror of [`spec_is_space`].
pub fn is_space(c: char) -> (r: bool)
    ensures
        r == spec_is_space(c),
{
    c == ' ' || c == '\t' || c == '\n' || c == '\r'
}

/// The digit character for a value below ten.
pub open spec fn digit_char(d: int) -> char {
    if d == 0 {
        '0'
    } else if d == 1 {
        '1'
    } else if d == 2 {
        '2'
    } else if d == 3 {
        '3'
    } else if d == 4 {
        '4'
    } else if d == 5 {
        '5'
    } else if d == 6 {
        '6'
    } else if d == 7 {
        '7'
    } else if d == 8 {
        '8'
    } else {
        '9'
    }
}

/// The decimal digit string of `n`, most significant digit first.
pub open spec fn dec_digits(n: nat) -> Seq<char>
    decreases n,
{
    if n < 10 {
        seq![digit_char(n as int)]
    } else {
        dec_digits(n / 10) + seq![digit_char((n % 10) as int)]
    }
}

/// The one-character string for a digit value.
fn digit_str(d: u64) -> (r: &'static str)
    requires
        d < 10,
    ensures
        r@ == seq![digit_char(d as int)],
{
    let r: &'static str = if d == 0 {
        "0"
    } else if d == 1 {
        "1"
    } else if d == 2 {
        "2"
    } else if d == 3 {
        "3"
    } else if d == 4 {
        "4"
    } else if d == 5 {
        "5"
    } else if d == 6 {
        "6"
    } else if d == 7 {
        "7"
    } else if d == 8 {
        "8"
    } else {
        "9"
    };
    proof {
        reveal_strlit("0");
        reveal_strlit("1");
        reveal_strlit("2");
        reveal_strlit("3");
        reveal_strlit("4");
        reveal_strlit("5");
        reveal_strlit("6");
        reveal_strlit("7");
        reveal_strlit("8");
        reveal_strlit("9");
        assert(r@ =~= seq![digit_char(d as int)]);
    }
    r
}

/// Renders `n` in decimal.
pub fn u64_to_string(n: u64) -> (s: String)
    ensures
        s@ == dec_digits(n as nat),
    decreases n,
{
    if n < 10 {
        String::from_str(digit_str(n))
    } else {
        let mut s = u64_to_string(n / 10);
        s.append(digit_str(n % 10));
        proof {
            assert(s@ =~= dec_digits(n as nat));
        }
        s
    }
}

/// `needle` occurs in `hay` starting at position `i`.
pub open spec fn match_at(hay: Seq<char>, needle: Seq<char>, i: int) -> bool {
    &&& 0 <= i
    &&& i + needle.len() <= hay.len()
    &&& hay.subrange(i, i + needle.len() as int) == needle
}

/// `needle` occurs somewhere in `hay`.
pub open spec fn contains_seq(hay: Seq<char>, needle: Seq<char>) -> bool {
    exists|i: int| match_at(hay, needle, i)
}

/// `needle` occurs at position `i` of `hay` and nowhere earlier.
pub open spec fn first_match_at(hay: Seq<char>, needle: Seq<char>, i: int) -> bool {
    &&& match_at(hay, needle, i)
    &&& forall|j: int| 0 <= j < i ==> !match_at(hay, needle, j)
}

/// Two first occurrences are the same occurrence.
pub proof fn lemma_first_match_unique(hay: Seq<char>, needle: Seq<char>, i: int, j: int)
    requires
        first_match_at(hay, needle, i),
        first_match_at(hay, needle, j),
    ensures
        i == j,
{
    if i < j {
        assert(!match_at(hay, needle, i));
    }
    if j < i {
        assert(!match_at(hay, needle, j));
    }
}

/// What follows the first occurrence of `needle` in `hay`.
pub open spec fn after_first(hay: Seq<char>, needle: Seq<char>) -> Seq<char> {
    let i = choose|i: int| first_match_at(hay, needle, i);
    hay.subrange(i + needle.len() as int, hay.len() as int)
}

/// Whether `needle` occurs in `hay` starting at `i`, by character comparison.
fn matches_at(hay: &str, needle: &str, i: usize) -> (r: bool)
    requires
        i + needle@.len() <= hay@.len(),
    ensures
        r == match_at(hay@, needle@, i as int),
{
    let h_len = hay.unicode_len();
    let n_len = needle.unicode_len();
    let mut j: usize = 0;
    while j < n_len
        invariant
            h_len == hay@.len(),
            i + n_len <= h_len,
            n_len == needle@.len(),
            j <= n_len,
            forall|k: int| 0 <= k < j ==> hay@[i + k] == needle@[k],
        decreases n_len - j,
    {
        if hay.get_char(i + j) != needle.get_char(j) {
            proof {
                if hay@.subrange(i as int, i + needle@.len() as int) == needle@ {
                    assert(hay@.subrange(i as int, i + needle@.len() as int)[j as int]
                        == hay@[i + j]);
                }
            }
            return false;
        }
        j += 1;
    }
    proof {
        assert(hay@.subrange(i as int, i + needle@.len() as int) =~= needle@);
    }
    true
}

/// Finds the first occurrence of `needle` in `hay`, as a character index.
pub fn find_first(hay: &str, needle: &str) -> (r: Option<usize>)
    ensures
        match r {
            Some(i) => first_match_at(hay@, needle@, i as int),
            None => !contains_seq(hay@, needle@),
        },
{
    let h_len = hay.unicode_len();
    let n_len = needle.unicode_len();
    if n_len > h_len {
        return None;
    }
    if n_len == 0 {
        proof {
            assert(hay@.subrange(0, 0) =~= needle@);
        }
        return Some(0);
    }
    let mut i: usize = 0;
    while i <= h_len - n_len
        invariant
            0 < n_len <= h_len,
            h_len == hay@.len(),
            n_len == needle@.len(),
            i <= h_len - n_len + 1,
            forall|j: int| 0 <= j < i ==> !match_at(hay@, needle@, j),
        decreases h_len - n_len + 1 - i,
    {
        if matches_at(hay, needle, i) {
            return Some(i);
        }
        i += 1;
    }
    None
}

/// What remains of `s` after its leading whitespace.
pub open spec fn spec_skip_spaces(s: Seq<char>) -> Seq<char>
    decreases s.len(),
{
    if s.len() > 0 && spec_is_space(s[0]) {
        spec_skip_spaces(s.drop_first())
    } else {
        s
    }
}

/// The leading run of non-whitespace characters of `s`.
pub open spec fn spec_token(s: Seq<char>) -> Seq<char>
    decreases s.len(),
{
    if s.len() > 0 && !spec_is_space(s[0]) {
        seq![s[0]] + spec_token(s.drop_first())
    } else {
        Seq::empty()
    }
}

/// The first whitespace-delimited token of `s`, if `s` holds one.
pub open spec fn spec_first_token(s: Seq<char>) -> Option<Seq<char>> {
    let t = spec_token(spec_skip_spaces(s));
    if t.len() == 0 {
        None
    } else {
        Some(t)
    }
}

/// Skipping spaces equals dropping a known all-space prefix.
proof fn lemma_skip_spaces_prefix(s: Seq<char>, k: int)
    requires
        0 <= k <= s.len(),
        forall|j: int| 0 <= j < k ==> spec_is_space(s[j]),
        k < s.len() ==> !spec_is_space(s[k]),
    ensures
        spec_skip_spaces(s) == s.skip(k),
    decreases k,
{
    if k == 0 {
        assert(s.skip(0) =~= s);
    } else {
        lemma_skip_spaces_prefix(s.drop_first(), k - 1);
        assert(s.drop_first().skip(k - 1) =~= s.skip(k));
    }
}

/// The token of a sequence whose first `k` characters are non-space is
/// exactly that prefix.
proof fn lemma_token_prefix(t: Seq<char>, k: int)
    requires
        0 <= k <= t.len(),
        forall|j: int| 0 <= j < k ==> !spec_is_space(t[j]),
        k < t.len() ==> spec_is_space(t[k]),
    ensures
        spec_token(t) == t.subrange(0, k),
    decreases k,
{
    if k == 0 {
        assert(t.subrange(0, 0) =~= Seq::<char>::empty());
    } else {
        lemma_token_prefix(t.drop_first(), k - 1);
        assert(seq![t[0]] + t.drop_first().subrange(0, k - 1) =~= t.subrange(0, k));
    }
}

/// Extracts the first whitespace-delimited token of `s`, if any.
pub fn first_token(s: &str) -> (r: Option<String>)
    ensures
        match r {
            Some(t) => spec_first_token(s@) == Some(t@),
            None => spec_first_token(s@) is None,
        },
{
    let len = s.unicode_len();
    let mut i: usize = 0;
    while i < len && is_space(s.get_char(i))
        invariant
            len == s@.len(),
            i <= len,
            forall|j: int| 0 <= j < i ==> spec_is_space(s@[j]),
        decreases len - i,
    {
        i += 1;
    }
    proof {
        lemma_skip_spaces_prefix(s@, i as int);
    }
    let start = i;
    let mut tok = String::new();
    let mut j = start;
    while j < len && !is_space(s.get_char(j))
        invariant
            len == s@.len(),
            start <= j <= len,
            tok@ == s@.subrange(start as int, j as int),
            forall|k: int| start <= k < j ==> !spec_is_space(s@[k]),
        decreases len - j,
    {
        tok.push(s.get_char(j));
        proof {
            assert(s@.subrange(start as int, j as int).push(s@[j as int]) =~= s@.subrange(
                start as int,
                j + 1,
            ));
        }
        j += 1;
    }
    proof {
        let t = s@.skip(start as int);
        assert(forall|m: int| 0 <= m < j - start ==> !spec_is_space(t[m]));
        if j < len {
            assert(spec_is_space(t[j - start]));
        }
        lemma_token_prefix(t, j - start);
        assert(t.subrange(0, j - start) =~= s@.subrange(start as int, j as int));
    }
    if tok.as_str().is_empty() {
        None
    } else {
        Some(tok)
    }
}

/// How many times `c` occurs in `s`.
pub open spec fn count_char(s: Seq<char>, c: char) -> nat
    decreases s.len(),
{
    if s.len() == 0 {
        0
    } else {
        count_char(s.drop_last(), c) + if s.last() == c {
            1nat
        } else {
            0nat
        }
    }
}

/// A decimal numeral: an optional sign, then digits with at most one decimal
/// point among them and at least one digit.
pub open spec fn spec_valid_decimal(s: Seq<char>) -> bool {
    if s.len() > 0 && (s[0] == '+' || s[0] == '-') {
        spec_valid_unsigned_decimal(s.drop_first())
    } else {
        spec_valid_unsigned_decimal(s)
    }
}

/// Digits and at most one decimal point, with at least one digit.
pub open spec fn spec_valid_unsigned_decimal(t: Seq<char>) -> bool {
    &&& forall|i: int| 0 <= i < t.len() ==> (spec_is_digit(t[i]) || t[i] == '.')
    &&& count_char(t, '.') <= 1
    &&& exists|i: int| 0 <= i < t.len() && spec_is_digit(t[i])
}

/// Checks whether `s` is a decimal numeral in the sense of
/// [`spec_valid_decimal`].
pub fn is_valid_decimal(s: &str) -> (r: bool)
    ensures
        r == spec_valid_decimal(s@),
{
    let len = s.unicode_len();
    let start: usize = if len > 0 {
        let c0 = s.get_char(0);
        if c0 == '+' || c0 == '-' {
            1
        } else {
            0
        }
    } else {
        0
    };
    let ghost t = s@.skip(start as int);
    let mut dots: usize = 0;
    let mut seen_digit = false;
    let mut ok = true;
    let mut i = start;
    while i < len
        invariant
            len == s@.len(),
            start <= i <= len,
            t == s@.skip(start as int),
            dots == count_char(s@.subrange(start as int, i as int), '.'),
            dots <= i,
            seen_digit == exists|k: int| start <= k < i && spec_is_digit(s@[k]),
            ok == forall|k: int|
                start <= k < i ==> (spec_is_digit(s@[k]) || s@[k] == '.'),
        decreases len - i,
    {
        let c = s.get_char(i);
        proof {
            assert(s@.subrange(start as int, i + 1).drop_last() =~= s@.subrange(
                start as int,
                i as int,
            ));
        }
        if c == '.' {
            dots += 1;
        } else if '0' <= c && c <= '9' {
            seen_digit = true;
        } else {
            ok = false;
        }
        i += 1;
    }
    proof {
        assert(s@.subrange(start as int, len as int) =~= t);
        assert(forall|m: int| 0 <= m < t.len() ==> t[m] == s@[start + m]);
        if start == 1 {
            assert(s@.drop_first() =~= t);
        } else {
            assert(s@ =~= t);
        }
        if seen_digit {
            let k = choose|k: int| start <= k < len && spec_is_digit(s@[k]);
            assert(t[k - start] == s@[k]);
            assert(0 <= k - start < t.len() && spec_is_digit(t[k - start]));
        }
        if exists|m: int| 0 <= m < t.len() && spec_is_digit(t[m]) {
            let m = choose|m: int| 0 <= m < t.len() && spec_is_digit(t[m]);
            assert(spec_is_digit(s@[start + m]));
            assert(seen_digit);
        }
        if ok {
            assert(forall|m: int| 0 <= m < t.len() ==> (spec_is_digit(t[m]) || t[m] == '.'));
        } else {
            let k = choose|k: int|
                start <= k < len && !(spec_is_digit(s@[k]) || s@[k] == '.');
            assert(!(spec_is_digit(t[k - start]) || t[k - start] == '.'));
        }
    }
    ok && dots <= 1 && seen_digit
}

} // verus!
