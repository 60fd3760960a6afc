//! Character-level helpers: decimal number parsing and ASCII
//! case-insensitive comparison, both stated over character sequences.

use vstd::prelude::*;
use vstd::arithmetic::div_mod::lemma_fundamental_div_mod;
use vstd::string::StrSliceExecFns;

verus! {

/// True of the ten ASCII digit characters.
pub open spec fn is_digit(c: char) -> bool {
    48 <= c as u32 <= 57
}

/// Numeric value of an ASCII digit character.
pub open spec fn digit_val(c: char) -> int
    recommends
        is_digit(c),
{
    c as u32 - 48
}

/// True when every character of the sequence is an ASCII digit.
pub open spec fn all_digits(s: Seq<char>) -> bool {
    forall|i: int| 0 <= i < s.len() ==> is_digit(s[i])
}

/// Value of a digit sequence read as a base-10 number.
pub open spec fn dec_val(s: Seq<char>) -> int
    recommends
        all_digits(s),
    decreases s.len(),
{
    if s.len() == 0 {
        0
    } else {
        dec_val(s.drop_last()) * 10 + digit_val(s.last())
    }
}

/// A well-formed unsigned decimal: an optional leading `+`, then at
/// least one digit and nothing else.
pub open spec fn wf_decimal(s: Seq<char>) -> bool {
    if s.len() >= 1 && s[0] == '+' {
        s.len() >= 2 && all_digits(s.skip(1))
    } else {
        s.len() >= 1 && all_digits(s)
    }
}

/// The digit characters of a well-formed decimal, the sign dropped.
pub open spec fn decimal_digits(s: Seq<char>) -> Seq<char> {
    if s.len() >= 1 && s[0] == '+' {
        s.skip(1)
    } else {
        s
    }
}

/// Value of a well-formed decimal.
pub open spec fn decimal_val(s: Seq<char>) -> int
    recommends
        wf_decimal(s),
{
    dec_val(decimal_digits(s))
}

/// A digit string's value is never negative.
pub proof fn lemma_dec_val_nonneg(s: Seq<char>)
    requires
        all_digits(s),
    ensures
        dec_val(s) >= 0,
    decreases s.len(),
{
    if s.len() > 0 {
        lemma_dec_val_nonneg(s.drop_last());
    }
}

/// Extending a digit string to the right never lowers its value.
pub proof fn lemma_dec_val_prefix(s: Seq<char>, i: int)
    requires
        all_digits(s),
        0 <= i <= s.len(),
    ensures
        dec_val(s.take(i)) <= dec_val(s),
    decreases s.len() - i,
{
    if i < s.len() {
        lemma_dec_val_prefix(s, i + 1);
        assert(s.take(i + 1).drop_last() =~= s.take(i));
        lemma_dec_val_nonneg(s.take(i));
    } else {
        assert(s.take(i) =~= s);
    }
}

/// Parse a string as an unsigned decimal number. Returns the value when
/// the string is a well-formed decimal whose value fits in `usize`, and
/// `None` exactly on the malformed or too-large strings.
pub fn parse_usize(s: &str) -> (r: Option<usize>)
    ensures
        match r {
            Some(n) => wf_decimal(s@) && n == decimal_val(s@),
            None => !wf_decimal(s@) || decimal_val(s@) > usize::MAX,
        },
{
    let n = s.unicode_len();
    let start: usize = if n > 0 && s.get_char(0) == '+' {
        1
    } else {
        0
    };
    let ghost digits = decimal_digits(s@);
    if n == start {
        return None;
    }
    let mut v: usize = 0;
    let mut i: usize = start;
    while i < n
        invariant
            start <= i <= n,
            n == s@.len(),
            start == 1 ==> s@[0] == '+',
            start == 0 ==> !(s@.len() >= 1 && s@[0] == '+'),
            digits == decimal_digits(s@),
            digits.len() == n - start,
            forall|k: int| 0 <= k < digits.len() ==> digits[k] == s@[k + start],
            all_digits(digits.take(i - start)),
            v == dec_val(digits.take(i - start)),
        decreases n - i,
    {
        let c = s.get_char(i);
        let u = c as u32;
        if u < 48 || u > 57 {
            proof {
                if wf_decimal(s@) {
                    assert(all_digits(digits));
                    assert(is_digit(digits[i - start]));
                    assert(digits[i - start] == s@[i as int]);
                }
            }
            return None;
        }
        let d: usize = (u - 48) as usize;
        proof {
            assert(digits[i - start] == s@[i as int]);
            assert(digits.take(i - start + 1).drop_last() =~= digits.take(i - start));
            assert(digits.take(i - start + 1).last() == c);
            assert(dec_val(digits.take(i - start + 1)) == v * 10 + d);
            lemma_fundamental_div_mod((usize::MAX - d) as int, 10);
        }
        if v > (usize::MAX - d) / 10 {
            proof {
                if wf_decimal(s@) {
                    assert(all_digits(digits));
                    assert(v * 10 + d > usize::MAX);
                    lemma_dec_val_prefix(digits, i - start + 1);
                }
            }
            return None;
        }
        assert(v * 10 + d <= usize::MAX);
        v = v * 10 + d;
        i = i + 1;
    }
    proof {
        assert(digits.take(i - start) =~= digits);
        assert(all_digits(digits));
        assert(wf_decimal(s@));
    }
    Some(v)
}

/// Index of the first occurrence of `c` in `s`, or `-1` when `c` does
/// not occur.
pub open spec fn find_char(s: Seq<char>, c: char) -> int
    decreases s.len(),
{
    if s.len() == 0 {
        -1
    } else if s[0] == c {
        0
    } else {
        let r = find_char(s.drop_first(), c);
        if r < 0 {
            -1
        } else {
            r + 1
        }
    }
}

/// `find_char` returns the least index holding `c`, or `-1` exactly when
/// `c` is absent.
pub proof fn lemma_find_char(s: Seq<char>, c: char)
    ensures
        find_char(s, c) == -1 || 0 <= find_char(s, c) < s.len(),
        find_char(s, c) >= 0 ==> s[find_char(s, c)] == c && (forall|j: int|
            0 <= j < find_char(s, c) ==> s[j] != c),
        find_char(s, c) == -1 ==> forall|j: int| 0 <= j < s.len() ==> s[j] != c,
    decreases s.len(),
{
    if s.len() > 0 && s[0] != c {
        lemma_find_char(s.drop_first(), c);
        let rest = s.drop_first();
        assert(forall|j: int| 1 <= j < s.len() ==> s[j] == rest[j - 1]);
    }
}

/// When `c` stands at `i` and nowhere earlier, `find_char` finds `i`.
pub proof fn lemma_find_char_at(s: Seq<char>, c: char, i: int)
    requires
        0 <= i < s.len(),
        s[i] == c,
        forall|j: int| 0 <= j < i ==> s[j] != c,
    ensures
        find_char(s, c) == i,
{
    lemma_find_char(s, c);
    let f = find_char(s, c);
    if f == -1 {
        assert(s[i] != c);
    } else if f < i {
        assert(s[f] != c);
    } else if f > i {
        assert(s[i] != c);
    }
}

/// When `c` occurs nowhere in `s`, `find_char` reports its absence.
pub proof fn lemma_find_char_absent(s: Seq<char>, c: char)
    requires
        forall|j: int| 0 <= j < s.len() ==> s[j] != c,
    ensures
        find_char(s, c) == -1,
{
    lemma_find_char(s, c);
    let f = find_char(s, c);
    if f >= 0 {
        assert(s[f] != c);
    }
}

/// Find `c` in `s` at or after position `from`; hand back its index, or
/// the length of `s` when it does not occur there.
pub fn find_from(s: &str, from: usize, c: char) -> (j: usize)
    requires
        from <= s@.len(),
    ensures
        from <= j <= s@.len(),
        j < s@.len() ==> s@[j as int] == c,
        forall|k: int| from <= k < j ==> s@[k] != c,
        ({
            let f = find_char(s@.skip(from as int), c);
            if f >= 0 {
                j == from + f
            } else {
                j == s@.len()
            }
        }),
{
    let ghost sub = s@.skip(from as int);
    proof {
        lemma_find_char(sub, c);
        assert(forall|m: int| 0 <= m < sub.len() ==> sub[m] == s@[m + from]);
    }
    let n = s.unicode_len();
    let mut j: usize = from;
    while j < n
        invariant
            from <= j <= n,
            n == s@.len(),
            sub == s@.skip(from as int),
            forall|m: int| 0 <= m < sub.len() ==> sub[m] == s@[m + from],
            forall|k: int| from <= k < j ==> s@[k] != c,
        decreases n - j,
    {
        if s.get_char(j) == c {
            proof {
                lemma_find_char(sub, c);
                let f = find_char(sub, c);
                if f < 0 {
                    assert(sub[j - from] != c);
                } else if f < j - from {
                    assert(s@[f + from] != c);
                } else if f > j - from {
                    assert(sub[j - from] != c);
                }
            }
            return j;
        }
        j = j + 1;
    }
    proof {
        lemma_find_char(sub, c);
        let f = find_char(sub, c);
        if f >= 0 {
            assert(s@[f + from] != c);
        }
    }
    j
}

/// Compare two strings character by character.
pub fn str_eq(a: &str, b: &str) -> (r: bool)
    ensures
        r == (a@ == b@),
{
    let na = a.unicode_len();
    let nb = b.unicode_len();
    if na != nb {
        proof {
            assert(a@ != b@);
        }
        return false;
    }
    let mut i: usize = 0;
    while i < na
        invariant
            i <= na,
            na == a@.len(),
            na == b@.len(),
            forall|k: int| 0 <= k < i ==> a@[k] == b@[k],
        decreases na - i,
    {
        if a.get_char(i) != b.get_char(i) {
            return false;
        }
        i = i + 1;
    }
    proof {
        assert(a@ =~= b@);
    }
    true
}

/// The lower-case fold of one character, applied to the ASCII upper-case
/// letters alone.
pub open spec fn ascii_lower(c: char) -> int {
    if 65 <= c as u32 <= 90 {
        c as u32 + 32
    } else {
        c as u32 as int
    }
}

/// Equality of two character sequences up to ASCII case.
pub open spec fn eq_ignore_case(a: Seq<char>, b: Seq<char>) -> bool {
    a.len() == b.len() && forall|i: int| 0 <= i < a.len() ==> ascii_lower(a[i]) == ascii_lower(
        b[i],
    )
}

/// Compare two strings for equality up to ASCII case.
pub fn str_eq_ignore_case(a: &str, b: &str) -> (r: bool)
    ensures
        r == eq_ignore_case(a@, b@),
{
    let na = a.unicode_len();
    let nb = b.unicode_len();
    if na != nb {
        return false;
    }
    let mut i: usize = 0;
    while i < na
        invariant
            i <= na,
            na == a@.len(),
            na == b@.len(),
            forall|k: int| 0 <= k < i ==> ascii_lower(a@[k]) == ascii_lower(b@[k]),
        decreases na - i,
    {
        let ca = a.get_char(i) as u32;
        let cb = b.get_char(i) as u32;
        let la = if 65 <= ca && ca <= 90 {
            ca + 32
        } else {
            ca
        };
        let lb = if 65 <= cb && cb <= 90 {
            cb + 32
        } else {
            cb
        };
        if la != lb {
            return false;
        }
        i = i + 1;
    }
    true
}

} // verus!
