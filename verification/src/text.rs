//! Small verified string helpers shared by the protocol and payment logic.

use vstd::prelude::*;
use vstd::string::StrSliceExecFns;

verus! {

/// Character-wise string equality.
pub fn str_eq(a: &str, b: &str) -> (r: bool)
    ensures
        r == (a@ == b@),
{
    let alen = a.unicode_len();
    let blen = b.unicode_len();
    if alen != blen {
        return false;
    }
    let mut i: usize = 0;
    while i < alen
        invariant
            i <= alen,
            alen == a@.len(),
            alen == b@.len(),
            forall|j: int| 0 <= j < i ==> a@[j] == b@[j],
        decreases alen - i,
    {
        if a.get_char(i) != b.get_char(i) {
            return false;
        }
        i += 1;
    }
    proof {
        assert(a@ =~= b@);
    }
    true
}

/// The suffix of `s` that follows its last backslash; `s` itself when no
/// backslash occurs.
pub open spec fn after_last_backslash(s: Seq<char>) -> Seq<char>
    decreases s.len(),
{
    if s.len() == 0 {
        s
    } else if s.last() == '\\' {
        Seq::empty()
    } else {
        after_last_backslash(s.drop_last()).push(s.last())
    }
}

proof fn lemma_after_last_backslash(s: Seq<char>, cut: int)
    requires
        0 <= cut <= s.len(),
        forall|j: int| cut <= j < s.len() ==> s[j] != '\\',
        cut == 0 || s[cut - 1] == '\\',
    ensures
        after_last_backslash(s) == s.subrange(cut, s.len() as int),
    decreases s.len(),
{
    if s.len() == cut {
        if cut == 0 {
            assert(after_last_backslash(s) =~= s.subrange(0, 0));
        } else {
            assert(s.last() == '\\');
            assert(after_last_backslash(s) =~= s.subrange(cut, s.len() as int));
        }
    } else {
        assert(s.last() != '\\');
        lemma_after_last_backslash(s.drop_last(), cut);
        assert(s.drop_last().subrange(cut, s.len() - 1) =~= s.subrange(cut, s.len() - 1));
        assert(s.subrange(cut, s.len() - 1).push(s.last()) =~= s.subrange(
            cut,
            s.len() as int,
        ));
    }
}

/// Strip a leading Windows-style domain: keep only what follows the last
/// backslash; a string without a backslash comes back unchanged.
pub fn scrub_domain(s: &str) -> (r: String)
    ensures
        r@ == after_last_backslash(s@),
{
    let n = s.unicode_len();
    let mut cut = n;
    while cut > 0
        invariant
            cut <= n,
            n == s@.len(),
            forall|j: int| cut <= j < n ==> s@[j] != '\\',
        ensures
            cut <= n,
            forall|j: int| cut <= j < n ==> s@[j] != '\\',
            cut == 0 || s@[cut - 1] == '\\',
        decreases cut,
    {
        if s.get_char(cut - 1) == '\\' {
            break ;
        }
        cut -= 1;
    }
    let tail = s.substring_char(cut, n);
    proof {
        lemma_after_last_backslash(s@, cut as int);
    }
    String::from_str(tail)
}

/// A decimal digit.
pub open spec fn is_digit(c: char) -> bool {
    48 <= c as u32 && c as u32 <= 57
}

/// The value of one decimal digit.
pub open spec fn digit_val(c: char) -> int {
    c as u32 - 48
}

/// Every character is a decimal digit.
pub open spec fn all_digits(s: Seq<char>) -> bool {
    forall|i: int| 0 <= i < s.len() ==> is_digit(s[i])
}

/// The number a sequence of decimal digits denotes.
pub open spec fn digits_val(s: Seq<char>) -> int
    decreases s.len(),
{
    if s.len() == 0 {
        0
    } else {
        digits_val(s.drop_last()) * 10 + digit_val(s.last())
    }
}

proof fn lemma_digits_val_nonneg(s: Seq<char>)
    requires
        all_digits(s),
    ensures
        digits_val(s) >= 0,
    decreases s.len(),
{
    if s.len() > 0 {
        assert(all_digits(s.drop_last()));
        lemma_digits_val_nonneg(s.drop_last());
    }
}

proof fn lemma_digits_val_prefix_le(s: Seq<char>, i: int)
    requires
        all_digits(s),
        0 <= i <= s.len(),
    ensures
        digits_val(s.subrange(0, i)) <= digits_val(s),
        digits_val(s) >= 0,
    decreases s.len() - i,
{
    lemma_digits_val_nonneg(s);
    if i == s.len() {
        assert(s.subrange(0, i) =~= s);
    } else {
        lemma_digits_val_prefix_le(s, i + 1);
        let p = s.subrange(0, i);
        let q = s.subrange(0, i + 1);
        assert(q.drop_last() =~= p);
        assert(all_digits(p));
        lemma_digits_val_nonneg(p);
        assert(digits_val(q) == digits_val(p) * 10 + digit_val(s[i]));
        assert(digits_val(p) <= digits_val(p) * 10);
    }
}

/// Parse a run of decimal digits within `s`, from byte-free character
/// positions `from` (inclusive) to `to` (exclusive), as a nonnegative number.
/// Yields `None` when a non-digit occurs or the value exceeds `u64::MAX`.
fn parse_digits_range(s: &str, from: usize, to: usize) -> (r: Option<u64>)
    requires
        from <= to <= s@.len(),
    ensures
        r matches Some(n) ==> all_digits(s@.subrange(from as int, to as int)) && n == digits_val(
            s@.subrange(from as int, to as int),
        ),
        r is Some <==> all_digits(s@.subrange(from as int, to as int)) && digits_val(
            s@.subrange(from as int, to as int),
        ) <= u64::MAX,
{
    let ghost whole = s@.subrange(from as int, to as int);
    let mut acc: u64 = 0;
    let mut i: usize = from;
    while i < to
        invariant
            from <= i <= to <= s@.len(),
            whole == s@.subrange(from as int, to as int),
            all_digits(s@.subrange(from as int, i as int)),
            acc == digits_val(s@.subrange(from as int, i as int)),
            acc >= 0,
        decreases to - i,
    {
        let c = s.get_char(i);
        let v = c as u32;
        proof {
            let p = s@.subrange(from as int, i as int);
            let q = s@.subrange(from as int, i + 1);
            assert(q.drop_last() =~= p);
            assert(q.last() == s@[i as int]);
        }
        if v < 48 || v > 57 {
            proof {
                assert(!is_digit(whole[i - from]));
            }
            return None;
        }
        let d = (v - 48) as u64;
        let shifted = match acc.checked_mul(10) {
            Some(m) => m,
            None => {
                proof {
                    let q = s@.subrange(from as int, i + 1);
                    assert(all_digits(q));
                    if all_digits(whole) && digits_val(whole) <= u64::MAX {
                        lemma_digits_val_prefix_le(whole, i + 1 - from);
                        assert(q =~= whole.subrange(0, i + 1 - from));
                        lemma_digits_val_nonneg(q);
                    }
                }
                return None;
            },
        };
        let next = match shifted.checked_add(d) {
            Some(a) => a,
            None => {
                proof {
                    let q = s@.subrange(from as int, i + 1);
                    assert(all_digits(q));
                    if all_digits(whole) && digits_val(whole) <= u64::MAX {
                        lemma_digits_val_prefix_le(whole, i + 1 - from);
                        assert(q =~= whole.subrange(0, i + 1 - from));
                        lemma_digits_val_nonneg(q);
                    }
                }
                return None;
            },
        };
        acc = next;
        i += 1;
    }
    proof {
        assert(s@.subrange(from as int, i as int) =~= whole);
    }
    Some(acc)
}

/// A well-formed signed decimal integer: optional leading minus, then digits.
pub open spec fn int_str_wf(s: Seq<char>) -> bool {
    if s.len() > 0 && s[0] == '-' {
        s.len() >= 2 && all_digits(s.subrange(1, s.len() as int))
    } else {
        s.len() >= 1 && all_digits(s)
    }
}

/// The number a well-formed signed decimal integer denotes.
pub open spec fn int_str_val(s: Seq<char>) -> int {
    if s.len() > 0 && s[0] == '-' {
        -digits_val(s.subrange(1, s.len() as int))
    } else {
        digits_val(s)
    }
}

/// Parse a signed decimal integer.  `None` when the string is not a plain
/// optionally-negated digit run, or its value does not fit an `i64`.
pub fn parse_int_str(s: &str) -> (r: Option<i64>)
    ensures
        r matches Some(n) ==> int_str_wf(s@) && n == int_str_val(s@),
        r is Some <==> int_str_wf(s@) && i64::MIN <= int_str_val(s@) <= i64::MAX,
{
    let n = s.unicode_len();
    if n == 0 {
        return None;
    }
    let neg = s.get_char(0) == '-';
    let start: usize = if neg {
        1
    } else {
        0
    };
    if neg && n == 1 {
        return None;
    }
    let mag = match parse_digits_range(s, start, n) {
        Some(m) => m,
        None => {
            proof {
                if !neg {
                    assert(s@.subrange(0, n as int) =~= s@);
                }
                if int_str_wf(s@) {
                    lemma_digits_val_nonneg(s@.subrange(start as int, n as int));
                }
            }
            return None;
        },
    };
    proof {
        if !neg {
            assert(s@.subrange(0, n as int) =~= s@);
        }
        lemma_digits_val_nonneg(s@.subrange(start as int, n as int));
    }
    if neg {
        if mag > 0x8000_0000_0000_0000u64 {
            None
        } else if mag == 0x8000_0000_0000_0000u64 {
            Some(i64::MIN)
        } else {
            Some(-(mag as i64))
        }
    } else {
        if mag > i64::MAX as u64 {
            None
        } else {
            Some(mag as i64)
        }
    }
}

/// Index of the first occurrence of `c` in `s`, or `s.len()` when there is
/// none.
pub open spec fn char_index(s: Seq<char>, c: char) -> int
    decreases s.len(),
{
    if s.len() == 0 {
        0
    } else if s[0] == c {
        0
    } else {
        1 + char_index(s.drop_first(), c)
    }
}

/// `char_index` is pinned by where `c` first occurs.
pub proof fn lemma_char_index_at(s: Seq<char>, c: char, i: int)
    requires
        0 <= i <= s.len(),
        forall|j: int| 0 <= j < i ==> s[j] != c,
        i == s.len() || s[i] == c,
    ensures
        char_index(s, c) == i,
    decreases i,
{
    if i == 0 {
    } else {
        assert(s[0] != c);
        lemma_char_index_at(s.drop_first(), c, i - 1);
    }
}

/// Index of the first `'.'` in `s`, or `s.len()` when there is none.
pub open spec fn dot_index(s: Seq<char>) -> int {
    char_index(s, '.')
}

proof fn lemma_dot_index_at(s: Seq<char>, i: int)
    requires
        0 <= i <= s.len(),
        forall|j: int| 0 <= j < i ==> s[j] != '.',
        i == s.len() || s[i] == '.',
    ensures
        dot_index(s) == i,
{
    lemma_char_index_at(s, '.', i);
}

/// The scaled value of a one- or two-digit fractional part, in hundredths.
pub open spec fn frac_scaled(fp: Seq<char>) -> int {
    if fp.len() == 1 {
        digits_val(fp) * 10
    } else {
        digits_val(fp)
    }
}

/// A well-formed money amount: digits, optionally followed by a dot and one
/// or two fractional digits.
pub open spec fn money_wf(s: Seq<char>) -> bool {
    let d = dot_index(s);
    d >= 1 && all_digits(s.subrange(0, d)) && (d == s.len() || (1 <= s.len() - d - 1 <= 2
        && all_digits(s.subrange(d + 1, s.len() as int))))
}

/// The amount a well-formed money string denotes, in hundredths.
pub open spec fn money_cents(s: Seq<char>) -> int {
    let d = dot_index(s);
    if d == s.len() {
        digits_val(s) * 100
    } else {
        digits_val(s.subrange(0, d)) * 100 + frac_scaled(s.subrange(d + 1, s.len() as int))
    }
}

/// Parse a money amount into hundredths.  `None` when the string is not
/// digits with an optional one- or two-digit fraction, or the amount exceeds
/// `i64::MAX` hundredths.
pub fn parse_money_str(s: &str) -> (r: Option<i64>)
    ensures
        r matches Some(n) ==> money_wf(s@) && n == money_cents(s@) && n >= 0,
        r is Some <==> money_wf(s@) && money_cents(s@) <= i64::MAX,
{
    let n = s.unicode_len();
    let mut i: usize = 0;
    while i < n
        invariant
            i <= n,
            n == s@.len(),
            forall|j: int| 0 <= j < i ==> s@[j] != '.',
        ensures
            i <= n,
            n == s@.len(),
            forall|j: int| 0 <= j < i ==> s@[j] != '.',
            i == n || s@[i as int] == '.',
        decreases n - i,
    {
        if s.get_char(i) == '.' {
            break ;
        }
        i += 1;
    }
    let d = i;
    proof {
        lemma_dot_index_at(s@, d as int);
    }
    if d == 0 {
        return None;
    }
    let ghost ipart = s@.subrange(0, d as int);
    let ival = match parse_digits_range(s, 0, d) {
        Some(v) => v,
        None => {
            proof {
                if money_wf(s@) {
                    assert(all_digits(ipart));
                    lemma_digits_val_nonneg(ipart);
                    assert(digits_val(ipart) > i64::MAX);
                    if d == n {
                        assert(ipart =~= s@);
                        assert(money_cents(s@) == digits_val(s@) * 100);
                    } else {
                        let fp = s@.subrange(d + 1, n as int);
                        assert(all_digits(fp));
                        lemma_digits_val_nonneg(fp);
                        assert(frac_scaled(fp) >= 0);
                    }
                    assert(money_cents(s@) > i64::MAX);
                }
            }
            return None;
        },
    };
    proof {
        lemma_digits_val_nonneg(ipart);
    }
    if d == n {
        proof {
            assert(ipart =~= s@);
        }
        match ival.checked_mul(100) {
            Some(c) => {
                if c <= i64::MAX as u64 {
                    Some(c as i64)
                } else {
                    None
                }
            },
            None => None,
        }
    } else {
        let flen = n - d - 1;
        if flen < 1 || flen > 2 {
            return None;
        }
        let ghost fpart = s@.subrange(d + 1, n as int);
        let fval = match parse_digits_range(s, d + 1, n) {
            Some(v) => v,
            None => {
                return None;
            },
        };
        proof {
            lemma_digits_val_nonneg(fpart);
            if fpart.len() == 1 {
                assert(digits_val(fpart.drop_last()) == 0);
                assert(digits_val(fpart) == digits_val(fpart.drop_last()) * 10 + digit_val(
                    fpart.last(),
                ));
                assert(digits_val(fpart) <= 9);
            } else {
                let f0 = fpart.drop_last();
                assert(f0.len() == 1);
                assert(digits_val(f0.drop_last()) == 0);
                assert(digits_val(f0) == digits_val(f0.drop_last()) * 10 + digit_val(f0.last()));
                assert(is_digit(f0.last()));
                assert(digits_val(f0) <= 9);
                assert(digits_val(fpart) == digits_val(f0) * 10 + digit_val(fpart.last()));
                assert(digits_val(fpart) <= 99);
            }
        }
        let scaled: u64 = if flen == 1 {
            fval * 10
        } else {
            fval
        };
        let shifted = match ival.checked_mul(100) {
            Some(m) => m,
            None => {
                return None;
            },
        };
        match shifted.checked_add(scaled) {
            Some(c) => {
                if c <= i64::MAX as u64 {
                    Some(c as i64)
                } else {
                    None
                }
            },
            None => None,
        }
    }
}

} // verus!
