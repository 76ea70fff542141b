//! Text scanning primitives for decoding the bootloader's variable listing:
//! finding line breaks, searching for a key, locating the last `=` of an
//! assignment, and parsing a signed decimal integer exactly as the
//! counter's type accepts it (optional sign, at least one digit, nothing
//! else, value in range).

use vstd::prelude::*;

verus! {

pub open spec fn is_digit_char(c: char) -> bool {
    '0' as int <= c as int <= '9' as int
}

pub open spec fn digit_val(c: char) -> int {
    c as int - '0' as int
}

pub open spec fn all_digits(s: Seq<char>) -> bool {
    forall|i: int| 0 <= i < s.len() ==> is_digit_char(#[trigger] s[i])
}

/// The number denoted by a sequence of decimal digits, most significant
/// first.
pub open spec fn digits_val(s: Seq<char>) -> int
    decreases s.len(),
{
    if s.len() == 0 {
        0
    } else {
        digits_val(s.drop_last()) * 10 + digit_val(s.last())
    }
}

/// The value of a decimal string under the counter type's own parsing
/// rules: an optional `+` or `-`, then one or more digits and nothing
/// else, denoting a value within the type's range.
pub open spec fn spec_parse_i32(s: Seq<char>) -> Option<int> {
    let signed = s.len() > 0 && (s[0] == '+' || s[0] == '-');
    let digits = if signed {
        s.subrange(1, s.len() as int)
    } else {
        s
    };
    let sign: int = if s.len() > 0 && s[0] == '-' {
        -1
    } else {
        1
    };
    if digits.len() == 0 || !all_digits(digits) {
        None
    } else {
        let v = sign * digits_val(digits);
        if i32::MIN <= v <= i32::MAX {
            Some(v)
        } else {
            None
        }
    }
}

proof fn lemma_digits_val_nonneg(s: Seq<char>)
    requires
        all_digits(s),
    ensures
        digits_val(s) >= 0,
    decreases s.len(),
{
    if s.len() > 0 {
        assert(all_digits(s.drop_last()));
        lemma_digits_val_nonneg(s.drop_last());
    }
}

/// The digit character denoting `d`.
pub open spec fn digit_of(d: nat) -> char {
    ((48 + d) as u8) as char
}

/// The decimal rendering of `n`, most significant digit first, without
/// sign or padding.
pub open spec fn dec_rep(n: nat) -> Seq<char>
    decreases n,
{
    if n < 10 {
        seq![digit_of(n)]
    } else {
        dec_rep(n / 10).push(digit_of(n % 10))
    }
}

/// The one-character text of a single digit.
fn digit_str(d: u64) -> (r: &'static str)
    requires
        d < 10,
    ensures
        r@ == seq![digit_of(d as nat)],
{
    let r: &'static str = match d {
        0 => "0",
        1 => "1",
        2 => "2",
        3 => "3",
        4 => "4",
        5 => "5",
        6 => "6",
        7 => "7",
        8 => "8",
        _ => "9",
    };
    proof {
        reveal_strlit("0");
        reveal_strlit("1");
        reveal_strlit("2");
        reveal_strlit("3");
        reveal_strlit("4");
        reveal_strlit("5");
        reveal_strlit("6");
        reveal_strlit("7");
        reveal_strlit("8");
        reveal_strlit("9");
        assert(r@ =~= seq![digit_of(d as nat)]);
    }
    r
}

/// Renders `n` in decimal, exactly as [`dec_rep`] states it.
pub fn format_u64(n: u64) -> (r: String)
    ensures
        r@ == dec_rep(n as nat),
    decreases n,
{
    if n < 10 {
        String::from_str(digit_str(n))
    } else {
        let prefix = format_u64(n / 10);
        let r = prefix.concat(digit_str(n % 10));
        proof {
            assert(dec_rep((n / 10) as nat) + seq![digit_of((n % 10) as nat)] =~= dec_rep(
                (n / 10) as nat,
            ).push(digit_of((n % 10) as nat)));
        }
        r
    }
}

/// Index of the first line break, if any.
pub open spec fn first_nl(s: Seq<char>) -> Option<int>
    decreases s.len(),
{
    if s.len() == 0 {
        None
    } else if s[0] == '\n' {
        Some(0)
    } else {
        match first_nl(s.drop_first()) {
            Some(i) => Some(i + 1),
            None => None,
        }
    }
}

pub proof fn lemma_first_nl_characterizes(s: Seq<char>)
    ensures
        match first_nl(s) {
            Some(i) => 0 <= i < s.len() && s[i] == '\n' && (forall|k: int|
                0 <= k < i ==> s[k] != '\n'),
            None => forall|k: int| 0 <= k < s.len() ==> s[k] != '\n',
        },
    decreases s.len(),
{
    if s.len() > 0 && s[0] != '\n' {
        let rest = s.drop_first();
        lemma_first_nl_characterizes(rest);
        assert(forall|k: int| 0 <= k < rest.len() ==> (#[trigger] rest[k]) == s[k + 1]);
        match first_nl(rest) {
            Some(i) => {
                assert(s[i + 1] == '\n');
                assert forall|k: int| 0 <= k < i + 1 implies s[k] != '\n' by {
                    if k > 0 {
                        assert(rest[k - 1] != '\n');
                    }
                }
            },
            None => {
                assert forall|k: int| 0 <= k < s.len() implies s[k] != '\n' by {
                    if k > 0 {
                        assert(rest[k - 1] != '\n');
                    }
                }
            },
        }
    }
}

/// Index of the last `=`, if any.
pub open spec fn last_eq(s: Seq<char>) -> Option<int>
    decreases s.len(),
{
    if s.len() == 0 {
        None
    } else if s.last() == '=' {
        Some(s.len() - 1)
    } else {
        last_eq(s.drop_last())
    }
}

pub proof fn lemma_last_eq_characterizes(s: Seq<char>)
    ensures
        match last_eq(s) {
            Some(i) => 0 <= i < s.len() && s[i] == '=' && (forall|k: int|
                i < k < s.len() ==> s[k] != '='),
            None => forall|k: int| 0 <= k < s.len() ==> s[k] != '=',
        },
    decreases s.len(),
{
    if s.len() > 0 && s.last() != '=' {
        let rest = s.drop_last();
        lemma_last_eq_characterizes(rest);
        assert(forall|k: int| 0 <= k < rest.len() ==> (#[trigger] rest[k]) == s[k]);
        match last_eq(rest) {
            Some(i) => {
                assert forall|k: int| i < k < s.len() implies s[k] != '=' by {
                    if k < s.len() - 1 {
                        assert(rest[k] != '=');
                    }
                }
            },
            None => {
                assert forall|k: int| 0 <= k < s.len() implies s[k] != '=' by {
                    if k < s.len() - 1 {
                        assert(rest[k] != '=');
                    }
                }
            },
        }
    }
}

/// `pat` occurs somewhere in `s`.
pub open spec fn contains_pat(s: Seq<char>, pat: Seq<char>) -> bool {
    exists|k: int|
        0 <= k && k + pat.len() <= s.len() && (#[trigger] s.subrange(k, k + pat.len())) == pat
}

/// First line break at or after `from`, scanning bytes of the character
/// sequence.
pub fn find_newline(s: &str, from: usize) -> (r: Option<usize>)
    requires
        from <= s@.len(),
    ensures
        match r {
            Some(i) => from <= i < s@.len() && s@[i as int] == '\n' && (forall|k: int|
                from <= k < i ==> s@[k] != '\n'),
            None => forall|k: int| from <= k < s@.len() ==> s@[k] != '\n',
        },
{
    let n = s.unicode_len();
    let mut i: usize = from;
    while i < n
        invariant
            from <= i <= n,
            n == s@.len(),
            forall|k: int| from <= k < i ==> s@[k] != '\n',
        decreases n - i,
    {
        if s.get_char(i) == '\n' {
            return Some(i);
        }
        i = i + 1;
    }
    None
}

/// Last `=` in `[lo, hi)`, if any.
pub fn rfind_eq(s: &str, lo: usize, hi: usize) -> (r: Option<usize>)
    requires
        lo <= hi <= s@.len(),
    ensures
        match r {
            Some(i) => lo <= i < hi && s@[i as int] == '=' && (forall|k: int|
                i < k < hi ==> s@[k] != '='),
            None => forall|k: int| lo <= k < hi ==> s@[k] != '=',
        },
{
    let mut i: usize = hi;
    while i > lo
        invariant
            lo <= i <= hi,
            hi <= s@.len(),
            forall|k: int| i <= k < hi ==> s@[k] != '=',
        decreases i,
    {
        i = i - 1;
        if s.get_char(i) == '=' {
            return Some(i);
        }
    }
    None
}

/// Does `pat` occur as a block of consecutive characters at position `at`?
fn match_at(s: &str, at: usize, pat: &str) -> (b: bool)
    requires
        at + pat@.len() <= s@.len(),
    ensures
        b == (s@.subrange(at as int, at + pat@.len()) == pat@),
{
    let n = s.unicode_len();
    let plen = pat.unicode_len();
    let mut j: usize = 0;
    while j < plen
        invariant
            j <= plen,
            n == s@.len(),
            plen == pat@.len(),
            at + plen <= s@.len(),
            forall|k: int| 0 <= k < j ==> s@[at + k] == pat@[k],
        decreases plen - j,
    {
        if s.get_char(at + j) != pat.get_char(j) {
            proof {
                assert(s@.subrange(at as int, at + pat@.len())[j as int] != pat@[j as int]);
            }
            return false;
        }
        j = j + 1;
    }
    proof {
        assert(s@.subrange(at as int, at + pat@.len()) =~= pat@);
    }
    true
}

/// Does `pat` occur anywhere within `s[lo..hi]`?
pub fn contains_in_range(s: &str, lo: usize, hi: usize, pat: &str) -> (b: bool)
    requires
        lo <= hi <= s@.len(),
    ensures
        b == contains_pat(s@.subrange(lo as int, hi as int), pat@),
{
    let ghost seg = s@.subrange(lo as int, hi as int);
    let plen = pat.unicode_len();
    if hi - lo < plen {
        proof {
            assert(!contains_pat(seg, pat@));
        }
        return false;
    }
    if plen == 0 {
        proof {
            assert(seg.subrange(0, 0 + pat@.len() as int) =~= pat@);
            assert(contains_pat(seg, pat@));
        }
        return true;
    }
    let last_start = hi - plen;
    let mut k: usize = lo;
    while k <= last_start
        invariant
            lo <= k,
            k <= last_start + 1,
            last_start == hi - plen,
            1 <= plen,
            lo <= hi <= s@.len(),
            plen == pat@.len(),
            plen <= hi - lo,
            seg == s@.subrange(lo as int, hi as int),
            forall|m: int| lo <= m < k ==> (#[trigger] s@.subrange(m, m + pat@.len())) != pat@,
        decreases hi - k,
    {
        if match_at(s, k, pat) {
            proof {
                assert(seg.subrange(k - lo, k - lo + pat@.len()) =~= s@.subrange(
                    k as int,
                    k + pat@.len(),
                ));
            }
            return true;
        }
        k = k + 1;
    }
    proof {
        assert forall|k0: int| 0 <= k0 && k0 + pat@.len() <= seg.len() implies (
        #[trigger] seg.subrange(k0, k0 + pat@.len())) != pat@ by {
            assert(seg.subrange(k0, k0 + pat@.len()) =~= s@.subrange(
                lo + k0,
                lo + k0 + pat@.len(),
            ));
        }
    }
    false
}

/// Parses `s[lo..hi]` as a signed decimal integer, accepting exactly what
/// [`spec_parse_i32`] accepts.
#[verifier::loop_isolation(false)]
pub fn parse_i32_range(s: &str, lo: usize, hi: usize) -> (r: Option<i32>)
    requires
        lo <= hi <= s@.len(),
    ensures
        r is Some <==> spec_parse_i32(s@.subrange(lo as int, hi as int)) is Some,
        r is Some ==> spec_parse_i32(s@.subrange(lo as int, hi as int)) == Some(r->0 as int),
{
    let ghost seg = s@.subrange(lo as int, hi as int);
    if lo == hi {
        return None;
    }
    let c0 = s.get_char(lo);
    let neg = c0 == '-';
    let start = if c0 == '-' || c0 == '+' {
        lo + 1
    } else {
        lo
    };
    let ghost digits = s@.subrange(start as int, hi as int);
    proof {
        if start > lo {
            assert(digits =~= seg.subrange(1, seg.len() as int));
        } else {
            assert(digits =~= seg);
        }
    }
    if start == hi {
        return None;
    }
    let mut i: usize = start;
    let mut acc: u64 = 0;
    let mut overflow = false;
    while i < hi
        invariant
            start <= i <= hi,
            hi <= s@.len(),
            digits == s@.subrange(start as int, hi as int),
            forall|k: int| start <= k < i ==> is_digit_char(#[trigger] s@[k]),
            !overflow ==> acc == digits_val(s@.subrange(start as int, i as int)) && acc
                <= 2147483648,
            overflow ==> digits_val(s@.subrange(start as int, i as int)) > 2147483648,
        decreases hi - i,
    {
        let c = s.get_char(i);
        let code = c as u32;
        if code < 48 || code > 57 {
            proof {
                assert(c as int == code as int);
                assert(!is_digit_char(s@[i as int]));
                assert(digits[i - start] == s@[i as int]);
                assert(!all_digits(digits));
                assert(spec_parse_i32(seg) is None);
            }
            return None;
        }
        let d = (code - 48) as u64;
        let ghost pref = s@.subrange(start as int, i as int);
        let ghost pref1 = s@.subrange(start as int, i + 1);
        proof {
            assert(pref1 =~= pref.push(s@[i as int]));
            assert(pref1.drop_last() =~= pref);
            assert(digits_val(pref1) == digits_val(pref) * 10 + digit_val(s@[i as int]));
            assert(all_digits(pref));
            lemma_digits_val_nonneg(pref);
        }
        if overflow {
            proof {
                assert(digits_val(pref) > 2147483648);
                assert(digits_val(pref1) > 2147483648);
            }
        } else {
            acc = acc * 10 + d;
            if acc > 2147483648 {
                overflow = true;
            }
        }
        i = i + 1;
    }
    proof {
        assert(s@.subrange(start as int, i as int) == digits);
        assert(all_digits(digits));
    }
    if overflow {
        proof {
            lemma_digits_val_nonneg(digits);
            let dv = digits_val(digits);
            assert(dv > 2147483648);
            assert((-1) * dv == -dv) by (nonlinear_arith);
            assert(1 * dv == dv) by (nonlinear_arith);
            assert(seg.len() > 0);
            assert(spec_parse_i32(seg) is None);
        }
        return None;
    }
    if neg {
        let v: i64 = -(acc as i64);
        proof {
            assert(seg[0] == '-');
            let dv = digits_val(digits);
            assert((-1) * dv == -dv) by (nonlinear_arith);
            assert(spec_parse_i32(seg) == Some(-dv));
        }
        Some(v as i32)
    } else {
        if acc > 2147483647 {
            proof {
                let dv = digits_val(digits);
                assert(1 * dv == dv) by (nonlinear_arith);
                assert(spec_parse_i32(seg) is None);
            }
            return None;
        }
        proof {
            if seg[0] == '-' {
                assert(false);
            }
            let dv = digits_val(digits);
            assert(1 * dv == dv) by (nonlinear_arith);
        }
        Some(acc as i32)
    }
}

} // verus!
