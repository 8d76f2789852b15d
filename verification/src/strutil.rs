//! Character-level string utilities with exact contracts.
//!
//! Everything in this crate that inspects or builds text goes through the
//! functions here, so their specifications are stated once over `Seq<char>`
//! views and reused by the higher-level contracts.

use vstd::prelude::*;

verus! {

/// Spec: `c` is an ASCII decimal digit.
pub open spec fn is_digit(c: char) -> bool {
    48 <= (c as u32) && (c as u32) <= 57
}

/// Spec: numeric value of a digit character.
pub open spec fn digit_val(c: char) -> nat
    recommends
        is_digit(c),
{
    ((c as u32) - 48) as nat
}

/// Spec: every character of `s` is an ASCII decimal digit.
pub open spec fn all_digits(s: Seq<char>) -> bool {
    forall|i: int| 0 <= i < s.len() ==> is_digit(#[trigger] s[i])
}

/// Spec: value of a digit string read in base ten.
pub open spec fn digits_val(s: Seq<char>) -> nat
    decreases s.len(),
{
    if s.len() == 0 {
        0
    } else {
        digits_val(s.drop_last()) * 10 + digit_val(s.last())
    }
}

/// Spec: digit character for a value below ten.
pub open spec fn digit_char(d: nat) -> char
    recommends
        d < 10,
{
    if d == 0 {
        '0'
    } else if d == 1 {
        '1'
    } else if d == 2 {
        '2'
    } else if d == 3 {
        '3'
    } else if d == 4 {
        '4'
    } else if d == 5 {
        '5'
    } else if d == 6 {
        '6'
    } else if d == 7 {
        '7'
    } else if d == 8 {
        '8'
    } else {
        '9'
    }
}

/// Spec: decimal representation of `n`, without sign or leading zeros
/// (except for `n == 0`, which is written `"0"`).
pub open spec fn dec_rep(n: nat) -> Seq<char>
    decreases n,
{
    if n < 10 {
        seq![digit_char(n)]
    } else {
        dec_rep(n / 10).push(digit_char(n % 10))
    }
}

/// The decimal representation consists of digits and is never empty.
pub proof fn lemma_dec_rep_digits(n: nat)
    ensures
        dec_rep(n).len() >= 1,
        all_digits(dec_rep(n)),
    decreases n,
{
    if n >= 10 {
        lemma_dec_rep_digits(n / 10);
        assert forall|i: int| 0 <= i < dec_rep(n).len() implies is_digit(#[trigger] dec_rep(n)[i]) by {
            if i < dec_rep(n / 10).len() {
                assert(dec_rep(n)[i] == dec_rep(n / 10)[i]);
            }
        }
    }
}

/// The digit character of a value below ten reads back as that value.
pub proof fn lemma_digit_char_val(d: nat)
    requires
        d < 10,
    ensures
        is_digit(digit_char(d)),
        digit_val(digit_char(d)) == d,
{
}

/// Reading the decimal representation back gives the number itself.
pub proof fn lemma_dec_rep_val(n: nat)
    ensures
        digits_val(dec_rep(n)) == n,
    decreases n,
{
    let s = dec_rep(n);
    if n < 10 {
        lemma_digit_char_val(n);
        assert(s.drop_last() =~= Seq::<char>::empty());
        assert(s.last() == digit_char(n));
        assert(digits_val(s) == digits_val(s.drop_last()) * 10 + digit_val(s.last()));
        assert(digits_val(s.drop_last()) == 0);
    } else {
        lemma_dec_rep_val(n / 10);
        lemma_digit_char_val(n % 10);
        assert(s.drop_last() =~= dec_rep(n / 10));
        assert(s.last() == digit_char(n % 10));
        assert(digits_val(s) == digits_val(s.drop_last()) * 10 + digit_val(s.last()));
        assert(digits_val(s) == (n / 10) * 10 + (n % 10));
    }
}

/// Single-digit string for a value below ten.
pub fn digit_str(d: usize) -> (r: &'static str)
    requires
        d < 10,
    ensures
        r@ =~= seq![digit_char(d as nat)],
{
    proof {
        reveal_strlit("0");
        reveal_strlit("1");
        reveal_strlit("2");
        reveal_strlit("3");
        reveal_strlit("4");
        reveal_strlit("5");
        reveal_strlit("6");
        reveal_strlit("7");
        reveal_strlit("8");
        reveal_strlit("9");
    }
    match d {
        0 => "0",
        1 => "1",
        2 => "2",
        3 => "3",
        4 => "4",
        5 => "5",
        6 => "6",
        7 => "7",
        8 => "8",
        _ => "9",
    }
}

/// Decimal rendering of an unsigned integer.
pub fn usize_to_string(n: usize) -> (r: String)
    ensures
        r@ == dec_rep(n as nat),
    decreases n,
{
    if n < 10 {
        digit_str(n).to_owned()
    } else {
        let mut s = usize_to_string(n / 10);
        s.append(digit_str(n % 10));
        proof {
            assert(s@ =~= dec_rep(n as nat));
        }
        s
    }
}

/// Character-wise equality of two string slices.
pub fn str_eq(a: &str, b: &str) -> (r: bool)
    ensures
        r == (a@ == b@),
{
    let na = a.unicode_len();
    let nb = b.unicode_len();
    if na != nb {
        return false;
    }
    let mut i: usize = 0;
    while i < na
        invariant
            i <= na,
            na == a@.len(),
            na == b@.len(),
            forall|j: int| 0 <= j < i ==> a@[j] == b@[j],
        decreases na - i,
    {
        if a.get_char(i) != b.get_char(i) {
            return false;
        }
        i += 1;
    }
    proof {
        assert(a@ =~= b@);
    }
    true
}

/// Does `pat` occur in `s` starting at position `i`?
pub open spec fn match_at_spec(s: Seq<char>, i: int, pat: Seq<char>) -> bool {
    0 <= i && i + pat.len() <= s.len() && s.subrange(i, i + pat.len()) == pat
}

/// Check whether `pat` occurs in `s` at position `i`.
pub fn match_at(s: &str, i: usize, pat: &str) -> (r: bool)
    requires
        i <= s@.len(),
    ensures
        r == match_at_spec(s@, i as int, pat@),
{
    let n = s.unicode_len();
    let p = pat.unicode_len();
    if p > n - i {
        return false;
    }
    let mut j: usize = 0;
    while j < p
        invariant
            j <= p,
            p == pat@.len(),
            n == s@.len(),
            i + p <= n,
            forall|k: int| 0 <= k < j ==> s@[i + k] == pat@[k],
        decreases p - j,
    {
        if s.get_char(i + j) != pat.get_char(j) {
            proof {
                assert(s@.subrange(i as int, i + pat@.len())[j as int] == s@[i + j]);
            }
            return false;
        }
        j += 1;
    }
    proof {
        assert(s@.subrange(i as int, i + pat@.len()) =~= pat@);
    }
    true
}

/// A digit character is recovered from its value.
pub proof fn lemma_digit_char_inverse(c: char)
    requires
        is_digit(c),
    ensures
        digit_val(c) < 10,
        digit_char(digit_val(c)) == c,
{
    if c as u32 == 48 {
        assert(c == '0');
    } else if c as u32 == 49 {
        assert(c == '1');
    } else if c as u32 == 50 {
        assert(c == '2');
    } else if c as u32 == 51 {
        assert(c == '3');
    } else if c as u32 == 52 {
        assert(c == '4');
    } else if c as u32 == 53 {
        assert(c == '5');
    } else if c as u32 == 54 {
        assert(c == '6');
    } else if c as u32 == 55 {
        assert(c == '7');
    } else if c as u32 == 56 {
        assert(c == '8');
    } else {
        assert(c == '9');
    }
}

/// A non-empty digit string that does not start with a zero reads as a
/// positive value.
pub proof fn lemma_digits_val_pos(s: Seq<char>)
    requires
        all_digits(s),
        s.len() >= 1,
        digit_val(s[0]) >= 1,
    ensures
        digits_val(s) >= 1,
    decreases s.len(),
{
    if s.len() == 1 {
        assert(s.last() == s[0]);
    } else {
        lemma_digits_val_pos(s.drop_last());
        assert(s.drop_last()[0] == s[0]);
        assert(digits_val(s.drop_last()) * 10 >= 10) by (nonlinear_arith)
            requires
                digits_val(s.drop_last()) >= 1,
        ;
    }
}

/// The decimal representation of a value of ten or more does not start
/// with a zero.
pub proof fn lemma_dec_rep_no_leading_zero(n: nat)
    requires
        n >= 10,
    ensures
        digit_val(dec_rep(n)[0]) >= 1,
    decreases n,
{
    assert(dec_rep(n)[0] == dec_rep(n / 10)[0]);
    if n / 10 >= 10 {
        lemma_dec_rep_no_leading_zero(n / 10);
    } else {
        lemma_digit_char_val(n / 10);
    }
}

/// A non-empty digit string without a leading zero is exactly the decimal
/// representation of its value.
pub proof fn lemma_canonical_digits(s: Seq<char>)
    requires
        all_digits(s),
        s.len() >= 1,
        s.len() > 1 ==> digit_val(s[0]) >= 1,
    ensures
        s == dec_rep(digits_val(s)),
    decreases s.len(),
{
    if s.len() == 1 {
        lemma_digit_char_inverse(s[0]);
        assert(s.last() == s[0]);
        assert(s.drop_last() =~= Seq::<char>::empty());
        assert(digits_val(s) == digits_val(s.drop_last()) * 10 + digit_val(s.last()));
        assert(digits_val(s.drop_last()) == 0);
        assert(digits_val(s) == digit_val(s[0]));
        assert(s =~= seq![digit_char(digits_val(s))]);
    } else {
        let front = s.drop_last();
        lemma_canonical_digits(front);
        lemma_digits_val_pos(front);
        lemma_digit_char_inverse(s.last());
        let v = digits_val(s);
        assert(v == digits_val(front) * 10 + digit_val(s.last()));
        assert(digits_val(front) * 10 >= 10) by (nonlinear_arith)
            requires
                digits_val(front) >= 1,
        ;
        assert(v / 10 == digits_val(front) && v % 10 == digit_val(s.last())) by (nonlinear_arith)
            requires
                v == digits_val(front) * 10 + digit_val(s.last()),
                digit_val(s.last()) < 10,
        ;
        assert(dec_rep(v) == dec_rep(v / 10).push(digit_char(v % 10)));
        assert(s =~= front.push(s.last()));
    }
}

/// A prefix of a digit string never reads as more than the whole string.
pub proof fn lemma_digits_val_prefix(s: Seq<char>, i: int)
    requires
        0 <= i <= s.len(),
    ensures
        digits_val(s.take(i)) <= digits_val(s),
    decreases s.len() - i,
{
    if i < s.len() {
        lemma_digits_val_prefix(s, i + 1);
        assert(s.take(i + 1).drop_last() =~= s.take(i));
        assert(digits_val(s.take(i + 1)) == digits_val(s.take(i)) * 10 + digit_val(s.take(i + 1).last()));
        assert(digits_val(s.take(i)) * 10 >= digits_val(s.take(i))) by (nonlinear_arith);
    } else {
        assert(s.take(i) =~= s);
    }
}

/// Parse a string of decimal digits as a `usize`.
///
/// Succeeds exactly on non-empty all-digit strings whose value fits in
/// `usize`; anything else (signs, spaces, other characters, overflow)
/// yields `None`.
pub fn parse_usize(s: &str) -> (r: Option<usize>)
    ensures
        match r {
            Some(v) => s@.len() > 0 && all_digits(s@) && v as nat == digits_val(s@),
            None => s@.len() == 0 || !all_digits(s@) || digits_val(s@) > usize::MAX as nat,
        },
{
    let n = s.unicode_len();
    if n == 0 {
        return None;
    }
    let mut acc: usize = 0;
    let mut i: usize = 0;
    while i < n
        invariant
            i <= n,
            n == s@.len(),
            n > 0,
            forall|j: int| 0 <= j < i ==> is_digit(#[trigger] s@[j]),
            acc as nat == digits_val(s@.take(i as int)),
        decreases n - i,
    {
        let c = s.get_char(i);
        let cv = c as u32;
        if cv < 48 || cv > 57 {
            assert(!is_digit(s@[i as int]));
            return None;
        }
        let d = (cv - 48) as usize;
        proof {
            assert(s@.take(i + 1).drop_last() =~= s@.take(i as int));
            assert(s@.take(i + 1).last() == s@[i as int]);
        }
        if acc > (usize::MAX - d) / 10 {
            proof {
                let m = usize::MAX as int;
                assert(acc as int * 10 + d > m) by (nonlinear_arith)
                    requires
                        acc as int > (m - d) / 10,
                        0 <= d <= 9,
                        m >= 10,
                {
                    let q = (m - d) / 10;
                    assert(m - d == 10 * q + (m - d) % 10);
                }
                assert(digits_val(s@.take(i + 1)) > usize::MAX as nat);
                lemma_digits_val_prefix(s@, i + 1);
            }
            return None;
        }
        proof {
            let m = usize::MAX as int;
            assert(acc as int * 10 + d <= m) by (nonlinear_arith)
                requires
                    acc as int <= (m - d) / 10,
                    0 <= d <= 9,
                    m >= 10,
            {
                let q = (m - d) / 10;
                assert(m - d == 10 * q + (m - d) % 10);
            }
        }
        acc = acc * 10 + d;
        i += 1;
    }
    proof {
        assert(s@.take(n as int) =~= s@);
    }
    Some(acc)
}

/// Spec: `s` with every non-overlapping occurrence of `pat`, scanned from
/// the left, replaced by `rep`.
pub open spec fn replace_all_spec(s: Seq<char>, pat: Seq<char>, rep: Seq<char>) -> Seq<char>
    decreases s.len(),
{
    if pat.len() == 0 || s.len() < pat.len() {
        s
    } else if s.take(pat.len() as int) == pat {
        rep + replace_all_spec(s.skip(pat.len() as int), pat, rep)
    } else {
        seq![s[0]] + replace_all_spec(s.skip(1), pat, rep)
    }
}

/// Replace every occurrence of `pat` in `s` by `rep`, left to right and
/// without overlap.
pub fn replace_all(s: &str, pat: &str, rep: &str) -> (r: String)
    requires
        pat@.len() > 0,
    ensures
        r@ == replace_all_spec(s@, pat@, rep@),
{
    let n = s.unicode_len();
    let p = pat.unicode_len();
    let mut out = String::new();
    let mut i: usize = 0;
    proof {
        assert(s@.skip(0) =~= s@);
        assert(Seq::<char>::empty() + replace_all_spec(s@, pat@, rep@) =~= replace_all_spec(
            s@,
            pat@,
            rep@,
        ));
    }
    while i < n
        invariant
            i <= n,
            n == s@.len(),
            p == pat@.len(),
            p > 0,
            replace_all_spec(s@, pat@, rep@) == out@ + replace_all_spec(
                s@.skip(i as int),
                pat@,
                rep@,
            ),
        decreases n - i,
    {
        let ghost tail = s@.skip(i as int);
        let ghost prefix = out@;
        if match_at(s, i, pat) {
            out.append(rep);
            proof {
                let rest = replace_all_spec(s@.skip(i + p), pat@, rep@);
                assert(tail.take(p as int) =~= s@.subrange(i as int, i + p));
                assert(tail.skip(p as int) =~= s@.skip(i + p));
                assert(replace_all_spec(tail, pat@, rep@) == rep@ + rest);
                assert(prefix + (rep@ + rest) =~= out@ + rest);
            }
            i += p;
        } else {
            push_char_from(&mut out, s, i);
            proof {
                let rest = replace_all_spec(s@.skip(i + 1), pat@, rep@);
                assert(tail.skip(1) =~= s@.skip(i + 1));
                assert(tail[0] == s@[i as int]);
                if i + p <= n {
                    assert(tail.take(p as int) =~= s@.subrange(i as int, i + p));
                    assert(replace_all_spec(tail, pat@, rep@) == seq![s@[i as int]] + rest);
                } else {
                    assert(tail.len() < p);
                    assert(replace_all_spec(tail, pat@, rep@) == tail);
                    assert(s@.skip(i + 1).len() < p);
                    assert(replace_all_spec(tail, pat@, rep@) =~= seq![s@[i as int]] + rest);
                }
                assert(prefix + (seq![s@[i as int]] + rest) =~= out@ + rest);
            }
            i += 1;
        }
    }
    proof {
        assert(s@.skip(n as int) =~= Seq::<char>::empty());
        assert(out@ + replace_all_spec(Seq::<char>::empty(), pat@, rep@) =~= out@);
    }
    out
}

/// First position at which `pat` occurs in `s`, if any.
pub fn find_first(s: &str, pat: &str) -> (r: Option<usize>)
    requires
        pat@.len() > 0,
    ensures
        match r {
            Some(i) => match_at_spec(s@, i as int, pat@) && forall|j: int|
                0 <= j < i ==> !match_at_spec(s@, j, pat@),
            None => forall|j: int| !match_at_spec(s@, j, pat@),
        },
{
    let n = s.unicode_len();
    let mut i: usize = 0;
    while i < n
        invariant
            i <= n,
            n == s@.len(),
            pat@.len() > 0,
            forall|j: int| 0 <= j < i ==> !match_at_spec(s@, j, pat@),
        decreases n - i,
    {
        if match_at(s, i, pat) {
            return Some(i);
        }
        i += 1;
    }
    None
}

/// Last position at or before `limit` at which `pat` occurs in `s`, if any.
pub fn find_last_at_or_before(s: &str, pat: &str, limit: usize) -> (r: Option<usize>)
    requires
        pat@.len() > 0,
        limit < usize::MAX,
        limit <= s@.len(),
    ensures
        match r {
            Some(i) => i <= limit && match_at_spec(s@, i as int, pat@) && forall|j: int|
                i < j <= limit ==> !match_at_spec(s@, j, pat@),
            None => forall|j: int| 0 <= j <= limit ==> !match_at_spec(s@, j, pat@),
        },
{
    let mut best: Option<usize> = None;
    let mut i: usize = 0;
    while i <= limit
        invariant
            i <= limit + 1,
            limit < usize::MAX,
            limit <= s@.len(),
            pat@.len() > 0,
            match best {
                Some(k) => k < i && match_at_spec(s@, k as int, pat@) && forall|j: int|
                    k < j < i ==> !match_at_spec(s@, j, pat@),
                None => forall|j: int| 0 <= j < i ==> !match_at_spec(s@, j, pat@),
            },
        decreases limit + 1 - i,
    {
        if match_at(s, i, pat) {
            best = Some(i);
        }
        i += 1;
    }
    best
}

/// Spec: end of the run of digit characters that starts at `i`.
pub open spec fn digits_end(s: Seq<char>, i: int) -> int
    decreases s.len() - i,
{
    if 0 <= i < s.len() && is_digit(s[i]) {
        digits_end(s, i + 1)
    } else {
        i
    }
}

/// What `digits_end` returns: the first position at or after `i` that does
/// not hold a digit.
pub proof fn lemma_digits_end_props(s: Seq<char>, i: int)
    requires
        0 <= i <= s.len(),
    ensures
        i <= digits_end(s, i) <= s.len(),
        forall|j: int| i <= j < digits_end(s, i) ==> is_digit(#[trigger] s[j]),
        digits_end(s, i) == s.len() || !is_digit(s[digits_end(s, i)]),
    decreases s.len() - i,
{
    if i < s.len() && is_digit(s[i]) {
        lemma_digits_end_props(s, i + 1);
    }
}

/// A digit run is delimited by the first non-digit (or the end of the
/// string).
pub proof fn lemma_digits_end_at(s: Seq<char>, i: int, k: int)
    requires
        0 <= i <= k <= s.len(),
        forall|j: int| i <= j < k ==> is_digit(#[trigger] s[j]),
        k == s.len() || !is_digit(s[k]),
    ensures
        digits_end(s, i) == k,
    decreases k - i,
{
    if i < k {
        lemma_digits_end_at(s, i + 1, k);
    }
}

/// End of the digit run that starts at `i`.
pub fn digits_run(s: &str, i: usize) -> (r: usize)
    requires
        i <= s@.len(),
    ensures
        r as int == digits_end(s@, i as int),
        i <= r <= s@.len(),
{
    let n = s.unicode_len();
    let mut j: usize = i;
    while j < n && is_digit_exec(s.get_char(j))
        invariant
            i <= j <= n,
            n == s@.len(),
            digits_end(s@, i as int) == digits_end(s@, j as int),
        decreases n - j,
    {
        j += 1;
    }
    proof {
        lemma_digits_end_props(s@, j as int);
    }
    j
}

/// Is `c` an ASCII decimal digit?
pub fn is_digit_exec(c: char) -> (r: bool)
    ensures
        r == is_digit(c),
{
    let cv = c as u32;
    48 <= cv && cv <= 57
}

/// Spec: position of the first `'"'` at or after `i`, if any.
pub open spec fn quote_end(s: Seq<char>, i: int) -> Option<int>
    decreases s.len() - i,
{
    if 0 <= i < s.len() {
        if s[i] == '"' {
            Some(i)
        } else {
            quote_end(s, i + 1)
        }
    } else {
        None
    }
}

/// What `quote_end` returns: the first quote at or after `i`.
pub proof fn lemma_quote_end_props(s: Seq<char>, i: int)
    requires
        0 <= i <= s.len(),
    ensures
        match quote_end(s, i) {
            Some(k) => i <= k < s.len() && s[k] == '"' && forall|j: int| i <= j < k ==> s[j] != '"',
            None => forall|j: int| i <= j < s.len() ==> s[j] != '"',
        },
    decreases s.len() - i,
{
    if i < s.len() && s[i] != '"' {
        lemma_quote_end_props(s, i + 1);
    }
}

/// The first quote at or after `i` is `k` when nothing before it is a
/// quote.
pub proof fn lemma_quote_end_at(s: Seq<char>, i: int, k: int)
    requires
        0 <= i <= k < s.len(),
        forall|j: int| i <= j < k ==> s[j] != '"',
        s[k] == '"',
    ensures
        quote_end(s, i) == Some(k),
    decreases k - i,
{
    if i < k {
        lemma_quote_end_at(s, i + 1, k);
    }
}

/// Position of the first `'"'` at or after `i`, if any.
pub fn find_quote(s: &str, i: usize) -> (r: Option<usize>)
    requires
        i <= s@.len(),
    ensures
        match r {
            Some(k) => quote_end(s@, i as int) == Some(k as int) && i <= k < s@.len(),
            None => quote_end(s@, i as int) is None,
        },
{
    let n = s.unicode_len();
    let mut j: usize = i;
    while j < n && s.get_char(j) != '"'
        invariant
            i <= j <= n,
            n == s@.len(),
            quote_end(s@, i as int) == quote_end(s@, j as int),
        decreases n - j,
    {
        j += 1;
    }
    if j < n {
        Some(j)
    } else {
        None
    }
}

/// Read the digit run that starts at `i` as a canonically written
/// unsigned integer.
///
/// Succeeds exactly when the run is non-empty, has no leading zero, and
/// its value fits in `usize`; the run is then the decimal representation
/// of the returned value, and the returned position is the end of the
/// run.
pub fn take_uint(s: &str, i: usize) -> (r: Option<(usize, usize)>)
    requires
        i <= s@.len(),
    ensures
        match r {
            Some(ve) => i < ve.1 <= s@.len() && ve.1 as int == digits_end(s@, i as int)
                && s@.subrange(i as int, ve.1 as int) == dec_rep(ve.0 as nat),
            None => forall|v: nat|
                v <= usize::MAX as nat ==> s@.subrange(i as int, digits_end(s@, i as int))
                    != dec_rep(v),
        },
{
    let e = digits_run(s, i);
    let ghost run = s@.subrange(i as int, e as int);
    proof {
        lemma_digits_end_props(s@, i as int);
        assert(forall|j: int| 0 <= j < run.len() ==> is_digit(#[trigger] run[j]));
    }
    if e == i {
        proof {
            assert forall|v: nat| v <= usize::MAX as nat implies run != dec_rep(v) by {
                lemma_dec_rep_digits(v);
            }
        }
        return None;
    }
    if e - i > 1 && s.get_char(i) as u32 == 48 {
        proof {
            assert forall|v: nat| v <= usize::MAX as nat implies run != dec_rep(v) by {
                if run == dec_rep(v) {
                    if v < 10 {
                        assert(dec_rep(v).len() == 1);
                    } else {
                        lemma_dec_rep_no_leading_zero(v);
                        assert(digit_val(run[0]) == 0);
                    }
                }
            }
        }
        return None;
    }
    let piece = s.substring_char(i, e);
    match parse_usize(piece) {
        Some(v) => {
            proof {
                if run.len() > 1 {
                    assert(digit_val(run[0]) >= 1);
                }
                lemma_canonical_digits(run);
            }
            Some((v, e))
        },
        None => {
            proof {
                assert forall|v: nat| v <= usize::MAX as nat implies run != dec_rep(v) by {
                    if run == dec_rep(v) {
                        lemma_dec_rep_val(v);
                    }
                }
            }
            None
        },
    }
}

/// Spec: end of the line that position `i` is on: the first newline at
/// or after `i`, or the end of the string.
pub open spec fn line_end(s: Seq<char>, i: int) -> int
    decreases s.len() - i,
{
    if 0 <= i < s.len() && s[i] != '\n' {
        line_end(s, i + 1)
    } else {
        i
    }
}

/// What `line_end` returns: the first newline at or after `i`, or the
/// end of the string.
pub proof fn lemma_line_end_props(s: Seq<char>, i: int)
    requires
        0 <= i <= s.len(),
    ensures
        i <= line_end(s, i) <= s.len(),
        forall|j: int| i <= j < line_end(s, i) ==> s[j] != '\n',
        line_end(s, i) == s.len() || s[line_end(s, i)] == '\n',
    decreases s.len() - i,
{
    if i < s.len() && s[i] != '\n' {
        lemma_line_end_props(s, i + 1);
    }
}

/// End of the line that position `i` is on.
pub fn find_line_end(s: &str, i: usize) -> (r: usize)
    requires
        i <= s@.len(),
    ensures
        r as int == line_end(s@, i as int),
        i <= r <= s@.len(),
{
    let n = s.unicode_len();
    let mut j: usize = i;
    while j < n && s.get_char(j) != '\n'
        invariant
            i <= j <= n,
            n == s@.len(),
            line_end(s@, i as int) == line_end(s@, j as int),
        decreases n - j,
    {
        j += 1;
    }
    proof {
        lemma_line_end_props(s@, j as int);
    }
    j
}

/// Spec: ASCII whitespace, the only whitespace this crate trims.
pub open spec fn is_ascii_ws(c: char) -> bool {
    c == ' ' || c == '\t' || c == '\r' || c == '\n'
}

/// Spec: `s` without leading ASCII whitespace.
pub open spec fn trim_start_spec(s: Seq<char>) -> Seq<char>
    decreases s.len(),
{
    if s.len() > 0 && is_ascii_ws(s[0]) {
        trim_start_spec(s.skip(1))
    } else {
        s
    }
}

/// Spec: `s` without trailing ASCII whitespace.
pub open spec fn trim_end_spec(s: Seq<char>) -> Seq<char>
    decreases s.len(),
{
    if s.len() > 0 && is_ascii_ws(s.last()) {
        trim_end_spec(s.drop_last())
    } else {
        s
    }
}

/// Spec: `s` without leading or trailing ASCII whitespace.
pub open spec fn trim_spec(s: Seq<char>) -> Seq<char> {
    trim_end_spec(trim_start_spec(s))
}

/// Is `c` ASCII whitespace?
pub fn is_ws(c: char) -> (r: bool)
    ensures
        r == is_ascii_ws(c),
{
    c == ' ' || c == '\t' || c == '\r' || c == '\n'
}

/// Strip leading and trailing ASCII whitespace.
pub fn trim_ascii<'a>(s: &'a str) -> (r: &'a str)
    ensures
        r@ == trim_spec(s@),
{
    let n = s.unicode_len();
    let mut lo: usize = 0;
    proof {
        assert(s@.skip(0) =~= s@);
    }
    while lo < n && is_ws(s.get_char(lo))
        invariant
            lo <= n,
            n == s@.len(),
            trim_start_spec(s@) == trim_start_spec(s@.skip(lo as int)),
        decreases n - lo,
    {
        proof {
            assert(s@.skip(lo as int)[0] == s@[lo as int]);
            assert(s@.skip(lo as int).skip(1) =~= s@.skip(lo + 1));
        }
        lo += 1;
    }
    proof {
        if lo == n {
            assert(s@.skip(lo as int) =~= Seq::<char>::empty());
        }
        assert(trim_start_spec(s@) == s@.skip(lo as int));
    }
    let mut hi: usize = n;
    while hi > lo && is_ws(s.get_char(hi - 1))
        invariant
            lo <= hi <= n,
            n == s@.len(),
            trim_end_spec(s@.skip(lo as int)) == trim_end_spec(s@.subrange(lo as int, hi as int)),
        decreases hi,
    {
        proof {
            assert(s@.subrange(lo as int, hi as int).last() == s@[hi - 1]);
            assert(s@.subrange(lo as int, hi as int).drop_last() =~= s@.subrange(
                lo as int,
                hi - 1,
            ));
        }
        hi -= 1;
    }
    proof {
        if hi == lo {
            assert(s@.subrange(lo as int, hi as int) =~= Seq::<char>::empty());
        }
        assert(trim_end_spec(s@.subrange(lo as int, hi as int)) == s@.subrange(
            lo as int,
            hi as int,
        ));
    }
    s.substring_char(lo, hi)
}

/// Spec: code point of `c` with ASCII upper-case letters folded to lower
/// case.
pub open spec fn lower_code(c: char) -> u32 {
    if 65 <= (c as u32) && (c as u32) <= 90 {
        ((c as u32) + 32) as u32
    } else {
        c as u32
    }
}

/// Spec: `a` and `b` are equal up to ASCII case.
pub open spec fn eq_ignore_case_spec(a: Seq<char>, b: Seq<char>) -> bool {
    a.len() == b.len() && forall|i: int| 0 <= i < a.len() ==> lower_code(a[i]) == lower_code(#[trigger] b[i])
}

/// Compare two strings ignoring ASCII case.
pub fn eq_ignore_ascii_case(a: &str, b: &str) -> (r: bool)
    ensures
        r == eq_ignore_case_spec(a@, b@),
{
    let na = a.unicode_len();
    let nb = b.unicode_len();
    if na != nb {
        return false;
    }
    let mut i: usize = 0;
    while i < na
        invariant
            i <= na,
            na == a@.len(),
            na == b@.len(),
            forall|j: int| 0 <= j < i ==> lower_code(a@[j]) == lower_code(#[trigger] b@[j]),
        decreases na - i,
    {
        let ca = a.get_char(i) as u32;
        let cb = b.get_char(i) as u32;
        let la = if 65 <= ca && ca <= 90 {
            ca + 32
        } else {
            ca
        };
        let lb = if 65 <= cb && cb <= 90 {
            cb + 32
        } else {
            cb
        };
        if la != lb {
            return false;
        }
        i += 1;
    }
    true
}

/// Append the character of `src` at position `i` to `out`.
pub fn push_char_from(out: &mut String, src: &str, i: usize)
    requires
        i < src@.len(),
    ensures
        final(out)@ == old(out)@ + seq![src@[i as int]],
{
    let n = src.unicode_len();
    let piece = src.substring_char(i, i + 1);
    out.append(piece);
    proof {
        assert(piece@ =~= seq![src@[i as int]]);
    }
}

} // verus!
