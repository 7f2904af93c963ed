//! Small verified helpers over byte strings: decimal digits, equality and
//! substring search. The parsers in this crate inspect configuration tokens
//! as UTF-8 bytes, so every contract here is stated over `Seq<u8>`.

use vstd::prelude::*;

verus! {

/// True when every byte of `s` is an ASCII decimal digit.
pub open spec fn all_digits(s: Seq<u8>) -> bool {
    forall|i: int| 0 <= i < s.len() ==> 48 <= #[trigger] s[i] <= 57
}

/// The value of a (non-empty) string of ASCII decimal digits.
pub open spec fn dec_val(s: Seq<u8>) -> int
    decreases s.len(),
{
    if s.len() == 0 {
        0
    } else {
        dec_val(s.drop_last()) * 10 + (s.last() - 48)
    }
}

/// `dec_val` of digits is never negative.
pub proof fn lemma_dec_val_nonneg(s: Seq<u8>)
    requires
        all_digits(s),
    ensures
        dec_val(s) >= 0,
    decreases s.len(),
{
    if s.len() > 0 {
        assert(all_digits(s.drop_last()));
        lemma_dec_val_nonneg(s.drop_last());
    }
}

/// Small upper bounds on `dec_val` for short digit strings.
pub proof fn lemma_dec_val_upper(s: Seq<u8>)
    requires
        all_digits(s),
    ensures
        s.len() == 0 ==> dec_val(s) == 0,
        s.len() == 1 ==> dec_val(s) <= 9,
        s.len() == 2 ==> dec_val(s) <= 99,
        s.len() == 3 ==> dec_val(s) <= 999,
        s.len() == 4 ==> dec_val(s) <= 9999,
    decreases s.len(),
{
    if 0 < s.len() <= 4 {
        assert(all_digits(s.drop_last()));
        lemma_dec_val_upper(s.drop_last());
    }
}

/// A run of digits makes an all-digit substring.
pub proof fn lemma_digit_run_all_digits(s: Seq<u8>, from: int, to: int)
    requires
        0 <= from <= to <= s.len(),
        forall|j: int| from <= j < to ==> is_digit(#[trigger] s[j]),
    ensures
        all_digits(s.subrange(from, to)),
{
    assert forall|k: int| 0 <= k < to - from implies 48 <= #[trigger] s.subrange(from, to)[k]
        <= 57 by {
        assert(s.subrange(from, to)[k] == s[from + k]);
    }
}

/// Reads the decimal value of `s[from..to]`, saturating at `cap`.
///
/// Saturation keeps the arithmetic inside `u64` no matter how many digits the
/// caller hands over; a saturated result is reported as such.
pub fn dec_value_capped(s: &[u8], from: usize, to: usize, cap: u64) -> (r: Option<u64>)
    requires
        from <= to <= s@.len(),
        cap < 0x8000_0000_0000_0000u64,
    ensures
        r is Some <==> all_digits(s@.subrange(from as int, to as int)),
        r is Some ==> {
            let v = dec_val(s@.subrange(from as int, to as int));
            (v <= cap ==> r == Some(v as u64)) && (v > cap ==> r == Some(cap))
        },
{
    let ghost whole = s@.subrange(from as int, to as int);
    let mut acc: u64 = 0;
    let mut i: usize = from;
    while i < to
        invariant
            from <= i <= to <= s@.len(),
            cap < 0x8000_0000_0000_0000u64,
            acc <= cap,
            all_digits(s@.subrange(from as int, i as int)),
            ({
                let v = dec_val(s@.subrange(from as int, i as int));
                (v <= cap ==> acc == v) && (v > cap ==> acc == cap)
            }),
        decreases to - i,
    {
        let c = s[i];
        if !(48 <= c && c <= 57) {
            assert(s@.subrange(from as int, to as int)[i - from] == c);
            return None;
        }
        proof {
            let pre = s@.subrange(from as int, i + 1 as int);
            assert(pre.drop_last() =~= s@.subrange(from as int, i as int));
            lemma_dec_val_nonneg(s@.subrange(from as int, i as int));
        }
        let d = (c - 48) as u64;
        match acc.checked_mul(10) {
            Some(t) => match t.checked_add(d) {
                Some(v) => {
                    if v <= cap {
                        acc = v;
                    } else {
                        acc = cap;
                    }
                },
                None => {
                    acc = cap;
                },
            },
            None => {
                acc = cap;
            },
        }
        i = i + 1;
    }
    assert(s@.subrange(from as int, i as int) =~= whole);
    Some(acc)
}

/// True for the bytes `0-9`.
pub open spec fn is_digit(c: u8) -> bool {
    48 <= c <= 57
}

/// The first index at or after `i` that does not hold a decimal digit
/// (`s.len()` when digits run to the end).
pub open spec fn digits_end(s: Seq<u8>, i: int) -> int
    decreases s.len() - i,
{
    if i < 0 || i >= s.len() {
        i
    } else if is_digit(s[i]) {
        digits_end(s, i + 1)
    } else {
        i
    }
}

/// `digits_end` stays inside the string, and everything it skipped is a
/// digit.
pub proof fn lemma_digits_end_bounds(s: Seq<u8>, i: int)
    requires
        0 <= i <= s.len(),
    ensures
        i <= digits_end(s, i) <= s.len(),
        forall|j: int| i <= j < digits_end(s, i) ==> is_digit(#[trigger] s[j]),
        digits_end(s, i) < s.len() ==> !is_digit(s[digits_end(s, i)]),
    decreases s.len() - i,
{
    if i < s.len() && is_digit(s[i]) {
        lemma_digits_end_bounds(s, i + 1);
    }
}

/// Returns the index of the first non-digit at or after `from`.
pub fn scan_digits(s: &[u8], from: usize) -> (r: usize)
    requires
        from <= s@.len(),
    ensures
        r == digits_end(s@, from as int),
        from <= r <= s@.len(),
{
    let n = s.len();
    let mut j: usize = from;
    while j < n
        invariant
            from <= j <= n,
            n == s@.len(),
            digits_end(s@, from as int) == digits_end(s@, j as int),
        decreases n - j,
    {
        let c = s[j];
        if !(48 <= c && c <= 57) {
            return j;
        }
        j = j + 1;
    }
    j
}

/// True for ASCII whitespace: space, tab, line feed, carriage return.
pub open spec fn is_ws(c: u8) -> bool {
    c == 32 || c == 9 || c == 10 || c == 13
}

/// The first index at or after `i` that does not hold whitespace.
pub open spec fn ws_end(s: Seq<u8>, i: int) -> int
    decreases s.len() - i,
{
    if i < 0 || i >= s.len() {
        i
    } else if is_ws(s[i]) {
        ws_end(s, i + 1)
    } else {
        i
    }
}

/// The position that ends the whitespace run just before `j`.
pub open spec fn ws_back(s: Seq<u8>, j: int) -> int
    decreases j,
{
    if j <= 0 || j > s.len() {
        j
    } else if is_ws(s[j - 1]) {
        ws_back(s, j - 1)
    } else {
        j
    }
}

/// `ws_end` never runs past a non-whitespace byte.
pub proof fn lemma_ws_end_stop(s: Seq<u8>, i: int, j: int)
    requires
        0 <= i <= j < s.len(),
        !is_ws(s[j]),
    ensures
        ws_end(s, i) <= j,
    decreases j - i,
{
    if i < j && is_ws(s[i]) {
        lemma_ws_end_stop(s, i + 1, j);
    }
}

/// Skips whitespace forward from `from`.
pub fn scan_ws(s: &[u8], from: usize) -> (r: usize)
    requires
        from <= s@.len(),
    ensures
        r == ws_end(s@, from as int),
        from <= r <= s@.len(),
{
    let n = s.len();
    let mut j: usize = from;
    while j < n
        invariant
            from <= j <= n,
            n == s@.len(),
            ws_end(s@, from as int) == ws_end(s@, j as int),
        decreases n - j,
    {
        let c = s[j];
        if !(c == 32 || c == 9 || c == 10 || c == 13) {
            return j;
        }
        j = j + 1;
    }
    j
}

/// Skips whitespace backward from `upto`.
pub fn scan_ws_back(s: &[u8], upto: usize) -> (r: usize)
    requires
        upto <= s@.len(),
    ensures
        r == ws_back(s@, upto as int),
        r <= upto,
{
    let mut j: usize = upto;
    while j > 0
        invariant
            j <= upto <= s@.len(),
            ws_back(s@, upto as int) == ws_back(s@, j as int),
        decreases j,
    {
        let c = s[j - 1];
        if !(c == 32 || c == 9 || c == 10 || c == 13) {
            return j;
        }
        j = j - 1;
    }
    j
}

/// True when the two byte strings are equal.
pub fn bytes_eq(a: &[u8], b: &[u8]) -> (r: bool)
    ensures
        r <==> a@ =~= b@,
{
    if a.len() != b.len() {
        return false;
    }
    let n = a.len();
    let mut i: usize = 0;
    while i < n
        invariant
            i <= n,
            n == a@.len() == b@.len(),
            forall|j: int| 0 <= j < i ==> a@[j] == b@[j],
        decreases n - i,
    {
        if a[i] != b[i] {
            return false;
        }
        i = i + 1;
    }
    true
}

/// True when `pat` occurs in `hay` starting at `at`.
pub open spec fn matches_at(hay: Seq<u8>, pat: Seq<u8>, at: int) -> bool {
    0 <= at && at + pat.len() <= hay.len() && hay.subrange(at, at + pat.len()) =~= pat
}

/// True when `pat` occurs somewhere in `hay` (the empty string occurs in
/// every string).
pub open spec fn contains_sub(hay: Seq<u8>, pat: Seq<u8>) -> bool {
    exists|at: int| matches_at(hay, pat, at)
}

/// Naive substring search.
pub fn bytes_contains(hay: &[u8], pat: &[u8]) -> (r: bool)
    ensures
        r <==> contains_sub(hay@, pat@),
{
    let m = pat.len();
    let n = hay.len();
    if m > n {
        assert(forall|at: int| !matches_at(hay@, pat@, at));
        return false;
    }
    let mut at: usize = 0;
    while at <= n - m
        invariant
            m <= n,
            n == hay@.len(),
            m == pat@.len(),
            at <= n - m + 1,
            forall|k: int| 0 <= k < at ==> !matches_at(hay@, pat@, k),
        decreases n + 1 - m - at,
    {
        let mut j: usize = 0;
        let mut hit = true;
        while j < m
            invariant
                at + m <= n,
                n == hay@.len(),
                m == pat@.len(),
                j <= m,
                hit ==> (forall|k: int| 0 <= k < j ==> hay@[at + k] == pat@[k]),
                !hit ==> !matches_at(hay@, pat@, at as int),
            decreases m - j,
        {
            if hay[at + j] != pat[j] {
                proof {
                    let ghost jj = j as int;
                    if matches_at(hay@, pat@, at as int) {
                        assert(hay@.subrange(at as int, at + pat@.len())[jj] == pat@[jj]);
                    }
                }
                hit = false;
                j = m;
            } else {
                assert(hay@[at + j] == pat@[j as int]);
                j = j + 1;
            }
        }
        if hit {
            assert(matches_at(hay@, pat@, at as int)) by {
                assert(hay@.subrange(at as int, at + pat@.len()) =~= pat@);
            }
            return true;
        }
        at = at + 1;
    }
    assert(forall|k: int| !matches_at(hay@, pat@, k));
    false
}

} // verus!
