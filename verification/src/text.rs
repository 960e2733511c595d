//! Verified text utilities the download subsystem is built on: trimming,
//! filesystem-safe name sanitization, substring search, base-name and stem
//! extraction, and parsing of decimal percentage tokens.
//!
//! Only two character classifications are trusted (Unicode whitespace and
//! Unicode alphanumericity); everything else is verified.

use vstd::prelude::*;
use vstd::string::StrSliceExecFns;
use vstd::string::StringExecFns;

verus! {

// ---------------------------------------------------------------------------
// Trusted character classification and string building
// ---------------------------------------------------------------------------

/// What `char::is_whitespace` returns: whether the character has the Unicode
/// `White_Space` property. The result depends on the character alone.
pub uninterp spec fn is_white(c: char) -> bool;

/// Relies on `char::is_whitespace`: the Unicode `White_Space` property of
/// the character, used to trim user input.
pub assume_specification[ char::is_whitespace ](c: char) -> (r: bool)
    ensures
        r == is_white(c),
;

/// What `char::is_alphanumeric` returns: whether the character is a Unicode
/// letter or number. The result depends on the character alone.
pub uninterp spec fn is_alnum(c: char) -> bool;

/// Relies on `char::is_alphanumeric`: whether the character is a Unicode
/// letter or number, used to sanitize names into file names.
pub assume_specification[ char::is_alphanumeric ](c: char) -> (r: bool)
    ensures
        r == is_alnum(c),
;

/// Relies on `String::push`: appends exactly one character at the end.
pub assume_specification[ String::push ](s: &mut String, c: char)
    ensures
        final(s)@ == old(s)@.push(c),
;

// ---------------------------------------------------------------------------
// Finding characters
// ---------------------------------------------------------------------------

/// Index of the first occurrence of `c` in `s`, or `s.len()` when absent.
pub open spec fn first_ch(s: Seq<char>, c: char) -> int
    decreases s.len(),
{
    if s.len() == 0 {
        0
    } else if s[0] == c {
        0
    } else {
        1 + first_ch(s.subrange(1, s.len() as int), c)
    }
}

pub proof fn lemma_first_ch(s: Seq<char>, c: char)
    ensures
        0 <= first_ch(s, c) <= s.len(),
        forall|j: int| 0 <= j < first_ch(s, c) ==> s[j] != c,
        first_ch(s, c) < s.len() ==> s[first_ch(s, c)] == c,
    decreases s.len(),
{
    if s.len() == 0 {
    } else if s[0] == c {
    } else {
        let t = s.subrange(1, s.len() as int);
        lemma_first_ch(t, c);
        assert forall|j: int| 0 <= j < first_ch(s, c) implies s[j] != c by {
            if j > 0 {
                assert(t[j - 1] == s[j]);
            }
        }
        if first_ch(s, c) < s.len() {
            assert(t[first_ch(t, c)] == s[1 + first_ch(t, c)]);
        }
    }
}

/// Index of the last occurrence of `c` in `s`, or `-1` when absent.
pub open spec fn last_ch(s: Seq<char>, c: char) -> int
    decreases s.len(),
{
    if s.len() == 0 {
        -1
    } else if s[s.len() - 1] == c {
        s.len() - 1
    } else {
        last_ch(s.drop_last(), c)
    }
}

pub proof fn lemma_last_ch(s: Seq<char>, c: char)
    ensures
        -1 <= last_ch(s, c) < s.len(),
        last_ch(s, c) >= 0 ==> s[last_ch(s, c)] == c,
        forall|j: int| last_ch(s, c) < j < s.len() ==> s[j] != c,
    decreases s.len(),
{
    if s.len() == 0 {
    } else if s[s.len() - 1] == c {
    } else {
        let t = s.drop_last();
        lemma_last_ch(t, c);
        assert forall|j: int| last_ch(s, c) < j < s.len() implies s[j] != c by {
            if j < s.len() - 1 {
                assert(t[j] == s[j]);
            }
        }
        if last_ch(s, c) >= 0 {
            assert(t[last_ch(t, c)] == s[last_ch(s, c)]);
        }
    }
}

/// Position of the first occurrence of `c`, or `None` when `c` does not
/// occur in `s`.
pub fn find_char(s: &str, c: char) -> (r: Option<usize>)
    ensures
        r matches Some(i) ==> i as int == first_ch(s@, c) && (i as int) < s@.len(),
        r is None ==> first_ch(s@, c) == s@.len(),
{
    proof {
        lemma_first_ch(s@, c);
    }
    let n = s.unicode_len();
    let mut i: usize = 0;
    while i < n
        invariant
            n == s@.len(),
            0 <= i <= n,
            forall|j: int| 0 <= j < i ==> s@[j] != c,
            0 <= first_ch(s@, c) <= s@.len(),
            forall|j: int| 0 <= j < first_ch(s@, c) ==> s@[j] != c,
            first_ch(s@, c) < s@.len() ==> s@[first_ch(s@, c)] == c,
        decreases n - i,
    {
        if s.get_char(i) == c {
            return Some(i);
        }
        i = i + 1;
    }
    None
}

/// Position of the last occurrence of `c`, or `None` when `c` does not
/// occur in `s`.
pub fn rfind_char(s: &str, c: char) -> (r: Option<usize>)
    ensures
        r matches Some(i) ==> i as int == last_ch(s@, c) && (i as int) < s@.len(),
        r is None ==> last_ch(s@, c) == -1,
{
    proof {
        lemma_last_ch(s@, c);
    }
    let n = s.unicode_len();
    let mut b: usize = n;
    while b > 0
        invariant
            n == s@.len(),
            0 <= b <= n,
            forall|j: int| b <= j < n ==> s@[j] != c,
            -1 <= last_ch(s@, c) < s@.len(),
            last_ch(s@, c) >= 0 ==> s@[last_ch(s@, c)] == c,
            forall|j: int| last_ch(s@, c) < j < s@.len() ==> s@[j] != c,
        decreases b,
    {
        if s.get_char(b - 1) == c {
            return Some(b - 1);
        }
        b = b - 1;
    }
    None
}

// ---------------------------------------------------------------------------
// Trimming whitespace
// ---------------------------------------------------------------------------

pub open spec fn trim_start_spec(s: Seq<char>) -> Seq<char>
    decreases s.len(),
{
    if s.len() > 0 && is_white(s[0]) {
        trim_start_spec(s.subrange(1, s.len() as int))
    } else {
        s
    }
}

pub open spec fn trim_end_spec(s: Seq<char>) -> Seq<char>
    decreases s.len(),
{
    if s.len() > 0 && is_white(s[s.len() - 1]) {
        trim_end_spec(s.drop_last())
    } else {
        s
    }
}

/// What `str::trim` returns: the string with leading and trailing Unicode
/// whitespace removed.
pub open spec fn trim_spec(s: Seq<char>) -> Seq<char> {
    trim_end_spec(trim_start_spec(s))
}

proof fn lemma_trim_start_at(s: Seq<char>, a: int)
    requires
        0 <= a <= s.len(),
        forall|j: int| 0 <= j < a ==> is_white(s[j]),
        a < s.len() ==> !is_white(s[a]),
    ensures
        trim_start_spec(s) == s.subrange(a, s.len() as int),
    decreases a,
{
    if a == 0 {
        assert(s.subrange(0, s.len() as int) =~= s);
    } else {
        let t = s.subrange(1, s.len() as int);
        assert(forall|j: int| 0 <= j < a - 1 ==> t[j] == s[j + 1]);
        lemma_trim_start_at(t, a - 1);
        assert(t.subrange(a - 1, t.len() as int) =~= s.subrange(a, s.len() as int));
    }
}

proof fn lemma_trim_end_at(s: Seq<char>, b: int)
    requires
        0 <= b <= s.len(),
        forall|j: int| b <= j < s.len() ==> is_white(s[j]),
        b > 0 ==> !is_white(s[b - 1]),
    ensures
        trim_end_spec(s) == s.subrange(0, b),
    decreases s.len() - b,
{
    if b == s.len() {
        assert(s.subrange(0, s.len() as int) =~= s);
    } else {
        let t = s.drop_last();
        assert(forall|j: int| 0 <= j < t.len() ==> t[j] == s[j]);
        lemma_trim_end_at(t, b);
        assert(t.subrange(0, b) =~= s.subrange(0, b));
    }
}

/// The string with leading and trailing whitespace removed.
pub fn trim_str(s: &str) -> (r: String)
    ensures
        r@ == trim_spec(s@),
{
    let n = s.unicode_len();
    let mut a: usize = 0;
    while a < n && s.get_char(a).is_whitespace()
        invariant
            n == s@.len(),
            0 <= a <= n,
            forall|j: int| 0 <= j < a ==> is_white(s@[j]),
        decreases n - a,
    {
        a = a + 1;
    }
    proof {
        lemma_trim_start_at(s@, a as int);
    }
    let mut b: usize = n;
    while b > a && s.get_char(b - 1).is_whitespace()
        invariant
            n == s@.len(),
            a <= b <= n,
            forall|j: int| 0 <= j < a ==> is_white(s@[j]),
            forall|j: int| b <= j < n ==> is_white(s@[j]),
        decreases b,
    {
        b = b - 1;
    }
    proof {
        let t = s@.subrange(a as int, n as int);
        assert(forall|j: int| 0 <= j < t.len() ==> t[j] == s@[j + a]);
        lemma_trim_end_at(t, b - a);
        assert(t.subrange(0, b - a) =~= s@.subrange(a as int, b as int));
    }
    let piece = s.substring_char(a, b);
    piece.to_owned()
}

// ---------------------------------------------------------------------------
// Sanitizing names into file names
// ---------------------------------------------------------------------------

/// Every character that is not a Unicode letter or number is replaced by an
/// underscore; this yields a filesystem-safe name from arbitrary user text.
pub open spec fn sanitize_spec(s: Seq<char>) -> Seq<char> {
    s.map_values(|c: char| if is_alnum(c) { c } else { '_' })
}

/// Replaces every non-alphanumeric character of `s` with an underscore.
pub fn sanitize_name(s: &str) -> (r: String)
    ensures
        r@ == sanitize_spec(s@),
{
    let n = s.unicode_len();
    let mut r = String::new();
    let mut i: usize = 0;
    while i < n
        invariant
            n == s@.len(),
            0 <= i <= n,
            r@ == sanitize_spec(s@.subrange(0, i as int)),
        decreases n - i,
    {
        let c = s.get_char(i);
        if c.is_alphanumeric() {
            r.push(c);
        } else {
            r.push('_');
        }
        proof {
            assert(sanitize_spec(s@.subrange(0, i + 1)) =~= sanitize_spec(
                s@.subrange(0, i as int),
            ).push(if is_alnum(s@[i as int]) {
                s@[i as int]
            } else {
                '_'
            }));
        }
        i = i + 1;
    }
    proof {
        assert(s@.subrange(0, n as int) =~= s@);
    }
    r
}

// ---------------------------------------------------------------------------
// Substring search
// ---------------------------------------------------------------------------

pub open spec fn contains_at(h: Seq<char>, n: Seq<char>, i: int) -> bool {
    0 <= i && i + n.len() <= h.len() && h.subrange(i, i + n.len() as int) == n
}

/// Whether `n` occurs as a contiguous substring of `h`.
pub open spec fn contains_seq(h: Seq<char>, n: Seq<char>) -> bool {
    exists|i: int| contains_at(h, n, i)
}

fn match_at(h: &str, n: &str, i: usize) -> (r: bool)
    requires
        i + n@.len() <= h@.len() <= usize::MAX,
    ensures
        r == (h@.subrange(i as int, i + n@.len() as int) == n@),
{
    let nl = n.unicode_len();
    let mut j: usize = 0;
    while j < nl
        invariant
            nl == n@.len(),
            i + nl <= h@.len() <= usize::MAX,
            0 <= j <= nl,
            forall|k: int| 0 <= k < j ==> h@[i + k] == n@[k],
        decreases nl - j,
    {
        if h.get_char(i + j) != n.get_char(j) {
            proof {
                assert(h@.subrange(i as int, i + n@.len() as int)[j as int] == h@[i + j]);
            }
            return false;
        }
        j = j + 1;
    }
    proof {
        assert(h@.subrange(i as int, i + n@.len() as int) =~= n@);
    }
    true
}

/// Whether the string `n` occurs as a substring of `h`.
pub fn str_contains(h: &str, n: &str) -> (r: bool)
    ensures
        r == contains_seq(h@, n@),
{
    let hl = h.unicode_len();
    let nl = n.unicode_len();
    if nl > hl {
        return false;
    }
    if nl == 0 {
        proof {
            assert(h@.subrange(0, 0) =~= n@);
            assert(contains_at(h@, n@, 0));
        }
        return true;
    }
    let mut i: usize = 0;
    while i <= hl - nl
        invariant
            1 <= nl <= hl,
            hl == h@.len(),
            nl == n@.len(),
            0 <= i <= hl - nl + 1,
            forall|k: int| 0 <= k < i ==> !contains_at(h@, n@, k),
        decreases hl - nl + 1 - i,
    {
        if match_at(h, n, i) {
            assert(contains_at(h@, n@, i as int));
            return true;
        }
        i = i + 1;
    }
    false
}

// ---------------------------------------------------------------------------
// Picking the first present candidate
// ---------------------------------------------------------------------------

/// What selecting the first present candidate owes: the result is the
/// candidate at the first position marked present, and `None` comes back
/// exactly when no position is marked present.
pub open spec fn first_found(candidates: Seq<Seq<char>>, present: Seq<bool>, r: Option<String>) -> bool {
    &&& (r is None <==> (forall|k: int| 0 <= k < candidates.len() ==> !present[k]))
    &&& (forall|k: int|
        #![auto]
        (0 <= k < candidates.len() && present[k] && (forall|j: int| 0 <= j < k ==> !present[j]))
            ==> (r matches Some(p) && p@ == candidates[k]))
}

/// The first candidate marked present, in candidate order; `None` when none
/// is marked present.
pub fn first_present_candidate(names: &Vec<String>, present: &Vec<bool>) -> (r: Option<String>)
    requires
        names@.len() == present@.len(),
    ensures
        first_found(names.deep_view(), present@, r),
{
    let mut k: usize = 0;
    while k < names.len()
        invariant
            names@.len() == present@.len(),
            0 <= k <= names@.len(),
            forall|j: int| 0 <= j < k ==> !present@[j],
        decreases names@.len() - k,
    {
        if present[k] {
            let found = names[k].clone();
            proof {
                let cands = names.deep_view();
                assert(found@ == cands[k as int]);
                assert forall|q: int|
                    0 <= q < cands.len() && present@[q] && (forall|j: int|
                        0 <= j < q ==> !present@[j]) implies q == k as int by {
                    if q < k as int {
                        assert(!present@[q]);
                    } else if q > k as int {
                        assert(!present@[k as int]);
                    }
                }
                assert(first_found(cands, present@, Some(found)));
            }
            return Some(found);
        }
        k = k + 1;
    }
    proof {
        assert(first_found(names.deep_view(), present@, None::<String>));
    }
    None
}

// ---------------------------------------------------------------------------
// Base names and stems of file names
// ---------------------------------------------------------------------------

/// The part of a path after its last `/`: the file name itself.
pub open spec fn base_name_spec(s: Seq<char>) -> Seq<char> {
    s.subrange(last_ch(s, '/') + 1, s.len() as int)
}

/// The base name of a path: everything after the last slash.
pub fn base_name(s: &str) -> (r: String)
    ensures
        r@ == base_name_spec(s@),
{
    proof {
        lemma_last_ch(s@, '/');
    }
    let n = s.unicode_len();
    let piece = match rfind_char(s, '/') {
        Some(i) => s.substring_char(i + 1, n),
        None => s.substring_char(0, n),
    };
    proof {
        assert(s@.subrange(0, n as int) =~= s@);
    }
    piece.to_owned()
}

/// The file name without its extension: everything before the last dot,
/// unless the dot is the first character or there is none.
pub open spec fn stem_spec(s: Seq<char>) -> Seq<char> {
    if last_ch(s, '.') > 0 {
        s.subrange(0, last_ch(s, '.'))
    } else {
        s
    }
}

/// The stem of a file name (the name without its extension).
pub fn file_stem(s: &str) -> (r: String)
    ensures
        r@ == stem_spec(s@),
{
    proof {
        lemma_last_ch(s@, '.');
    }
    let n = s.unicode_len();
    let piece = match rfind_char(s, '.') {
        Some(i) if i > 0 => s.substring_char(0, i),
        _ => s.substring_char(0, n),
    };
    proof {
        assert(s@.subrange(0, n as int) =~= s@);
    }
    piece.to_owned()
}

/// Joins a directory and a file name with a single `/`.
pub fn join_path(dir: &str, name: &str) -> (r: String)
    ensures
        r@ == dir@ + "/"@ + name@,
{
    let mut r = dir.to_owned();
    r.append("/");
    r.append(name);
    r
}

// ---------------------------------------------------------------------------
// Decimal percentage tokens
// ---------------------------------------------------------------------------

pub open spec fn is_digit(c: char) -> bool {
    '0' as u32 <= c as u32 && c as u32 <= '9' as u32
}

pub open spec fn digit_val(c: char) -> int {
    c as u32 - '0' as u32
}

pub open spec fn all_digits(s: Seq<char>) -> bool {
    forall|i: int| 0 <= i < s.len() ==> is_digit(s[i])
}

/// The numeric value of a digit string, most significant digit first.
pub open spec fn digits_val(s: Seq<char>) -> int
    decreases s.len(),
{
    if s.len() == 0 {
        0
    } else {
        digits_val(s.drop_last()) * 10 + digit_val(s.last())
    }
}

proof fn lemma_digits_val_step(s: Seq<char>, i: int)
    requires
        0 <= i < s.len(),
    ensures
        digits_val(s.subrange(0, i + 1)) == digits_val(s.subrange(0, i)) * 10 + digit_val(s[i]),
{
    let t = s.subrange(0, i + 1);
    assert(t.drop_last() =~= s.subrange(0, i));
    assert(t.last() == s[i]);
}

proof fn lemma_digits_val_nonneg(s: Seq<char>)
    requires
        all_digits(s),
    ensures
        digits_val(s) >= 0,
    decreases s.len(),
{
    if s.len() > 0 {
        assert(forall|i: int| 0 <= i < s.drop_last().len() ==> s.drop_last()[i] == s[i]);
        lemma_digits_val_nonneg(s.drop_last());
    }
}

/// The integer part of a percentage token: the characters before its first
/// dot (the whole token when there is no dot).
pub open spec fn token_int_part(s: Seq<char>) -> Seq<char> {
    s.subrange(0, first_ch(s, '.'))
}

/// The fractional part: the characters after the first dot, empty when
/// there is no dot.
pub open spec fn token_frac_part(s: Seq<char>) -> Seq<char> {
    if first_ch(s, '.') < s.len() {
        s.subrange(first_ch(s, '.') + 1, s.len() as int)
    } else {
        Seq::empty()
    }
}

/// The value of the fractional part in hundredths: only its first two
/// digits matter at this precision.
pub open spec fn frac_hundredths(f: Seq<char>) -> int {
    if f.len() == 0 {
        0
    } else if f.len() == 1 {
        digit_val(f[0]) * 10
    } else {
        digit_val(f[0]) * 10 + digit_val(f[1])
    }
}

/// The token's value in hundredths of a percent.
pub open spec fn token_hundredths(s: Seq<char>) -> int {
    digits_val(token_int_part(s)) * 100 + frac_hundredths(token_frac_part(s))
}

/// A percentage token: one or more digits, optionally followed by a dot and
/// further digits, whose value does not exceed one hundred percent.
pub open spec fn token_valid(s: Seq<char>) -> bool {
    &&& first_ch(s, '.') >= 1
    &&& all_digits(token_int_part(s))
    &&& all_digits(token_frac_part(s))
    &&& token_hundredths(s) <= 10000
}

/// Parses a percentage token into hundredths of a percent: `"45.2"` becomes
/// `4520` and `"100"` becomes `10000`. Digits beyond the second fractional
/// place are ignored; a token that is not digits-dot-digits, or that exceeds
/// one hundred percent, is rejected.
pub fn parse_hundredths(t: &str) -> (r: Option<u32>)
    ensures
        r is Some <==> token_valid(t@),
        r matches Some(v) ==> v as int == token_hundredths(t@) && v <= 10000,
{
    proof {
        lemma_first_ch(t@, '.');
    }
    let n = t.unicode_len();
    let k = match find_char(t, '.') {
        Some(k) => k,
        None => n,
    };
    if k == 0 {
        return None;
    }
    let ghost ip = token_int_part(t@);
    proof {
        assert(ip.len() == k as int);
        assert(forall|j: int| 0 <= j < ip.len() ==> ip[j] == t@[j]);
    }
    let mut acc: u32 = 0;
    let mut over = false;
    let mut i: usize = 0;
    while i < k
        invariant
            0 <= i <= k,
            k <= n,
            n == t@.len(),
            k as int == first_ch(t@, '.'),
            ip == token_int_part(t@),
            ip.len() == k as int,
            forall|j: int| 0 <= j < ip.len() ==> ip[j] == t@[j],
            forall|j: int| 0 <= j < i ==> is_digit(t@[j]),
            !over ==> acc as int == digits_val(t@.subrange(0, i as int)) && acc <= 100,
            over ==> digits_val(t@.subrange(0, i as int)) > 100,
        decreases k - i,
    {
        let c = t.get_char(i);
        if !(c as u32 >= '0' as u32 && c as u32 <= '9' as u32) {
            proof {
                assert(ip[i as int] == t@[i as int]);
                assert(!is_digit(ip[i as int]));
            }
            return None;
        }
        proof {
            lemma_digits_val_step(t@, i as int);
        }
        if !over {
            let d = c as u32 - '0' as u32;
            let next = acc * 10 + d;
            if next > 100 {
                over = true;
            } else {
                acc = next;
            }
        }
        i = i + 1;
    }
    proof {
        assert(t@.subrange(0, k as int) =~= ip);
        assert(all_digits(ip));
    }
    if over {
        proof {
            if token_valid(t@) {
                lemma_digits_val_nonneg(token_frac_part(t@));
                assert(frac_hundredths(token_frac_part(t@)) >= 0) by {
                    let f = token_frac_part(t@);
                    if f.len() >= 1 {
                        assert(is_digit(f[0]));
                        if f.len() >= 2 {
                            assert(is_digit(f[1]));
                        }
                    }
                }
                assert(digits_val(ip) > 100);
                assert(token_hundredths(t@) > 10000);
            }
        }
        return None;
    }
    // acc == digits_val of the integer part, and it is at most 100.
    let mut fh: u32 = 0;
    if k < n {
        let ghost fp = token_frac_part(t@);
        proof {
            assert(fp.len() == n - k - 1);
            assert(forall|j: int| 0 <= j < fp.len() ==> fp[j] == t@[k + 1 + j]);
        }
        let mut j: usize = k + 1;
        while j < n
            invariant
                k < n,
                n == t@.len(),
                k + 1 <= j <= n,
                k as int == first_ch(t@, '.'),
                fp == token_frac_part(t@),
                fp.len() == n - k - 1,
                forall|q: int| 0 <= q < fp.len() ==> fp[q] == t@[k + 1 + q],
                forall|q: int| k + 1 <= q < j ==> is_digit(t@[q]),
                fh as int == frac_hundredths(fp.subrange(0, j - k - 1)),
                fh <= 99,
            decreases n - j,
        {
            let c = t.get_char(j);
            if !(c as u32 >= '0' as u32 && c as u32 <= '9' as u32) {
                assert(!all_digits(fp)) by {
                    assert(fp[j - k - 1] == t@[j as int]);
                }
                return None;
            }
            let d = c as u32 - '0' as u32;
            proof {
                let pre = fp.subrange(0, j - k - 1);
                let post = fp.subrange(0, j - k);
                assert(post.len() == pre.len() + 1);
                assert(forall|q: int| 0 <= q < pre.len() ==> post[q] == pre[q]);
                assert(post[j - k - 1] == fp[j - k - 1]);
                assert(fp[j - k - 1] == t@[j as int]);
            }
            if j == k + 1 {
                fh = d * 10;
            } else if j == k + 2 {
                fh = fh + d;
            }
            j = j + 1;
        }
        proof {
            assert(fp.subrange(0, fp.len() as int) =~= fp);
            assert(all_digits(fp));
        }
    } else {
        proof {
            assert(token_frac_part(t@) == Seq::<char>::empty());
        }
    }
    let total = acc * 100 + fh;
    proof {
        assert(total as int == token_hundredths(t@));
    }
    if total > 10000 {
        return None;
    }
    Some(total)
}

} // verus!
