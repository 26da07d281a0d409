//! Verified text helpers: decimal rendering, splitting on a separator,
//! decimal parsing, and path-segment extraction.
//!
//! Every helper is specified against a small recursive spec function, so the
//! modules above (cpuset parsing, descriptor rendering, the pod watcher) can
//! state their own contracts by composing these spec functions.

use vstd::prelude::*;

verus! {

/// The decimal digit character for `d` (meaningful for `0 <= d <= 9`).
pub open spec fn digit_char(d: int) -> char {
    if d == 0 {
        '0'
    } else if d == 1 {
        '1'
    } else if d == 2 {
        '2'
    } else if d == 3 {
        '3'
    } else if d == 4 {
        '4'
    } else if d == 5 {
        '5'
    } else if d == 6 {
        '6'
    } else if d == 7 {
        '7'
    } else if d == 8 {
        '8'
    } else {
        '9'
    }
}

/// The usual decimal rendering of a non-negative integer, no leading zeros.
pub open spec fn spec_dec(n: int) -> Seq<char>
    decreases n,
{
    if n < 10 {
        seq![digit_char(n)]
    } else {
        spec_dec(n / 10) + seq![digit_char(n % 10)]
    }
}

fn digit_str(d: u64) -> (r: &'static str)
    requires
        d < 10,
    ensures
        r@ == seq![digit_char(d as int)],
{
    if d == 0 {
        proof {
            reveal_strlit("0");
            assert("0"@ =~= seq![digit_char(0)]);
        }
        "0"
    } else if d == 1 {
        proof {
            reveal_strlit("1");
            assert("1"@ =~= seq![digit_char(1)]);
        }
        "1"
    } else if d == 2 {
        proof {
            reveal_strlit("2");
            assert("2"@ =~= seq![digit_char(2)]);
        }
        "2"
    } else if d == 3 {
        proof {
            reveal_strlit("3");
            assert("3"@ =~= seq![digit_char(3)]);
        }
        "3"
    } else if d == 4 {
        proof {
            reveal_strlit("4");
            assert("4"@ =~= seq![digit_char(4)]);
        }
        "4"
    } else if d == 5 {
        proof {
            reveal_strlit("5");
            assert("5"@ =~= seq![digit_char(5)]);
        }
        "5"
    } else if d == 6 {
        proof {
            reveal_strlit("6");
            assert("6"@ =~= seq![digit_char(6)]);
        }
        "6"
    } else if d == 7 {
        proof {
            reveal_strlit("7");
            assert("7"@ =~= seq![digit_char(7)]);
        }
        "7"
    } else if d == 8 {
        proof {
            reveal_strlit("8");
            assert("8"@ =~= seq![digit_char(8)]);
        }
        "8"
    } else {
        proof {
            reveal_strlit("9");
            assert("9"@ =~= seq![digit_char(9)]);
        }
        "9"
    }
}

/// Renders `n` in decimal.
pub fn fmt_u64(n: u64) -> (s: String)
    ensures
        s@ == spec_dec(n as int),
    decreases n,
{
    if n < 10 {
        let mut s = String::new();
        s.append(digit_str(n));
        s
    } else {
        let mut s = fmt_u64(n / 10);
        s.append(digit_str(n % 10));
        s
    }
}

/// Renders `n` in decimal.
pub fn fmt_u32(n: u32) -> (s: String)
    ensures
        s@ == spec_dec(n as int),
{
    fmt_u64(n as u64)
}

/// Renders `n` in decimal.
pub fn fmt_usize(n: usize) -> (s: String)
    ensures
        s@ == spec_dec(n as int),
{
    fmt_u64(n as u64)
}

/// Splitting a sequence on a separator, exactly as `str::split` does: there
/// is always one (possibly empty) part more than there are separators.
pub open spec fn spec_split(s: Seq<char>, sep: char) -> Seq<Seq<char>>
    decreases s.len(),
{
    if s.len() == 0 {
        seq![Seq::<char>::empty()]
    } else {
        let rest = spec_split(s.drop_first(), sep);
        if s[0] == sep {
            seq![Seq::<char>::empty()] + rest
        } else {
            seq![seq![s[0]] + rest[0]] + rest.drop_first()
        }
    }
}

pub proof fn lemma_split_len(s: Seq<char>, sep: char)
    ensures
        spec_split(s, sep).len() >= 1,
    decreases s.len(),
{
    if s.len() > 0 {
        lemma_split_len(s.drop_first(), sep);
    }
}

proof fn lemma_split_no_sep(s: Seq<char>, sep: char)
    requires
        forall|j: int| 0 <= j < s.len() ==> s[j] != sep,
    ensures
        spec_split(s, sep) == seq![s],
    decreases s.len(),
{
    if s.len() == 0 {
        assert(s =~= Seq::<char>::empty());
        assert(spec_split(s, sep) =~~= seq![s]);
    } else {
        lemma_split_no_sep(s.drop_first(), sep);
        let rest = spec_split(s.drop_first(), sep);
        assert(rest[0] == s.drop_first());
        assert(seq![s[0]] + rest[0] =~= s);
        assert(rest.drop_first() =~~= Seq::<Seq<char>>::empty());
        assert(spec_split(s, sep) =~~= seq![s]);
    }
}

proof fn lemma_split_at_first(s: Seq<char>, sep: char, i: int)
    requires
        0 <= i < s.len(),
        s[i] == sep,
        forall|j: int| 0 <= j < i ==> s[j] != sep,
    ensures
        spec_split(s, sep) == seq![s.take(i)] + spec_split(s.skip(i + 1), sep),
    decreases i,
{
    if i == 0 {
        assert(s.take(0) =~= Seq::<char>::empty());
        assert(s.skip(1) =~= s.drop_first());
        assert(spec_split(s, sep) =~~= seq![s.take(0)] + spec_split(s.skip(1), sep));
    } else {
        let t = s.drop_first();
        assert(t[i - 1] == s[i]);
        assert(forall|j: int| 0 <= j < i - 1 ==> t[j] == s[j + 1] && t[j] != sep);
        lemma_split_at_first(t, sep, i - 1);
        let rest = spec_split(t, sep);
        assert(rest == seq![t.take(i - 1)] + spec_split(t.skip(i), sep));
        assert(rest[0] == t.take(i - 1));
        assert(seq![s[0]] + t.take(i - 1) =~= s.take(i));
        assert(rest.drop_first() =~~= spec_split(t.skip(i), sep));
        assert(t.skip(i) =~= s.skip(i + 1));
        assert(spec_split(s, sep) =~~= seq![s.take(i)] + spec_split(s.skip(i + 1), sep));
    }
}

/// Splits `s` on `sep`.  The result holds exactly the parts of
/// [`spec_split`], in order.
pub fn split_str(s: &str, sep: char) -> (parts: Vec<String>)
    ensures
        parts@.len() == spec_split(s@, sep).len(),
        forall|k: int| 0 <= k < parts@.len() ==> parts@[k]@ == spec_split(s@, sep)[k],
    decreases s@.len(),
{
    let n = s.unicode_len();
    let mut i: usize = 0;
    loop
        invariant_except_break
            i <= n,
        invariant
            n == s@.len(),
            forall|j: int| 0 <= j < i ==> s@[j] != sep,
        ensures
            i <= n,
            i < n ==> s@[i as int] == sep,
        decreases n - i,
    {
        if i == n {
            break ;
        }
        if s.get_char(i) == sep {
            break ;
        }
        i += 1;
    }
    if i == n {
        proof {
            lemma_split_no_sep(s@, sep);
        }
        let mut parts: Vec<String> = Vec::new();
        parts.push(String::from_str(s));
        parts
    } else {
        let head = s.substring_char(0, i);
        let tail = s.substring_char(i + 1, n);
        let rest = split_str(tail, sep);
        proof {
            lemma_split_at_first(s@, sep, i as int);
        }
        let mut parts: Vec<String> = Vec::new();
        parts.push(String::from_str(head));
        let mut k: usize = 0;
        while k < rest.len()
            invariant
                k <= rest@.len(),
                parts@.len() == 1 + k,
                parts@[0]@ == s@.take(i as int),
                forall|m: int| 1 <= m < parts@.len() ==> parts@[m]@ == rest@[m - 1]@,
                forall|m: int| 0 <= m < rest@.len() ==> rest@[m]@ == spec_split(
                    s@.skip(i + 1),
                    sep,
                )[m],
                rest@.len() == spec_split(s@.skip(i + 1), sep).len(),
            decreases rest@.len() - k,
        {
            let piece = rest[k].clone();
            parts.push(piece);
            k += 1;
        }
        proof {
            assert(spec_split(s@, sep) == seq![s@.take(i as int)] + spec_split(
                s@.skip(i + 1),
                sep,
            ));
        }
        parts
    }
}

/// Is `c` a decimal digit?
pub open spec fn is_digit(c: char) -> bool {
    48 <= c as int <= 57
}

pub open spec fn all_digits(s: Seq<char>) -> bool {
    forall|i: int| 0 <= i < s.len() ==> is_digit(s[i])
}

/// The value of a digit string, most significant digit first.
pub open spec fn digits_val(s: Seq<char>) -> int
    decreases s.len(),
{
    if s.len() == 0 {
        0
    } else {
        digits_val(s.drop_last()) * 10 + (s.last() as int - 48)
    }
}

/// What `str::parse::<u32>` returns on a plain digit string: the parse
/// succeeds exactly on non-empty all-digit sequences whose value fits.
pub open spec fn spec_parse_u32(s: Seq<char>) -> Option<u32> {
    if s.len() > 0 && all_digits(s) && digits_val(s) <= u32::MAX {
        Some(digits_val(s) as u32)
    } else {
        None
    }
}

proof fn lemma_digits_val_nonneg(s: Seq<char>)
    requires
        all_digits(s),
    ensures
        digits_val(s) >= 0,
    decreases s.len(),
{
    if s.len() > 0 {
        assert(all_digits(s.drop_last()));
        lemma_digits_val_nonneg(s.drop_last());
    }
}

proof fn lemma_digits_val_prefix(s: Seq<char>, k: int)
    requires
        all_digits(s),
        0 <= k <= s.len(),
    ensures
        digits_val(s.take(k)) <= digits_val(s),
    decreases s.len() - k,
{
    if k < s.len() {
        lemma_digits_val_prefix(s, k + 1);
        assert(s.take(k + 1).drop_last() =~= s.take(k));
        assert(s.take(k + 1).last() == s[k]);
        assert(all_digits(s.take(k)));
        lemma_digits_val_nonneg(s.take(k));
        assert(digits_val(s.take(k + 1)) == digits_val(s.take(k)) * 10 + (s[k] as int - 48));
    } else {
        assert(s.take(k) =~= s);
    }
}

/// Parses a decimal `u32`, per [`spec_parse_u32`].
pub fn parse_u32(s: &str) -> (r: Option<u32>)
    ensures
        r == spec_parse_u32(s@),
{
    let n = s.unicode_len();
    if n == 0 {
        return None;
    }
    let mut acc: u64 = 0;
    let mut i: usize = 0;
    while i < n
        invariant
            i <= n,
            n == s@.len(),
            n > 0,
            all_digits(s@.take(i as int)),
            acc == digits_val(s@.take(i as int)),
            acc <= u32::MAX,
        decreases n - i,
    {
        let c = s.get_char(i);
        let code = c as u32;
        if code < 48 || code > 57 {
            assert(!is_digit(s@[i as int]));
            return None;
        }
        let d = (code - 48) as u64;
        let next = acc * 10 + d;
        proof {
            assert(s@.take(i + 1).drop_last() =~= s@.take(i as int));
            assert(s@.take(i + 1).last() == s@[i as int]);
            assert(all_digits(s@.take(i + 1)));
        }
        if next > u32::MAX as u64 {
            proof {
                if all_digits(s@) {
                    lemma_digits_val_prefix(s@, i + 1);
                }
            }
            return None;
        }
        acc = next;
        i += 1;
    }
    proof {
        assert(s@.take(n as int) =~= s@);
    }
    Some(acc as u32)
}

/// Joins two path components with a single separator.
pub fn join_path(base: &str, tail: &str) -> (r: String)
    ensures
        r@ == base@ + "/"@ + tail@,
{
    let mut s = String::from_str(base);
    s.append("/");
    s.append(tail);
    s
}

/// `s` without a final `.yaml` extension, `s` itself otherwise.
pub open spec fn spec_strip_yaml(s: Seq<char>) -> Seq<char> {
    if s.len() >= 5 && s.skip(s.len() - 5) == ".yaml"@ {
        s.take(s.len() - 5)
    } else {
        s
    }
}

/// Strips a final `.yaml` extension, per [`spec_strip_yaml`].
pub fn strip_yaml_suffix(s: &str) -> (r: String)
    ensures
        r@ == spec_strip_yaml(s@),
{
    let n = s.unicode_len();
    proof {
        reveal_strlit(".yaml");
    }
    if n >= 5 && s.get_char(n - 5) == '.' && s.get_char(n - 4) == 'y' && s.get_char(n - 3) == 'a'
        && s.get_char(n - 2) == 'm' && s.get_char(n - 1) == 'l' {
        proof {
            assert(s@.skip(n as int - 5) =~= ".yaml"@);
        }
        String::from_str(s.substring_char(0, n - 5))
    } else {
        proof {
            if n >= 5 {
                assert(s@.skip(n as int - 5) != ".yaml"@) by {
                    if s@.skip(n as int - 5) == ".yaml"@ {
                        assert(s@.skip(n as int - 5)[0] == '.');
                        assert(s@.skip(n as int - 5)[1] == 'y');
                        assert(s@.skip(n as int - 5)[2] == 'a');
                        assert(s@.skip(n as int - 5)[3] == 'm');
                        assert(s@.skip(n as int - 5)[4] == 'l');
                    }
                }
            }
        }
        String::from_str(s)
    }
}

/// Character-wise string equality.
pub fn str_eq(a: &str, b: &str) -> (r: bool)
    ensures
        r == (a@ == b@),
{
    let n = a.unicode_len();
    let m = b.unicode_len();
    if n != m {
        return false;
    }
    let mut i: usize = 0;
    while i < n
        invariant
            i <= n,
            n == a@.len(),
            n == b@.len(),
            forall|j: int| 0 <= j < i ==> a@[j] == b@[j],
        decreases n - i,
    {
        if a.get_char(i) != b.get_char(i) {
            return false;
        }
        i += 1;
    }
    proof {
        assert(a@ =~= b@);
    }
    true
}

/// Is `s` a non-empty run of decimal digits?
pub fn is_digits(s: &str) -> (r: bool)
    ensures
        r == (s@.len() > 0 && all_digits(s@)),
{
    let n = s.unicode_len();
    if n == 0 {
        return false;
    }
    let mut i: usize = 0;
    while i < n
        invariant
            i <= n,
            n == s@.len(),
            all_digits(s@.take(i as int)),
        decreases n - i,
    {
        let code = s.get_char(i) as u32;
        if code < 48 || code > 57 {
            assert(!is_digit(s@[i as int]));
            return false;
        }
        proof {
            assert(s@.take(i + 1).drop_last() =~= s@.take(i as int));
            assert(s@.take(i + 1).last() == s@[i as int]);
            assert(all_digits(s@.take(i + 1)));
        }
        i += 1;
    }
    proof {
        assert(s@.take(n as int) =~= s@);
    }
    true
}

/// Does `s` contain `c`?
pub fn contains_char(s: &str, c: char) -> (r: bool)
    ensures
        r == s@.contains(c),
{
    let n = s.unicode_len();
    let mut i: usize = 0;
    while i < n
        invariant
            i <= n,
            n == s@.len(),
            forall|j: int| 0 <= j < i ==> s@[j] != c,
        decreases n - i,
    {
        if s.get_char(i) == c {
            assert(s@.contains(c));
            return true;
        }
        i += 1;
    }
    assert(forall|j: int| 0 <= j < s@.len() ==> s@[j] != c);
    false
}

/// What follows the last occurrence of `c` in `s` (all of `s` when `c` does
/// not occur).
pub open spec fn spec_after_last(s: Seq<char>, c: char) -> Seq<char>
    decreases s.len(),
{
    if s.len() == 0 {
        s
    } else if s.last() == c {
        Seq::<char>::empty()
    } else {
        spec_after_last(s.drop_last(), c).push(s.last())
    }
}

/// What precedes the last occurrence of `c` in `s` (empty when `c` does not
/// occur).
pub open spec fn spec_before_last(s: Seq<char>, c: char) -> Seq<char>
    decreases s.len(),
{
    if s.len() == 0 {
        s
    } else if s.last() == c {
        s.drop_last()
    } else {
        spec_before_last(s.drop_last(), c)
    }
}

proof fn lemma_after_last_at(s: Seq<char>, c: char, k: int)
    requires
        0 <= k < s.len(),
        s[k] == c,
        forall|j: int| k < j < s.len() ==> s[j] != c,
    ensures
        spec_after_last(s, c) == s.skip(k + 1),
        spec_before_last(s, c) == s.take(k),
    decreases s.len(),
{
    if k == s.len() - 1 {
        assert(s.skip(k + 1) =~= Seq::<char>::empty());
        assert(s.take(k) =~= s.drop_last());
    } else {
        lemma_after_last_at(s.drop_last(), c, k);
        assert(s.drop_last().skip(k + 1) =~= s.skip(k + 1).drop_last());
        assert(spec_after_last(s, c) =~= s.skip(k + 1));
        assert(s.drop_last().take(k) =~= s.take(k));
    }
}

proof fn lemma_after_last_absent(s: Seq<char>, c: char)
    requires
        forall|j: int| 0 <= j < s.len() ==> s[j] != c,
    ensures
        spec_after_last(s, c) == s,
        spec_before_last(s, c) == Seq::<char>::empty(),
    decreases s.len(),
{
    if s.len() > 0 {
        lemma_after_last_absent(s.drop_last(), c);
        assert(spec_after_last(s, c) =~= s);
        assert(spec_before_last(s, c) =~= Seq::<char>::empty());
    } else {
        assert(s =~= Seq::<char>::empty());
    }
}

/// Index of the last occurrence of `c` in `s`, if any.
fn rfind_char(s: &str, c: char) -> (r: Option<usize>)
    ensures
        match r {
            Some(k) => k < s@.len() && s@[k as int] == c && forall|j: int|
                k < j < s@.len() ==> s@[j] != c,
            None => forall|j: int| 0 <= j < s@.len() ==> s@[j] != c,
        },
{
    let n = s.unicode_len();
    let mut i: usize = n;
    while i > 0
        invariant
            i <= n,
            n == s@.len(),
            forall|j: int| i <= j < n ==> s@[j] != c,
        decreases i,
    {
        i -= 1;
        if s.get_char(i) == c {
            return Some(i);
        }
    }
    None
}

/// The part of `s` after the last occurrence of `c`, per [`spec_after_last`].
pub fn after_last_char(s: &str, c: char) -> (r: String)
    ensures
        r@ == spec_after_last(s@, c),
{
    let n = s.unicode_len();
    match rfind_char(s, c) {
        Some(k) => {
            proof {
                lemma_after_last_at(s@, c, k as int);
            }
            String::from_str(s.substring_char(k + 1, n))
        },
        None => {
            proof {
                lemma_after_last_absent(s@, c);
            }
            String::from_str(s)
        },
    }
}

/// The part of `s` before the last occurrence of `c`, per
/// [`spec_before_last`].
pub fn before_last_char(s: &str, c: char) -> (r: String)
    ensures
        r@ == spec_before_last(s@, c),
{
    match rfind_char(s, c) {
        Some(k) => {
            proof {
                lemma_after_last_at(s@, c, k as int);
            }
            String::from_str(s.substring_char(0, k))
        },
        None => {
            proof {
                lemma_after_last_absent(s@, c);
            }
            String::new()
        },
    }
}

} // verus!
