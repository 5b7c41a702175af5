//! Verified text utilities: searching, splitting, case folding and decimal
//! formatting over `Seq<char>` models of strings.
//!
//! Every executable helper mirrors the recursive structure of its spec
//! function, so each contract states exactly what the helper returns.

use vstd::prelude::*;
use vstd::string::StrSliceExecFns;
use vstd::string::StringExecFns;

verus! {

/// Index of the first occurrence of `c` in `s`, if any.
pub open spec fn find_char(s: Seq<char>, c: char) -> Option<int>
    decreases s.len(),
{
    if s.len() == 0 {
        None
    } else if s[0] == c {
        Some(0)
    } else {
        match find_char(s.skip(1), c) {
            Some(i) => Some(i + 1),
            None => None,
        }
    }
}

pub proof fn lemma_find_char_bounds(s: Seq<char>, c: char)
    ensures
        match find_char(s, c) {
            Some(i) => 0 <= i < s.len() && s[i] == c && (forall|j: int| 0 <= j < i ==> s[j] != c),
            None => forall|j: int| 0 <= j < s.len() ==> s[j] != c,
        },
    decreases s.len(),
{
    if s.len() > 0 && s[0] != c {
        let rest = s.skip(1);
        lemma_find_char_bounds(rest, c);
        match find_char(rest, c) {
            Some(i0) => {
                assert forall|j: int| 0 <= j < i0 + 1 implies s[j] != c by {
                    if j > 0 {
                        assert(rest[j - 1] == s[j]);
                        assert(rest[j - 1] != c);
                    }
                }
            },
            None => {
                assert forall|j: int| 0 <= j < s.len() implies s[j] != c by {
                    if j > 0 {
                        assert(rest[j - 1] == s[j]);
                        assert(rest[j - 1] != c);
                    }
                }
            },
        }
    }
}

/// The pieces of `s` separated by `c`, in order. Like `str::split`, the
/// result always has at least one piece, and empty pieces are kept.
pub open spec fn split_char(s: Seq<char>, c: char) -> Seq<Seq<char>>
    decreases s.len(),
{
    match find_char(s, c) {
        None => seq![s],
        Some(i) => {
            if 0 <= i < s.len() {
                seq![s.take(i)] + split_char(s.skip(i + 1), c)
            } else {
                seq![s]
            }
        },
    }
}

/// The text before and after the first `c` in `s`, if `s` contains `c`.
pub open spec fn split_once(s: Seq<char>, c: char) -> Option<(Seq<char>, Seq<char>)> {
    match find_char(s, c) {
        None => None,
        Some(i) => Some((s.take(i), s.skip(i + 1))),
    }
}

/// `p` is a prefix of `s`.
pub open spec fn is_prefix(p: Seq<char>, s: Seq<char>) -> bool {
    p.len() <= s.len() && s.take(p.len() as int) == p
}

/// How many times `c` occurs in `s`.
pub open spec fn count_char(s: Seq<char>, c: char) -> int
    decreases s.len(),
{
    if s.len() == 0 {
        0
    } else {
        count_char(s.drop_last(), c) + if s.last() == c { 1int } else { 0int }
    }
}

/// Compares two string slices by contents.
pub fn str_eq(a: &str, b: &str) -> (r: bool)
    ensures
        r == (a@ == b@),
{
    let n = a.unicode_len();
    if n != b.unicode_len() {
        assert(a@ != b@) by {
            assert(a@.len() != b@.len());
        }
        return false;
    }
    let mut i: usize = 0;
    while i < n
        invariant
            n == a@.len() && n == b@.len(),
            0 <= i <= n,
            forall|j: int| 0 <= j < i ==> a@[j] == b@[j],
        decreases n - i,
    {
        if a.get_char(i) != b.get_char(i) {
            return false;
        }
        i += 1;
    }
    proof {
        assert(a@ =~= b@);
    }
    true
}

/// Index of the first occurrence of `c` in `s`, if any.
pub fn find_char_in(s: &str, c: char) -> (r: Option<usize>)
    ensures
        match r {
            Some(i) => find_char(s@, c) == Some(i as int),
            None => find_char(s@, c) is None,
        },
    decreases s@.len(),
{
    let n = s.unicode_len();
    if n == 0 {
        None
    } else if s.get_char(0) == c {
        Some(0)
    } else {
        let rest = s.substring_char(1, n);
        match find_char_in(rest, c) {
            Some(i) => {
                proof {
                    lemma_find_char_bounds(rest@, c);
                }
                Some(i + 1)
            },
            None => None,
        }
    }
}

/// Splits `s` at every occurrence of `c`, keeping empty pieces.
pub fn split_str(s: &str, c: char) -> (r: Vec<String>)
    ensures
        r.deep_view() == split_char(s@, c),
        r.len() >= 1,
    decreases s@.len(),
{
    let n = s.unicode_len();
    match find_char_in(s, c) {
        None => {
            let mut v: Vec<String> = Vec::new();
            v.push(String::from_str(s));
            proof {
                assert(v.deep_view() =~= split_char(s@, c));
            }
            v
        },
        Some(i) => {
            proof {
                lemma_find_char_bounds(s@, c);
            }
            let head = String::from_str(s.substring_char(0, i));
            let rest = s.substring_char(i + 1, n);
            let mut v = split_str(rest, c);
            v.insert(0, head);
            proof {
                assert(head@ =~= s@.take(i as int));
                assert(v.deep_view() =~= split_char(s@, c));
            }
            v
        },
    }
}

/// Splits `s` into the text before and after its first `c`.
pub fn split_once_str(s: &str, c: char) -> (r: Option<(String, String)>)
    ensures
        match r {
            Some(p) => split_once(s@, c) == Some((p.0@, p.1@)),
            None => split_once(s@, c) is None,
        },
{
    let n = s.unicode_len();
    match find_char_in(s, c) {
        None => None,
        Some(i) => {
            proof {
                lemma_find_char_bounds(s@, c);
            }
            let head = String::from_str(s.substring_char(0, i));
            let tail = String::from_str(s.substring_char(i + 1, n));
            Some((head, tail))
        },
    }
}

/// Whether `s` starts with `p`.
pub fn str_starts_with(s: &str, p: &str) -> (r: bool)
    ensures
        r == is_prefix(p@, s@),
{
    let np = p.unicode_len();
    let ns = s.unicode_len();
    if np > ns {
        return false;
    }
    let mut i: usize = 0;
    while i < np
        invariant
            np == p@.len() && ns == s@.len() && np <= ns,
            0 <= i <= np,
            forall|j: int| 0 <= j < i ==> s@[j] == p@[j],
        decreases np - i,
    {
        if s.get_char(i) != p.get_char(i) {
            assert(s@.take(np as int)[i as int] != p@[i as int]);
            return false;
        }
        i += 1;
    }
    proof {
        assert(s@.take(np as int) =~= p@);
    }
    true
}

/// The text after prefix `p`, when `s` starts with it.
pub fn strip_prefix_str(s: &str, p: &str) -> (r: Option<String>)
    ensures
        match r {
            Some(rest) => is_prefix(p@, s@) && rest@ == s@.skip(p@.len() as int),
            None => !is_prefix(p@, s@),
        },
{
    if str_starts_with(s, p) {
        Some(String::from_str(s.substring_char(p.unicode_len(), s.unicode_len())))
    } else {
        None
    }
}

/// Index of the first occurrence of `p` as a contiguous part of `s`, if any.
pub open spec fn find_sub(s: Seq<char>, p: Seq<char>) -> Option<int>
    decreases s.len(),
{
    if p.len() > s.len() {
        None
    } else if s.take(p.len() as int) == p {
        Some(0)
    } else if s.len() == 0 {
        None
    } else {
        match find_sub(s.skip(1), p) {
            Some(i) => Some(i + 1),
            None => None,
        }
    }
}

pub proof fn lemma_find_sub_bounds(s: Seq<char>, p: Seq<char>)
    ensures
        match find_sub(s, p) {
            Some(i) => 0 <= i && i + p.len() <= s.len(),
            None => true,
        },
    decreases s.len(),
{
    if p.len() <= s.len() && s.take(p.len() as int) != p && s.len() > 0 {
        lemma_find_sub_bounds(s.skip(1), p);
    }
}

/// Index of the first occurrence of `p` inside `s`, if any.
pub fn find_sub_in(s: &str, p: &str) -> (r: Option<usize>)
    ensures
        match r {
            Some(i) => find_sub(s@, p@) == Some(i as int),
            None => find_sub(s@, p@) is None,
        },
    decreases s@.len(),
{
    let ns = s.unicode_len();
    let np = p.unicode_len();
    if np > ns {
        None
    } else if str_starts_with(s, p) {
        Some(0)
    } else if ns == 0 {
        None
    } else {
        let rest = s.substring_char(1, ns);
        match find_sub_in(rest, p) {
            Some(i) => {
                proof {
                    lemma_find_sub_bounds(rest@, p@);
                }
                Some(i + 1)
            },
            None => None,
        }
    }
}

pub proof fn lemma_find_char_at(s: Seq<char>, c: char, i: int)
    requires
        0 <= i < s.len(),
        s[i] == c,
        forall|j: int| 0 <= j < i ==> s[j] != c,
    ensures
        find_char(s, c) == Some(i),
{
    lemma_find_char_bounds(s, c);
    match find_char(s, c) {
        Some(i2) => {
            if i2 < i {
                assert(s[i2] != c);
            }
            if i < i2 {
                assert(s[i] != c);
            }
        },
        None => {
            assert(s[i] != c);
        },
    }
}

/// Splitting at the first separator: when `a` is free of the separator,
/// the split of `a + [c] + b` is `a` followed by the split of `b`.
pub proof fn lemma_split_char_head(a: Seq<char>, c: char, b: Seq<char>)
    requires
        forall|j: int| 0 <= j < a.len() ==> a[j] != c,
    ensures
        split_char(a + seq![c] + b, c) == seq![a] + split_char(b, c),
{
    let s = a + seq![c] + b;
    assert(s[a.len() as int] == c);
    assert forall|j: int| 0 <= j < a.len() implies s[j] != c by {
        assert(s[j] == a[j]);
    }
    lemma_find_char_at(s, c, a.len() as int);
    assert(s.take(a.len() as int) =~= a);
    assert(s.skip(a.len() as int + 1) =~= b);
}

pub proof fn lemma_find_sub_at(s: Seq<char>, p: Seq<char>, i: int)
    requires
        0 <= i,
        i + p.len() <= s.len(),
        s.subrange(i, i + p.len()) == p,
        forall|j: int| 0 <= j < i ==> #[trigger] s.subrange(j, j + p.len()) != p,
    ensures
        find_sub(s, p) == Some(i),
    decreases i,
{
    if i == 0 {
        assert(s.take(p.len() as int) =~= s.subrange(0, p.len() as int));
    } else {
        let j0: int = 0;
        assert(s.subrange(j0, j0 + p.len()) != p);
        assert(s.take(p.len() as int) =~= s.subrange(j0, j0 + p.len()));
        let rest = s.skip(1);
        assert(rest.subrange(i - 1, i - 1 + p.len()) =~= s.subrange(i, i + p.len()));
        assert forall|j: int| 0 <= j < i - 1 implies #[trigger] rest.subrange(j, j + p.len())
            != p by {
            assert(rest.subrange(j, j + p.len()) =~= s.subrange(j + 1, j + 1 + p.len()));
        }
        lemma_find_sub_at(rest, p, i - 1);
    }
}

/// A line with a trailing carriage return removed, as `str::lines` does.
pub open spec fn strip_cr(l: Seq<char>) -> Seq<char> {
    if l.len() > 0 && l.last() == '\r' {
        l.drop_last()
    } else {
        l
    }
}

/// The lines of `s`, modelled after `str::lines`: pieces split at `'\n'`,
/// each with a trailing `'\r'` removed, and no final empty line when `s`
/// ends with a newline.
pub open spec fn spec_lines(s: Seq<char>) -> Seq<Seq<char>> {
    if s.len() == 0 {
        Seq::empty()
    } else {
        let parts = split_char(s, '\n');
        let kept = if s.last() == '\n' {
            parts.drop_last()
        } else {
            parts
        };
        kept.map_values(|l: Seq<char>| strip_cr(l))
    }
}

/// The lines of `s`, as `str::lines` yields them.
pub fn lines_of(s: &str) -> (r: Vec<String>)
    ensures
        r.deep_view() == spec_lines(s@),
{
    let n = s.unicode_len();
    let mut out: Vec<String> = Vec::new();
    if n == 0 {
        proof {
            assert(out.deep_view() =~= spec_lines(s@));
        }
        return out;
    }
    let mut parts = split_str(s, '\n');
    if s.get_char(n - 1) == '\n' {
        proof {
            assert(s@.last() == '\n');
        }
        parts.pop();
    }
    let ghost kept = parts.deep_view();
    let ghost target = kept.map_values(|l: Seq<char>| strip_cr(l));
    let m = parts.len();
    let mut i: usize = 0;
    while i < m
        invariant
            m == parts.len(),
            0 <= i <= m,
            out@.len() == i,
            target.len() == m,
            out.deep_view() =~= target.take(i as int),
            kept == parts.deep_view(),
            target == kept.map_values(|l: Seq<char>| strip_cr(l)),
        decreases m - i,
    {
        let line = &parts[i];
        proof {
            assert(kept[i as int] == line@);
            assert(target[i as int] == strip_cr(line@));
        }
        let ln = line.as_str().unicode_len();
        if ln > 0 && line.as_str().get_char(ln - 1) == '\r' {
            out.push(String::from_str(line.as_str().substring_char(0, ln - 1)));
            proof {
                assert(line@.subrange(0, ln - 1) =~= strip_cr(line@));
            }
        } else {
            out.push(line.clone());
            proof {
                assert(strip_cr(line@) == line@);
            }
        }
        proof {
            assert(out@.len() == i + 1);
            assert(out.deep_view().len() == out@.len());
            assert forall|k: int| 0 <= k < i + 1 implies out.deep_view()[k] == target.take(
                i + 1,
            )[k] by {
                assert(out.deep_view()[k] == out@[k]@);
                if k < i {
                    assert(out@[k]@ == target.take(i as int)[k]);
                }
            }
            assert(out.deep_view() =~= target.take(i + 1));
        }
        i += 1;
    }
    proof {
        assert(target.take(m as int) =~= target);
        assert(target =~= spec_lines(s@));
    }
    out
}

/// The lower-case alphabet, the image of the upper-case ASCII letters
/// under case folding.
pub open spec fn lower_ref() -> Seq<char> {
    "abcdefghijklmnopqrstuvwxyz"@
}

/// ASCII case folding of one character: an upper-case ASCII letter maps to
/// the letter at the same position of the lower-case alphabet; everything
/// else is unchanged.
pub open spec fn lower_char(c: char) -> char {
    if 65 <= c as int <= 90 {
        lower_ref()[c as int - 65]
    } else {
        c
    }
}

/// ASCII case folding of a whole string.
pub open spec fn lower_seq(s: Seq<char>) -> Seq<char> {
    s.map_values(|c: char| lower_char(c))
}

/// Folds upper-case ASCII letters to lower case, leaving all other
/// characters unchanged.
pub fn to_lowercase_ascii(s: &str) -> (r: String)
    ensures
        r@ == lower_seq(s@),
{
    let table = "abcdefghijklmnopqrstuvwxyz";
    proof {
        reveal_strlit("abcdefghijklmnopqrstuvwxyz");
        assert(table@ == lower_ref());
    }
    let n = s.unicode_len();
    let mut r = String::new();
    let mut i: usize = 0;
    while i < n
        invariant
            n == s@.len(),
            0 <= i <= n,
            table@ == lower_ref() && table@.len() == 26,
            r@ =~= lower_seq(s@.take(i as int)),
        decreases n - i,
    {
        let c = s.get_char(i);
        let u = c as u32;
        if 65 <= u && u <= 90 {
            let k = (u - 65) as usize;
            r.append(table.substring_char(k, k + 1));
            proof {
                assert(table@.subrange(k as int, k + 1) =~= seq![lower_ref()[k as int]]);
            }
        } else {
            r.append(s.substring_char(i, i + 1));
            proof {
                assert(s@.subrange(i as int, i + 1) =~= seq![s@[i as int]]);
            }
        }
        proof {
            assert(lower_seq(s@.take(i + 1)) =~= lower_seq(s@.take(i as int)).push(
                lower_char(s@[i as int]),
            ));
        }
        i += 1;
    }
    proof {
        assert(s@.take(n as int) =~= s@);
    }
    r
}

/// The decimal digits.
pub open spec fn digits_ref() -> Seq<char> {
    "0123456789"@
}

/// The decimal numeral of `n`, most significant digit first, with no sign
/// and no leading zeros.
pub open spec fn dec_digits(n: nat) -> Seq<char>
    decreases n,
{
    if n < 10 {
        seq![digits_ref()[n as int]]
    } else {
        dec_digits(n / 10).push(digits_ref()[(n % 10) as int])
    }
}

/// Renders `n` in decimal.
pub fn u64_to_string(n: u64) -> (r: String)
    ensures
        r@ == dec_digits(n as nat),
    decreases n,
{
    let table = "0123456789";
    proof {
        reveal_strlit("0123456789");
        assert(table@ == digits_ref());
    }
    if n < 10 {
        let k = n as usize;
        let r = String::from_str(table.substring_char(k, k + 1));
        proof {
            assert(table@.subrange(k as int, k + 1) =~= seq![digits_ref()[n as int]]);
        }
        r
    } else {
        let mut r = u64_to_string(n / 10);
        let k = (n % 10) as usize;
        r.append(table.substring_char(k, k + 1));
        proof {
            assert(table@.subrange(k as int, k + 1) =~= seq![digits_ref()[(n as nat % 10) as int]]);
            assert(r@ =~= dec_digits(n as nat));
        }
        r
    }
}

pub proof fn lemma_dec_digits_are_digits(n: nat)
    ensures
        dec_digits(n).len() >= 1,
        forall|i: int|
            0 <= i < dec_digits(n).len() ==> 48 <= #[trigger] dec_digits(n)[i] as int <= 57,
    decreases n,
{
    reveal_strlit("0123456789");
    assert forall|d: int| 0 <= d < 10 implies 48 <= #[trigger] digits_ref()[d] as int <= 57 by {
        assert(digits_ref()[0] == '0');
        assert(digits_ref()[1] == '1');
        assert(digits_ref()[2] == '2');
        assert(digits_ref()[3] == '3');
        assert(digits_ref()[4] == '4');
        assert(digits_ref()[5] == '5');
        assert(digits_ref()[6] == '6');
        assert(digits_ref()[7] == '7');
        assert(digits_ref()[8] == '8');
        assert(digits_ref()[9] == '9');
    }
    if n >= 10 {
        lemma_dec_digits_are_digits(n / 10);
    }
}

pub proof fn lemma_dec_value_of_digits(n: nat)
    ensures
        dec_value(dec_digits(n)) == n,
    decreases n,
{
    reveal_strlit("0123456789");
    assert forall|d: int| 0 <= d < 10 implies #[trigger] digits_ref()[d] as int == 48 + d by {
        assert(digits_ref()[0] == '0');
        assert(digits_ref()[1] == '1');
        assert(digits_ref()[2] == '2');
        assert(digits_ref()[3] == '3');
        assert(digits_ref()[4] == '4');
        assert(digits_ref()[5] == '5');
        assert(digits_ref()[6] == '6');
        assert(digits_ref()[7] == '7');
        assert(digits_ref()[8] == '8');
        assert(digits_ref()[9] == '9');
    }
    if n < 10 {
        let w = dec_digits(n);
        assert(w.drop_last() =~= Seq::<char>::empty());
        assert(dec_value(w.drop_last()) == 0);
        assert(w.last() == digits_ref()[n as int]);
    } else {
        lemma_dec_value_of_digits(n / 10);
        let w = dec_digits(n);
        assert(w.drop_last() =~= dec_digits(n / 10));
        assert(w.last() == digits_ref()[(n % 10) as int]);
    }
}

/// A decimal digit.
pub open spec fn is_digit(c: char) -> bool {
    48 <= c as int <= 57
}

/// Every character of `s` is a decimal digit.
pub open spec fn all_digits(s: Seq<char>) -> bool {
    forall|i: int| 0 <= i < s.len() ==> is_digit(s[i])
}

/// The value of `s` read as a decimal numeral.
pub open spec fn dec_value(s: Seq<char>) -> int
    decreases s.len(),
{
    if s.len() == 0 {
        0
    } else {
        dec_value(s.drop_last()) * 10 + (s.last() as int - 48)
    }
}

pub proof fn lemma_dec_value_nonneg(s: Seq<char>)
    requires
        all_digits(s),
    ensures
        dec_value(s) >= 0,
    decreases s.len(),
{
    if s.len() > 0 {
        assert(all_digits(s.drop_last()));
        lemma_dec_value_nonneg(s.drop_last());
    }
}

/// The number `s` denotes, when `s` is a non-empty string of decimal
/// digits whose value fits in a byte.
pub open spec fn parse_u8_spec(s: Seq<char>) -> Option<u8> {
    if s.len() > 0 && all_digits(s) && dec_value(s) <= 255 {
        Some(dec_value(s) as u8)
    } else {
        None
    }
}

/// Reads a non-negative byte-sized decimal numeral.
pub fn parse_u8_str(s: &str) -> (r: Option<u8>)
    ensures
        r == parse_u8_spec(s@),
{
    let n = s.unicode_len();
    if n == 0 {
        return None;
    }
    let mut acc: u32 = 0;
    let mut i: usize = 0;
    while i < n
        invariant
            n == s@.len(),
            0 <= i <= n,
            all_digits(s@.take(i as int)),
            acc <= 256,
            dec_value(s@.take(i as int)) < 256 ==> acc == dec_value(s@.take(i as int)),
            dec_value(s@.take(i as int)) >= 256 ==> acc == 256,
        decreases n - i,
    {
        let c = s.get_char(i);
        let u = c as u32;
        if u < 48 || u > 57 {
            assert(!is_digit(s@[i as int]));
            return None;
        }
        let d = u - 48;
        proof {
            assert(s@.take(i + 1).drop_last() =~= s@.take(i as int));
            assert(s@.take(i + 1).last() == s@[i as int]);
            lemma_dec_value_nonneg(s@.take(i as int));
        }
        let next = acc * 10 + d;
        if next > 256 {
            acc = 256;
        } else {
            acc = next;
        }
        i += 1;
    }
    proof {
        assert(s@.take(n as int) =~= s@);
    }
    if acc <= 255 {
        Some(acc as u8)
    } else {
        None
    }
}

/// `items` joined with a comma and a space between neighbours.
pub open spec fn join_comma(items: Seq<Seq<char>>) -> Seq<char>
    decreases items.len(),
{
    if items.len() == 0 {
        Seq::empty()
    } else if items.len() == 1 {
        items[0]
    } else {
        join_comma(items.drop_last()) + ", "@ + items.last()
    }
}

/// Joins `items` with `", "` between neighbours.
pub fn join_comma_strs(items: &Vec<String>) -> (r: String)
    ensures
        r@ == join_comma(items.deep_view()),
{
    let ghost dv = items.deep_view();
    let mut r = String::new();
    let m = items.len();
    let mut i: usize = 0;
    while i < m
        invariant
            m == items.len(),
            dv == items.deep_view(),
            0 <= i <= m,
            r@ =~= join_comma(dv.take(i as int)),
        decreases m - i,
    {
        if i > 0 {
            r.append(", ");
        }
        r.append(items[i].as_str());
        proof {
            assert(dv.take(i + 1).drop_last() =~= dv.take(i as int));
            assert(dv.take(i + 1).last() == dv[i as int]);
            if i == 0 {
                assert(r@ =~= join_comma(dv.take(1)));
            }
        }
        i += 1;
    }
    proof {
        assert(dv.take(m as int) =~= dv);
    }
    r
}

/// How many times `c` occurs in `s`.
pub fn count_char_in(s: &str, c: char) -> (r: usize)
    ensures
        r == count_char(s@, c),
{
    let n = s.unicode_len();
    let mut i: usize = 0;
    let mut r: usize = 0;
    while i < n
        invariant
            n == s@.len(),
            0 <= i <= n,
            r == count_char(s@.take(i as int), c),
            r <= i,
        decreases n - i,
    {
        proof {
            assert(s@.take(i + 1).drop_last() =~= s@.take(i as int));
            assert(s@.take(i + 1).last() == s@[i as int]);
        }
        if s.get_char(i) == c {
            r += 1;
        }
        i += 1;
    }
    proof {
        assert(s@.take(n as int) =~= s@);
    }
    r
}

} // verus!
