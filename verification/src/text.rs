//! Small verified string helpers shared by the other modules.

use vstd::prelude::*;
use vstd::utf8::*;

verus! {

broadcast use vstd::seq::group_seq_axioms, vstd::string::group_string_axioms;

/// Byte-wise equality of two byte slices.
pub fn bytes_eq(a: &[u8], b: &[u8]) -> (r: bool)
    ensures
        r == (a@ == b@),
{
    if a.len() != b.len() {
        return false;
    }
    let mut i: usize = 0;
    while i < a.len()
        invariant
            a@.len() == b@.len(),
            i <= a@.len(),
            forall|j: int| 0 <= j < i ==> a@[j] == b@[j],
        decreases a@.len() - i,
    {
        if a[i] != b[i] {
            return false;
        }
        i = i + 1;
    }
    assert(a@ =~= b@);
    true
}

/// Equality of two string slices, by their character contents.
pub fn str_eq(a: &str, b: &str) -> (r: bool)
    ensures
        r == (a@ == b@),
{
    let ab = a.as_bytes();
    let bb = b.as_bytes();
    let r = bytes_eq(ab, bb);
    proof {
        encode_utf8_decode_utf8(a@);
        encode_utf8_decode_utf8(b@);
    }
    r
}

/// The ASCII digit for a value below ten.
pub open spec fn digit_char(d: nat) -> char {
    if d == 0 { '0' } else if d == 1 { '1' } else if d == 2 { '2' } else if d == 3 { '3' }
    else if d == 4 { '4' } else if d == 5 { '5' } else if d == 6 { '6' } else if d == 7 { '7' }
    else if d == 8 { '8' } else { '9' }
}

/// The decimal spelling of a natural number (no sign, no leading zeros).
pub open spec fn decimal(n: nat) -> Seq<char>
    decreases n,
{
    if n < 10 {
        seq![digit_char(n)]
    } else {
        decimal(n / 10).push(digit_char(n % 10))
    }
}

fn digit(d: u64) -> (c: char)
    requires
        d < 10,
    ensures
        c == digit_char(d as nat),
{
    if d == 0 { '0' } else if d == 1 { '1' } else if d == 2 { '2' } else if d == 3 { '3' }
    else if d == 4 { '4' } else if d == 5 { '5' } else if d == 6 { '6' } else if d == 7 { '7' }
    else if d == 8 { '8' } else { '9' }
}

/// Append one character to a string through std's `String::push`. The
/// contract claims what std documents: the string's characters are the old
/// ones followed by `c`.
#[verifier::external_body]
pub(crate) fn push_char(s: &mut String, c: char)
    ensures
        final(s)@ == old(s)@.push(c),
{
    s.push(c);
}

/// Append a string slice to a string.
pub fn push_str(s: &mut String, other: &str)
    ensures
        final(s)@ == old(s)@ + other@,
{
    s.append(other);
}

/// A new string holding a copy of `s`.
pub fn string_of(s: &str) -> (r: String)
    ensures
        r@ == s@,
{
    String::from_str(s)
}

/// Append the decimal spelling of `n`.
pub fn push_decimal(s: &mut String, n: u64)
    ensures
        final(s)@ == old(s)@ + decimal(n as nat),
    decreases n,
{
    if n >= 10 {
        push_decimal(s, n / 10);
    }
    push_char(s, digit(n % 10));
    proof {
        if n >= 10 {
            assert(decimal(n as nat) == decimal((n / 10) as nat).push(digit_char((n % 10) as nat)));
        }
        assert(final(s)@ =~= old(s)@ + decimal(n as nat));
    }
}

/// The decimal spelling of `n` as a new string.
pub fn decimal_string(n: u64) -> (r: String)
    ensures
        r@ == decimal(n as nat),
{
    let mut s = String::new();
    push_decimal(&mut s, n);
    assert(s@ =~= decimal(n as nat));
    s
}

/// A decimal spelling is never empty and never longer than the number's
/// digit count allows; numbers below ten take exactly one digit.
pub proof fn lemma_decimal_len(n: nat)
    ensures
        decimal(n).len() >= 1,
        n < 10 <==> decimal(n).len() == 1,
    decreases n,
{
    if n >= 10 {
        lemma_decimal_len(n / 10);
    }
}

proof fn lemma_digit_char_injective(a: nat, b: nat)
    requires
        a < 10,
        b < 10,
        digit_char(a) == digit_char(b),
    ensures
        a == b,
{
}

/// Distinct numbers have distinct decimal spellings.
pub proof fn lemma_decimal_injective(a: nat, b: nat)
    requires
        decimal(a) == decimal(b),
    ensures
        a == b,
    decreases a,
{
    lemma_decimal_len(a);
    lemma_decimal_len(b);
    if a < 10 {
        assert(b < 10);
        assert(decimal(a)[0] == digit_char(a));
        assert(decimal(b)[0] == digit_char(b));
        lemma_digit_char_injective(a, b);
    } else {
        let da = decimal(a);
        let db = decimal(b);
        assert(da.last() == db.last());
        lemma_digit_char_injective(a % 10, b % 10);
        assert(da.drop_last() =~= decimal(a / 10));
        assert(db.drop_last() =~= decimal(b / 10));
        lemma_decimal_injective(a / 10, b / 10);
    }
}

/// A shared prefix can be cancelled: `p + x == p + y` only when `x == y`.
pub proof fn lemma_prefix_cancel(p: Seq<char>, x: Seq<char>, y: Seq<char>)
    requires
        p + x == p + y,
    ensures
        x == y,
{
    assert(x =~= (p + x).subrange(p.len() as int, (p + x).len() as int));
    assert(y =~= (p + y).subrange(p.len() as int, (p + y).len() as int));
}

/// An ASCII decimal digit.
pub open spec fn is_digit_char(c: char) -> bool {
    '0' <= c && c <= '9'
}

/// Every character of a decimal spelling is a digit.
pub proof fn lemma_decimal_digits(n: nat)
    ensures
        forall|i: int| 0 <= i < decimal(n).len() ==> is_digit_char(#[trigger] decimal(n)[i]),
    decreases n,
{
    if n >= 10 {
        lemma_decimal_digits(n / 10);
        let d = decimal(n / 10);
        assert forall|i: int| 0 <= i < decimal(n).len() implies is_digit_char(#[trigger] decimal(n)[i]) by {
            if i < d.len() {
                assert(decimal(n)[i] == d[i]);
            }
        }
    }
}

/// A run of digits before a dash splits uniquely: `x + "-" + a == y + "-" + b`
/// with digit runs `x` and `y` only when `x == y` and `a == b`.
pub proof fn lemma_split_after_digits(x: Seq<char>, a: Seq<char>, y: Seq<char>, b: Seq<char>)
    requires
        forall|i: int| 0 <= i < x.len() ==> is_digit_char(#[trigger] x[i]),
        forall|i: int| 0 <= i < y.len() ==> is_digit_char(#[trigger] y[i]),
        x + seq!['-'] + a == y + seq!['-'] + b,
    ensures
        x == y,
        a == b,
{
    let l = x + seq!['-'] + a;
    let r = y + seq!['-'] + b;
    if x.len() < y.len() {
        assert(l[x.len() as int] == '-');
        assert(r[x.len() as int] == y[x.len() as int]);
    } else if y.len() < x.len() {
        assert(r[y.len() as int] == '-');
        assert(l[y.len() as int] == x[y.len() as int]);
    }
    assert(x =~= l.subrange(0, x.len() as int));
    assert(y =~= r.subrange(0, y.len() as int));
    assert(a =~= l.subrange(x.len() as int + 1, l.len() as int));
    assert(b =~= r.subrange(y.len() as int + 1, r.len() as int));
}

/// A run of digits after a dash splits uniquely: `a + "-" + x == b + "-" + y`
/// with digit runs `x` and `y` only when `a == b` and `x == y`.
pub proof fn lemma_split_before_digits(a: Seq<char>, x: Seq<char>, b: Seq<char>, y: Seq<char>)
    requires
        forall|i: int| 0 <= i < x.len() ==> is_digit_char(#[trigger] x[i]),
        forall|i: int| 0 <= i < y.len() ==> is_digit_char(#[trigger] y[i]),
        a + seq!['-'] + x == b + seq!['-'] + y,
    ensures
        a == b,
        x == y,
{
    let l = a + seq!['-'] + x;
    let r = b + seq!['-'] + y;
    let n = l.len() as int;
    if x.len() < y.len() {
        assert(l[n - x.len() - 1] == '-');
        assert(r[n - x.len() - 1] == y[y.len() - x.len() - 1]);
    } else if y.len() < x.len() {
        assert(r[n - y.len() - 1] == '-');
        assert(l[n - y.len() - 1] == x[x.len() - y.len() - 1]);
    }
    assert(a =~= l.subrange(0, a.len() as int));
    assert(b =~= r.subrange(0, b.len() as int));
    assert(x =~= l.subrange(a.len() as int + 1, n));
    assert(y =~= r.subrange(b.len() as int + 1, n));
}

/// `whole` is `pre`, then `part`, then `post`.
pub open spec fn infix_split(whole: Seq<char>, pre: Seq<char>, part: Seq<char>, post: Seq<char>) -> bool {
    whole == pre + part + post
}

/// `part` occurs in `whole` as a contiguous run.
pub open spec fn has_infix(whole: Seq<char>, part: Seq<char>) -> bool {
    exists|pre: Seq<char>, post: Seq<char>| #[trigger] infix_split(whole, pre, part, post)
}

/// `whole` ends with `part`.
pub open spec fn has_suffix(whole: Seq<char>, part: Seq<char>) -> bool {
    part.len() <= whole.len() && whole.subrange(whole.len() - part.len(), whole.len() as int) == part
}

/// The characters of a string slice, in order.
pub fn chars_of(s: &str) -> (r: Vec<char>)
    ensures
        r@ == s@,
{
    let mut out: Vec<char> = Vec::new();
    for c in it: s.chars()
        invariant
            out@ == it.history(),
    {
        out.push(c);
    }
    assert(out@ =~= s@);
    out
}

/// Every non-overlapping occurrence of `pat` in `s`, scanning left to right,
/// replaced by `rep` (`pat` must not be empty).
pub open spec fn replace_spec(s: Seq<char>, pat: Seq<char>, rep: Seq<char>) -> Seq<char>
    decreases s.len(),
{
    if pat.len() == 0 || s.len() < pat.len() {
        s
    } else if s.subrange(0, pat.len() as int) == pat {
        rep + replace_spec(s.subrange(pat.len() as int, s.len() as int), pat, rep)
    } else {
        seq![s[0]] + replace_spec(s.drop_first(), pat, rep)
    }
}

fn matches_at(s: &Vec<char>, i: usize, pat: &Vec<char>) -> (r: bool)
    requires
        i + pat@.len() <= s@.len(),
    ensures
        r == (s@.subrange(i as int, i + pat@.len()) == pat@),
{
    let n = s.len();
    let mut k: usize = 0;
    while k < pat.len()
        invariant
            i + pat@.len() <= n,
            n == s@.len(),
            k <= pat@.len(),
            forall|j: int| 0 <= j < k ==> s@[i + j] == pat@[j],
        decreases pat@.len() - k,
    {
        if s[i + k] != pat[k] {
            assert(s@.subrange(i as int, i + pat@.len())[k as int] != pat@[k as int]);
            return false;
        }
        k = k + 1;
    }
    assert(s@.subrange(i as int, i + pat@.len()) =~= pat@);
    true
}

/// Replace every non-overlapping occurrence of a non-empty pattern.
pub fn replace_all(s: &str, pat: &str, rep: &str) -> (r: String)
    requires
        pat@.len() > 0,
    ensures
        r@ == replace_spec(s@, pat@, rep@),
{
    let cs = chars_of(s);
    let ps = chars_of(pat);
    let mut out = String::new();
    let mut i: usize = 0;
    assert(cs@.subrange(0, cs@.len() as int) =~= cs@);
    assert(out@ + cs@ =~= cs@);
    while i < cs.len()
        invariant
            i <= cs@.len(),
            cs@ == s@,
            ps@ == pat@,
            pat@.len() > 0,
            out@ + replace_spec(cs@.subrange(i as int, cs@.len() as int), ps@, rep@) == replace_spec(cs@, ps@, rep@),
        decreases cs@.len() - i,
    {
        let ghost rest = cs@.subrange(i as int, cs@.len() as int);
        if ps.len() <= cs.len() - i && matches_at(&cs, i, &ps) {
            proof {
                assert(rest.subrange(0, ps@.len() as int) =~= cs@.subrange(i as int, i + ps@.len()));
                assert(rest.subrange(ps@.len() as int, rest.len() as int) =~= cs@.subrange(i + ps@.len(), cs@.len() as int));
            }
            push_str(&mut out, rep);
            i = i + ps.len();
            assert(out@ + replace_spec(cs@.subrange(i as int, cs@.len() as int), ps@, rep@) =~= replace_spec(cs@, ps@, rep@));
        } else {
            let c = cs[i];
            proof {
                if rest.len() >= ps@.len() {
                    assert(rest.subrange(0, ps@.len() as int) =~= cs@.subrange(i as int, i + ps@.len()));
                    assert(rest.drop_first() =~= cs@.subrange(i + 1, cs@.len() as int));
                } else {
                    let tail = cs@.subrange(i + 1, cs@.len() as int);
                    assert(tail.len() < ps@.len());
                    assert(replace_spec(tail, ps@, rep@) == tail);
                    assert(rest =~= seq![c] + tail);
                }
            }
            push_char(&mut out, c);
            i = i + 1;
            assert(out@ + replace_spec(cs@.subrange(i as int, cs@.len() as int), ps@, rep@) =~= replace_spec(cs@, ps@, rep@));
        }
    }
    proof {
        assert(cs@.subrange(cs@.len() as int, cs@.len() as int) =~= Seq::<char>::empty());
        assert(out@ + Seq::<char>::empty() =~= out@);
    }
    out
}

/// The first occurrence of `pat` in `s` replaced by `rep` (`s` unchanged
/// when `pat` does not occur).
pub open spec fn replace_first_spec(s: Seq<char>, pat: Seq<char>, rep: Seq<char>) -> Seq<char>
    decreases s.len(),
{
    if pat.len() == 0 || s.len() < pat.len() {
        s
    } else if s.subrange(0, pat.len() as int) == pat {
        rep + s.subrange(pat.len() as int, s.len() as int)
    } else {
        seq![s[0]] + replace_first_spec(s.drop_first(), pat, rep)
    }
}

fn push_chars_from(out: &mut String, cs: &Vec<char>, from: usize)
    requires
        from <= cs@.len(),
    ensures
        final(out)@ == old(out)@ + cs@.subrange(from as int, cs@.len() as int),
{
    let mut k: usize = from;
    while k < cs.len()
        invariant
            from <= k <= cs@.len(),
            out@ == old(out)@ + cs@.subrange(from as int, k as int),
        decreases cs@.len() - k,
    {
        push_char(out, cs[k]);
        k = k + 1;
        assert(out@ =~= old(out)@ + cs@.subrange(from as int, k as int));
    }
}

/// Replace the first occurrence of a non-empty pattern.
pub fn replace_first(s: &str, pat: &str, rep: &str) -> (r: String)
    requires
        pat@.len() > 0,
    ensures
        r@ == replace_first_spec(s@, pat@, rep@),
{
    let cs = chars_of(s);
    let ps = chars_of(pat);
    let mut out = String::new();
    let mut i: usize = 0;
    assert(cs@.subrange(0, cs@.len() as int) =~= cs@);
    assert(out@ + cs@ =~= cs@);
    while i < cs.len()
        invariant
            i <= cs@.len(),
            cs@ == s@,
            ps@ == pat@,
            pat@.len() > 0,
            out@ + replace_first_spec(cs@.subrange(i as int, cs@.len() as int), ps@, rep@) == replace_first_spec(cs@, ps@, rep@),
        decreases cs@.len() - i,
    {
        let ghost rest = cs@.subrange(i as int, cs@.len() as int);
        if ps.len() <= cs.len() - i && matches_at(&cs, i, &ps) {
            proof {
                assert(rest.subrange(0, ps@.len() as int) =~= cs@.subrange(i as int, i + ps@.len()));
                assert(rest.subrange(ps@.len() as int, rest.len() as int) =~= cs@.subrange(i + ps@.len(), cs@.len() as int));
            }
            push_str(&mut out, rep);
            push_chars_from(&mut out, &cs, i + ps.len());
            assert(out@ =~= replace_first_spec(cs@, ps@, rep@));
            return out;
        } else {
            let c = cs[i];
            proof {
                if rest.len() >= ps@.len() {
                    assert(rest.subrange(0, ps@.len() as int) =~= cs@.subrange(i as int, i + ps@.len()));
                    assert(rest.drop_first() =~= cs@.subrange(i + 1, cs@.len() as int));
                } else {
                    let tail = cs@.subrange(i + 1, cs@.len() as int);
                    assert(tail.len() < ps@.len());
                    assert(replace_first_spec(tail, ps@, rep@) == tail);
                    assert(rest =~= seq![c] + tail);
                }
            }
            push_char(&mut out, c);
            i = i + 1;
            assert(out@ + replace_first_spec(cs@.subrange(i as int, cs@.len() as int), ps@, rep@) =~= replace_first_spec(cs@, ps@, rep@));
        }
    }
    proof {
        assert(cs@.subrange(cs@.len() as int, cs@.len() as int) =~= Seq::<char>::empty());
        assert(out@ + Seq::<char>::empty() =~= out@);
    }
    out
}

/// Unicode `White_Space` characters (what `char::is_whitespace` accepts).
pub open spec fn is_whitespace_char(c: char) -> bool {
    let v = c as u32;
    (0x9 <= v <= 0xd) || v == 0x20 || v == 0x85 || v == 0xa0 || v == 0x1680 || (0x2000 <= v
        <= 0x200a) || v == 0x2028 || v == 0x2029 || v == 0x202f || v == 0x205f || v == 0x3000
}

fn whitespace(c: char) -> (r: bool)
    ensures
        r == is_whitespace_char(c),
{
    let v = c as u32;
    (0x9 <= v && v <= 0xd) || v == 0x20 || v == 0x85 || v == 0xa0 || v == 0x1680 || (0x2000 <= v
        && v <= 0x200a) || v == 0x2028 || v == 0x2029 || v == 0x202f || v == 0x205f || v == 0x3000
}

/// `s` without leading and trailing whitespace: the slice between the first
/// and after the last non-whitespace character (empty when there is none).
pub open spec fn is_trim_of(s: Seq<char>, t: Seq<char>) -> bool {
    exists|a: int, b: int|
        0 <= a <= b <= s.len() && t == s.subrange(a, b) && (forall|j: int|
            0 <= j < a ==> is_whitespace_char(#[trigger] s[j])) && (forall|j: int|
            b <= j < s.len() ==> is_whitespace_char(#[trigger] s[j])) && (a < b ==> (
        !is_whitespace_char(s[a]) && !is_whitespace_char(s[b - 1])))
}

/// The trimmed text of `s` (leading and trailing whitespace removed).
pub open spec fn trim_spec(s: Seq<char>) -> Seq<char> {
    choose|t: Seq<char>| is_trim_of(s, t)
}

/// A text has exactly one trimmed form.
pub proof fn lemma_trim_unique(s: Seq<char>, t: Seq<char>)
    requires
        is_trim_of(s, t),
    ensures
        trim_spec(s) == t,
{
    let u = trim_spec(s);
    assert(is_trim_of(s, u));
    let (a, b) = choose|a: int, b: int|
        0 <= a <= b <= s.len() && t == s.subrange(a, b) && (forall|j: int|
            0 <= j < a ==> is_whitespace_char(#[trigger] s[j])) && (forall|j: int|
            b <= j < s.len() ==> is_whitespace_char(#[trigger] s[j])) && (a < b ==> (
        !is_whitespace_char(s[a]) && !is_whitespace_char(s[b - 1])));
    let (c, d) = choose|a: int, b: int|
        0 <= a <= b <= s.len() && u == s.subrange(a, b) && (forall|j: int|
            0 <= j < a ==> is_whitespace_char(#[trigger] s[j])) && (forall|j: int|
            b <= j < s.len() ==> is_whitespace_char(#[trigger] s[j])) && (a < b ==> (
        !is_whitespace_char(s[a]) && !is_whitespace_char(s[b - 1])));
    if a < b && c < d {
        if a < c { assert(is_whitespace_char(s[a])); }
        if c < a { assert(is_whitespace_char(s[c])); }
        if b < d { assert(is_whitespace_char(s[d - 1])); }
        if d < b { assert(is_whitespace_char(s[b - 1])); }
        assert(t =~= u);
    } else if a < b {
        assert(is_whitespace_char(s[a]));
    } else if c < d {
        assert(is_whitespace_char(s[c]));
    } else {
        assert(t =~= u);
    }
}

/// Remove leading and trailing whitespace.
pub fn trim(s: &str) -> (r: String)
    ensures
        r@ == trim_spec(s@),
        is_trim_of(s@, r@),
{
    let cs = chars_of(s);
    let n = cs.len();
    let mut a: usize = 0;
    while a < n && whitespace(cs[a])
        invariant
            a <= n,
            n == cs@.len(),
            forall|j: int| 0 <= j < a ==> is_whitespace_char(#[trigger] cs@[j]),
        decreases n - a,
    {
        a = a + 1;
    }
    let mut b: usize = n;
    while b > a && whitespace(cs[b - 1])
        invariant
            a <= b <= n,
            n == cs@.len(),
            forall|j: int| b <= j < n ==> is_whitespace_char(#[trigger] cs@[j]),
        decreases b,
    {
        b = b - 1;
    }
    let mut out = String::new();
    let mut i: usize = a;
    while i < b
        invariant
            a <= i <= b <= n,
            n == cs@.len(),
            out@ == cs@.subrange(a as int, i as int),
        decreases b - i,
    {
        push_char(&mut out, cs[i]);
        i = i + 1;
        assert(out@ =~= cs@.subrange(a as int, i as int));
    }
    proof {
        assert(is_trim_of(s@, out@));
        lemma_trim_unique(s@, out@);
    }
    out
}

} // verus!
