//! Character-level helpers on strings, with their meaning stated over `Seq<char>`.
use vstd::prelude::*;

verus! {

/// A permission string with its one-character prefix (`+`, `-`, `*`, ...) removed.
/// The empty string has no prefix and is its own base.
pub open spec fn permission_base(p: Seq<char>) -> Seq<char> {
    if p.len() == 0 {
        p
    } else {
        p.drop_first()
    }
}

/// Whether a permission string grants (its prefix is `+`).
pub open spec fn grants(p: Seq<char>) -> bool {
    p.len() > 0 && p[0] == '+'
}

/// The string with every leading `+` removed.
pub open spec fn trim_leading_plus(s: Seq<char>) -> Seq<char>
    decreases s.len(),
{
    if s.len() > 0 && s[0] == '+' {
        trim_leading_plus(s.drop_first())
    } else {
        s
    }
}

/// `trim_leading_plus` removes exactly the maximal run of leading `+`.
proof fn lemma_trim_leading_plus_run(s: Seq<char>, k: int)
    requires
        0 <= k <= s.len(),
        forall|j: int| 0 <= j < k ==> s[j] == '+',
        k == s.len() || s[k] != '+',
    ensures
        trim_leading_plus(s) == s.subrange(k, s.len() as int),
    decreases k,
{
    if k == 0 {
        assert(s.subrange(0, s.len() as int) =~= s);
    } else {
        let t = s.drop_first();
        assert forall|j: int| 0 <= j < k - 1 implies t[j] == '+' by {
            assert(t[j] == s[j + 1]);
        }
        if k - 1 < t.len() {
            assert(t[k - 1] == s[k]);
        }
        lemma_trim_leading_plus_run(t, k - 1);
        assert(t.subrange(k - 1, t.len() as int) =~= s.subrange(k, s.len() as int));
    }
}

/// Whether `a` from position `i` on equals `b` from position `j` on.
fn tails_equal(a: &str, i: usize, b: &str, j: usize) -> (r: bool)
    requires
        i <= a@.len(),
        j <= b@.len(),
    ensures
        r == (a@.subrange(i as int, a@.len() as int) == b@.subrange(j as int, b@.len() as int)),
{
    let n = a.unicode_len();
    let m = b.unicode_len();
    if n - i != m - j {
        proof {
            let x = a@.subrange(i as int, a@.len() as int);
            let y = b@.subrange(j as int, b@.len() as int);
            assert(x.len() != y.len());
        }
        return false;
    }
    let len = n - i;
    let mut k: usize = 0;
    while k < len
        invariant
            n == a@.len(),
            m == b@.len(),
            i <= n,
            j <= m,
            len == n - i,
            len == m - j,
            k <= len,
            a@.subrange(i as int, i + k) =~= b@.subrange(j as int, j + k),
        decreases len - k,
    {
        if a.get_char(i + k) != b.get_char(j + k) {
            proof {
                let x = a@.subrange(i as int, a@.len() as int);
                let y = b@.subrange(j as int, b@.len() as int);
                assert(x[k as int] != y[k as int]);
            }
            return false;
        }
        proof {
            assert(a@.subrange(i as int, i + k + 1) =~= a@.subrange(i as int, i + k).push(a@[i + k]));
            assert(b@.subrange(j as int, j + k + 1) =~= b@.subrange(j as int, j + k).push(b@[j + k]));
        }
        k = k + 1;
    }
    proof {
        assert(a@.subrange(i as int, i + len) =~= a@.subrange(i as int, a@.len() as int));
        assert(b@.subrange(j as int, j + len) =~= b@.subrange(j as int, b@.len() as int));
    }
    true
}

/// Whether two strings hold the same characters.
pub fn str_eq(a: &str, b: &str) -> (r: bool)
    ensures
        r == (a@ == b@),
{
    let r = tails_equal(a, 0, b, 0);
    proof {
        assert(a@.subrange(0, a@.len() as int) =~= a@);
        assert(b@.subrange(0, b@.len() as int) =~= b@);
    }
    r
}

/// Whether the base of permission `p` is `q`.
pub fn base_is(p: &str, q: &str) -> (r: bool)
    ensures
        r == (permission_base(p@) == q@),
{
    let n = p.unicode_len();
    if n == 0 {
        return str_eq(p, q);
    }
    let r = tails_equal(p, 1, q, 0);
    proof {
        assert(p@.subrange(1, p@.len() as int) =~= p@.drop_first());
        assert(q@.subrange(0, q@.len() as int) =~= q@);
    }
    r
}

/// Whether permissions `p` and `q` have the same base.
pub fn same_base(p: &str, q: &str) -> (r: bool)
    ensures
        r == (permission_base(p@) == permission_base(q@)),
{
    let n = p.unicode_len();
    let m = q.unicode_len();
    let i: usize = if n == 0 { 0 } else { 1 };
    let j: usize = if m == 0 { 0 } else { 1 };
    let r = tails_equal(p, i, q, j);
    proof {
        if n == 0 {
            assert(p@.subrange(0, p@.len() as int) =~= permission_base(p@));
        } else {
            assert(p@.subrange(1, p@.len() as int) =~= permission_base(p@));
        }
        if m == 0 {
            assert(q@.subrange(0, q@.len() as int) =~= permission_base(q@));
        } else {
            assert(q@.subrange(1, q@.len() as int) =~= permission_base(q@));
        }
    }
    r
}

/// Whether `p` grants, that is starts with `+`.
pub fn starts_with_plus(p: &str) -> (r: bool)
    ensures
        r == grants(p@),
{
    let n = p.unicode_len();
    n > 0 && p.get_char(0) == '+'
}

/// The first character of `p`, if any.
pub fn first_char(p: &str) -> (r: Option<char>)
    ensures
        r == (if p@.len() == 0 { None } else { Some(p@[0]) }),
{
    if p.unicode_len() == 0 {
        None
    } else {
        Some(p.get_char(0))
    }
}

/// Whether `c` with its leading `+` removed is `q`.
pub fn trimmed_is(c: &str, q: &str) -> (r: bool)
    ensures
        r == (trim_leading_plus(c@) == q@),
{
    let n = c.unicode_len();
    let mut k: usize = 0;
    while k < n && c.get_char(k) == '+'
        invariant
            n == c@.len(),
            k <= n,
            forall|j: int| 0 <= j < k ==> c@[j] == '+',
        decreases n - k,
    {
        k = k + 1;
    }
    proof {
        lemma_trim_leading_plus_run(c@, k as int);
        assert(q@.subrange(0, q@.len() as int) =~= q@);
    }
    tails_equal(c, k, q, 0)
}

/// The ASCII lower-case form of a character: `A`-`Z` become `a`-`z`, others are unchanged.
pub open spec fn ascii_lower(c: char) -> char {
    if 'A' <= c && c <= 'Z' {
        ((c as u32) + 32) as char
    } else {
        c
    }
}

/// The ASCII lower-case form of a character.
fn to_ascii_lowercase(c: char) -> (r: char)
    ensures
        r == ascii_lower(c),
{
    if 'A' <= c && c <= 'Z' {
        let b: u8 = (c as u8) + 32;
        b as char
    } else {
        c
    }
}

/// `String::push`, which appends one character; that is the claim.
#[verifier::external_body]
fn push_char(s: &mut String, c: char)
    ensures
        final(s)@ == old(s)@.push(c),
{
    s.push(c)
}

/// A character of a route path: lower-cased, with a space turned into `_`.
pub open spec fn route_char(c: char) -> char {
    if c == ' ' {
        '_'
    } else {
        ascii_lower(c)
    }
}

/// The route path of a page name: the name lower-cased (ASCII), with spaces replaced by `_`.
pub open spec fn route_path_of(name: Seq<char>) -> Seq<char> {
    name.map_values(|c: char| route_char(c))
}

/// The route path of a page name.
pub fn route_path(name: &str) -> (r: String)
    ensures
        r@ == route_path_of(name@),
{
    let n = name.unicode_len();
    let mut out = String::new();
    let mut i: usize = 0;
    while i < n
        invariant
            n == name@.len(),
            i <= n,
            out@ == route_path_of(name@.take(i as int)),
        decreases n - i,
    {
        let c = name.get_char(i);
        let d = if c == ' ' { '_' } else { to_ascii_lowercase(c) };
        push_char(&mut out, d);
        proof {
            assert(route_path_of(name@.take(i + 1)) =~= route_path_of(name@.take(i as int)).push(d));
        }
        i = i + 1;
    }
    proof {
        assert(name@.take(n as int) =~= name@);
    }
    out
}

/// The length of a string in bytes, as UTF-8 (as `str::len` counts it).
pub open spec fn byte_len(s: Seq<char>) -> usize {
    vstd::utf8::encode_utf8(s).len() as usize
}

/// The length of `s` in bytes.
pub fn str_byte_len(s: &str) -> (n: usize)
    ensures
        n == byte_len(s@),
{
    s.len()
}

/// The decimal digit character for `d` (below 10).
pub open spec fn digit_char(d: u32) -> char {
    ((48 + d) as u8) as char
}

/// The decimal representation of `n`, without leading zeros.
pub open spec fn decimal(n: u32) -> Seq<char>
    decreases n,
{
    if n < 10 {
        seq![digit_char(n)]
    } else {
        decimal(n / 10).push(digit_char(n % 10))
    }
}

/// Appends the decimal representation of `n` to `out`.
fn push_decimal(out: &mut String, n: u32)
    ensures
        final(out)@ == old(out)@ + decimal(n),
    decreases n,
{
    if n >= 10 {
        push_decimal(out, n / 10);
    }
    let d = n % 10;
    let c = ((48 + d) as u8) as char;
    push_char(out, c);
    proof {
        if n < 10 {
            assert(d == n);
            assert(old(out)@ + decimal(n) =~= old(out)@.push(c));
        } else {
            assert(old(out)@ + decimal(n / 10) + seq![c] =~= old(out)@ + decimal(n));
        }
    }
}

/// The decimal representation of `n`.
pub fn u32_to_decimal(n: u32) -> (r: String)
    ensures
        r@ == decimal(n),
{
    let mut out = String::new();
    push_decimal(&mut out, n);
    proof {
        assert(Seq::<char>::empty() + decimal(n) =~= decimal(n));
    }
    out
}

/// `s` with every occurrence of `pat` removed, scanning from the left without overlaps.
pub open spec fn remove_all(s: Seq<char>, pat: Seq<char>) -> Seq<char>
    decreases s.len(),
{
    if pat.len() == 0 || s.len() < pat.len() {
        s
    } else if s.take(pat.len() as int) == pat {
        remove_all(s.skip(pat.len() as int), pat)
    } else {
        seq![s[0]] + remove_all(s.skip(1), pat)
    }
}

/// Removing a pattern whose last character does not occur in `s` leaves `s` as it is.
pub proof fn lemma_remove_all_absent(s: Seq<char>, pat: Seq<char>)
    requires
        pat.len() > 0,
        forall|i: int| 0 <= i < s.len() ==> s[i] != pat[pat.len() - 1],
    ensures
        remove_all(s, pat) == s,
    decreases s.len(),
{
    if s.len() >= pat.len() {
        assert(s.take(pat.len() as int)[pat.len() - 1] == s[pat.len() - 1]);
        assert(s.take(pat.len() as int) != pat);
        let t = s.skip(1);
        assert forall|i: int| 0 <= i < t.len() implies t[i] != pat[pat.len() - 1] by {
            assert(t[i] == s[i + 1]);
        }
        lemma_remove_all_absent(t, pat);
        assert(seq![s[0]] + t =~= s);
    }
}

/// Whether `pat` occurs in `s` at position `i`.
pub fn occurs_at(s: &str, i: usize, pat: &str) -> (r: bool)
    requires
        i <= s@.len(),
    ensures
        r == (i + pat@.len() <= s@.len() && s@.subrange(i as int, i + pat@.len()) == pat@),
{
    let n = s.unicode_len();
    let m = pat.unicode_len();
    if n - i < m {
        return false;
    }
    let mut k: usize = 0;
    while k < m
        invariant
            n == s@.len(),
            m == pat@.len(),
            i + m <= n,
            k <= m,
            s@.subrange(i as int, i + k) =~= pat@.take(k as int),
        decreases m - k,
    {
        if s.get_char(i + k) != pat.get_char(k) {
            proof {
                assert(s@.subrange(i as int, i + m)[k as int] != pat@[k as int]);
            }
            return false;
        }
        proof {
            assert(s@.subrange(i as int, i + k + 1) =~= s@.subrange(i as int, i + k).push(s@[i + k]));
            assert(pat@.take(k + 1) =~= pat@.take(k as int).push(pat@[k as int]));
        }
        k = k + 1;
    }
    proof {
        assert(pat@.take(m as int) =~= pat@);
    }
    true
}

/// `s` with every occurrence of `pat` removed, as `str::replace(pat, "")` does.
pub fn remove_all_occurrences(s: &str, pat: &str) -> (r: String)
    requires
        pat@.len() > 0,
    ensures
        r@ == remove_all(s@, pat@),
{
    let n = s.unicode_len();
    let m = pat.unicode_len();
    let mut out = String::new();
    let mut i: usize = 0;
    proof {
        assert(s@.skip(0) =~= s@);
        assert(out@ + remove_all(s@, pat@) =~= remove_all(s@, pat@));
    }
    while i < n
        invariant
            n == s@.len(),
            m == pat@.len(),
            m > 0,
            i <= n,
            out@ + remove_all(s@.skip(i as int), pat@) == remove_all(s@, pat@),
        decreases n - i,
    {
        let ghost rest = s@.skip(i as int);
        if occurs_at(s, i, pat) {
            proof {
                assert(rest.take(m as int) =~= s@.subrange(i as int, i + m));
                assert(rest.skip(m as int) =~= s@.skip(i + m));
            }
            i = i + m;
        } else {
            let c = s.get_char(i);
            let ghost before = out@;
            push_char(&mut out, c);
            proof {
                assert(rest.skip(1) =~= s@.skip(i + 1));
                if rest.len() < m {
                    assert(remove_all(rest.skip(1), pat@) == rest.skip(1));
                    assert(rest =~= seq![c] + rest.skip(1));
                } else {
                    assert(rest.take(m as int) =~= s@.subrange(i as int, i + m));
                }
                assert(out@ + remove_all(rest.skip(1), pat@) =~= before + (seq![c] + remove_all(rest.skip(1), pat@)));
            }
            i = i + 1;
        }
    }
    proof {
        assert(s@.skip(n as int) =~= Seq::<char>::empty());
        assert(out@ + Seq::<char>::empty() =~= out@);
    }
    out
}

} // verus!
