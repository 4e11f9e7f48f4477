//! Verified text utilities: URL joining, case-insensitive comparison,
//! substring search, and decimal rendering of integers.

use vstd::prelude::*;

verus! {

// ---------------------------------------------------------------------------
// Trimming slashes and joining URLs
// ---------------------------------------------------------------------------

/// `s` with every trailing `/` removed.
pub open spec fn trim_trailing_slashes(s: Seq<char>) -> Seq<char>
    decreases s.len(),
{
    if s.len() > 0 && s.last() == '/' {
        trim_trailing_slashes(s.drop_last())
    } else {
        s
    }
}

/// `s` with every leading `/` removed.
pub open spec fn trim_leading_slashes(s: Seq<char>) -> Seq<char>
    decreases s.len(),
{
    if s.len() > 0 && s.first() == '/' {
        trim_leading_slashes(s.drop_first())
    } else {
        s
    }
}

/// The target URL: the base without its trailing slashes, one `/`, and the
/// path without its leading slashes.
pub open spec fn joined_url(base: Seq<char>, path: Seq<char>) -> Seq<char> {
    trim_trailing_slashes(base) + seq!['/'] + trim_leading_slashes(path)
}

proof fn lemma_trim_trailing_is_prefix(s: Seq<char>, n: int)
    requires
        0 <= n <= s.len(),
        forall|i: int| n <= i < s.len() ==> s[i] == '/',
        n == 0 || s[n - 1] != '/',
    ensures
        trim_trailing_slashes(s) == s.subrange(0, n),
    decreases s.len(),
{
    if s.len() > n {
        assert(s.last() == '/');
        assert(s.drop_last() =~= s.subrange(0, s.len() - 1));
        lemma_trim_trailing_is_prefix(s.drop_last(), n);
        assert(s.drop_last().subrange(0, n) =~= s.subrange(0, n));
    } else {
        if n == 0 {
            assert(trim_trailing_slashes(s) =~= s.subrange(0, 0));
        } else {
            assert(s.last() == s[n - 1]);
            assert(trim_trailing_slashes(s) =~= s.subrange(0, n));
        }
    }
}

proof fn lemma_trim_leading_is_suffix(s: Seq<char>, n: int)
    requires
        0 <= n <= s.len(),
        forall|i: int| 0 <= i < n ==> s[i] == '/',
        n == s.len() || s[n] != '/',
    ensures
        trim_leading_slashes(s) == s.subrange(n, s.len() as int),
    decreases n,
{
    if n > 0 {
        assert(s.first() == '/');
        assert(s.drop_first() =~= s.subrange(1, s.len() as int));
        lemma_trim_leading_is_suffix(s.drop_first(), n - 1);
        assert(s.drop_first().subrange(n - 1, s.drop_first().len() as int) =~= s.subrange(
            n,
            s.len() as int,
        ));
    } else {
        if s.len() == 0 {
            assert(trim_leading_slashes(s) =~= s.subrange(0, 0));
        } else {
            assert(trim_leading_slashes(s) =~= s.subrange(0, s.len() as int));
        }
    }
}

/// `base` with every trailing `/` removed.
pub fn trim_end_slashes(base: &str) -> (r: String)
    ensures
        r@ == trim_trailing_slashes(base@),
{
    let len = base.unicode_len();
    let mut end = len;
    while end > 0 && base.get_char(end - 1) == '/'
        invariant
            end <= len,
            len == base@.len(),
            forall|i: int| end <= i < len ==> base@[i] == '/',
        decreases end,
    {
        end = end - 1;
    }
    proof {
        lemma_trim_trailing_is_prefix(base@, end as int);
    }
    let r = base.substring_char(0, end);
    r.to_owned()
}

/// `path` with every leading `/` removed.
pub fn trim_start_slashes(path: &str) -> (r: String)
    ensures
        r@ == trim_leading_slashes(path@),
{
    let len = path.unicode_len();
    let mut start: usize = 0;
    while start < len && path.get_char(start) == '/'
        invariant
            start <= len,
            len == path@.len(),
            forall|i: int| 0 <= i < start ==> path@[i] == '/',
        decreases len - start,
    {
        start = start + 1;
    }
    proof {
        lemma_trim_leading_is_suffix(path@, start as int);
    }
    let r = path.substring_char(start, len);
    r.to_owned()
}

/// Builds the target URL from a base URL and a path: exactly one `/` stands
/// between them, however many slashes the base ended or the path began with.
pub fn join_url(base: &str, path: &str) -> (r: String)
    ensures
        r@ == joined_url(base@, path@),
{
    let mut r = trim_end_slashes(base);
    r.append("/");
    let p = trim_start_slashes(path);
    r.append(p.as_str());
    proof {
        reveal_strlit("/");
        assert("/"@ =~= seq!['/']);
        assert(r@ =~= joined_url(base@, path@));
    }
    r
}

/// Law: joining a base URL and a path loses nothing but slashes at the seam
/// and introduces exactly one `/` there. The joined URL is the base without
/// its trailing slashes (which is a prefix of the base, and everything cut
/// was a `/`), one `/`, and the path without its leading slashes (a suffix of
/// the path, everything cut a `/`); the trimmed parts themselves do not end,
/// respectively begin, with a `/`.
pub proof fn lemma_url_join_single_slash(base: Seq<char>, path: Seq<char>)
    ensures
        joined_url(base, path) == trim_trailing_slashes(base) + seq!['/'] + trim_leading_slashes(
            path,
        ),
        trim_trailing_slashes(base).len() == 0 || trim_trailing_slashes(base).last() != '/',
        trim_leading_slashes(path).len() == 0 || trim_leading_slashes(path).first() != '/',
        trim_trailing_slashes(base) == base.subrange(0, trim_trailing_slashes(base).len() as int),
        forall|i: int|
            trim_trailing_slashes(base).len() <= i < base.len() ==> base[i] == '/',
        trim_leading_slashes(path) == path.subrange(
            path.len() - trim_leading_slashes(path).len(),
            path.len() as int,
        ),
        forall|i: int| 0 <= i < path.len() - trim_leading_slashes(path).len() ==> path[i] == '/',
{
    lemma_trim_trailing_props(base);
    lemma_trim_leading_props(path);
}

proof fn lemma_trim_trailing_props(s: Seq<char>)
    ensures
        trim_trailing_slashes(s).len() <= s.len(),
        trim_trailing_slashes(s).len() == 0 || trim_trailing_slashes(s).last() != '/',
        trim_trailing_slashes(s) == s.subrange(0, trim_trailing_slashes(s).len() as int),
        forall|i: int| trim_trailing_slashes(s).len() <= i < s.len() ==> s[i] == '/',
    decreases s.len(),
{
    if s.len() > 0 && s.last() == '/' {
        lemma_trim_trailing_props(s.drop_last());
        assert(s.drop_last() =~= s.subrange(0, s.len() - 1));
        let t = trim_trailing_slashes(s);
        assert(s.drop_last().subrange(0, t.len() as int) =~= s.subrange(0, t.len() as int));
        assert forall|i: int| t.len() <= i < s.len() implies s[i] == '/' by {
            if i < s.len() - 1 {
                assert(s.drop_last()[i] == s[i]);
            } else {
                assert(s[i] == s.last());
            }
        }
    }
}

proof fn lemma_trim_leading_props(s: Seq<char>)
    ensures
        trim_leading_slashes(s).len() <= s.len(),
        trim_leading_slashes(s).len() == 0 || trim_leading_slashes(s).first() != '/',
        trim_leading_slashes(s) == s.subrange(
            s.len() - trim_leading_slashes(s).len(),
            s.len() as int,
        ),
        forall|i: int| 0 <= i < s.len() - trim_leading_slashes(s).len() ==> s[i] == '/',
    decreases s.len(),
{
    if s.len() > 0 && s.first() == '/' {
        lemma_trim_leading_props(s.drop_first());
        assert(s.drop_first() =~= s.subrange(1, s.len() as int));
        let t = trim_leading_slashes(s);
        assert(s.drop_first().subrange(s.drop_first().len() - t.len(), s.drop_first().len() as int)
            =~= s.subrange(s.len() - t.len(), s.len() as int));
        assert forall|i: int| 0 <= i < s.len() - t.len() implies s[i] == '/' by {
            if i > 0 {
                assert(s.drop_first()[i - 1] == s[i]);
            } else {
                assert(s[0] == s.first());
            }
        }
    }
}

// ---------------------------------------------------------------------------
// Case-insensitive comparison (ASCII)
// ---------------------------------------------------------------------------

/// The code point of `c`, with ASCII lower-case letters folded to upper case.
pub open spec fn ascii_upper_code(c: char) -> int {
    if 97 <= c as u32 <= 122 {
        c as u32 - 32
    } else {
        c as u32 as int
    }
}

/// Character equality up to ASCII case.
pub open spec fn char_eq_ignore_ascii_case(a: char, b: char) -> bool {
    ascii_upper_code(a) == ascii_upper_code(b)
}

/// String equality up to ASCII case.
pub open spec fn chars_eq_ignore_ascii_case(a: Seq<char>, b: Seq<char>) -> bool {
    a.len() == b.len() && forall|i: int|
        0 <= i < a.len() ==> char_eq_ignore_ascii_case(a[i], b[i])
}

fn upper_code(c: char) -> (r: u32)
    ensures
        r == ascii_upper_code(c),
{
    let u = c as u32;
    if 97 <= u && u <= 122 {
        u - 32
    } else {
        u
    }
}

/// Whether `a` and `b` are the same string up to ASCII case.
pub fn eq_ignore_ascii_case(a: &str, b: &str) -> (r: bool)
    ensures
        r == chars_eq_ignore_ascii_case(a@, b@),
{
    let alen = a.unicode_len();
    let blen = b.unicode_len();
    if alen != blen {
        return false;
    }
    let mut i: usize = 0;
    while i < alen
        invariant
            i <= alen,
            alen == a@.len(),
            a@.len() == b@.len(),
            forall|j: int| 0 <= j < i ==> char_eq_ignore_ascii_case(a@[j], b@[j]),
        decreases alen - i,
    {
        let ca = a.get_char(i);
        let cb = b.get_char(i);
        if upper_code(ca) != upper_code(cb) {
            return false;
        }
        i = i + 1;
    }
    true
}

// ---------------------------------------------------------------------------
// Substring search
// ---------------------------------------------------------------------------

/// Whether `needle` occurs in `hay` as a contiguous substring.
pub open spec fn seq_contains_sub(hay: Seq<char>, needle: Seq<char>) -> bool {
    exists|i: int|
        0 <= i && i + needle.len() <= hay.len() && #[trigger] hay.subrange(i, i + needle.len())
            == needle
}

fn match_at(hay: &str, needle: &str, at: usize) -> (r: bool)
    requires
        at + needle@.len() <= hay@.len(),
    ensures
        r == (hay@.subrange(at as int, at as int + needle@.len() as int) == needle@),
{
    let nlen = needle.unicode_len();
    let hlen = hay.unicode_len();
    let mut j: usize = 0;
    while j < nlen
        invariant
            j <= nlen,
            nlen == needle@.len(),
            hlen == hay@.len(),
            at + nlen <= hlen,
            forall|k: int| 0 <= k < j ==> hay@[at + k] == needle@[k],
        decreases nlen - j,
    {
        if hay.get_char(at + j) != needle.get_char(j) {
            proof {
                assert(hay@.subrange(at as int, at as int + needle@.len() as int)[j as int]
                    == hay@[at + j]);
            }
            return false;
        }
        j = j + 1;
    }
    proof {
        assert(hay@.subrange(at as int, at as int + needle@.len() as int) =~= needle@);
    }
    true
}

/// Whether `needle` occurs in `hay`.
pub fn str_contains(hay: &str, needle: &str) -> (r: bool)
    ensures
        r == seq_contains_sub(hay@, needle@),
{
    let nlen = needle.unicode_len();
    let hlen = hay.unicode_len();
    if nlen > hlen {
        return false;
    }
    if nlen == 0 {
        proof {
            assert(hay@.subrange(0, 0 + needle@.len() as int) =~= needle@);
        }
        return true;
    }
    let mut i: usize = 0;
    while i <= hlen - nlen
        invariant
            0 < nlen <= hlen,
            i <= hlen - nlen + 1,
            nlen == needle@.len(),
            hlen == hay@.len(),
            forall|k: int| 0 <= k < i ==> #[trigger] hay@.subrange(k, k + needle@.len())
                != needle@,
        decreases hlen - nlen - i + 1,
    {
        if match_at(hay, needle, i) {
            return true;
        }
        i = i + 1;
    }
    false
}

// ---------------------------------------------------------------------------
// Decimal rendering
// ---------------------------------------------------------------------------

/// The decimal digit character for `d` (`0 <= d <= 9`).
pub open spec fn dec_digit(d: int) -> char {
    if d == 0 {
        '0'
    } else if d == 1 {
        '1'
    } else if d == 2 {
        '2'
    } else if d == 3 {
        '3'
    } else if d == 4 {
        '4'
    } else if d == 5 {
        '5'
    } else if d == 6 {
        '6'
    } else if d == 7 {
        '7'
    } else if d == 8 {
        '8'
    } else {
        '9'
    }
}

/// The decimal rendering of `n`, without leading zeroes (except for `0`
/// itself).
pub open spec fn dec_str(n: nat) -> Seq<char>
    decreases n,
{
    if n < 10 {
        seq![dec_digit(n as int)]
    } else {
        dec_str(n / 10) + seq![dec_digit((n % 10) as int)]
    }
}

fn digit_str(d: u64) -> (r: &'static str)
    requires
        d < 10,
    ensures
        r@ == seq![dec_digit(d as int)],
{
    proof {
        reveal_strlit("0");
        reveal_strlit("1");
        reveal_strlit("2");
        reveal_strlit("3");
        reveal_strlit("4");
        reveal_strlit("5");
        reveal_strlit("6");
        reveal_strlit("7");
        reveal_strlit("8");
        reveal_strlit("9");
    }
    let r = if d == 0 {
        "0"
    } else if d == 1 {
        "1"
    } else if d == 2 {
        "2"
    } else if d == 3 {
        "3"
    } else if d == 4 {
        "4"
    } else if d == 5 {
        "5"
    } else if d == 6 {
        "6"
    } else if d == 7 {
        "7"
    } else if d == 8 {
        "8"
    } else {
        "9"
    };
    proof {
        assert(r@ =~= seq![dec_digit(d as int)]);
    }
    r
}

spec fn join_rev(parts: Seq<&str>) -> Seq<char>
    decreases parts.len(),
{
    if parts.len() == 0 {
        Seq::empty()
    } else {
        parts.last()@ + join_rev(parts.drop_last())
    }
}

/// Renders `n` in decimal.
pub fn u64_to_string(n: u64) -> (r: String)
    ensures
        r@ == dec_str(n as nat),
{
    if n == 0 {
        return digit_str(0).to_owned();
    }
    let mut parts: Vec<&'static str> = Vec::new();
    let mut m = n;
    proof {
        assert(dec_str(n as nat) =~= dec_str(n as nat) + join_rev(parts@));
    }
    while m > 0
        invariant
            m > 0 ==> dec_str(n as nat) == dec_str(m as nat) + join_rev(parts@),
            m == 0 ==> dec_str(n as nat) == join_rev(parts@),
        decreases m,
    {
        let ghost old_parts = parts@;
        let d = m % 10;
        let ds = digit_str(d);
        parts.push(ds);
        proof {
            assert(parts@.drop_last() =~= old_parts);
            assert(join_rev(parts@) == ds@ + join_rev(old_parts));
            if m >= 10 {
                assert(dec_str(m as nat) == dec_str(m as nat / 10) + seq![
                    dec_digit((m as nat % 10) as int),
                ]);
                assert(dec_str(m as nat / 10) + join_rev(parts@) =~= dec_str(m as nat) + join_rev(
                    old_parts,
                ));
            } else {
                assert(dec_str(m as nat) =~= seq![dec_digit((m % 10) as int)]);
                assert(join_rev(parts@) =~= dec_str(m as nat) + join_rev(old_parts));
            }
        }
        m = m / 10;
    }
    let mut r = String::new();
    let mut i = parts.len();
    proof {
        assert(parts@.subrange(0, i as int) =~= parts@);
        assert(r@ + join_rev(parts@) =~= join_rev(parts@));
    }
    while i > 0
        invariant
            i <= parts@.len(),
            r@ + join_rev(parts@.subrange(0, i as int)) == dec_str(n as nat),
        decreases i,
    {
        i = i - 1;
        let part = parts[i];
        r.append(part);
        proof {
            assert(parts@.subrange(0, i as int + 1).drop_last() =~= parts@.subrange(0, i as int));
            assert(parts@.subrange(0, i as int + 1).last() == parts@[i as int]);
            assert(r@ + join_rev(parts@.subrange(0, i as int)) =~= dec_str(n as nat));
        }
    }
    proof {
        assert(parts@.subrange(0, 0) =~= Seq::<&str>::empty());
        assert(r@ =~= dec_str(n as nat));
    }
    r
}

} // verus!
