//! Character-level helpers on strings, with their meaning stated over the
//! strings' character sequences.
use vstd::prelude::*;

verus! {

/// Whether every character of `s` is ASCII.
pub open spec fn all_ascii(s: Seq<char>) -> bool {
    forall|i: int| 0 <= i < s.len() ==> (s[i] as u32) < 128
}

/// Whether `c` is an upper-case ASCII letter.
pub open spec fn is_ascii_upper(c: char) -> bool {
    'A' <= c && c <= 'Z'
}

/// `s` with its ASCII upper-case letters turned into lower case.
pub open spec fn ascii_lower(s: Seq<char>) -> Seq<char> {
    s.map_values(|c: char| if is_ascii_upper(c) { ((c as u32) + 32) as char } else { c })
}

/// What `str::to_lowercase` returns for a string.
pub uninterp spec fn lowercase_text(s: Seq<char>) -> Seq<char>;

/// `str::to_lowercase`: the Unicode lower-case form of `s`. Its result is
/// named; of ASCII input the standard library documents that it is the ASCII
/// lower-case form, and that is stated.
#[verifier::external_body]
pub(crate) fn to_lowercase(s: &str) -> (r: String)
    ensures
        r@ == lowercase_text(s@),
        all_ascii(s@) ==> r@ == ascii_lower(s@),
{
    s.to_lowercase()
}

/// Whether two strings hold the same characters.
pub fn same_text(a: &str, b: &str) -> (r: bool)
    ensures
        r == (a@ == b@),
{
    let n = a.unicode_len();
    let m = b.unicode_len();
    if n != m {
        return false;
    }
    let mut i: usize = 0;
    while i < n
        invariant
            n == a@.len(),
            m == b@.len(),
            n == m,
            i <= n,
            forall|j: int| 0 <= j < i ==> a@[j] == b@[j],
        decreases n - i,
    {
        if a.get_char(i) != b.get_char(i) {
            return false;
        }
        i = i + 1;
    }
    assert(a@ =~= b@);
    true
}

/// Whether `s` begins with `prefix`.
pub fn starts_with(s: &str, prefix: &str) -> (r: bool)
    ensures
        r == (prefix@.len() <= s@.len() && s@.subrange(0, prefix@.len() as int) == prefix@),
{
    let n = s.unicode_len();
    let m = prefix.unicode_len();
    if m > n {
        return false;
    }
    let mut i: usize = 0;
    while i < m
        invariant
            n == s@.len(),
            m == prefix@.len(),
            m <= n,
            i <= m,
            forall|j: int| 0 <= j < i ==> s@[j] == prefix@[j],
        decreases m - i,
    {
        if s.get_char(i) != prefix.get_char(i) {
            assert(s@.subrange(0, m as int)[i as int] != prefix@[i as int]);
            return false;
        }
        i = i + 1;
    }
    assert(s@.subrange(0, m as int) =~= prefix@);
    true
}

/// Whether `s` ends with `suffix`.
pub fn ends_with(s: &str, suffix: &str) -> (r: bool)
    ensures
        r == (suffix@.len() <= s@.len() && s@.subrange(s@.len() - suffix@.len(), s@.len() as int)
            == suffix@),
{
    let n = s.unicode_len();
    let m = suffix.unicode_len();
    if m > n {
        return false;
    }
    let off = n - m;
    let mut i: usize = 0;
    while i < m
        invariant
            n == s@.len(),
            m == suffix@.len(),
            m <= n,
            off == n - m,
            i <= m,
            forall|j: int| 0 <= j < i ==> s@[off + j] == suffix@[j],
        decreases m - i,
    {
        if s.get_char(off + i) != suffix.get_char(i) {
            assert(s@.subrange(off as int, n as int)[i as int] != suffix@[i as int]);
            return false;
        }
        i = i + 1;
    }
    assert(s@.subrange(off as int, n as int) =~= suffix@);
    true
}

/// The concatenation of `a` and `b`.
pub fn join2(a: &str, b: &str) -> (r: String)
    ensures
        r@ == a@ + b@,
{
    let mut r = String::from_str(a);
    r.append(b);
    r
}

/// The concatenation of `a`, `b` and `c`.
pub fn join3(a: &str, b: &str, c: &str) -> (r: String)
    ensures
        r@ == a@ + b@ + c@,
{
    let mut r = String::from_str(a);
    r.append(b);
    r.append(c);
    r
}

/// The characters of each name and value of a list of pairs.
pub open spec fn pairs_view(v: Seq<(String, String)>) -> Seq<(Seq<char>, Seq<char>)> {
    v.map_values(|p: (String, String)| (p.0@, p.1@))
}

/// Whether `c` has the Unicode White_Space property (what
/// `char::is_whitespace` answers).
pub open spec fn is_white_space(c: char) -> bool {
    let u = c as u32;
    (0x9 <= u && u <= 0xd) || u == 0x20 || u == 0x85 || u == 0xa0 || u == 0x1680 || (0x2000 <= u && u
        <= 0x200a) || u == 0x2028 || u == 0x2029 || u == 0x202f || u == 0x205f || u == 0x3000
}

/// Whether `c` has the Unicode White_Space property.
pub fn white_space(c: char) -> (r: bool)
    ensures
        r == is_white_space(c),
{
    let u = c as u32;
    (0x9 <= u && u <= 0xd) || u == 0x20 || u == 0x85 || u == 0xa0 || u == 0x1680 || (0x2000 <= u && u
        <= 0x200a) || u == 0x2028 || u == 0x2029 || u == 0x202f || u == 0x205f || u == 0x3000
}

/// `s` without its leading white space.
pub open spec fn trim_start_text(s: Seq<char>) -> Seq<char>
    decreases s.len(),
{
    if s.len() > 0 && is_white_space(s[0]) {
        trim_start_text(s.drop_first())
    } else {
        s
    }
}

/// `s` without its trailing characters that satisfy `strip`.
pub open spec fn trim_end_where(s: Seq<char>, strip: spec_fn(char) -> bool) -> Seq<char>
    decreases s.len(),
{
    if s.len() > 0 && strip(s.last()) {
        trim_end_where(s.drop_last(), strip)
    } else {
        s
    }
}

/// `s` without leading and trailing white space (what `str::trim` returns).
pub open spec fn trim_text(s: Seq<char>) -> Seq<char> {
    trim_end_where(trim_start_text(s), |c: char| is_white_space(c))
}

proof fn lemma_trim_start_at(s: Seq<char>, a: int)
    requires
        0 <= a <= s.len(),
        forall|j: int| 0 <= j < a ==> is_white_space(s[j]),
        a == s.len() || !is_white_space(s[a]),
    ensures
        trim_start_text(s) == s.subrange(a, s.len() as int),
    decreases a,
{
    if a > 0 {
        let t = s.drop_first();
        assert forall|j: int| 0 <= j < a - 1 implies is_white_space(t[j]) by {
            assert(t[j] == s[j + 1]);
        }
        if a - 1 < t.len() {
            assert(t[a - 1] == s[a]);
        }
        lemma_trim_start_at(t, a - 1);
        assert(t.subrange(a - 1, t.len() as int) =~= s.subrange(a, s.len() as int));
    } else {
        assert(s.subrange(0, s.len() as int) =~= s);
    }
}

proof fn lemma_trim_end_at(s: Seq<char>, b: int, strip: spec_fn(char) -> bool)
    requires
        0 <= b <= s.len(),
        forall|j: int| b <= j < s.len() ==> strip(s[j]),
        b == 0 || !strip(s[b - 1]),
    ensures
        trim_end_where(s, strip) == s.subrange(0, b),
    decreases s.len() - b,
{
    if b < s.len() {
        let t = s.drop_last();
        assert forall|j: int| b <= j < t.len() implies strip(t[j]) by {
            assert(t[j] == s[j]);
        }
        if b > 0 {
            assert(t[b - 1] == s[b - 1]);
        }
        lemma_trim_end_at(t, b, strip);
        assert(t.subrange(0, b) =~= s.subrange(0, b));
    } else {
        assert(s.subrange(0, b) =~= s);
    }
}

/// `s` without leading and trailing white space.
pub fn trim(s: &str) -> (r: String)
    ensures
        r@ == trim_text(s@),
{
    let n = s.unicode_len();
    let mut a: usize = 0;
    while a < n && white_space(s.get_char(a))
        invariant
            n == s@.len(),
            a <= n,
            forall|j: int| 0 <= j < a ==> is_white_space(s@[j]),
        decreases n - a,
    {
        a = a + 1;
    }
    proof {
        lemma_trim_start_at(s@, a as int);
    }
    let mut b: usize = n;
    while b > a && white_space(s.get_char(b - 1))
        invariant
            n == s@.len(),
            a <= b <= n,
            forall|j: int| b <= j < n ==> is_white_space(s@[j]),
        decreases b,
    {
        b = b - 1;
    }
    let ghost mid = s@.subrange(a as int, n as int);
    proof {
        let strip = |c: char| is_white_space(c);
        assert forall|j: int| (b - a) <= j < mid.len() implies strip(mid[j]) by {
            assert(mid[j] == s@[a + j]);
        }
        if b > a {
            assert(mid[b - a - 1] == s@[b - 1]);
        }
        lemma_trim_end_at(mid, b - a, strip);
        assert(mid.subrange(0, b - a) =~= s@.subrange(a as int, b as int));
    }
    String::from_str(s.substring_char(a, b))
}

/// `s` without its trailing copies of `c` (what `str::trim_end_matches`
/// with a character returns).
pub fn trim_end_char(s: &str, c: char) -> (r: String)
    ensures
        r@ == trim_end_where(s@, |x: char| x == c),
{
    let n = s.unicode_len();
    let mut b: usize = n;
    while b > 0 && s.get_char(b - 1) == c
        invariant
            n == s@.len(),
            b <= n,
            forall|j: int| b <= j < n ==> s@[j] == c,
        decreases b,
    {
        b = b - 1;
    }
    proof {
        lemma_trim_end_at(s@, b as int, |x: char| x == c);
    }
    String::from_str(s.substring_char(0, b))
}

/// Whether `w` occurs in `s` as a run of consecutive characters.
pub open spec fn contains_text(s: Seq<char>, w: Seq<char>) -> bool {
    exists|i: int| 0 <= i && i + w.len() <= s.len() && #[trigger] s.subrange(i, i + w.len()) == w
}

/// A text put between two others occurs in the whole.
pub proof fn lemma_contains_middle(pre: Seq<char>, w: Seq<char>, post: Seq<char>)
    ensures
        contains_text(pre + w + post, w),
{
    let s = pre + w + post;
    assert(s.subrange(pre.len() as int, (pre.len() + w.len()) as int) =~= w);
}

} // verus!
