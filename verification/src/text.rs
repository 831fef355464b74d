//! Character-level text operations on the user's input: trimming, URL
//! normalisation, repository names, e-mail syntax, prefixes.
use vstd::prelude::*;
use vstd::string::*;

verus! {

/// Whether a character has the Unicode `White_Space` property, which is
/// what `char::is_whitespace` tests: the ASCII tab, line feed, vertical
/// tab, form feed, carriage return and space; next line (U+0085), no-break
/// space (U+00A0), ogham space mark (U+1680), the spaces U+2000 to U+200A,
/// the line and paragraph separators (U+2028, U+2029), the narrow no-break
/// space (U+202F), the medium mathematical space (U+205F) and the
/// ideographic space (U+3000).
pub open spec fn is_white_space(c: char) -> bool {
    let n = c as u32;
    ||| 0x09 <= n <= 0x0D
    ||| n == 0x20
    ||| n == 0x85
    ||| n == 0xA0
    ||| n == 0x1680
    ||| 0x2000 <= n <= 0x200A
    ||| n == 0x2028
    ||| n == 0x2029
    ||| n == 0x202F
    ||| n == 0x205F
    ||| n == 0x3000
}

/// Whether `c` is white space (as `char::is_whitespace`).
pub fn char_is_whitespace(c: char) -> (b: bool)
    ensures
        b == is_white_space(c),
{
    let n = c as u32;
    (0x09 <= n && n <= 0x0D) || n == 0x20 || n == 0x85 || n == 0xA0 || n == 0x1680 || (0x2000
        <= n && n <= 0x200A) || n == 0x2028 || n == 0x2029 || n == 0x202F || n == 0x205F || n
        == 0x3000
}

/// `String::push`: appends one character at the end.
#[verifier::external_body]
pub(crate) fn push_char(s: &mut String, c: char)
    ensures
        final(s)@ == old(s)@.push(c),
{
    s.push(c)
}

/// The text as an owned string.
pub fn owned(s: &str) -> (r: String)
    ensures
        r@ == s@,
{
    String::from_str(s)
}

/// Characters `from..to` of a string, as an owned string.
pub fn slice_chars(s: &str, from: usize, to: usize) -> (r: String)
    requires
        from <= to <= s@.len(),
    ensures
        r@ == s@.subrange(from as int, to as int),
{
    String::from_str(s.substring_char(from, to))
}

/// Appends the characters of `tail` to `s`.
pub fn push_all(s: &mut String, tail: &str)
    ensures
        final(s)@ == old(s)@ + tail@,
{
    s.append(tail);
}

/// The text without its last character (unchanged when empty).
pub fn without_last_char(s: &str) -> (r: String)
    ensures
        r@ == if s@.len() > 0 {
            s@.drop_last()
        } else {
            s@
        },
{
    let n = s.unicode_len();
    if n == 0 {
        owned(s)
    } else {
        let r = slice_chars(s, 0, n - 1);
        assert(s@.subrange(0, n - 1) =~= s@.drop_last());
        r
    }
}

/// The two texts one after the other.
pub fn concat_str(a: &str, b: &str) -> (r: String)
    ensures
        r@ == a@ + b@,
{
    let mut r = owned(a);
    push_all(&mut r, b);
    r
}

/// Whether two strings hold the same characters.
pub fn str_eq(a: &str, b: &str) -> (r: bool)
    ensures
        r == (a@ == b@),
{
    let n = a.unicode_len();
    if n != b.unicode_len() {
        return false;
    }
    let mut i: usize = 0;
    while i < n
        invariant
            n == a@.len(),
            n == b@.len(),
            i <= n,
            forall|j: int| 0 <= j < i ==> a@[j] == b@[j],
        decreases n - i,
    {
        if a.get_char(i) != b.get_char(i) {
            return false;
        }
        i = i + 1;
    }
    assert(a@ =~= b@);
    true
}

/// The characters left after dropping leading white space.
pub open spec fn spec_trim_start(s: Seq<char>) -> Seq<char>
    decreases s.len(),
{
    if s.len() > 0 && is_white_space(s[0]) {
        spec_trim_start(s.drop_first())
    } else {
        s
    }
}

/// The characters left after dropping trailing white space.
pub open spec fn spec_trim_end(s: Seq<char>) -> Seq<char>
    decreases s.len(),
{
    if s.len() > 0 && is_white_space(s.last()) {
        spec_trim_end(s.drop_last())
    } else {
        s
    }
}

/// The characters left after dropping leading and trailing white space.
pub open spec fn spec_trim(s: Seq<char>) -> Seq<char> {
    spec_trim_end(spec_trim_start(s))
}

/// Dropping white space from the end of a suffix of `s` that starts at a
/// non-white-space character.
proof fn lemma_trim_end_prefix(s: Seq<char>, j: int)
    requires
        0 <= j <= s.len(),
        forall|k: int| j <= k < s.len() ==> is_white_space(#[trigger] s[k]),
    ensures
        spec_trim_end(s) == spec_trim_end(s.take(j)),
    decreases s.len() - j,
{
    if j < s.len() {
        assert(s.drop_last().take(j) =~= s.take(j));
        lemma_trim_end_prefix(s.drop_last(), j);
    } else {
        assert(s.take(j) =~= s);
    }
}

/// `str::trim`: the string without leading and trailing white space.
pub fn trim(s: &str) -> (r: String)
    ensures
        r@ == spec_trim(s@),
{
    let n = s.unicode_len();
    let mut i: usize = 0;
    assert(s@.skip(0) =~= s@);
    while i < n && char_is_whitespace(s.get_char(i))
        invariant
            n == s@.len(),
            i <= n,
            spec_trim_start(s@) == spec_trim_start(s@.skip(i as int)),
        decreases n - i,
    {
        assert(s@.skip(i as int).drop_first() =~= s@.skip(i + 1));
        i = i + 1;
    }
    let ghost t = s@.skip(i as int);
    assert(spec_trim_start(t) == t);
    let mut j: usize = n;
    while j > i && char_is_whitespace(s.get_char(j - 1))
        invariant
            n == s@.len(),
            i <= j <= n,
            t == s@.skip(i as int),
            forall|k: int| j <= k < n ==> is_white_space(#[trigger] s@[k]),
        decreases j,
    {
        j = j - 1;
    }
    proof {
        assert forall|k: int| j - i <= k < t.len() implies is_white_space(#[trigger] t[k]) by {
            assert(t[k] == s@[k + i]);
        }
        lemma_trim_end_prefix(t, j - i);
        let u = t.take(j - i);
        assert(u =~= s@.subrange(i as int, j as int));
        if u.len() > 0 {
            assert(u.last() == s@[j - 1]);
        }
        assert(spec_trim_end(u) == u);
    }
    slice_chars(s, i, j)
}

/// The characters left after repeatedly dropping a trailing `c`.
pub open spec fn spec_trim_end_char(s: Seq<char>, c: char) -> Seq<char>
    decreases s.len(),
{
    if s.len() > 0 && s.last() == c {
        spec_trim_end_char(s.drop_last(), c)
    } else {
        s
    }
}

/// `str::trim_end_matches` with a character pattern.
pub fn trim_end_char(s: &str, c: char) -> (r: String)
    ensures
        r@ == spec_trim_end_char(s@, c),
{
    let n = s.unicode_len();
    let mut j: usize = n;
    assert(s@.take(n as int) =~= s@);
    while j > 0 && s.get_char(j - 1) == c
        invariant
            n == s@.len(),
            j <= n,
            spec_trim_end_char(s@, c) == spec_trim_end_char(s@.take(j as int), c),
        decreases j,
    {
        assert(s@.take(j as int).drop_last() =~= s@.take(j - 1));
        j = j - 1;
    }
    assert(s@.take(j as int) =~= s@.subrange(0, j as int));
    slice_chars(s, 0, j)
}

/// Whether `s` ends with the characters of `suffix`.
pub open spec fn spec_ends_with(s: Seq<char>, suffix: Seq<char>) -> bool {
    suffix.len() <= s.len() && s.subrange(s.len() - suffix.len(), s.len() as int) == suffix
}

/// The characters left after repeatedly dropping a trailing non-empty `suffix`.
pub open spec fn spec_trim_end_str(s: Seq<char>, suffix: Seq<char>) -> Seq<char>
    decreases s.len(),
{
    if suffix.len() > 0 && spec_ends_with(s, suffix) {
        spec_trim_end_str(s.take(s.len() - suffix.len()), suffix)
    } else {
        s
    }
}

/// Whether the first `len` characters of `s` end with `suffix`.
fn prefix_ends_with(s: &str, len: usize, suffix: &str) -> (r: bool)
    requires
        len <= s@.len(),
    ensures
        r == spec_ends_with(s@.take(len as int), suffix@),
{
    let m = suffix.unicode_len();
    if m > len {
        return false;
    }
    let start = len - m;
    let mut k: usize = 0;
    while k < m
        invariant
            m == suffix@.len(),
            m <= len <= s@.len(),
            start == len - m,
            k <= m,
            forall|q: int| 0 <= q < k ==> s@[start + q] == suffix@[q],
        decreases m - k,
    {
        if s.get_char(start + k) != suffix.get_char(k) {
            assert(s@.take(len as int).subrange(start as int, len as int)[k as int] != suffix@[k as int]);
            return false;
        }
        k = k + 1;
    }
    assert(s@.take(len as int).subrange(start as int, len as int) =~= suffix@);
    true
}

/// `str::trim_end_matches` with a string pattern.
pub fn trim_end_str(s: &str, suffix: &str) -> (r: String)
    ensures
        r@ == spec_trim_end_str(s@, suffix@),
{
    let m = suffix.unicode_len();
    let n = s.unicode_len();
    let mut j: usize = n;
    if m == 0 {
        assert(s@.subrange(0, n as int) =~= s@);
        return slice_chars(s, 0, n);
    }
    assert(s@.take(n as int) =~= s@);
    while prefix_ends_with(s, j, suffix)
        invariant
            n == s@.len(),
            m == suffix@.len(),
            m > 0,
            j <= n,
            spec_trim_end_str(s@, suffix@) == spec_trim_end_str(s@.take(j as int), suffix@),
        decreases j,
    {
        assert(s@.take(j as int).take(j - m) =~= s@.take(j - m));
        j = j - m;
    }
    assert(s@.take(j as int) =~= s@.subrange(0, j as int));
    slice_chars(s, 0, j)
}

/// A repository URL as stored: surrounding white space, trailing slashes and
/// then trailing `.git` suffixes removed.
pub open spec fn spec_normalize_url(url: Seq<char>) -> Seq<char> {
    spec_trim_end_str(spec_trim_end_char(spec_trim(url), '/'), ".git"@)
}

pub fn normalize_url(url: &str) -> (r: String)
    ensures
        r@ == spec_normalize_url(url@),
{
    let t = trim(url);
    let u = trim_end_char(t.as_str(), '/');
    trim_end_str(u.as_str(), ".git")
}

/// The part of `s` after its last `/` (all of `s` when it has none).
pub open spec fn spec_last_segment(s: Seq<char>) -> Seq<char>
    decreases s.len(),
{
    if s.len() == 0 {
        s
    } else if s.last() == '/' {
        Seq::empty()
    } else {
        spec_last_segment(s.drop_last()).push(s.last())
    }
}

proof fn lemma_last_segment_from(s: Seq<char>, j: int)
    requires
        0 <= j <= s.len(),
        forall|k: int| j <= k < s.len() ==> s[k] != '/',
        j == 0 || s[j - 1] == '/',
    ensures
        spec_last_segment(s) == s.skip(j),
    decreases s.len(),
{
    if s.len() > j {
        lemma_last_segment_from(s.drop_last(), j);
        assert(s.drop_last().skip(j).push(s.last()) =~= s.skip(j));
    } else if s.len() > 0 {
        assert(s.skip(j) =~= Seq::<char>::empty());
    } else {
        assert(s.skip(j) =~= s);
    }
}

/// `str::rsplit('/')` followed by `next()`: the text after the last `/`.
pub fn last_segment(s: &str) -> (r: String)
    ensures
        r@ == spec_last_segment(s@),
{
    let n = s.unicode_len();
    let mut j: usize = n;
    while j > 0 && s.get_char(j - 1) != '/'
        invariant
            n == s@.len(),
            j <= n,
            forall|k: int| j <= k < n ==> s@[k] != '/',
        decreases j,
    {
        j = j - 1;
    }
    proof {
        lemma_last_segment_from(s@, j as int);
    }
    assert(s@.skip(j as int) =~= s@.subrange(j as int, n as int));
    slice_chars(s, j, n)
}

/// The repository name derived from a URL: the last path segment of the
/// normalised URL.
pub open spec fn spec_name_from_url(url: Seq<char>) -> Seq<char> {
    spec_last_segment(spec_normalize_url(url))
}

pub fn name_from_url(url: &str) -> (r: String)
    ensures
        r@ == spec_name_from_url(url@),
{
    let n = normalize_url(url);
    last_segment(n.as_str())
}

/// Index of the first occurrence of `c` in `s`.
pub open spec fn spec_find(s: Seq<char>, c: char) -> Option<int>
    decreases s.len(),
{
    if s.len() == 0 {
        None
    } else {
        match spec_find(s.drop_last(), c) {
            Some(i) => Some(i),
            None => if s.last() == c {
                Some(s.len() - 1)
            } else {
                None
            },
        }
    }
}

proof fn lemma_find_prefix(s: Seq<char>, c: char, i: int)
    requires
        0 <= i <= s.len(),
        forall|k: int| 0 <= k < i ==> s[k] != c,
    ensures
        spec_find(s.take(i), c) is None,
    decreases i,
{
    if i > 0 {
        assert(s.take(i).drop_last() =~= s.take(i - 1));
        lemma_find_prefix(s, c, i - 1);
    }
}

proof fn lemma_find_extends(s: Seq<char>, c: char, i: int)
    requires
        0 <= i <= s.len(),
        spec_find(s.take(i), c) is Some,
    ensures
        spec_find(s, c) == spec_find(s.take(i), c),
    decreases s.len() - i,
{
    if i < s.len() {
        assert(s.take(i + 1).drop_last() =~= s.take(i));
        lemma_find_extends(s, c, i + 1);
    } else {
        assert(s.take(i) =~= s);
    }
}

/// Whether `s` has the character `c` at some position after `from`.
pub open spec fn spec_has_after(s: Seq<char>, c: char, from: int) -> bool {
    exists|m: int| from < m < s.len() && s[m] == c
}

/// The loose e-mail check of the credentials screen, on the trimmed text: an
/// `@` that is not the first character, and a `.` somewhere after the first `@`.
pub open spec fn spec_is_valid_email(s: Seq<char>) -> bool {
    let t = spec_trim(s);
    match spec_find(t, '@') {
        Some(at) => at > 0 && spec_has_after(t, '.', at),
        None => false,
    }
}

pub fn is_valid_email(s: &str) -> (r: bool)
    ensures
        r == spec_is_valid_email(s@),
{
    let t = trim(s);
    let ts = t.as_str();
    let n = ts.unicode_len();
    let mut i: usize = 0;
    while i < n && ts.get_char(i) != '@'
        invariant
            n == ts@.len(),
            i <= n,
            forall|k: int| 0 <= k < i ==> ts@[k] != '@',
        decreases n - i,
    {
        i = i + 1;
    }
    proof {
        lemma_find_prefix(ts@, '@', i as int);
    }
    if i == n {
        assert(ts@.take(n as int) =~= ts@);
        return false;
    }
    proof {
        assert(ts@.take(i + 1).drop_last() =~= ts@.take(i as int));
        assert(ts@.take(i + 1).last() == '@');
        assert(spec_find(ts@.take(i + 1), '@') == Some(i as int));
        lemma_find_extends(ts@, '@', i + 1);
        assert(spec_find(ts@, '@') == Some(i as int));
    }
    if i == 0 {
        return false;
    }
    let mut m: usize = i + 1;
    while m < n
        invariant
            n == ts@.len(),
            i < n,
            i + 1 <= m <= n,
            i > 0,
            ts@ == spec_trim(s@),
            spec_find(ts@, '@') == Some(i as int),
            forall|k: int| i < k < m ==> ts@[k] != '.',
        decreases n - m,
    {
        if ts.get_char(m) == '.' {
            assert(spec_has_after(ts@, '.', i as int));
            return true;
        }
        m = m + 1;
    }
    false
}

/// Whether `s` begins with the characters of `prefix`.
pub open spec fn spec_starts_with(s: Seq<char>, prefix: Seq<char>) -> bool {
    prefix.len() <= s.len() && s.take(prefix.len() as int) == prefix
}

/// Whether `s`, from character `from` on, begins with `prefix`.
fn starts_with_at(s: &str, from: usize, prefix: &str) -> (r: bool)
    requires
        from <= s@.len(),
    ensures
        r == spec_starts_with(s@.skip(from as int), prefix@),
{
    let n = s.unicode_len();
    let m = prefix.unicode_len();
    if m > n - from {
        return false;
    }
    let mut k: usize = 0;
    while k < m
        invariant
            n == s@.len(),
            m == prefix@.len(),
            from + m <= n,
            k <= m,
            forall|q: int| 0 <= q < k ==> s@[from + q] == prefix@[q],
        decreases m - k,
    {
        if s.get_char(from + k) != prefix.get_char(k) {
            assert(s@.skip(from as int).take(m as int)[k as int] != prefix@[k as int]);
            return false;
        }
        k = k + 1;
    }
    assert(s@.skip(from as int).take(m as int) =~= prefix@);
    true
}

/// `str::starts_with` with a string pattern.
pub fn starts_with(s: &str, prefix: &str) -> (r: bool)
    ensures
        r == spec_starts_with(s@, prefix@),
{
    assert(s@.skip(0) =~= s@);
    starts_with_at(s, 0, prefix)
}

/// The characters left after repeatedly dropping a leading non-empty `prefix`.
pub open spec fn spec_trim_start_str(s: Seq<char>, prefix: Seq<char>) -> Seq<char>
    decreases s.len(),
{
    if prefix.len() > 0 && spec_starts_with(s, prefix) {
        spec_trim_start_str(s.skip(prefix.len() as int), prefix)
    } else {
        s
    }
}

/// `str::trim_start_matches` with a string pattern.
pub fn trim_start_str(s: &str, prefix: &str) -> (r: String)
    ensures
        r@ == spec_trim_start_str(s@, prefix@),
{
    let n = s.unicode_len();
    let m = prefix.unicode_len();
    if m == 0 {
        assert(s@.subrange(0, n as int) =~= s@);
        return slice_chars(s, 0, n);
    }
    let mut i: usize = 0;
    assert(s@.skip(0) =~= s@);
    while starts_with_at(s, i, prefix)
        invariant
            n == s@.len(),
            m == prefix@.len(),
            m > 0,
            i <= n,
            spec_trim_start_str(s@, prefix@) == spec_trim_start_str(s@.skip(i as int), prefix@),
        decreases n - i,
    {
        assert(s@.skip(i as int).skip(m as int) =~= s@.skip(i + m));
        i = i + m;
    }
    assert(s@.skip(i as int) =~= s@.subrange(i as int, n as int));
    slice_chars(s, i, n)
}

} // verus!
