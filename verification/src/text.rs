//! Trimming and comparison helpers shared by the textual parsers.

use vstd::prelude::*;

verus! {

broadcast use vstd::string::axiom_spec_iter;

/// `s` with every leading element that satisfies `blank` removed.
pub open spec fn trim_start<T>(s: Seq<T>, blank: spec_fn(T) -> bool) -> Seq<T>
    decreases s.len(),
{
    if s.len() > 0 && blank(s[0]) {
        trim_start(s.drop_first(), blank)
    } else {
        s
    }
}

/// `s` with every trailing element that satisfies `blank` removed.
pub open spec fn trim_end<T>(s: Seq<T>, blank: spec_fn(T) -> bool) -> Seq<T>
    decreases s.len(),
{
    if s.len() > 0 && blank(s.last()) {
        trim_end(s.drop_last(), blank)
    } else {
        s
    }
}

/// `s` with leading and trailing elements that satisfy `blank` removed.
pub open spec fn trim<T>(s: Seq<T>, blank: spec_fn(T) -> bool) -> Seq<T> {
    trim_end(trim_start(s, blank), blank)
}

/// The four blank bytes the sysfs parsers strip: space, tab, line feed and
/// carriage return.
pub open spec fn is_blank_byte(b: u8) -> bool {
    b == 0x20 || b == 0x09 || b == 0x0A || b == 0x0D
}

/// A byte string with its leading and trailing blank bytes removed.
pub open spec fn trim_blank(s: Seq<u8>) -> Seq<u8> {
    trim(s, |b: u8| is_blank_byte(b))
}

/// The characters with the Unicode `White_Space` property, which is what
/// `char::is_whitespace` and `str::trim` use.
pub open spec fn is_unicode_whitespace(c: char) -> bool {
    let u = c as u32;
    ||| 0x09 <= u <= 0x0D
    ||| u == 0x20
    ||| u == 0x85
    ||| u == 0xA0
    ||| u == 0x1680
    ||| 0x2000 <= u <= 0x200A
    ||| u == 0x2028
    ||| u == 0x2029
    ||| u == 0x202F
    ||| u == 0x205F
    ||| u == 0x3000
}

/// A character sequence with its leading and trailing Unicode white space
/// removed, as `str::trim` does.
pub open spec fn trim_whitespace(s: Seq<char>) -> Seq<char> {
    trim(s, |c: char| is_unicode_whitespace(c))
}

/// A text whose first and last characters are not white space is its own trim.
pub proof fn lemma_trim_whitespace_unchanged(s: Seq<char>)
    requires
        s.len() > 0,
        !is_unicode_whitespace(s[0]),
        !is_unicode_whitespace(s.last()),
    ensures
        trim_whitespace(s) == s,
{
}

/// Trimming removes white space added around a text that neither starts
/// nor ends with white space.
pub proof fn lemma_trim_whitespace_padding(pre: Seq<char>, w: Seq<char>, post: Seq<char>)
    requires
        forall|i: int| 0 <= i < pre.len() ==> is_unicode_whitespace(#[trigger] pre[i]),
        forall|i: int| 0 <= i < post.len() ==> is_unicode_whitespace(#[trigger] post[i]),
        w.len() > 0,
        !is_unicode_whitespace(w[0]),
        !is_unicode_whitespace(w.last()),
    ensures
        trim_whitespace(pre + w + post) == w,
{
    let blank = |c: char| is_unicode_whitespace(c);
    assert(pre + w + post =~= pre + (w + post));
    lemma_trim_start_blank_prefix(pre, w + post, blank);
    assert(trim_start(w + post, blank) == w + post);
    lemma_trim_end_blank_suffix(w, post, blank);
}

proof fn lemma_trim_start_blank_prefix<T>(pre: Seq<T>, rest: Seq<T>, blank: spec_fn(T) -> bool)
    requires
        forall|i: int| 0 <= i < pre.len() ==> blank(#[trigger] pre[i]),
    ensures
        trim_start(pre + rest, blank) == trim_start(rest, blank),
    decreases pre.len(),
{
    if pre.len() > 0 {
        assert((pre + rest)[0] == pre[0]);
        assert((pre + rest).drop_first() =~= pre.drop_first() + rest);
        lemma_trim_start_blank_prefix(pre.drop_first(), rest, blank);
    } else {
        assert(pre + rest =~= rest);
    }
}

proof fn lemma_trim_end_blank_suffix<T>(rest: Seq<T>, post: Seq<T>, blank: spec_fn(T) -> bool)
    requires
        forall|i: int| 0 <= i < post.len() ==> blank(#[trigger] post[i]),
    ensures
        trim_end(rest + post, blank) == trim_end(rest, blank),
    decreases post.len(),
{
    if post.len() > 0 {
        assert((rest + post).last() == post.last());
        assert((rest + post).drop_last() =~= rest + post.drop_last());
        lemma_trim_end_blank_suffix(rest, post.drop_last(), blank);
    } else {
        assert(rest + post =~= rest);
    }
}

/// Trimming a suffix of `s` that starts past a blank prefix gives the same result.
proof fn lemma_trim_start_step<T>(s: Seq<T>, lo: int, blank: spec_fn(T) -> bool)
    requires
        0 <= lo < s.len(),
        blank(s[lo]),
    ensures
        trim_start(s.subrange(lo, s.len() as int), blank) == trim_start(
            s.subrange(lo + 1, s.len() as int),
            blank,
        ),
{
    assert(s.subrange(lo, s.len() as int).drop_first() =~= s.subrange(lo + 1, s.len() as int));
}

proof fn lemma_trim_end_step<T>(s: Seq<T>, lo: int, hi: int, blank: spec_fn(T) -> bool)
    requires
        0 <= lo < hi <= s.len(),
        blank(s[hi - 1]),
    ensures
        trim_end(s.subrange(lo, hi), blank) == trim_end(s.subrange(lo, hi - 1), blank),
{
    assert(s.subrange(lo, hi).drop_last() =~= s.subrange(lo, hi - 1));
}

/// Returns whether a byte is one of the four blank bytes.
pub fn is_blank(b: u8) -> (r: bool)
    ensures
        r == is_blank_byte(b),
{
    b == 0x20 || b == 0x09 || b == 0x0A || b == 0x0D
}

/// Strips leading and trailing blank bytes (space, tab, line feed, carriage
/// return).
pub fn trim_blank_bytes(s: &[u8]) -> (r: &[u8])
    ensures
        r@ == trim_blank(s@),
{
    let ghost blank = |b: u8| is_blank_byte(b);
    let len = s.len();
    let mut lo: usize = 0;
    assert(s@.subrange(0, len as int) =~= s@);
    while lo < len && is_blank(s[lo])
        invariant
            lo <= len == s@.len(),
            blank == (|b: u8| is_blank_byte(b)),
            trim_start(s@, blank) == trim_start(s@.subrange(lo as int, len as int), blank),
        decreases len - lo,
    {
        proof {
            lemma_trim_start_step(s@, lo as int, blank);
        }
        lo = lo + 1;
    }
    assert(trim_start(s@, blank) == s@.subrange(lo as int, len as int));
    let mut hi: usize = len;
    while hi > lo && is_blank(s[hi - 1])
        invariant
            lo <= hi <= len == s@.len(),
            blank == (|b: u8| is_blank_byte(b)),
            trim_blank(s@) == trim_end(s@.subrange(lo as int, hi as int), blank),
        decreases hi - lo,
    {
        proof {
            lemma_trim_end_step(s@, lo as int, hi as int, blank);
        }
        hi = hi - 1;
    }
    &s[lo..hi]
}

/// Returns whether a character has the Unicode `White_Space` property.
pub fn is_whitespace(c: char) -> (r: bool)
    ensures
        r == is_unicode_whitespace(c),
{
    let u: u32 = c as u32;
    (0x09 <= u && u <= 0x0D) || u == 0x20 || u == 0x85 || u == 0xA0 || u == 0x1680 || (0x2000
        <= u && u <= 0x200A) || u == 0x2028 || u == 0x2029 || u == 0x202F || u == 0x205F || u
        == 0x3000
}

/// Collects the characters of a string slice.
pub fn chars_of(s: &str) -> (v: Vec<char>)
    ensures
        v@ == s@,
{
    let mut v: Vec<char> = Vec::new();
    for c in it: s.chars()
        invariant
            v@ == it.seq().take(it.index() as int),
            it.seq() == s@,
    {
        v.push(c);
    }
    v
}

/// The characters of a string slice with leading and trailing Unicode white
/// space removed.
pub fn trimmed_chars(s: &str) -> (v: Vec<char>)
    ensures
        v@ == trim_whitespace(s@),
{
    let ghost blank = |c: char| is_unicode_whitespace(c);
    let all = chars_of(s);
    let len = all.len();
    let mut lo: usize = 0;
    assert(all@.subrange(0, len as int) =~= all@);
    while lo < len && is_whitespace(all[lo])
        invariant
            lo <= len == all@.len(),
            all@ == s@,
            blank == (|c: char| is_unicode_whitespace(c)),
            trim_start(s@, blank) == trim_start(all@.subrange(lo as int, len as int), blank),
        decreases len - lo,
    {
        proof {
            lemma_trim_start_step(all@, lo as int, blank);
        }
        lo = lo + 1;
    }
    let mut hi: usize = len;
    while hi > lo && is_whitespace(all[hi - 1])
        invariant
            lo <= hi <= len == all@.len(),
            all@ == s@,
            blank == (|c: char| is_unicode_whitespace(c)),
            trim_whitespace(s@) == trim_end(all@.subrange(lo as int, hi as int), blank),
        decreases hi - lo,
    {
        proof {
            lemma_trim_end_step(all@, lo as int, hi as int, blank);
        }
        hi = hi - 1;
    }
    let mut v: Vec<char> = Vec::new();
    let mut i: usize = lo;
    while i < hi
        invariant
            lo <= i <= hi <= all@.len(),
            v@ == all@.subrange(lo as int, i as int),
        decreases hi - i,
    {
        v.push(all[i]);
        i = i + 1;
    }
    v
}

/// Returns whether two character sequences are equal.
pub fn chars_eq(a: &[char], b: &[char]) -> (r: bool)
    ensures
        r == (a@ == b@),
{
    if a.len() != b.len() {
        return false;
    }
    let mut i: usize = 0;
    while i < a.len()
        invariant
            i <= a@.len() == b@.len(),
            a@.take(i as int) == b@.take(i as int),
        decreases a@.len() - i,
    {
        if a[i] != b[i] {
            assert(a@[i as int] != b@[i as int]);
            return false;
        }
        assert(a@.take(i + 1) =~= a@.take(i as int).push(a@[i as int]));
        assert(b@.take(i + 1) =~= b@.take(i as int).push(b@[i as int]));
        i = i + 1;
    }
    assert(a@ =~= a@.take(a@.len() as int));
    assert(b@ =~= b@.take(b@.len() as int));
    true
}

/// Returns whether a character sequence spells out a string slice.
pub fn chars_are(a: &[char], word: &str) -> (r: bool)
    ensures
        r == (a@ == word@),
{
    let w = chars_of(word);
    chars_eq(a, w.as_slice())
}

/// Returns whether two string slices hold the same characters.
pub fn str_is(s: &str, word: &str) -> (r: bool)
    ensures
        r == (s@ == word@),
{
    let v = chars_of(s);
    chars_are(v.as_slice(), word)
}

/// The bytes of an ASCII character sequence, one per character.
pub open spec fn ascii_bytes(s: Seq<char>) -> Seq<u8> {
    s.map_values(|c: char| #[verifier::truncate] (c as u8))
}

/// An ASCII upper-case letter turned to lower case; every other byte unchanged.
pub open spec fn ascii_lower(b: u8) -> u8 {
    if 0x41 <= b <= 0x5A {
        (b + 0x20) as u8
    } else {
        b
    }
}

/// A byte string with its ASCII letters turned to lower case.
pub open spec fn ascii_lowercase(s: Seq<u8>) -> Seq<u8> {
    s.map_values(|b: u8| ascii_lower(b))
}

/// Lower-casing a byte string and trimming its blanks can be done in either order.
pub proof fn lemma_lowercase_trim_commute(s: Seq<u8>)
    ensures
        ascii_lowercase(trim_blank(s)) == trim_blank(ascii_lowercase(s)),
{
    lemma_lowercase_trim_start(s);
    lemma_lowercase_trim_end(trim_start(s, |b: u8| is_blank_byte(b)));
}

proof fn lemma_lowercase_trim_start(s: Seq<u8>)
    ensures
        ascii_lowercase(trim_start(s, |b: u8| is_blank_byte(b))) == trim_start(
            ascii_lowercase(s),
            |b: u8| is_blank_byte(b),
        ),
    decreases s.len(),
{
    let blank = |b: u8| is_blank_byte(b);
    if s.len() > 0 {
        assert(ascii_lowercase(s)[0] == ascii_lower(s[0]));
        assert(ascii_lowercase(s.drop_first()) =~= ascii_lowercase(s).drop_first());
        lemma_lowercase_trim_start(s.drop_first());
    }
}

proof fn lemma_lowercase_trim_end(s: Seq<u8>)
    ensures
        ascii_lowercase(trim_end(s, |b: u8| is_blank_byte(b))) == trim_end(
            ascii_lowercase(s),
            |b: u8| is_blank_byte(b),
        ),
    decreases s.len(),
{
    if s.len() > 0 {
        assert(ascii_lowercase(s).last() == ascii_lower(s.last()));
        assert(ascii_lowercase(s.drop_last()) =~= ascii_lowercase(s).drop_last());
        lemma_lowercase_trim_end(s.drop_last());
    }
}

/// Copies a byte string with its ASCII letters turned to lower case.
pub fn lowercase_bytes(s: &[u8]) -> (v: Vec<u8>)
    ensures
        v@ == ascii_lowercase(s@),
{
    let mut v: Vec<u8> = Vec::new();
    let mut i: usize = 0;
    while i < s.len()
        invariant
            i <= s@.len(),
            v@ == ascii_lowercase(s@.take(i as int)),
        decreases s@.len() - i,
    {
        let b = s[i];
        let lower: u8 = if 0x41 <= b && b <= 0x5A {
            b + 0x20
        } else {
            b
        };
        v.push(lower);
        assert(s@.take(i + 1) =~= s@.take(i as int).push(b));
        assert(ascii_lowercase(s@.take(i + 1)) =~= ascii_lowercase(s@.take(i as int)).push(lower));
        i = i + 1;
    }
    assert(s@.take(s@.len() as int) =~= s@);
    v
}

/// Returns whether a byte string spells out an ASCII word.
pub fn bytes_are(a: &[u8], word: &str) -> (r: bool)
    ensures
        r == (a@ == ascii_bytes(word@)),
{
    let w = chars_of(word);
    if a.len() != w.len() {
        return false;
    }
    let mut i: usize = 0;
    while i < a.len()
        invariant
            i <= a@.len() == w@.len(),
            w@ == word@,
            a@.take(i as int) == ascii_bytes(w@).take(i as int),
        decreases a@.len() - i,
    {
        let c: char = w[i];
        if a[i] != #[verifier::truncate] (c as u8) {
            assert(ascii_bytes(w@)[i as int] == #[verifier::truncate] (c as u8));
            return false;
        }
        assert(a@.take(i + 1) =~= ascii_bytes(w@).take(i + 1));
        i = i + 1;
    }
    assert(a@.take(a@.len() as int) =~= a@);
    assert(ascii_bytes(w@).take(a@.len() as int) =~= ascii_bytes(w@));
    true
}

} // verus!
