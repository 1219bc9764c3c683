use vstd::prelude::*;
use vstd::std_specs::iter::IteratorSpec;
use vstd::string::StringSliceAdditionalSpecFns;
use vstd::utf8::{decode_utf8, encode_utf8, is_ascii_chars, is_char_boundary, valid_utf8};

verus! {

broadcast use vstd::string::group_string_axioms;

/// Appends one character to a `String` (std's `String::push`).
#[verifier::external_body]
pub(crate) fn push_char(s: &mut String, c: char)
    ensures
        final(s)@ == old(s)@.push(c),
{
    s.push(c);
}

/// The characters of a string slice, in order.
pub fn chars_of(s: &str) -> (v: Vec<char>)
    ensures
        v@ == s@,
{
    let mut v: Vec<char> = Vec::new();
    let mut it = s.chars();
    loop
        invariant
            v@ + it.remaining() == s@,
            it.decrease() is Some,
        ensures
            v@ == s@,
        decreases it.decrease()->0,
    {
        match it.next() {
            Some(c) => {
                v.push(c);
            },
            None => {
                assert(v@ =~= s@);
                break;
            },
        }
    }
    v
}

/// Builds a `String` holding exactly the given characters.
pub fn string_of(v: &Vec<char>) -> (s: String)
    ensures
        s@ == v@,
{
    let mut s = String::new();
    let mut i: usize = 0;
    while i < v.len()
        invariant
            i <= v.len(),
            s@ == v@.take(i as int),
        decreases v.len() - i,
    {
        push_char(&mut s, v[i]);
        assert(v@.take(i as int).push(v@[i as int]) =~= v@.take(i + 1));
        i = i + 1;
    }
    assert(v@.take(v.len() as int) =~= v@);
    s
}

/// `s` begins with `prefix`.
pub open spec fn has_prefix(s: Seq<char>, prefix: Seq<char>) -> bool {
    prefix.len() <= s.len() && s.take(prefix.len() as int) == prefix
}

/// Whether `s` begins with `prefix`.
pub fn starts_with_chars(s: &Vec<char>, prefix: &Vec<char>) -> (b: bool)
    ensures
        b == has_prefix(s@, prefix@),
{
    if prefix.len() > s.len() {
        return false;
    }
    let mut i: usize = 0;
    while i < prefix.len()
        invariant
            prefix.len() <= s.len(),
            i <= prefix.len(),
            s@.take(i as int) == prefix@.take(i as int),
        decreases prefix.len() - i,
    {
        if s[i] != prefix[i] {
            assert(s@.take(prefix.len() as int)[i as int] != prefix@[i as int]);
            return false;
        }
        assert(s@.take(i + 1) =~= s@.take(i as int).push(s@[i as int]));
        assert(prefix@.take(i + 1) =~= prefix@.take(i as int).push(prefix@[i as int]));
        i = i + 1;
    }
    assert(prefix@.take(prefix.len() as int) =~= prefix@);
    true
}

/// The characters of `s` after the first `n`.
pub fn skip_chars(s: &Vec<char>, n: usize) -> (r: Vec<char>)
    requires
        n <= s.len(),
    ensures
        r@ == s@.skip(n as int),
{
    let mut r: Vec<char> = Vec::new();
    let mut i: usize = n;
    while i < s.len()
        invariant
            n <= i <= s.len(),
            r@ == s@.subrange(n as int, i as int),
        decreases s.len() - i,
    {
        r.push(s[i]);
        assert(s@.subrange(n as int, i + 1) =~= s@.subrange(n as int, i as int).push(s@[i as int]));
        i = i + 1;
    }
    assert(s@.subrange(n as int, s.len() as int) =~= s@.skip(n as int));
    r
}

/// Whether two character vectors hold the same characters.
pub fn same_chars(a: &Vec<char>, b: &Vec<char>) -> (r: bool)
    ensures
        r == (a@ == b@),
{
    if a.len() != b.len() {
        return false;
    }
    let r = starts_with_chars(a, b);
    assert(a@.take(b.len() as int) =~= a@);
    r
}

/// Whether two string slices hold the same text.
pub fn same_text(a: &str, b: &str) -> (r: bool)
    ensures
        r == (a@ == b@),
{
    same_chars(&chars_of(a), &chars_of(b))
}

/// What `s.get(k..)` gives: the text after the first `k` bytes, when byte
/// `k` starts a character (or ends the text).
pub open spec fn text_after_bytes(s: &str, k: int) -> Option<Seq<char>> {
    if is_char_boundary(s.spec_bytes(), k) {
        Some(decode_utf8(s.spec_bytes().subrange(k, s.spec_bytes().len() as int)))
    } else {
        None
    }
}

/// `s.get(k..)`: the text after the first `k` bytes, when that is a
/// character boundary.
pub fn after_bytes(s: &str, k: usize) -> (r: Option<String>)
    ensures
        match text_after_bytes(s, k as int) {
            Some(t) => r matches Some(u) && u@ == t,
            None => r is None,
        },
{
    broadcast use vstd::utf8::encode_utf8_decode_utf8;
    if s.is_char_boundary(k) {
        let (_, rest) = s.split_at(k);
        let out = rest.to_owned();
        assert(out@ == decode_utf8(rest.spec_bytes()));
        Some(out)
    } else {
        None
    }
}

/// `s` with every occurrence of `pattern` removed, matching from the left
/// without overlap (what `str::replace(pattern, "")` gives).
pub open spec fn removed_all(s: Seq<char>, pattern: Seq<char>) -> Seq<char>
    decreases s.len(),
{
    if s.len() == 0 {
        s
    } else if pattern.len() > 0 && has_prefix(s, pattern) {
        removed_all(s.skip(pattern.len() as int), pattern)
    } else {
        seq![s[0]] + removed_all(s.drop_first(), pattern)
    }
}

/// Whether `pattern` occurs in `s` at position `i`.
pub(crate) fn occurs_at(s: &Vec<char>, i: usize, pattern: &Vec<char>) -> (b: bool)
    requires
        i <= s.len(),
    ensures
        b == has_prefix(s@.skip(i as int), pattern@),
{
    if pattern.len() > s.len() - i {
        return false;
    }
    let mut k: usize = 0;
    while k < pattern.len()
        invariant
            i + pattern.len() <= s.len(),
            k <= pattern.len(),
            forall|j: int| 0 <= j < k ==> s@[i + j] == pattern@[j],
        decreases pattern.len() - k,
    {
        if s[i + k] != pattern[k] {
            assert(s@.skip(i as int).take(pattern.len() as int)[k as int] != pattern@[k as int]);
            return false;
        }
        k = k + 1;
    }
    assert(s@.skip(i as int).take(pattern.len() as int) =~= pattern@);
    true
}

/// Removes every occurrence of `pattern` from `s` (see [`removed_all`]).
pub fn remove_all(s: &str, pattern: &str) -> (r: String)
    ensures
        r@ == removed_all(s@, pattern@),
{
    let chars = chars_of(s);
    let pat = chars_of(pattern);
    let mut out: Vec<char> = Vec::new();
    let mut i: usize = 0;
    assert(chars@.skip(0) =~= chars@);
    while i < chars.len()
        invariant
            i <= chars.len(),
            chars@ == s@,
            pat@ == pattern@,
            out@ + removed_all(chars@.skip(i as int), pat@) == removed_all(chars@, pat@),
        decreases chars.len() - i,
    {
        let ghost rest = chars@.skip(i as int);
        if pat.len() > 0 && occurs_at(&chars, i, &pat) {
            assert(rest.skip(pat.len() as int) =~= chars@.skip(i + pat.len()));
            i = i + pat.len();
        } else {
            assert(rest.drop_first() =~= chars@.skip(i + 1));
            assert(rest[0] == chars@[i as int]);
            out.push(chars[i]);
            assert(out@ + removed_all(chars@.skip(i + 1), pat@) =~= out@.drop_last() + (seq![rest[0]] + removed_all(rest.drop_first(), pat@)));
            i = i + 1;
        }
    }
    assert(chars@.skip(i as int) =~= Seq::<char>::empty());
    assert(out@ + Seq::<char>::empty() =~= out@);
    string_of(&out)
}

/// Removal takes out every occurrence and nothing else: a text in which the
/// pattern does not occur is left as it is, and an occurrence at the start is
/// dropped with the rest handled the same way.
pub proof fn lemma_removed_all_laws(s: Seq<char>, pattern: Seq<char>)
    ensures
        !contains_text(s, pattern) ==> removed_all(s, pattern) == s,
        pattern.len() > 0 ==> removed_all(pattern + s, pattern) == removed_all(s, pattern),
    decreases s.len(),
{
    if pattern.len() > 0 {
        let w = pattern + s;
        assert(w.take(pattern.len() as int) =~= pattern);
        assert(w.skip(pattern.len() as int) =~= s);
    }
    if !contains_text(s, pattern) && s.len() > 0 {
        assert(!has_prefix(s.skip(0), pattern));
        assert(s.skip(0) =~= s);
        let tail = s.drop_first();
        assert forall|i: int| 0 <= i <= tail.len() implies !#[trigger] has_prefix(tail.skip(i), pattern) by {
            assert(tail.skip(i) =~= s.skip(i + 1));
            assert(!has_prefix(s.skip(i + 1), pattern));
        }
        lemma_removed_all_laws(tail, pattern);
        assert(seq![s[0]] + tail =~= s);
    } else if s.len() == 0 {
    }
}

/// `needle` occurs somewhere in `hay`.
pub open spec fn contains_text(hay: Seq<char>, needle: Seq<char>) -> bool {
    exists|i: int| 0 <= i <= hay.len() && #[trigger] has_prefix(hay.skip(i), needle)
}

/// Whether `needle` occurs in `hay` (`str::contains`).
pub fn text_contains(hay: &str, needle: &str) -> (b: bool)
    ensures
        b == contains_text(hay@, needle@),
{
    let h = chars_of(hay);
    let n = chars_of(needle);
    let mut i: usize = 0;
    while i < h.len()
        invariant
            i <= h.len(),
            h@ == hay@,
            n@ == needle@,
            forall|j: int| 0 <= j < i ==> !has_prefix(#[trigger] h@.skip(j), n@),
        decreases h.len() - i,
    {
        if occurs_at(&h, i, &n) {
            return true;
        }
        i = i + 1;
    }
    if occurs_at(&h, i, &n) {
        return true;
    }
    assert forall|j: int| 0 <= j <= h@.len() implies !#[trigger] has_prefix(h@.skip(j), n@) by {}
    false
}

proof fn lemma_encode_utf8_concat(a: Seq<char>, b: Seq<char>)
    ensures
        encode_utf8(a + b) == encode_utf8(a) + encode_utf8(b),
    decreases a.len(),
{
    if a.len() == 0 {
        assert(a + b =~= b);
        assert(encode_utf8(a) + encode_utf8(b) =~= encode_utf8(b));
    } else {
        assert((a + b).drop_first() =~= a.drop_first() + b);
        assert((a + b)[0] == a[0]);
        lemma_encode_utf8_concat(a.drop_first(), b);
        let head = vstd::utf8::encode_scalar(a[0] as u32);
        assert(head + (encode_utf8(a.drop_first()) + encode_utf8(b)) =~= (head + encode_utf8(
            a.drop_first(),
        )) + encode_utf8(b));
    }
}

/// Cutting the bytes of an ASCII prefix off a string leaves the rest of the
/// string.
pub proof fn lemma_text_after_ascii_prefix(s: &str, prefix: Seq<char>, rest: Seq<char>)
    requires
        s@ == prefix + rest,
        is_ascii_chars(prefix),
    ensures
        text_after_bytes(s, prefix.len() as int) == Some(rest),
{
    broadcast use vstd::utf8::encode_utf8_valid_utf8, vstd::utf8::encode_utf8_decode_utf8;

    let bytes = s.spec_bytes();
    lemma_encode_utf8_concat(prefix, rest);
    vstd::utf8::is_ascii_chars_encode_utf8(prefix);
    let k = prefix.len() as int;
    assert(encode_utf8(prefix).len() == k);
    assert(bytes.subrange(k, bytes.len() as int) =~= encode_utf8(rest));
    if rest.len() == 0 {
        assert(bytes.len() == k);
        vstd::utf8::is_char_boundary_start_end_of_seq(bytes);
    } else {
        vstd::utf8::encode_utf8_first_scalar(rest);
        assert(bytes[k] == encode_utf8(rest)[0]);
        vstd::utf8::is_char_boundary_iff_is_leading_byte(bytes, k);
    }
}

} // verus!
