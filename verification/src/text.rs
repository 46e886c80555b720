//! Strings as keys: the byte order of their UTF-8 encodings, and the
//! canonical form of a URL.

use vstd::prelude::*;
use vstd::string::{StrSliceExecFns, StringSliceAdditionalSpecFns};
use vstd::utf8::{encode_utf8, encode_utf8_decode_utf8};

verus! {

/// How one key stands to another in the key order.
#[derive(Clone, Copy, Debug, PartialEq, Eq, Structural)]
pub enum KeyOrder {
    Before,
    Same,
    After,
}

/// The two byte sequences agree on their first `n` bytes.
pub open spec fn agree_before(a: Seq<u8>, b: Seq<u8>, n: int) -> bool {
    &&& 0 <= n <= a.len()
    &&& n <= b.len()
    &&& forall|j: int| 0 <= j < n ==> a[j] == b[j]
}

/// Lexicographic order on byte sequences: `a` is a proper prefix of `b`, or
/// `a` has the smaller byte at the first place where the two differ.
pub open spec fn bytes_lt(a: Seq<u8>, b: Seq<u8>) -> bool {
    exists|n: int| #[trigger]
        agree_before(a, b, n) && n < b.len() && (n == a.len() || a[n] < b[n])
}

/// The order of keys: the lexicographic order of their UTF-8 encodings.
pub open spec fn key_lt(a: Seq<char>, b: Seq<char>) -> bool {
    bytes_lt(encode_utf8(a), encode_utf8(b))
}

/// The byte order is transitive.
pub proof fn lemma_bytes_lt_transitive(a: Seq<u8>, b: Seq<u8>, c: Seq<u8>)
    requires
        bytes_lt(a, b),
        bytes_lt(b, c),
    ensures
        bytes_lt(a, c),
{
    let i = choose|n: int| #[trigger]
        agree_before(a, b, n) && n < b.len() && (n == a.len() || a[n] < b[n]);
    let j = choose|n: int| #[trigger]
        agree_before(b, c, n) && n < c.len() && (n == b.len() || b[n] < c[n]);
    let k = if i <= j { i } else { j };
    assert(agree_before(a, c, k));
}

/// Two keys with the same UTF-8 encoding are the same key.
pub proof fn lemma_encoding_injective(a: Seq<char>, b: Seq<char>)
    requires
        encode_utf8(a) == encode_utf8(b),
    ensures
        a == b,
{
    encode_utf8_decode_utf8(a);
    encode_utf8_decode_utf8(b);
}

/// No key stands before itself.
pub proof fn lemma_key_lt_irreflexive(a: Seq<char>)
    ensures
        !key_lt(a, a),
{
}

/// The key order is transitive.
pub proof fn lemma_key_lt_transitive(a: Seq<char>, b: Seq<char>, c: Seq<char>)
    requires
        key_lt(a, b),
        key_lt(b, c),
    ensures
        key_lt(a, c),
{
    lemma_bytes_lt_transitive(encode_utf8(a), encode_utf8(b), encode_utf8(c));
}

/// Of two different keys, one stands before the other.
pub proof fn lemma_key_lt_total(a: Seq<char>, b: Seq<char>)
    ensures
        a == b || key_lt(a, b) || key_lt(b, a),
{
    let x = encode_utf8(a);
    let y = encode_utf8(b);
    if x == y {
        lemma_encoding_injective(a, b);
    } else {
        lemma_bytes_differ(x, y);
    }
}

/// Two different byte sequences are ordered one way or the other.
proof fn lemma_bytes_differ(x: Seq<u8>, y: Seq<u8>)
    requires
        x != y,
    ensures
        bytes_lt(x, y) || bytes_lt(y, x),
{
    let n = first_difference(x, y, 0);
    lemma_first_difference(x, y, 0);
    assert(agree_before(x, y, n));
    assert(agree_before(y, x, n));
    if n == x.len() && n == y.len() {
        assert(x =~= y);
    }
}

/// The first index from `from` on at which the two sequences differ, or the
/// length of the shorter one.
spec fn first_difference(x: Seq<u8>, y: Seq<u8>, from: int) -> int
    decreases x.len() - from,
{
    if 0 <= from < x.len() && from < y.len() && x[from] == y[from] {
        first_difference(x, y, from + 1)
    } else {
        from
    }
}

/// Up to their first difference the two sequences agree, and there they
/// differ unless one of them ends.
proof fn lemma_first_difference(x: Seq<u8>, y: Seq<u8>, from: int)
    requires
        agree_before(x, y, from),
    ensures
        agree_before(x, y, first_difference(x, y, from)),
        first_difference(x, y, from) == x.len() || first_difference(x, y, from) == y.len()
            || x[first_difference(x, y, from)] != y[first_difference(x, y, from)],
    decreases x.len() - from,
{
    if from < x.len() && from < y.len() && x[from] == y[from] {
        lemma_first_difference(x, y, from + 1);
    }
}

/// Compares two strings in the key order.
pub fn compare(a: &str, b: &str) -> (r: KeyOrder)
    ensures
        r == KeyOrder::Before <==> key_lt(a@, b@),
        r == KeyOrder::Same <==> a@ == b@,
        r == KeyOrder::After <==> key_lt(b@, a@),
{
    let x = a.as_bytes();
    let y = b.as_bytes();
    let mut i: usize = 0;
    while i < x.len() && i < y.len() && x[i] == y[i]
        invariant
            agree_before(x@, y@, i as int),
        decreases x.len() - i,
    {
        i += 1;
    }
    proof {
        assert(agree_before(y@, x@, i as int));
        if i == x.len() && i == y.len() {
            assert(x@ =~= y@);
        }
        if x@ == y@ {
            lemma_encoding_injective(a@, b@);
        }
        lemma_key_lt_irreflexive(a@);
        if key_lt(a@, b@) && key_lt(b@, a@) {
            lemma_key_lt_transitive(a@, b@, a@);
        }
    }
    if i == x.len() && i == y.len() {
        KeyOrder::Same
    } else if i == x.len() {
        KeyOrder::Before
    } else if i == y.len() {
        KeyOrder::After
    } else if x[i] < y[i] {
        KeyOrder::Before
    } else {
        KeyOrder::After
    }
}

/// Whether two strings are the same sequence of characters.
pub fn same_text(a: &str, b: &str) -> (r: bool)
    ensures
        r == (a@ == b@),
{
    match compare(a, b) {
        KeyOrder::Same => true,
        _ => false,
    }
}

/// The canonical form of a URL: the URL without the slashes at its end.
/// Nothing else is changed; letter case and scheme stay as they are.
pub open spec fn canonical_url(url: Seq<char>) -> Seq<char>
    decreases url.len(),
{
    if url.len() > 0 && url.last() == '/' {
        canonical_url(url.drop_last())
    } else {
        url
    }
}

/// The canonical form is the longest prefix that does not end in a slash:
/// it is a prefix, it does not end in a slash, and all that was cut is
/// slashes.
pub proof fn lemma_canonical_url_is_longest_prefix(url: Seq<char>)
    ensures
        canonical_url(url).len() <= url.len(),
        canonical_url(url) == url.subrange(0, canonical_url(url).len() as int),
        canonical_url(url).len() > 0 ==> canonical_url(url).last() != '/',
        forall|i: int| canonical_url(url).len() <= i < url.len() ==> url[i] == '/',
    decreases url.len(),
{
    if url.len() > 0 && url.last() == '/' {
        let shorter = url.drop_last();
        lemma_canonical_url_is_longest_prefix(shorter);
        let n = canonical_url(shorter).len() as int;
        assert(shorter.subrange(0, n) =~= url.subrange(0, n));
        assert forall|i: int| n <= i < url.len() implies url[i] == '/' by {
            if i < shorter.len() {
                assert(shorter[i] == url[i]);
            }
        }
    } else {
        assert(url =~= url.subrange(0, url.len() as int));
    }
}

/// A URL that does not end in a slash is its own canonical form.
pub proof fn lemma_canonical_url_keeps_the_rest(url: Seq<char>)
    requires
        url.len() == 0 || url.last() != '/',
    ensures
        canonical_url(url) == url,
{
}

/// A slash more at the end does not change the canonical form.
pub proof fn lemma_canonical_url_ignores_trailing_slash(url: Seq<char>)
    ensures
        canonical_url(url.push('/')) == canonical_url(url),
{
    assert(url.push('/').drop_last() =~= url);
}

/// The canonical form of a canonical form is that form.
pub proof fn lemma_canonical_url_idempotent(url: Seq<char>)
    ensures
        canonical_url(canonical_url(url)) == canonical_url(url),
    decreases url.len(),
{
    if url.len() > 0 && url.last() == '/' {
        lemma_canonical_url_idempotent(url.drop_last());
    }
}

/// The URL without the slashes at its end.
pub fn canonicalize_url(url: &str) -> (r: &str)
    ensures
        r@ == canonical_url(url@),
{
    let mut end: usize = url.unicode_len();
    assert(url@.subrange(0, end as int) =~= url@);
    while end > 0 && url.get_char(end - 1) == '/'
        invariant
            end <= url@.len(),
            canonical_url(url@) == canonical_url(url@.subrange(0, end as int)),
        decreases end,
    {
        proof {
            let kept = url@.subrange(0, end as int);
            assert(kept.last() == url@[end - 1]);
            assert(kept.drop_last() =~= url@.subrange(0, end - 1));
        }
        end -= 1;
    }
    proof {
        let kept = url@.subrange(0, end as int);
        if end > 0 {
            assert(kept.last() == url@[end - 1]);
        }
    }
    url.substring_char(0, end)
}

} // verus!
