//! Comparing identifiers: equality of text, and the order of text by its
//! UTF-8 bytes.

use std::borrow::Cow;
use vstd::prelude::*;
use vstd::utf8::{encode_utf8, encode_utf8_decode_utf8};

verus! {

/// Lexicographic order of byte strings: `a` comes before `b` when `a` is a
/// proper prefix of `b`, or when the first byte in which they differ is
/// smaller in `a`.
pub open spec fn bytes_lt(a: Seq<u8>, b: Seq<u8>) -> bool
    decreases a.len(),
{
    if b.len() == 0 {
        false
    } else if a.len() == 0 {
        true
    } else if a[0] != b[0] {
        a[0] < b[0]
    } else {
        bytes_lt(a.drop_first(), b.drop_first())
    }
}

/// The order of text: that of its UTF-8 bytes.
pub open spec fn text_lt(a: Seq<char>, b: Seq<char>) -> bool {
    bytes_lt(encode_utf8(a), encode_utf8(b))
}

/// The order of two byte strings is decided where they first part: given
/// that they agree in their first `k` bytes and part after them, `a` comes
/// before `b` exactly when `a` ends there and `b` goes on, or when both go
/// on and `a` goes on with the smaller byte.
pub proof fn lemma_bytes_lt_where_they_part(a: Seq<u8>, b: Seq<u8>, k: int)
    requires
        0 <= k <= a.len(),
        k <= b.len(),
        forall|i: int| 0 <= i < k ==> a[i] == b[i],
        k == a.len() || k == b.len() || a[k] != b[k],
    ensures
        bytes_lt(a, b) <==> k < b.len() && (k == a.len() || a[k] < b[k]),
    decreases k,
{
    if k > 0 {
        assert(a[0] == b[0]);
        lemma_bytes_lt_where_they_part(a.drop_first(), b.drop_first(), k - 1);
    }
}

/// No byte string comes before itself.
pub proof fn lemma_bytes_lt_irreflexive(a: Seq<u8>)
    ensures
        !bytes_lt(a, a),
    decreases a.len(),
{
    if a.len() > 0 {
        lemma_bytes_lt_irreflexive(a.drop_first());
    }
}

/// Of two different byte strings exactly one comes before the other.
pub proof fn lemma_bytes_lt_total(a: Seq<u8>, b: Seq<u8>)
    ensures
        a != b ==> (bytes_lt(a, b) <==> !bytes_lt(b, a)),
        a == b ==> !bytes_lt(a, b) && !bytes_lt(b, a),
    decreases a.len(),
{
    if a == b {
        lemma_bytes_lt_irreflexive(a);
    } else if a.len() > 0 && b.len() > 0 && a[0] == b[0] {
        lemma_bytes_lt_total(a.drop_first(), b.drop_first());
        if a.drop_first() == b.drop_first() {
            assert(a =~= seq![a[0]] + a.drop_first());
            assert(b =~= seq![b[0]] + b.drop_first());
        }
    } else if a.len() == 0 && b.len() == 0 {
        assert(a =~= b);
    }
}

/// The order of byte strings is transitive.
pub proof fn lemma_bytes_lt_transitive(a: Seq<u8>, b: Seq<u8>, c: Seq<u8>)
    requires
        bytes_lt(a, b),
        bytes_lt(b, c),
    ensures
        bytes_lt(a, c),
    decreases a.len(),
{
    if a.len() > 0 && a[0] == b[0] && b[0] == c[0] {
        lemma_bytes_lt_transitive(a.drop_first(), b.drop_first(), c.drop_first());
    }
}

/// Different texts have different UTF-8 bytes.
pub proof fn lemma_encoding_injective(a: Seq<char>, b: Seq<char>)
    ensures
        encode_utf8(a) == encode_utf8(b) <==> a == b,
{
    encode_utf8_decode_utf8(a);
    encode_utf8_decode_utf8(b);
}

/// Of two different texts exactly one comes before the other, and no text
/// comes before itself.
pub proof fn lemma_text_lt_total(a: Seq<char>, b: Seq<char>)
    ensures
        a != b ==> (text_lt(a, b) <==> !text_lt(b, a)),
        a == b ==> !text_lt(a, b) && !text_lt(b, a),
{
    lemma_encoding_injective(a, b);
    lemma_bytes_lt_total(encode_utf8(a), encode_utf8(b));
}

/// The order of text is transitive.
pub proof fn lemma_text_lt_transitive(a: Seq<char>, b: Seq<char>, c: Seq<char>)
    requires
        text_lt(a, b),
        text_lt(b, c),
    ensures
        text_lt(a, c),
{
    lemma_bytes_lt_transitive(encode_utf8(a), encode_utf8(b), encode_utf8(c));
}

/// Tells whether two strings hold the same text.
pub fn same_text(a: &str, b: &str) -> (equal: bool)
    ensures
        equal == (a@ == b@),
{
    let x = a.as_bytes();
    let y = b.as_bytes();
    proof {
        lemma_encoding_injective(a@, b@);
    }
    if x.len() != y.len() {
        return false;
    }
    let mut i: usize = 0;
    while i < x.len()
        invariant
            i <= x.len(),
            x.len() == y.len(),
            x@ == encode_utf8(a@),
            y@ == encode_utf8(b@),
            encode_utf8(a@) == encode_utf8(b@) <==> a@ == b@,
            forall|j: int| 0 <= j < i ==> x@[j] == y@[j],
        decreases x.len() - i,
    {
        if x[i] != y[i] {
            return false;
        }
        i += 1;
    }
    assert(x@ =~= y@);
    true
}

/// Tells whether the text of `a` comes before the text of `b`.
pub fn text_before(a: &str, b: &str) -> (before: bool)
    ensures
        before == text_lt(a@, b@),
{
    let x = a.as_bytes();
    let y = b.as_bytes();
    let mut i: usize = 0;
    while i < x.len() && i < y.len()
        invariant
            i <= x.len(),
            i <= y.len(),
            x@ == encode_utf8(a@),
            y@ == encode_utf8(b@),
            forall|j: int| 0 <= j < i ==> x@[j] == y@[j],
        decreases x.len() - i,
    {
        if x[i] != y[i] {
            proof {
                lemma_bytes_lt_where_they_part(x@, y@, i as int);
            }
            return x[i] < y[i];
        }
        i += 1;
    }
    proof {
        lemma_bytes_lt_where_they_part(x@, y@, i as int);
    }
    i < y.len()
}

/// The text of a string field, borrowed, whether the field owns its text or
/// refers to text that outlives it.
pub fn text_of<'a>(text: &'a Cow<'static, str>) -> (slice: &'a str)
    ensures
        slice@ == text@,
{
    match text {
        Cow::Borrowed(borrowed) => borrowed,
        Cow::Owned(owned) => owned.as_str(),
    }
}

/// The empty text. It refers to text of the program itself, so making it
/// allocates nothing.
pub fn empty_text() -> (text: Cow<'static, str>)
    ensures
        text@ == Seq::<char>::empty(),
{
    proof {
        reveal_strlit("");
    }
    let text = Cow::Borrowed("");
    assert(text@ =~= Seq::<char>::empty());
    text
}

/// A second string field with the same text: it refers to the same text
/// where `text` refers to some, and owns a copy where `text` owns its own.
pub fn duplicate_text(text: &Cow<'static, str>) -> (copy: Cow<'static, str>)
    ensures
        copy@ == text@,
{
    match text {
        Cow::Borrowed(borrowed) => Cow::Borrowed(*borrowed),
        Cow::Owned(owned) => Cow::Owned(owned.clone()),
    }
}

/// What a run of string fields holds: the text of each, in order.
pub open spec fn texts_view(texts: Seq<Cow<'static, str>>) -> Seq<Seq<char>> {
    Seq::new(texts.len(), |i: int| texts[i]@)
}

/// Tells whether two arrays of string fields hold the same text in every
/// place.
pub fn same_texts<const N: usize>(
    a: &[Cow<'static, str>; N],
    b: &[Cow<'static, str>; N],
) -> (equal: bool)
    ensures
        equal == (texts_view(a@) == texts_view(b@)),
{
    let mut i: usize = 0;
    while i < N
        invariant
            i <= N,
            forall|j: int| 0 <= j < i ==> texts_view(a@)[j] == texts_view(b@)[j],
        decreases N - i,
    {
        if !same_text(text_of(&a[i]), text_of(&b[i])) {
            assert(texts_view(a@)[i as int] != texts_view(b@)[i as int]);
            return false;
        }
        i += 1;
    }
    assert(texts_view(a@) =~= texts_view(b@));
    true
}

} // verus!
