//! The order in which string keys are kept: lexicographic over UTF-8 bytes.

use vstd::prelude::*;
use vstd::string::*;
use vstd::utf8::*;

verus! {

/// How one key lies relative to another.
#[derive(Clone, Copy, Debug, PartialEq, Eq, Structural)]
pub enum KeyOrder {
    Before,
    Same,
    After,
}

/// `a` and `b` agree on their first `n` bytes and `a` is the smaller one from there on: it
/// ends while `b` goes on, or its next byte is smaller.
pub open spec fn diverges_at(a: Seq<u8>, b: Seq<u8>, n: int) -> bool {
    &&& 0 <= n <= a.len()
    &&& n < b.len()
    &&& forall|i: int| 0 <= i < n ==> #[trigger] a[i] == b[i]
    &&& n == a.len() || a[n] < b[n]
}

/// Strict lexicographic order on byte strings.
pub open spec fn bytes_before(a: Seq<u8>, b: Seq<u8>) -> bool {
    exists|n: int| diverges_at(a, b, n)
}

/// Strict order on strings, by the bytes of their UTF-8 encoding.
pub open spec fn text_before(a: Seq<char>, b: Seq<char>) -> bool {
    bytes_before(encode_utf8(a), encode_utf8(b))
}

proof fn bytes_before_transitive(a: Seq<u8>, b: Seq<u8>, c: Seq<u8>)
    requires
        bytes_before(a, b),
        bytes_before(b, c),
    ensures
        bytes_before(a, c),
{
    let m = choose|n: int| diverges_at(a, b, n);
    let n = choose|n: int| diverges_at(b, c, n);
    let least = if m <= n { m } else { n };
    assert forall|i: int| 0 <= i < least implies #[trigger] a[i] == c[i] by {
        assert(a[i] == b[i]);
        assert(b[i] == c[i]);
    }
    assert(diverges_at(a, c, least));
}

/// Two strings with the same UTF-8 encoding are the same string.
proof fn encoding_is_injective(a: Seq<char>, b: Seq<char>)
    requires
        encode_utf8(a) == encode_utf8(b),
    ensures
        a == b,
{
    encode_utf8_decode_utf8(a);
    encode_utf8_decode_utf8(b);
}

/// No string lies before itself.
pub proof fn text_before_irreflexive(a: Seq<char>)
    ensures
        !text_before(a, a),
{
}

/// The order on strings is transitive.
pub proof fn text_before_transitive(a: Seq<char>, b: Seq<char>, c: Seq<char>)
    requires
        text_before(a, b),
        text_before(b, c),
    ensures
        text_before(a, c),
{
    bytes_before_transitive(encode_utf8(a), encode_utf8(b), encode_utf8(c));
}

/// Orders two strings by their UTF-8 bytes.
pub fn order_text(a: &str, b: &str) -> (order: KeyOrder)
    ensures
        order == KeyOrder::Before <==> text_before(a@, b@),
        order == KeyOrder::After <==> text_before(b@, a@),
        order == KeyOrder::Same <==> a@ == b@,
{
    let left = a.as_bytes();
    let right = b.as_bytes();
    proof {
        text_before_irreflexive(a@);
        if text_before(a@, b@) && text_before(b@, a@) {
            text_before_transitive(a@, b@, a@);
        }
    }
    let mut at: usize = 0;
    while at < left.len() && at < right.len()
        invariant
            left@ == encode_utf8(a@),
            right@ == encode_utf8(b@),
            at <= left@.len(),
            at <= right@.len(),
            forall|i: int| 0 <= i < at ==> #[trigger] left@[i] == right@[i],
            !text_before(a@, a@),
            !(text_before(a@, b@) && text_before(b@, a@)),
        decreases left@.len() - at,
    {
        if left[at] < right[at] {
            assert(diverges_at(left@, right@, at as int));
            return KeyOrder::Before;
        }
        if left[at] > right[at] {
            assert(diverges_at(right@, left@, at as int));
            return KeyOrder::After;
        }
        at = at + 1;
    }
    if at < right.len() {
        assert(diverges_at(left@, right@, at as int));
        KeyOrder::Before
    } else if at < left.len() {
        assert(diverges_at(right@, left@, at as int));
        KeyOrder::After
    } else {
        assert(left@ =~= right@);
        proof {
            encoding_is_injective(a@, b@);
        }
        KeyOrder::Same
    }
}

/// A type whose values can key an [`crate::ordmap::OrdMap`]: its views are strictly
/// ordered, and any two can be told apart by that order.
pub trait MapKey: View + Sized {
    /// `a` comes strictly before `b`.
    spec fn before(a: Self::V, b: Self::V) -> bool;

    proof fn before_irreflexive(a: Self::V)
        ensures
            !Self::before(a, a),
    ;

    proof fn before_transitive(a: Self::V, b: Self::V, c: Self::V)
        requires
            Self::before(a, b),
            Self::before(b, c),
        ensures
            Self::before(a, c),
    ;

    /// How this key lies relative to `other`.
    fn order(&self, other: &Self) -> (order: KeyOrder)
        ensures
            order == KeyOrder::Before <==> Self::before(self@, other@),
            order == KeyOrder::After <==> Self::before(other@, self@),
            order == KeyOrder::Same <==> self@ == other@,
    ;
}

impl MapKey for String {
    open spec fn before(a: Seq<char>, b: Seq<char>) -> bool {
        text_before(a, b)
    }

    proof fn before_irreflexive(a: Seq<char>) {
        text_before_irreflexive(a);
    }

    proof fn before_transitive(a: Seq<char>, b: Seq<char>, c: Seq<char>) {
        text_before_transitive(a, b, c);
    }

    fn order(&self, other: &String) -> (order: KeyOrder) {
        order_text(self.as_str(), other.as_str())
    }
}

/// The first byte in which two strings differ decides between them.
pub proof fn first_difference_decides(
    a: Seq<char>,
    b: Seq<char>,
    common: Seq<u8>,
    x: u8,
    y: u8,
    s: Seq<u8>,
    t: Seq<u8>,
)
    requires
        encode_utf8(a) == common + seq![x] + s,
        encode_utf8(b) == common + seq![y] + t,
        x < y,
    ensures
        text_before(a, b),
        !text_before(b, a),
{
    let n = common.len() as int;
    let left = encode_utf8(a);
    let right = encode_utf8(b);
    assert(left[n] == x && right[n] == y);
    assert forall|i: int| 0 <= i < n implies #[trigger] left[i] == right[i] by {
        assert(left[i] == common[i]);
        assert(right[i] == common[i]);
    }
    assert(diverges_at(left, right, n));
    if text_before(b, a) {
        text_before_transitive(a, b, a);
    }
}

/// A string lies before every longer one that begins with it.
pub proof fn beginning_lies_before(a: Seq<char>, b: Seq<char>, rest: Seq<u8>)
    requires
        encode_utf8(b) == encode_utf8(a) + rest,
        rest.len() > 0,
    ensures
        text_before(a, b),
        !text_before(b, a),
{
    assert(diverges_at(encode_utf8(a), encode_utf8(b), encode_utf8(a).len() as int));
    if text_before(b, a) {
        text_before_transitive(a, b, a);
    }
}

proof fn bytes_are_ordered(a: Seq<u8>, b: Seq<u8>, n: int)
    requires
        0 <= n <= a.len(),
        n <= b.len(),
        forall|i: int| 0 <= i < n ==> #[trigger] a[i] == b[i],
    ensures
        a == b || bytes_before(a, b) || bytes_before(b, a),
    decreases a.len() - n,
{
    if n == a.len() && n == b.len() {
        assert(a =~= b);
    } else if n == a.len() {
        assert(diverges_at(a, b, n));
    } else if n == b.len() {
        assert(diverges_at(b, a, n));
    } else if a[n] < b[n] {
        assert(diverges_at(a, b, n));
    } else if b[n] < a[n] {
        assert(diverges_at(b, a, n));
    } else {
        bytes_are_ordered(a, b, n + 1);
    }
}

/// Of two different strings exactly one lies before the other.
pub proof fn different_strings_are_ordered(a: Seq<char>, b: Seq<char>)
    requires
        a != b,
    ensures
        text_before(a, b) <==> !text_before(b, a),
{
    bytes_are_ordered(encode_utf8(a), encode_utf8(b), 0);
    if encode_utf8(a) == encode_utf8(b) {
        encoding_is_injective(a, b);
    }
    if text_before(a, b) && text_before(b, a) {
        text_before_transitive(a, b, a);
    }
}

} // verus!
