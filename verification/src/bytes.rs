//! Byte-string helpers: copies and comparisons with exact view contracts.
//!
//! The harness stores every piece of guest-visible text as plain bytes, so
//! these small helpers carry the equality and copying steps the engine needs.

use vstd::prelude::*;
use vstd::string::StringSliceAdditionalSpecFns;
use vstd::string::StrSliceExecFns;

verus! {

/// Copy a byte string.
pub fn bytes_clone(a: &Vec<u8>) -> (r: Vec<u8>)
    ensures
        r@ == a@,
{
    let mut r: Vec<u8> = Vec::new();
    let mut i: usize = 0;
    while i < a.len()
        invariant
            i <= a@.len(),
            r@ == a@.take(i as int),
        decreases a@.len() - i,
    {
        r.push(a[i]);
        proof {
            assert(r@ =~= a@.take(i + 1 as int));
        }
        i += 1;
    }
    proof {
        assert(a@.take(a@.len() as int) =~= a@);
    }
    r
}

/// Copy an optional byte string.
pub fn opt_bytes_clone(a: &Option<Vec<u8>>) -> (r: Option<Vec<u8>>)
    ensures
        r.deep_view() == a.deep_view(),
{
    match a {
        Some(b) => {
            let r = bytes_clone(b);
            proof {
                assert(r.deep_view() =~= r@);
                assert(b.deep_view() =~= b@);
            }
            Some(r)
        },
        None => None,
    }
}

/// Copy an ordered list of byte pairs.
pub fn pairs_clone(pairs: &Vec<(Vec<u8>, Vec<u8>)>) -> (r: Vec<(Vec<u8>, Vec<u8>)>)
    ensures
        r.deep_view() == pairs.deep_view(),
{
    let mut r: Vec<(Vec<u8>, Vec<u8>)> = Vec::new();
    let mut i: usize = 0;
    while i < pairs.len()
        invariant
            i <= pairs@.len(),
            r.deep_view() == pairs.deep_view().take(i as int),
        decreases pairs@.len() - i,
    {
        let key = bytes_clone(&pairs[i].0);
        let value = bytes_clone(&pairs[i].1);
        let ghost prev = r.deep_view();
        r.push((key, value));
        proof {
            assert(r.deep_view() =~~= prev.push((key@, value@)));
            assert(pairs.deep_view()[i as int] == (pairs@[i as int].0@, pairs@[i as int].1@));
            assert(r.deep_view() =~~= pairs.deep_view().take(i + 1 as int));
        }
        i += 1;
    }
    proof {
        assert(pairs.deep_view().take(pairs@.len() as int) =~= pairs.deep_view());
    }
    r
}

/// Whether two byte strings hold the same bytes.
pub fn bytes_eq(a: &Vec<u8>, b: &Vec<u8>) -> (r: bool)
    ensures
        r == (a@ == b@),
{
    if a.len() != b.len() {
        return false;
    }
    let mut i: usize = 0;
    while i < a.len()
        invariant
            i <= a@.len(),
            a@.len() == b@.len(),
            forall|j: int| 0 <= j < i ==> a@[j] == b@[j],
        decreases a@.len() - i,
    {
        if a[i] != b[i] {
            return false;
        }
        i += 1;
    }
    proof {
        assert(a@ =~= b@);
    }
    true
}

/// Whether two optional byte strings are equal.
pub fn opt_bytes_eq(a: &Option<Vec<u8>>, b: &Option<Vec<u8>>) -> (r: bool)
    ensures
        r == (a.deep_view() == b.deep_view()),
{
    match (a, b) {
        (Some(x), Some(y)) => {
            proof {
                assert(x.deep_view() =~= x@);
                assert(y.deep_view() =~= y@);
            }
            bytes_eq(x, y)
        },
        (None, None) => true,
        _ => false,
    }
}

/// Whether two ordered lists of byte pairs are equal.
pub fn pairs_eq(a: &Vec<(Vec<u8>, Vec<u8>)>, b: &Vec<(Vec<u8>, Vec<u8>)>) -> (r: bool)
    ensures
        r == (a.deep_view() == b.deep_view()),
{
    if a.len() != b.len() {
        proof {
            assert(a.deep_view().len() == a@.len());
            assert(b.deep_view().len() == b@.len());
        }
        return false;
    }
    let mut i: usize = 0;
    while i < a.len()
        invariant
            i <= a@.len(),
            a@.len() == b@.len(),
            forall|j: int| 0 <= j < i ==> a.deep_view()[j] == b.deep_view()[j],
        decreases a@.len() - i,
    {
        let key_same = bytes_eq(&a[i].0, &b[i].0);
        let value_same = bytes_eq(&a[i].1, &b[i].1);
        if !key_same || !value_same {
            proof {
                assert(a.deep_view()[i as int] == (a@[i as int].0@, a@[i as int].1@));
                assert(b.deep_view()[i as int] == (b@[i as int].0@, b@[i as int].1@));
            }
            return false;
        }
        proof {
            assert(a.deep_view()[i as int] == (a@[i as int].0@, a@[i as int].1@));
            assert(b.deep_view()[i as int] == (b@[i as int].0@, b@[i as int].1@));
        }
        i += 1;
    }
    proof {
        assert(a.deep_view() =~= b.deep_view());
    }
    true
}

/// The bytes of a text fragment, as a fresh vector.
pub fn text_bytes(text: &str) -> (r: Vec<u8>)
    ensures
        r@ == text.spec_bytes(),
{
    text.as_bytes_vec()
}

/// The bytes of a list of text pairs, pair by pair, keeping order.
pub open spec fn spec_text_pairs(pairs: Seq<(&str, &str)>) -> Seq<(Seq<u8>, Seq<u8>)> {
    Seq::new(pairs.len(), |i: int| (pairs[i].0.spec_bytes(), pairs[i].1.spec_bytes()))
}

/// Convert a list of text pairs into byte pairs, keeping order.
pub fn text_pairs(pairs: &Vec<(&str, &str)>) -> (r: Vec<(Vec<u8>, Vec<u8>)>)
    ensures
        r.deep_view().len() == pairs@.len(),
        forall|i: int|
            0 <= i < pairs@.len() ==> #[trigger] r.deep_view()[i] == (
                pairs@[i].0.spec_bytes(),
                pairs@[i].1.spec_bytes(),
            ),
{
    let mut r: Vec<(Vec<u8>, Vec<u8>)> = Vec::new();
    let mut i: usize = 0;
    while i < pairs.len()
        invariant
            i <= pairs@.len(),
            r.deep_view().len() == i,
            forall|j: int|
                0 <= j < i ==> #[trigger] r.deep_view()[j] == (
                    pairs@[j].0.spec_bytes(),
                    pairs@[j].1.spec_bytes(),
                ),
        decreases pairs@.len() - i,
    {
        let key = text_bytes(pairs[i].0);
        let value = text_bytes(pairs[i].1);
        let ghost prev = r.deep_view();
        r.push((key, value));
        proof {
            assert(r.deep_view() =~~= prev.push((key@, value@)));
        }
        i += 1;
    }
    r
}

} // verus!
