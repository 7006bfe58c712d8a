//! Validity of raw secp256k1 secret keys.
use vstd::prelude::*;

verus! {

/// The order of the secp256k1 group, as 32 big-endian bytes.
pub open spec fn group_order() -> Seq<u8> {
    seq![
        0xffu8, 0xff, 0xff, 0xff, 0xff, 0xff, 0xff, 0xff,
        0xff, 0xff, 0xff, 0xff, 0xff, 0xff, 0xff, 0xfe,
        0xba, 0xae, 0xdc, 0xe6, 0xaf, 0x48, 0xa0, 0x3b,
        0xbf, 0xd2, 0x5e, 0x8c, 0xd0, 0x36, 0x41, 0x41,
    ]
}

/// Whether `a` comes before `b` in lexicographic order, which for big-endian
/// byte strings of one length is numeric order.
pub open spec fn lex_below(a: Seq<u8>, b: Seq<u8>) -> bool {
    exists|i: int|
        0 <= i < a.len() && i < b.len() && a.subrange(0, i) == b.subrange(0, i) && #[trigger] a[i]
            < b[i]
}

/// A secret key is valid when, read as a big-endian number, it is neither zero
/// nor at least the group order.
pub open spec fn valid_secret_key(k: Seq<u8>) -> bool {
    &&& k.len() == 32
    &&& exists|i: int| 0 <= i < k.len() && #[trigger] k[i] != 0
    &&& lex_below(k, group_order())
}

/// Whether `key` is a valid secp256k1 secret key.
pub fn is_valid_secret_key(key: &[u8; 32]) -> (r: bool)
    ensures
        r == valid_secret_key(key@),
{
    let order: [u8; 32] = [
        0xff, 0xff, 0xff, 0xff, 0xff, 0xff, 0xff, 0xff,
        0xff, 0xff, 0xff, 0xff, 0xff, 0xff, 0xff, 0xfe,
        0xba, 0xae, 0xdc, 0xe6, 0xaf, 0x48, 0xa0, 0x3b,
        0xbf, 0xd2, 0x5e, 0x8c, 0xd0, 0x36, 0x41, 0x41,
    ];
    assert(order@ =~= group_order());
    let mut nonzero = false;
    let mut i: usize = 0;
    while i < 32
        invariant
            0 <= i <= 32,
            key@.len() == 32,
            nonzero == exists|j: int| 0 <= j < i && #[trigger] key@[j] != 0,
        decreases 32 - i,
    {
        if key[i] != 0 {
            nonzero = true;
        }
        i = i + 1;
    }
    if !nonzero {
        return false;
    }
    let mut i: usize = 0;
    while i < 32
        invariant
            0 <= i <= 32,
            key@.len() == 32,
            order@ == group_order(),
            exists|j: int| 0 <= j < 32 && #[trigger] key@[j] != 0,
            key@.subrange(0, i as int) == order@.subrange(0, i as int),
        decreases 32 - i,
    {
        if key[i] < order[i] {
            assert(key@.subrange(0, i as int) == group_order().subrange(0, i as int)
                && key@[i as int] < group_order()[i as int]);
            return true;
        }
        if key[i] > order[i] {
            assert forall|j: int| 0 <= j < 32 && key@.subrange(0, j) == group_order().subrange(0, j)
                implies !(key@[j] < group_order()[j]) by {
                if j > i {
                    assert(key@.subrange(0, j)[i as int] == group_order().subrange(0, j)[i as int]);
                } else if j < i {
                    assert(key@.subrange(0, i as int)[j] == order@.subrange(0, i as int)[j]);
                }
            }
            return false;
        }
        assert(key@.subrange(0, i + 1) =~= order@.subrange(0, i + 1));
        i = i + 1;
    }
    assert(key@ =~= key@.subrange(0, 32));
    assert(order@ =~= order@.subrange(0, 32));
    assert forall|j: int| 0 <= j < 32 && key@.subrange(0, j) == group_order().subrange(0, j)
        implies !(key@[j] < group_order()[j]) by {}
    false
}

} // verus!
