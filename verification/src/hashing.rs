//! The digest of a sequence of keys, by which a keyed-in PIN is compared with
//! the one a card carries.

use crate::atm::Key;
use std::collections::hash_map::DefaultHasher;
use std::hash::Hasher;
use vstd::prelude::*;
use vstd::std_specs::hash::DefaultHasherAdditionalSpecFns;

verus! {

/// The byte that stands for a key when a sequence of keys is digested.
pub open spec fn key_byte(key: Key) -> u8 {
    match key {
        Key::One => 1,
        Key::Two => 2,
        Key::Three => 3,
        Key::Four => 4,
        Key::Enter => 5,
    }
}

/// The bytes that are digested for a sequence of keys: one byte per key, in
/// the order in which the keys were pressed.
pub open spec fn key_bytes(keys: Seq<Key>) -> Seq<u8> {
    Seq::new(keys.len(), |i: int| key_byte(keys[i]))
}

/// The digest of a sequence of keys: what the standard hasher returns after
/// one write of [`key_bytes`].
pub open spec fn spec_hash(keys: Seq<Key>) -> u64 {
    DefaultHasher::spec_finish(seq![key_bytes(keys)])
}

/// Different sequences of keys are digested from different bytes, so two
/// sequences can share a digest only where the hasher itself collides.
pub proof fn key_bytes_injective(a: Seq<Key>, b: Seq<Key>)
    requires
        key_bytes(a) == key_bytes(b),
    ensures
        a == b,
{
    assert(a.len() == key_bytes(a).len());
    assert(b.len() == key_bytes(b).len());
    assert forall|i: int| 0 <= i < a.len() implies a[i] == b[i] by {
        assert(key_bytes(a)[i] == key_byte(a[i]));
        assert(key_bytes(b)[i] == key_byte(b[i]));
    }
    assert(a =~= b);
}

fn byte_of(key: Key) -> (byte: u8)
    ensures
        byte == key_byte(key),
{
    match key {
        Key::One => 1,
        Key::Two => 2,
        Key::Three => 3,
        Key::Four => 4,
        Key::Enter => 5,
    }
}

/// Digests the keys as they were pressed. The same keys always give the same
/// digest, whoever asks: the card issuer at swipe time and the machine at
/// confirmation time.
pub fn hash(keys: &Vec<Key>) -> (digest: u64)
    ensures
        digest == spec_hash(keys@),
{
    let mut bytes: Vec<u8> = Vec::new();
    let mut i: usize = 0;
    while i < keys.len()
        invariant
            i <= keys.len(),
            bytes@ == key_bytes(keys@.take(i as int)),
        decreases keys.len() - i,
    {
        bytes.push(byte_of(keys[i]));
        i += 1;
    }
    assert(keys@.take(i as int) == keys@);
    let mut hasher = DefaultHasher::new();
    hasher.write(bytes.as_slice());
    hasher.finish()
}

} // verus!
