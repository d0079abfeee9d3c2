use vstd::prelude::*;
use vstd::utf8::encode_utf8;

verus! {

/// The digest that xxHash's XXH3 gives for a byte sequence, 128 bits wide.
pub uninterp spec fn xxh3_128_of(bytes: Seq<u8>) -> u128;

/// Relies on xxhash_rust::xxh3::xxh3_128: the digest depends on the bytes alone.
#[verifier::external_body]
fn xxh3_128(bytes: &[u8]) -> (r: u128)
    ensures
        r == xxh3_128_of(bytes@),
{
    xxhash_rust::xxh3::xxh3_128(bytes)
}

/// An opaque 128-bit key, derived from a string.
///
/// Distinct strings may derive the same key; the store does not tell them apart.
#[derive(Debug, Clone, Copy, PartialEq, Eq, Hash, Structural)]
pub struct Key(pub u128);

impl Key {
    /// The key that `derive` gives for a string with these characters.
    pub open spec fn derived(s: Seq<char>) -> Key {
        Key(xxh3_128_of(encode_utf8(s)))
    }

    /// Hashes the UTF-8 bytes of `s` into a key. Total, also on the empty string.
    pub fn derive(s: &str) -> (r: Key)
        ensures
            r == Key::derived(s@),
    {
        Key(xxh3_128(s.as_bytes()))
    }
}

impl std::str::FromStr for Key {
    type Err = ();

    fn from_str(s: &str) -> Result<Key, ()> {
        Ok(Key::derive(s))
    }
}

/// Deriving a key is deterministic: strings with the same characters give the
/// same key, on every call.
pub proof fn derive_is_deterministic(a: &str, b: &str)
    requires
        a@ == b@,
    ensures
        Key::derived(a@) == Key::derived(b@),
{
}

} // verus!
