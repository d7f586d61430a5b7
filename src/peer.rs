//! Conversions between `H256` and the 256-bit and 160-bit hash types of two
//! releases of the primitive-types library: 0.11, used directly, and 0.10, as
//! ethereum-types 0.12 re-exports it.
use crate::h256::H256;
use ethereum_types::{H160 as Hash160V10, H256 as Hash256V10};
use primitive_types::{H160 as Hash160V11, H256 as Hash256V11};
use vstd::prelude::*;
use vstd::std_specs::convert::FromSpec;

verus! {

/// The bytes of a 160-bit hash widened to 256 bits: twelve clear bytes, then the hash.
pub open spec fn widened(bytes: Seq<u8>) -> Seq<u8> {
    Seq::new(12, |k: int| 0u8) + bytes
}

/// The 32-byte array whose first `n` bytes are those of `bytes`, the rest clear.
pub open spec fn array_of(bytes: Seq<u8>, n: nat) -> [u8; 32]
    decreases n,
{
    if n == 0 {
        vstd::array::spec_array_fill_for_copy_type::<u8, 32>(0u8)
    } else {
        vstd::array::spec_array_update(array_of(bytes, (n - 1) as nat), n - 1, bytes[n - 1])
    }
}

/// The value whose bytes are those of a 160-bit hash widened to 256 bits.
pub open spec fn from_widened(bytes: Seq<u8>) -> H256 {
    H256(array_of(widened(bytes), 32))
}

/// `array_of` holds the bytes it was given.
proof fn lemma_array_of(bytes: Seq<u8>, n: nat)
    requires
        n <= 32,
        n <= bytes.len(),
    ensures
        forall|k: int| 0 <= k < 32 ==> array_of(bytes, n)@[k] == if k < n { bytes[k] } else { 0u8 },
    decreases n,
{
    if n == 0 {
        let z = vstd::array::spec_array_fill_for_copy_type::<u8, 32>(0u8);
        assert(forall|k: int| 0 <= k < 32 ==> z@[k] == 0u8);
    } else {
        lemma_array_of(bytes, (n - 1) as nat);
        let prev = array_of(bytes, (n - 1) as nat);
        assert(array_of(bytes, n)@ == prev@.update(n - 1, bytes[n - 1]));
    }
}

/// The bytes of the value `from_widened` names are the widened hash.
pub proof fn lemma_from_widened(bytes: Seq<u8>)
    requires
        bytes.len() == 20,
    ensures
        from_widened(bytes)@ == widened(bytes),
{
    lemma_array_of(widened(bytes), 32);
    assert(from_widened(bytes)@ =~= widened(bytes));
}

/// A value whose bytes are the widened hash is the one `from_widened` names.
proof fn lemma_is_widened(r: H256, bytes: Seq<u8>)
    requires
        bytes.len() == 20,
        r@ == widened(bytes),
    ensures
        from_widened(bytes) == r,
{
    lemma_from_widened(bytes);
    assert(from_widened(bytes).0 =~= r.0);
}

/// primitive-types 0.11's 256-bit hash, a public array of 32 bytes.
#[verifier::external_type_specification]
pub struct ExHashV11(Hash256V11);

/// primitive-types 0.11's 160-bit hash, a public array of 20 bytes.
#[verifier::external_type_specification]
pub struct ExHash160V11(Hash160V11);

/// primitive-types 0.10's 256-bit hash.
#[verifier::external_type_specification]
pub struct ExHashV10(Hash256V10);

/// primitive-types 0.10's 160-bit hash.
#[verifier::external_type_specification]
pub struct ExHash160V10(Hash160V10);

/// Relies on fixed-hash's `From<[u8; 32]>`, which wraps the array as it is.
pub assume_specification[ <Hash256V11 as core::convert::From<[u8; 32]>>::from ](
    bytes: [u8; 32],
) -> (r: Hash256V11)
    ensures
        r.0 == bytes,
;

/// Relies on fixed-hash's `to_fixed_bytes`, which returns the inner array.
pub assume_specification[ Hash256V11::to_fixed_bytes ](
    h: Hash256V11,
) -> (r: [u8; 32])
    ensures
        r == h.0,
;

/// Relies on fixed-hash's `as_fixed_bytes`, which borrows the inner array.
pub assume_specification[ Hash256V11::as_fixed_bytes ](
    h: &Hash256V11,
) -> (r: &[u8; 32])
    ensures
        *r == h.0,
;

/// Relies on fixed-hash's `impl_fixed_hash_conversions`, which copies the
/// 20 bytes into the last 20 of a cleared 256-bit hash.
pub assume_specification[ <Hash256V11 as core::convert::From<Hash160V11>>::from ](
    value: Hash160V11,
) -> (r: Hash256V11)
    ensures
        r.0@ == widened(value.0@),
;

/// The value as a primitive-types 0.11 hash, byte for byte.
impl From<H256> for Hash256V11 {
    fn from(h: H256) -> (r: Hash256V11) {
        Hash256V11::from(h.0)
    }
}

impl vstd::std_specs::convert::FromSpecImpl<H256> for Hash256V11 {
    open spec fn obeys_from_spec() -> bool {
        true
    }

    open spec fn from_spec(h: H256) -> Hash256V11 {
        Hash256V11(h.0)
    }
}

/// A primitive-types 0.11 hash as a value, byte for byte.
impl From<Hash256V11> for H256 {
    fn from(h: Hash256V11) -> (r: H256) {
        H256::from(h.to_fixed_bytes())
    }
}

impl vstd::std_specs::convert::FromSpecImpl<Hash256V11> for H256 {
    open spec fn obeys_from_spec() -> bool {
        true
    }

    open spec fn from_spec(h: Hash256V11) -> H256 {
        H256(h.0)
    }
}

impl<'a> From<&'a Hash256V11> for H256 {
    fn from(h: &'a Hash256V11) -> (r: H256) {
        H256::from(*h.as_fixed_bytes())
    }
}

impl<'a> vstd::std_specs::convert::FromSpecImpl<&'a Hash256V11> for H256 {
    open spec fn obeys_from_spec() -> bool {
        true
    }

    open spec fn from_spec(h: &'a Hash256V11) -> H256 {
        H256(h.0)
    }
}

/// A primitive-types 0.11 160-bit hash, widened by that library's own rule.
impl From<Hash160V11> for H256 {
    fn from(h: Hash160V11) -> (r: H256) {
        let r = H256::from(Hash256V11::from(h));
        proof {
            lemma_is_widened(r, h.0@);
        }
        r
    }
}

impl vstd::std_specs::convert::FromSpecImpl<Hash160V11> for H256 {
    open spec fn obeys_from_spec() -> bool {
        true
    }

    open spec fn from_spec(h: Hash160V11) -> H256 {
        from_widened(h.0@)
    }
}

impl<'a> From<&'a Hash160V11> for H256 {
    fn from(h: &'a Hash160V11) -> (r: H256) {
        let r = H256::from(Hash256V11::from(*h));
        proof {
            lemma_is_widened(r, h.0@);
        }
        r
    }
}

impl<'a> vstd::std_specs::convert::FromSpecImpl<&'a Hash160V11> for H256 {
    open spec fn obeys_from_spec() -> bool {
        true
    }

    open spec fn from_spec(h: &'a Hash160V11) -> H256 {
        from_widened(h.0@)
    }
}

/// Relies on fixed-hash's `From<[u8; 32]>`, which wraps the array as it is.
pub assume_specification[ <Hash256V10 as core::convert::From<[u8; 32]>>::from ](
    bytes: [u8; 32],
) -> (r: Hash256V10)
    ensures
        r.0 == bytes,
;

/// Relies on fixed-hash's `to_fixed_bytes`, which returns the inner array.
pub assume_specification[ Hash256V10::to_fixed_bytes ](
    h: Hash256V10,
) -> (r: [u8; 32])
    ensures
        r == h.0,
;

/// Relies on fixed-hash's `as_fixed_bytes`, which borrows the inner array.
pub assume_specification[ Hash256V10::as_fixed_bytes ](
    h: &Hash256V10,
) -> (r: &[u8; 32])
    ensures
        *r == h.0,
;

/// Relies on fixed-hash's `impl_fixed_hash_conversions`, which copies the
/// 20 bytes into the last 20 of a cleared 256-bit hash.
pub assume_specification[ <Hash256V10 as core::convert::From<Hash160V10>>::from ](
    value: Hash160V10,
) -> (r: Hash256V10)
    ensures
        r.0@ == widened(value.0@),
;

/// The value as a primitive-types 0.10 hash, byte for byte.
impl From<H256> for Hash256V10 {
    fn from(h: H256) -> (r: Hash256V10) {
        Hash256V10::from(h.0)
    }
}

impl vstd::std_specs::convert::FromSpecImpl<H256> for Hash256V10 {
    open spec fn obeys_from_spec() -> bool {
        true
    }

    open spec fn from_spec(h: H256) -> Hash256V10 {
        Hash256V10(h.0)
    }
}

/// A primitive-types 0.10 hash as a value, byte for byte.
impl From<Hash256V10> for H256 {
    fn from(h: Hash256V10) -> (r: H256) {
        H256::from(h.to_fixed_bytes())
    }
}

impl vstd::std_specs::convert::FromSpecImpl<Hash256V10> for H256 {
    open spec fn obeys_from_spec() -> bool {
        true
    }

    open spec fn from_spec(h: Hash256V10) -> H256 {
        H256(h.0)
    }
}

impl<'a> From<&'a Hash256V10> for H256 {
    fn from(h: &'a Hash256V10) -> (r: H256) {
        H256::from(*h.as_fixed_bytes())
    }
}

impl<'a> vstd::std_specs::convert::FromSpecImpl<&'a Hash256V10> for H256 {
    open spec fn obeys_from_spec() -> bool {
        true
    }

    open spec fn from_spec(h: &'a Hash256V10) -> H256 {
        H256(h.0)
    }
}

/// A primitive-types 0.10 160-bit hash, widened by that library's own rule.
impl From<Hash160V10> for H256 {
    fn from(h: Hash160V10) -> (r: H256) {
        let r = H256::from(Hash256V10::from(h));
        proof {
            lemma_is_widened(r, h.0@);
        }
        r
    }
}

impl vstd::std_specs::convert::FromSpecImpl<Hash160V10> for H256 {
    open spec fn obeys_from_spec() -> bool {
        true
    }

    open spec fn from_spec(h: Hash160V10) -> H256 {
        from_widened(h.0@)
    }
}

impl<'a> From<&'a Hash160V10> for H256 {
    fn from(h: &'a Hash160V10) -> (r: H256) {
        let r = H256::from(Hash256V10::from(*h));
        proof {
            lemma_is_widened(r, h.0@);
        }
        r
    }
}

impl<'a> vstd::std_specs::convert::FromSpecImpl<&'a Hash160V10> for H256 {
    open spec fn obeys_from_spec() -> bool {
        true
    }

    open spec fn from_spec(h: &'a Hash160V10) -> H256 {
        from_widened(h.0@)
    }
}

/// A primitive-types 0.11 hash made a value and back is the same hash; a
/// value made such a hash and back is the same value.
pub proof fn lemma_round_trip_v11(h: Hash256V11, v: H256)
    ensures
        <Hash256V11 as FromSpec<H256>>::from_spec(<H256 as FromSpec<Hash256V11>>::from_spec(h)) == h,
        <H256 as FromSpec<Hash256V11>>::from_spec(<Hash256V11 as FromSpec<H256>>::from_spec(v)) == v,
{
}

/// A primitive-types 0.10 hash made a value and back is the same hash; a
/// value made such a hash and back is the same value.
pub proof fn lemma_round_trip_v10(h: Hash256V10, v: H256)
    ensures
        <Hash256V10 as FromSpec<H256>>::from_spec(<H256 as FromSpec<Hash256V10>>::from_spec(h)) == h,
        <H256 as FromSpec<Hash256V10>>::from_spec(<Hash256V10 as FromSpec<H256>>::from_spec(v)) == v,
{
}

/// A 160-bit hash of either release becomes the value whose bytes are twelve
/// clear bytes followed by the hash.
pub proof fn lemma_widening(a: Hash160V11, b: Hash160V10)
    ensures
        (<H256 as FromSpec<Hash160V11>>::from_spec(a))@ == widened(a.0@),
        (<H256 as FromSpec<Hash160V10>>::from_spec(b))@ == widened(b.0@),
{
    lemma_from_widened(a.0@);
    lemma_from_widened(b.0@);
}

} // verus!
