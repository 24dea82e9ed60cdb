//! Typed 128-bit entity identifiers (UUIDs).

use std::marker::PhantomData;
use vstd::prelude::*;

verus! {

/// The 16-byte big-endian encoding of `v` (most significant byte first).
pub open spec fn be_bytes(v: u128) -> Seq<u8> {
    seq![
        (v >> 120u128) as u8,
        (v >> 112u128) as u8,
        (v >> 104u128) as u8,
        (v >> 96u128) as u8,
        (v >> 88u128) as u8,
        (v >> 80u128) as u8,
        (v >> 72u128) as u8,
        (v >> 64u128) as u8,
        (v >> 56u128) as u8,
        (v >> 48u128) as u8,
        (v >> 40u128) as u8,
        (v >> 32u128) as u8,
        (v >> 24u128) as u8,
        (v >> 16u128) as u8,
        (v >> 8u128) as u8,
        (v >> 0u128) as u8,
    ]
}

/// Two identifiers with the same big-endian bytes are the same identifier.
pub proof fn lemma_be_bytes_injective(x: u128, y: u128)
    requires
        be_bytes(x) == be_bytes(y),
    ensures
        x == y,
{
    assert(be_bytes(x)[0] == be_bytes(y)[0]);
    assert(be_bytes(x)[1] == be_bytes(y)[1]);
    assert(be_bytes(x)[2] == be_bytes(y)[2]);
    assert(be_bytes(x)[3] == be_bytes(y)[3]);
    assert(be_bytes(x)[4] == be_bytes(y)[4]);
    assert(be_bytes(x)[5] == be_bytes(y)[5]);
    assert(be_bytes(x)[6] == be_bytes(y)[6]);
    assert(be_bytes(x)[7] == be_bytes(y)[7]);
    assert(be_bytes(x)[8] == be_bytes(y)[8]);
    assert(be_bytes(x)[9] == be_bytes(y)[9]);
    assert(be_bytes(x)[10] == be_bytes(y)[10]);
    assert(be_bytes(x)[11] == be_bytes(y)[11]);
    assert(be_bytes(x)[12] == be_bytes(y)[12]);
    assert(be_bytes(x)[13] == be_bytes(y)[13]);
    assert(be_bytes(x)[14] == be_bytes(y)[14]);
    assert(be_bytes(x)[15] == be_bytes(y)[15]);
    assert(x == y) by (bit_vector)
        requires
            (x >> 120u128) as u8 == (y >> 120u128) as u8,
            (x >> 112u128) as u8 == (y >> 112u128) as u8,
            (x >> 104u128) as u8 == (y >> 104u128) as u8,
            (x >> 96u128) as u8 == (y >> 96u128) as u8,
            (x >> 88u128) as u8 == (y >> 88u128) as u8,
            (x >> 80u128) as u8 == (y >> 80u128) as u8,
            (x >> 72u128) as u8 == (y >> 72u128) as u8,
            (x >> 64u128) as u8 == (y >> 64u128) as u8,
            (x >> 56u128) as u8 == (y >> 56u128) as u8,
            (x >> 48u128) as u8 == (y >> 48u128) as u8,
            (x >> 40u128) as u8 == (y >> 40u128) as u8,
            (x >> 32u128) as u8 == (y >> 32u128) as u8,
            (x >> 24u128) as u8 == (y >> 24u128) as u8,
            (x >> 16u128) as u8 == (y >> 16u128) as u8,
            (x >> 8u128) as u8 == (y >> 8u128) as u8,
            (x >> 0u128) as u8 == (y >> 0u128) as u8,
    ;
}

/// Whether `v` is a version-7 UUID of the RFC 4122 variant: version nibble
/// 7 (the high nibble of byte 6) and variant bits `10` (the top bits of byte 8).
pub open spec fn is_v7_uuid(v: u128) -> bool {
    &&& (v >> 76u128) & 0xfu128 == 7
    &&& (v >> 62u128) & 0x3u128 == 2
}

/// A fresh version-7 UUID (`uuid::Uuid::now_v7`), as its 128-bit value. The
/// crate sets the version and variant bits; the timestamp and the remaining
/// bits come from the clock and from random data and are not stated.
#[verifier::external_body]
fn uuid_now_v7() -> (v: u128)
    ensures
        is_v7_uuid(v),
{
    uuid::Uuid::now_v7().as_u128()
}

/// The bytes of the UUID with value `v` (`Uuid::from_u128(v).as_bytes()`):
/// the crate stores `v.to_be_bytes()`.
#[verifier::external_body]
pub(crate) fn uuid_bytes(v: u128) -> (bytes: Vec<u8>)
    ensures
        bytes@ == be_bytes(v),
{
    uuid::Uuid::from_u128(v).as_bytes().to_vec()
}

/// `Uuid::from_slice(b)`: an error unless `b` holds exactly 16 bytes; otherwise
/// the UUID whose big-endian bytes are `b`.
#[verifier::external_body]
pub(crate) fn uuid_from_slice(b: &[u8]) -> (v: Option<u128>)
    ensures
        v is Some <==> b@.len() == 16,
        v matches Some(x) ==> be_bytes(x) == b@,
{
    match uuid::Uuid::from_slice(b) {
        Ok(u) => Some(u.as_u128()),
        Err(_) => None,
    }
}

/// `PhantomData::clone`: a zero-sized marker; the clone is the marker itself.
pub assume_specification<T: core::marker::PointeeSized>[ <PhantomData<T> as Clone>::clone ](marker: &PhantomData<T>) -> (r: PhantomData<T>)
    ensures
        r == *marker,
;

/// Marks identifiers of users.
#[derive(Debug, Clone, Copy, PartialEq, Eq, Hash, PartialOrd, Ord)]
pub struct ForUser;

/// Marks identifiers of login sessions.
#[derive(Debug, Clone, Copy, PartialEq, Eq, Hash, PartialOrd, Ord)]
pub struct ForSession;

/// Marks identifiers of API keys.
#[derive(Debug, Clone, Copy, PartialEq, Eq, Hash, PartialOrd, Ord)]
pub struct ForApiKey;

/// Marks identifiers of domain rules.
#[derive(Debug, Clone, Copy, PartialEq, Eq, Hash, PartialOrd, Ord)]
pub struct ForDomainRule;

/// Marks identifiers of list subscriptions.
#[derive(Debug, Clone, Copy, PartialEq, Eq, Hash, PartialOrd, Ord)]
pub struct ForListSubscription;

/// An identifier for an entity of the kind marked by `T`.
#[derive(Debug, Clone, PartialEq, Eq, Hash, PartialOrd, Ord)]
pub struct EntityId<T> {
    id: u128,
    marker: PhantomData<T>,
}

impl<T> View for EntityId<T> {
    type V = u128;

    open spec fn view(&self) -> u128 {
        self.spec_value()
    }
}

impl<T> EntityId<T> {
    /// The identifier's 128-bit value.
    pub closed spec fn spec_value(&self) -> u128 {
        self.id
    }

    /// A new, time-ordered random identifier (UUID version 7).
    pub fn new() -> (r: Self)
        ensures
            is_v7_uuid(r@),
    {
        EntityId { id: uuid_now_v7(), marker: PhantomData }
    }

    /// The identifier with the given 128-bit value.
    pub fn from_u128(id: u128) -> (r: Self)
        ensures
            r@ == id,
    {
        EntityId { id, marker: PhantomData }
    }

    /// The identifier's 128-bit value.
    pub fn as_u128(&self) -> (v: u128)
        ensures
            v == self@,
    {
        self.id
    }

    /// A copy of this identifier.
    pub fn duplicate(&self) -> (r: Self)
        ensures
            r@ == self@,
    {
        EntityId { id: self.id, marker: PhantomData }
    }

    /// The identifier's 16 big-endian bytes, as a UUID stores them.
    pub fn to_bytes(&self) -> (b: Vec<u8>)
        ensures
            b@ == be_bytes(self@),
            b@.len() == 16,
    {
        uuid_bytes(self.id)
    }

    /// The identifier whose big-endian bytes are `b`; `None` unless `b` holds 16 bytes.
    pub fn from_bytes(b: &[u8]) -> (r: Option<Self>)
        ensures
            r is Some <==> b@.len() == 16,
            r matches Some(id) ==> be_bytes(id@) == b@,
    {
        match uuid_from_slice(b) {
            Some(v) => Some(EntityId { id: v, marker: PhantomData }),
            None => None,
        }
    }
}

/// Reading an identifier back from its bytes gives the same identifier.
pub proof fn lemma_entity_id_bytes_round_trip(x: u128, y: u128)
    requires
        be_bytes(y) == be_bytes(x),
    ensures
        y == x,
{
    lemma_be_bytes_injective(y, x);
}

} // verus!
