//! The byte layout of event payloads.
//!
//! A payload is laid out field by field in declaration order: an identifier
//! as its sixteen bytes, a quantity as eight bytes, least significant first.
//! The bytes of each field come from the Borsh serializer that `anchor_lang`
//! exposes; this module only puts them one after another.

use vstd::prelude::*;
use vstd::bytes::spec_u64_to_le_bytes;

verus! {

/// The error type of `std::io`, as the serializer returns it.
#[verifier::external_type_specification]
#[verifier::external_body]
pub struct ExIoError(std::io::Error);

/// Why an event could not be rendered as a transaction envelope.
#[derive(Clone, Copy, Debug, PartialEq, Eq, Structural)]
pub enum EventError {
    /// The event records the creation of an entity, which is no transaction.
    NotATransaction,
    /// The serializer reported an I/O error while writing a field.
    BorshIo,
}

/// What the serializer returns for a quantity: the bytes, or nothing where
/// it reports an error.
pub uninterp spec fn borsh_u64_result(value: u64) -> Option<Seq<u8>>;

/// What the serializer returns for an identifier: the bytes, or nothing
/// where it reports an error.
pub uninterp spec fn borsh_id_result(id: Seq<u8>) -> Option<Seq<u8>>;

/// Whether the serializer accepts the quantity.
pub open spec fn quantity_serializes(value: u64) -> bool {
    borsh_u64_result(value) is Some
}

/// Whether the serializer accepts the identifier.
pub open spec fn id_serializes(id: [u8; 16]) -> bool {
    borsh_id_result(id@) is Some
}

/// Serializes a quantity with `anchor_lang::AnchorSerialize::try_to_vec`.
///
/// Trusted: the outcome depends on `value` alone, and when the call
/// succeeds, the bytes are the eight bytes of `value` in little-endian
/// order. Nothing is claimed about when it succeeds.
#[verifier::external_body]
fn borsh_u64(value: u64) -> (r: Result<Vec<u8>, std::io::Error>)
    ensures
        r matches Ok(bytes) ==> borsh_u64_result(value) == Some(bytes@) && bytes@
            == spec_u64_to_le_bytes(value),
        r is Err ==> borsh_u64_result(value) is None,
{
    anchor_lang::AnchorSerialize::try_to_vec(&value)
}

/// Serializes an identifier with `anchor_lang::AnchorSerialize::try_to_vec`.
///
/// Trusted: the outcome depends on `id` alone, and when the call succeeds,
/// the bytes are the sixteen bytes of `id` in order, with no length prefix.
/// Nothing is claimed about when it succeeds.
#[verifier::external_body]
fn borsh_id(id: &[u8; 16]) -> (r: Result<Vec<u8>, std::io::Error>)
    ensures
        r matches Ok(bytes) ==> borsh_id_result(id@) == Some(bytes@) && bytes@ == id@,
        r is Err ==> borsh_id_result(id@) is None,
{
    anchor_lang::AnchorSerialize::try_to_vec(id)
}

/// Collects the fields of one payload, and remembers whether any of them
/// failed to serialize.
pub struct PayloadWriter {
    bytes: Vec<u8>,
    failed: bool,
}

impl PayloadWriter {
    /// The bytes written so far.
    pub closed spec fn written(self) -> Seq<u8> {
        self.bytes@
    }

    /// Whether a field has failed to serialize.
    pub closed spec fn has_failed(self) -> bool {
        self.failed
    }

    /// A writer that holds no field yet.
    pub fn new() -> (writer: Self)
        ensures
            writer.written() == Seq::<u8>::empty(),
            !writer.has_failed(),
    {
        PayloadWriter { bytes: Vec::new(), failed: false }
    }

    /// Takes the outcome of serializing one field: its bytes are appended,
    /// an error marks the payload as failed and leaves the bytes as they are.
    pub fn push(&mut self, field: Result<Vec<u8>, std::io::Error>)
        ensures
            field matches Ok(bytes) ==> final(self).written() == old(self).written() + bytes@,
            field is Ok ==> final(self).has_failed() == old(self).has_failed(),
            field is Err ==> final(self).written() == old(self).written(),
            field is Err ==> final(self).has_failed(),
    {
        match field {
            Ok(mut bytes) => {
                self.bytes.append(&mut bytes);
            },
            Err(_) => {
                self.failed = true;
            },
        }
    }

    /// Writes an identifier as the next field.
    pub fn id(&mut self, id: &[u8; 16])
        ensures
            final(self).has_failed() == (old(self).has_failed() || !id_serializes(*id)),
            id_serializes(*id) ==> final(self).written() == old(self).written() + id@,
            !id_serializes(*id) ==> final(self).written() == old(self).written(),
    {
        self.push(borsh_id(id));
    }

    /// Writes a quantity as the next field.
    pub fn quantity(&mut self, value: u64)
        ensures
            final(self).has_failed() == (old(self).has_failed() || !quantity_serializes(value)),
            quantity_serializes(value) ==> final(self).written() == old(self).written()
                + spec_u64_to_le_bytes(value),
            !quantity_serializes(value) ==> final(self).written() == old(self).written(),
    {
        self.push(borsh_u64(value));
    }

    /// Hands out the payload, or the failure if any field failed.
    pub fn finish(self) -> (r: Result<Vec<u8>, EventError>)
        ensures
            self.has_failed() ==> r == Err::<Vec<u8>, EventError>(EventError::BorshIo),
            !self.has_failed() ==> r is Ok && r->Ok_0@ == self.written(),
    {
        if self.failed {
            Err(EventError::BorshIo)
        } else {
            Ok(self.bytes)
        }
    }
}

} // verus!
