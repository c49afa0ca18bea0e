//! Participant identities.

use vstd::prelude::*;
use crate::digest::{bytes_equal, copy_bytes};

verus! {

/// Who takes part in a round: an opaque identity, held as the bytes that
/// name it. Two identities are the same participant exactly when their
/// bytes agree.
#[derive(Clone, Debug, PartialEq, Eq)]
pub struct ParticipantId {
    pub bytes: Vec<u8>,
}

impl View for ParticipantId {
    type V = Seq<u8>;

    open spec fn view(&self) -> Seq<u8> {
        self.bytes@
    }
}

impl DeepView for ParticipantId {
    type V = Seq<u8>;

    open spec fn deep_view(&self) -> Seq<u8> {
        self.bytes@
    }
}

impl ParticipantId {
    /// The identity named by `bytes`.
    pub fn new(bytes: Vec<u8>) -> (id: ParticipantId)
        ensures
            id@ == bytes@,
    {
        ParticipantId { bytes }
    }

    /// The bytes that name this identity.
    pub fn as_bytes(&self) -> (bytes: &Vec<u8>)
        ensures
            bytes@ == self@,
    {
        &self.bytes
    }

    /// Whether `self` and `other` are the same participant.
    pub fn same_as(&self, other: &ParticipantId) -> (same: bool)
        ensures
            same == (self@ == other@),
    {
        bytes_equal(&self.bytes, &other.bytes)
    }

    /// A second handle on the same participant.
    pub fn duplicate(&self) -> (copy: ParticipantId)
        ensures
            copy@ == self@,
    {
        ParticipantId { bytes: copy_bytes(&self.bytes) }
    }
}

} // verus!
