use vstd::prelude::*;

use crate::keys::AuthorityKey;

verus! {

/// Mathematical model of a persisted vault record: the owner's key bytes
/// and the unlock timestamp, as unbounded values.
#[verifier::ext_equal]
pub struct RecordModel {
    pub owner: Seq<u8>,
    pub unlock_time: int,
}

/// The persisted state of one vault record: the owner's authority key, set
/// once at creation and immutable thereafter, and the Unix-seconds unlock
/// timestamp, which the owner may re-arm at will.
#[derive(Clone, Copy, Debug, PartialEq, Eq)]
pub struct VaultAccount {
    pub owner: AuthorityKey,
    pub unlock_time: i64,
}

impl View for VaultAccount {
    type V = RecordModel;

    open spec fn view(&self) -> RecordModel {
        RecordModel { owner: self.owner@, unlock_time: self.unlock_time as int }
    }
}

impl VaultAccount {
    /// A well-formed record never carries the unset (all-zero) owner key.
    pub open spec fn wf(&self) -> bool {
        !self.owner.is_zero()
    }
}

} // verus!
