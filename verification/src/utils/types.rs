//! The validator list as the read API publishes it: numbers as fixed-width
//! little-endian bytes, the status as one byte.

use crate::address::Address;
use crate::encoding::{
    le_bytes, le_value, u32_from_le_bytes, u32_to_le_bytes, u64_from_le_bytes, u64_to_le_bytes,
};
use vstd::prelude::*;

verus! {

/// What an account of the stake pool program holds.
#[derive(Clone, Copy, Debug, PartialEq, Eq)]
pub enum AccountType {
    /// The account has not been initialised.
    Uninitialized,
    /// A stake pool.
    StakePool,
    /// The list of a pool's validators.
    ValidatorList,
}

impl Default for AccountType {
    fn default() -> (kind: Self)
        ensures
            kind == AccountType::Uninitialized,
    {
        AccountType::Uninitialized
    }
}

/// The account type that a byte stands for.
pub open spec fn account_type_of(code: u8) -> Option<AccountType> {
    if code == 0 {
        Some(AccountType::Uninitialized)
    } else if code == 1 {
        Some(AccountType::StakePool)
    } else if code == 2 {
        Some(AccountType::ValidatorList)
    } else {
        None
    }
}

impl AccountType {
    /// Reads an account type from its byte.
    pub fn from_byte(code: u8) -> (kind: Option<AccountType>)
        ensures
            kind == account_type_of(code),
    {
        if code == 0 {
            Some(AccountType::Uninitialized)
        } else if code == 1 {
            Some(AccountType::StakePool)
        } else if code == 2 {
            Some(AccountType::ValidatorList)
        } else {
            None
        }
    }
}

/// Where a validator's stake accounts stand.
#[derive(Clone, Copy, Debug, PartialEq, Eq)]
pub enum StakeStatus {
    /// The stake account is active; there may be a transient stake as well.
    Active,
    /// Only the transient stake account exists, and it is deactivating.
    DeactivatingTransient,
    /// No stake account is left: the entry can be removed.
    ReadyForRemoval,
    /// Only the validator stake account exists, and it is deactivating.
    DeactivatingValidator,
    /// Both stake accounts are deactivating.
    DeactivatingAll,
}

/// The byte that stands for a status.
pub open spec fn status_byte(status: StakeStatus) -> u8 {
    match status {
        StakeStatus::Active => 0,
        StakeStatus::DeactivatingTransient => 1,
        StakeStatus::ReadyForRemoval => 2,
        StakeStatus::DeactivatingValidator => 3,
        StakeStatus::DeactivatingAll => 4,
    }
}

/// The status that a byte stands for.
pub open spec fn status_of(code: u8) -> Option<StakeStatus> {
    if code == 0 {
        Some(StakeStatus::Active)
    } else if code == 1 {
        Some(StakeStatus::DeactivatingTransient)
    } else if code == 2 {
        Some(StakeStatus::ReadyForRemoval)
    } else if code == 3 {
        Some(StakeStatus::DeactivatingValidator)
    } else if code == 4 {
        Some(StakeStatus::DeactivatingAll)
    } else {
        None
    }
}

impl StakeStatus {
    /// The byte that stands for this status.
    pub fn to_byte(self) -> (code: u8)
        ensures
            code == status_byte(self),
    {
        match self {
            StakeStatus::Active => 0,
            StakeStatus::DeactivatingTransient => 1,
            StakeStatus::ReadyForRemoval => 2,
            StakeStatus::DeactivatingValidator => 3,
            StakeStatus::DeactivatingAll => 4,
        }
    }

    /// Reads a status from its byte.
    pub fn from_byte(code: u8) -> (status: Option<StakeStatus>)
        ensures
            status == status_of(code),
    {
        if code == 0 {
            Some(StakeStatus::Active)
        } else if code == 1 {
            Some(StakeStatus::DeactivatingTransient)
        } else if code == 2 {
            Some(StakeStatus::ReadyForRemoval)
        } else if code == 3 {
            Some(StakeStatus::DeactivatingValidator)
        } else if code == 4 {
            Some(StakeStatus::DeactivatingAll)
        } else {
            None
        }
    }
}

/// Every status is read back from its own byte, and no two share a byte.
pub proof fn lemma_status_round_trip(status: StakeStatus, code: u8)
    ensures
        status_of(status_byte(status)) == Some(status),
        status_of(code) == Some(status) ==> status_byte(status) == code,
{
}

/// A `u64` as eight little-endian bytes.
#[derive(Clone, Copy, Debug, PartialEq, Eq)]
pub struct PodU64(pub [u8; 8]);

/// A `u32` as four little-endian bytes.
#[derive(Clone, Copy, Debug, PartialEq, Eq)]
pub struct PodU32(pub [u8; 4]);

/// A stake status as its byte.
#[derive(Clone, Copy, Debug, PartialEq, Eq)]
pub struct PodStakeStatus(pub u8);

impl PodU64 {
    /// The bytes of `number`.
    pub fn from_primitive(number: u64) -> (pod: Self)
        ensures
            pod.0@ == le_bytes(number as nat, 8),
    {
        PodU64(u64_to_le_bytes(number))
    }

    /// The number that the bytes stand for.
    pub fn get(&self) -> (number: u64)
        ensures
            number as nat == le_value(self.0@),
    {
        u64_from_le_bytes(&self.0)
    }
}

impl PodU32 {
    /// The bytes of `number`.
    pub fn from_primitive(number: u32) -> (pod: Self)
        ensures
            pod.0@ == le_bytes(number as nat, 4),
    {
        PodU32(u32_to_le_bytes(number))
    }

    /// The number that the bytes stand for.
    pub fn get(&self) -> (number: u32)
        ensures
            number as nat == le_value(self.0@),
    {
        u32_from_le_bytes(&self.0)
    }
}

impl PodStakeStatus {
    /// The byte of `status`.
    pub fn from_status(status: StakeStatus) -> (pod: Self)
        ensures
            pod.0 == status_byte(status),
    {
        PodStakeStatus(status.to_byte())
    }

    /// The status that the byte stands for, if it stands for one.
    pub fn status(&self) -> (status: Option<StakeStatus>)
        ensures
            status == status_of(self.0),
    {
        StakeStatus::from_byte(self.0)
    }
}

/// The head of a validator list.
#[derive(Clone, Copy, Debug, PartialEq, Eq)]
pub struct ValidatorListHeader {
    /// The account's type; a validator list says `ValidatorList`.
    pub account_type: AccountType,
    /// The most validators that the list may hold.
    pub max_validators: u32,
}

/// One validator of the pool, as published.
#[derive(Clone, Copy, Debug, PartialEq, Eq)]
pub struct ValidatorStakeInfo {
    /// Lamports on the validator's stake account, rent included. Accurate
    /// only if `last_update_epoch` is the current epoch.
    pub active_stake_lamports: PodU64,
    /// Lamports of transient stake delegated to this validator. Accurate
    /// only if `last_update_epoch` is the current epoch.
    pub transient_stake_lamports: PodU64,
    /// The epoch in which the two amounts above were last brought up to date.
    pub last_update_epoch: PodU64,
    /// The seed suffix of the transient stake account's address.
    pub transient_seed_suffix: PodU64,
    /// Unused space.
    pub unused: PodU32,
    /// The seed suffix of the validator stake account's address; 0 for none.
    pub validator_seed_suffix: PodU32,
    /// Where the validator's stake accounts stand.
    pub status: PodStakeStatus,
    /// The validator's vote account.
    pub vote_account_address: Address,
}

/// A pool's validators, as published.
#[derive(Debug, PartialEq, Eq)]
pub struct ValidatorList {
    pub header: ValidatorListHeader,
    pub validators: Vec<ValidatorStakeInfo>,
}

/// A published validator list, its validators as a sequence.
pub struct ValidatorListView {
    pub header: ValidatorListHeader,
    pub validators: Seq<ValidatorStakeInfo>,
}

impl View for ValidatorList {
    type V = ValidatorListView;

    open spec fn view(&self) -> ValidatorListView {
        ValidatorListView { header: self.header, validators: self.validators@ }
    }
}

impl ValidatorListView {
    /// The list holds no more validators than its header allows.
    pub open spec fn within_capacity(self) -> bool {
        self.validators.len() <= self.header.max_validators
    }
}

} // verus!
