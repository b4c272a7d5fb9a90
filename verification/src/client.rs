//! The state reader: a pool and its validator list, decoded from the bytes
//! of their accounts into snapshots that last for one cycle.

use crate::address::Address;
use crate::error::{Account, Call, TransportError, UpdateError};
use crate::utils::types::{account_type_of, status_of, AccountType, StakeStatus, ValidatorListHeader};
use solana_program::borsh1::try_from_slice_unchecked;
use spl_stake_pool::state::StakePool as PoolAccount;
use spl_stake_pool::state::StakeStatus as AccountStakeStatus;
use spl_stake_pool::state::ValidatorList as ListAccount;
use vstd::prelude::*;

verus! {

/// The fields of a stake pool account that an update needs, as decoded.
#[derive(Clone, Copy, Debug, PartialEq, Eq)]
pub struct DecodedStakePool {
    /// The position of the account's type among the three types.
    pub account_type: u8,
    pub validator_list: Address,
    pub reserve_stake: Address,
    pub pool_mint: Address,
    pub manager_fee_account: Address,
    pub token_program_id: Address,
    pub total_lamports: u64,
    pub pool_token_supply: u64,
    pub last_update_epoch: u64,
}

/// One entry of a validator list account, as decoded.
#[derive(Clone, Copy, Debug, PartialEq, Eq)]
pub struct DecodedValidator {
    pub active_stake_lamports: u64,
    pub transient_stake_lamports: u64,
    pub last_update_epoch: u64,
    pub transient_seed_suffix: u64,
    pub unused: u32,
    pub validator_seed_suffix: u32,
    /// The position of the status among the statuses, where the account's
    /// byte stands for one.
    pub status: Option<u8>,
    pub vote_account_address: Address,
}

/// A validator list account, as decoded.
#[derive(Debug, PartialEq, Eq)]
pub struct DecodedValidatorList {
    /// The position of the account's type among the three types.
    pub account_type: u8,
    pub max_validators: u32,
    pub validators: Vec<DecodedValidator>,
}

/// A decoded validator list account, its entries as a sequence.
pub struct DecodedValidatorListView {
    pub account_type: u8,
    pub max_validators: u32,
    pub validators: Seq<DecodedValidator>,
}

impl View for DecodedValidatorList {
    type V = DecodedValidatorListView;

    open spec fn view(&self) -> DecodedValidatorListView {
        DecodedValidatorListView {
            account_type: self.account_type,
            max_validators: self.max_validators,
            validators: self.validators@,
        }
    }
}

/// What the bytes of a stake pool account decode to, where they decode.
pub uninterp spec fn stake_pool_decoding(data: Seq<u8>) -> Option<DecodedStakePool>;

/// What the bytes of a validator list account decode to, where they decode.
pub uninterp spec fn validator_list_decoding(data: Seq<u8>) -> Option<DecodedValidatorListView>;

/// Decodes a stake pool account with
/// `solana_program::borsh1::try_from_slice_unchecked::<spl_stake_pool::state::StakePool>`,
/// which reads the account from the front of `data` and fails where the
/// bytes do not hold one. The result is a function of the bytes alone, which
/// `stake_pool_decoding` names; the account type is handed on as its
/// position in the declaration of `spl_stake_pool::state::AccountType`.
#[verifier::external_body]
pub(crate) fn decode_stake_pool(data: &[u8]) -> (decoded: Option<DecodedStakePool>)
    ensures
        decoded == stake_pool_decoding(data@),
{
    try_from_slice_unchecked::<PoolAccount>(data).ok().map(|pool| DecodedStakePool {
        account_type: pool.account_type as u8,
        validator_list: Address(pool.validator_list.to_bytes()),
        reserve_stake: Address(pool.reserve_stake.to_bytes()),
        pool_mint: Address(pool.pool_mint.to_bytes()),
        manager_fee_account: Address(pool.manager_fee_account.to_bytes()),
        token_program_id: Address(pool.token_program_id.to_bytes()),
        total_lamports: pool.total_lamports,
        pool_token_supply: pool.pool_token_supply,
        last_update_epoch: pool.last_update_epoch,
    })
}

/// Decodes a validator list account with
/// `solana_program::borsh1::try_from_slice_unchecked::<spl_stake_pool::state::ValidatorList>`,
/// which reads the list from the front of `data` and fails where the bytes
/// do not hold one. The result is a function of the bytes alone, which
/// `validator_list_decoding` names. Each status goes through
/// `StakeStatus::try_from` and is handed on as its position in the
/// declaration of `spl_stake_pool::state::StakeStatus`; a byte that stands
/// for no status gives `None`.
#[verifier::external_body]
fn decode_validator_list(data: &[u8]) -> (decoded: Option<DecodedValidatorList>)
    ensures
        match decoded {
            Some(list) => validator_list_decoding(data@) == Some(list@),
            None => validator_list_decoding(data@) is None,
        },
{
    let list = try_from_slice_unchecked::<ListAccount>(data).ok()?;
    let validators = list.validators.iter().map(|v| DecodedValidator {
        active_stake_lamports: v.active_stake_lamports.into(),
        transient_stake_lamports: v.transient_stake_lamports.into(),
        last_update_epoch: v.last_update_epoch.into(),
        transient_seed_suffix: v.transient_seed_suffix.into(),
        unused: v.unused.into(),
        validator_seed_suffix: v.validator_seed_suffix.into(),
        status: AccountStakeStatus::try_from(v.status).ok().map(|status| status as u8),
        vote_account_address: Address(v.vote_account_address.to_bytes()),
    }).collect();
    let header = list.header;
    Some(DecodedValidatorList { account_type: header.account_type as u8, max_validators: header.max_validators, validators })
}

/// A stake pool as it stood when its account was read.
#[derive(Debug, PartialEq, Eq)]
pub struct StakePoolSnapshot {
    pub account_type: AccountType,
    /// The account that holds the pool's validator list.
    pub validator_list: Address,
    pub reserve_stake: Address,
    pub pool_mint: Address,
    pub manager_fee_account: Address,
    pub token_program_id: Address,
    /// All lamports under the pool's management.
    pub total_lamports: u64,
    /// All pool tokens in circulation.
    pub pool_token_supply: u64,
    /// The epoch in which the pool's totals were last brought up to date.
    pub last_update_epoch: u64,
    /// The bytes of the account that the snapshot was decoded from.
    pub account_data: Vec<u8>,
}

/// A stake pool snapshot, its bytes as a sequence.
pub struct StakePoolSnapshotView {
    pub account_type: AccountType,
    pub validator_list: Address,
    pub reserve_stake: Address,
    pub pool_mint: Address,
    pub manager_fee_account: Address,
    pub token_program_id: Address,
    pub total_lamports: u64,
    pub pool_token_supply: u64,
    pub last_update_epoch: u64,
    pub account_data: Seq<u8>,
}

impl View for StakePoolSnapshot {
    type V = StakePoolSnapshotView;

    open spec fn view(&self) -> StakePoolSnapshotView {
        StakePoolSnapshotView {
            account_type: self.account_type,
            validator_list: self.validator_list,
            reserve_stake: self.reserve_stake,
            pool_mint: self.pool_mint,
            manager_fee_account: self.manager_fee_account,
            token_program_id: self.token_program_id,
            total_lamports: self.total_lamports,
            pool_token_supply: self.pool_token_supply,
            last_update_epoch: self.last_update_epoch,
            account_data: self.account_data@,
        }
    }
}

/// One validator of a pool, as it stood when the list was read.
#[derive(Clone, Copy, Debug, PartialEq, Eq)]
pub struct ValidatorEntry {
    pub active_stake_lamports: u64,
    pub transient_stake_lamports: u64,
    pub last_update_epoch: u64,
    pub transient_seed_suffix: u64,
    pub unused: u32,
    pub validator_seed_suffix: u32,
    pub status: StakeStatus,
    pub vote_account_address: Address,
}

/// A pool's validator list as it stood when its account was read.
#[derive(Debug, PartialEq, Eq)]
pub struct ValidatorListSnapshot {
    pub header: ValidatorListHeader,
    pub validators: Vec<ValidatorEntry>,
    /// The bytes of the account that the snapshot was decoded from.
    pub account_data: Vec<u8>,
}

/// A validator list snapshot, its entries and bytes as sequences.
pub struct ValidatorListSnapshotView {
    pub header: ValidatorListHeader,
    pub validators: Seq<ValidatorEntry>,
    pub account_data: Seq<u8>,
}

impl View for ValidatorListSnapshot {
    type V = ValidatorListSnapshotView;

    open spec fn view(&self) -> ValidatorListSnapshotView {
        ValidatorListSnapshotView {
            header: self.header,
            validators: self.validators@,
            account_data: self.account_data@,
        }
    }
}

impl ValidatorListSnapshotView {
    /// The list holds no more validators than its header allows.
    pub open spec fn within_capacity(self) -> bool {
        self.validators.len() <= self.header.max_validators
    }
}

/// The snapshot that a decoded stake pool account gives: its account type
/// must be one of the three.
pub open spec fn pool_snapshot(decoded: DecodedStakePool, data: Seq<u8>) -> Option<
    StakePoolSnapshotView,
> {
    match account_type_of(decoded.account_type) {
        None => None,
        Some(account_type) => Some(
            StakePoolSnapshotView {
                account_type,
                validator_list: decoded.validator_list,
                reserve_stake: decoded.reserve_stake,
                pool_mint: decoded.pool_mint,
                manager_fee_account: decoded.manager_fee_account,
                token_program_id: decoded.token_program_id,
                total_lamports: decoded.total_lamports,
                pool_token_supply: decoded.pool_token_supply,
                last_update_epoch: decoded.last_update_epoch,
                account_data: data,
            },
        ),
    }
}

/// The snapshot that the bytes of a stake pool account give: they must
/// decode, and the account type must be one of the three.
pub open spec fn stake_pool_of(data: Seq<u8>) -> Option<StakePoolSnapshotView> {
    match stake_pool_decoding(data) {
        None => None,
        Some(decoded) => pool_snapshot(decoded, data),
    }
}

/// The entry that a decoded validator gives: its status must be one of the
/// five.
pub open spec fn entry_of(decoded: DecodedValidator) -> Option<ValidatorEntry> {
    match decoded.status {
        None => None,
        Some(code) => match status_of(code) {
            None => None,
            Some(status) => Some(
                ValidatorEntry {
                    active_stake_lamports: decoded.active_stake_lamports,
                    transient_stake_lamports: decoded.transient_stake_lamports,
                    last_update_epoch: decoded.last_update_epoch,
                    transient_seed_suffix: decoded.transient_seed_suffix,
                    unused: decoded.unused,
                    validator_seed_suffix: decoded.validator_seed_suffix,
                    status,
                    vote_account_address: decoded.vote_account_address,
                },
            ),
        },
    }
}

/// The entries that decoded validators give, in their order, where each of
/// them gives one.
pub open spec fn entries_of(decoded: Seq<DecodedValidator>) -> Option<Seq<ValidatorEntry>> {
    if forall|i: int| 0 <= i < decoded.len() ==> (#[trigger] entry_of(decoded[i])) is Some {
        Some(decoded.map_values(|v: DecodedValidator| entry_of(v).unwrap()))
    } else {
        None
    }
}

/// The snapshot that a decoded validator list gives: the account type must
/// be one of the three, every status one of the five, and the validators no
/// more than the header allows.
pub open spec fn list_snapshot(decoded: DecodedValidatorListView, data: Seq<u8>) -> Option<
    ValidatorListSnapshotView,
> {
    match (account_type_of(decoded.account_type), entries_of(decoded.validators)) {
        (Some(account_type), Some(validators)) => if validators.len() <= decoded.max_validators {
            Some(
                ValidatorListSnapshotView {
                    header: ValidatorListHeader {
                        account_type,
                        max_validators: decoded.max_validators,
                    },
                    validators,
                    account_data: data,
                },
            )
        } else {
            None
        },
        _ => None,
    }
}

/// The snapshot that the bytes of a validator list account give: they must
/// decode to a list that gives one.
pub open spec fn validator_list_of(data: Seq<u8>) -> Option<ValidatorListSnapshotView> {
    match validator_list_decoding(data) {
        None => None,
        Some(decoded) => list_snapshot(decoded, data),
    }
}

/// What reading a pool comes to, given what the fetch of its account brought.
pub open spec fn read_stake_pool(fetched: Result<Seq<u8>, TransportError>) -> Result<
    StakePoolSnapshotView,
    UpdateError,
> {
    match fetched {
        Err(_) => Err(UpdateError::Transport(Call::AccountData)),
        Ok(data) => match stake_pool_of(data) {
            None => Err(UpdateError::Decode(Account::StakePool)),
            Some(pool) => Ok(pool),
        },
    }
}

/// What reading a validator list comes to, given what the fetch of its
/// account brought.
pub open spec fn read_validator_list(fetched: Result<Seq<u8>, TransportError>) -> Result<
    ValidatorListSnapshotView,
    UpdateError,
> {
    match fetched {
        Err(_) => Err(UpdateError::Transport(Call::AccountData)),
        Ok(data) => match validator_list_of(data) {
            None => Err(UpdateError::Decode(Account::ValidatorList)),
            Some(list) => Ok(list),
        },
    }
}

/// What the reading of a pool came to, in views.
pub open spec fn pool_read_view(read: Result<StakePoolSnapshot, UpdateError>) -> Result<
    StakePoolSnapshotView,
    UpdateError,
> {
    match read {
        Ok(pool) => Ok(pool@),
        Err(error) => Err(error),
    }
}

/// What the reading of a validator list came to, in views.
pub open spec fn list_read_view(read: Result<ValidatorListSnapshot, UpdateError>) -> Result<
    ValidatorListSnapshotView,
    UpdateError,
> {
    match read {
        Ok(list) => Ok(list@),
        Err(error) => Err(error),
    }
}

/// The bytes that a fetch brought, as a sequence.
pub open spec fn fetched_view(fetched: Result<Vec<u8>, TransportError>) -> Result<
    Seq<u8>,
    TransportError,
> {
    match fetched {
        Ok(data) => Ok(data@),
        Err(e) => Err(e),
    }
}

/// Every validator list that the state reader hands out holds no more
/// validators than its header allows.
pub proof fn lemma_validator_list_within_capacity(
    decoded: DecodedValidatorListView,
    data: Seq<u8>,
)
    ensures
        list_snapshot(decoded, data) matches Some(list) ==> list.within_capacity(),
        validator_list_of(data) matches Some(list) ==> list.within_capacity(),
        read_validator_list(Ok(data)) matches Ok(list) ==> list.within_capacity(),
{
}

/// A snapshot keeps the decoded validators as they are, one for one and in
/// their order, with each status as the variant that its byte stands for.
pub proof fn lemma_snapshot_keeps_validators(
    decoded: DecodedValidatorListView,
    data: Seq<u8>,
    i: int,
)
    requires
        list_snapshot(decoded, data) is Some,
        0 <= i < decoded.validators.len(),
    ensures
        list_snapshot(decoded, data).unwrap().validators.len() == decoded.validators.len(),
        entry_of(decoded.validators[i]) == Some(list_snapshot(decoded, data).unwrap().validators[i]),
{
}

/// Reads the entries that decoded validators give: all of them, or none
/// where one of them has no status.
pub fn entries_from(decoded: &Vec<DecodedValidator>) -> (entries: Option<Vec<ValidatorEntry>>)
    ensures
        match entries {
            Some(list) => entries_of(decoded@) == Some(list@),
            None => entries_of(decoded@) is None,
        },
{
    let mut entries: Vec<ValidatorEntry> = Vec::new();
    let mut i: usize = 0;
    while i < decoded.len()
        invariant
            i <= decoded.len(),
            entries@.len() == i,
            forall|k: int| 0 <= k < i ==> entry_of(#[trigger] decoded@[k]) == Some(entries@[k]),
        decreases decoded.len() - i,
    {
        let v = decoded[i];
        let status = match v.status {
            None => None,
            Some(code) => StakeStatus::from_byte(code),
        };
        match status {
            None => {
                assert(entry_of(decoded@[i as int]) is None);
                return None;
            },
            Some(status) => {
                entries.push(
                    ValidatorEntry {
                        active_stake_lamports: v.active_stake_lamports,
                        transient_stake_lamports: v.transient_stake_lamports,
                        last_update_epoch: v.last_update_epoch,
                        transient_seed_suffix: v.transient_seed_suffix,
                        unused: v.unused,
                        validator_seed_suffix: v.validator_seed_suffix,
                        status,
                        vote_account_address: v.vote_account_address,
                    },
                );
            },
        }
        i = i + 1;
    }
    proof {
        assert(entries@ =~= decoded@.map_values(|v: DecodedValidator| entry_of(v).unwrap()));
    }
    Some(entries)
}

impl StakePoolSnapshot {
    /// Makes the snapshot of a decoded stake pool account, keeping the bytes
    /// that it was decoded from.
    pub fn from_decoded(decoded: DecodedStakePool, account_data: Vec<u8>) -> (pool: Option<
        StakePoolSnapshot,
    >)
        ensures
            match pool {
                Some(p) => pool_snapshot(decoded, account_data@) == Some(p@),
                None => pool_snapshot(decoded, account_data@) is None,
            },
    {
        match AccountType::from_byte(decoded.account_type) {
            None => None,
            Some(account_type) => Some(
                StakePoolSnapshot {
                    account_type,
                    validator_list: decoded.validator_list,
                    reserve_stake: decoded.reserve_stake,
                    pool_mint: decoded.pool_mint,
                    manager_fee_account: decoded.manager_fee_account,
                    token_program_id: decoded.token_program_id,
                    total_lamports: decoded.total_lamports,
                    pool_token_supply: decoded.pool_token_supply,
                    last_update_epoch: decoded.last_update_epoch,
                    account_data,
                },
            ),
        }
    }
}

impl ValidatorListSnapshot {
    /// Makes the snapshot of a decoded validator list, keeping the bytes
    /// that it was decoded from. A list with more validators than its header
    /// allows gives none.
    pub fn from_decoded(decoded: DecodedValidatorList, account_data: Vec<u8>) -> (list: Option<
        ValidatorListSnapshot,
    >)
        ensures
            match list {
                Some(l) => list_snapshot(decoded@, account_data@) == Some(l@),
                None => list_snapshot(decoded@, account_data@) is None,
            },
            list is Some ==> list.unwrap()@.within_capacity(),
    {
        let account_type = AccountType::from_byte(decoded.account_type);
        let entries = entries_from(&decoded.validators);
        match (account_type, entries) {
            (Some(account_type), Some(validators)) => {
                if validators.len() <= decoded.max_validators as usize {
                    Some(
                        ValidatorListSnapshot {
                            header: ValidatorListHeader {
                                account_type,
                                max_validators: decoded.max_validators,
                            },
                            validators,
                            account_data,
                        },
                    )
                } else {
                    None
                }
            },
            _ => None,
        }
    }
}

/// Decodes the bytes of a stake pool account.
pub fn stake_pool_from_bytes(data: Vec<u8>) -> (pool: Option<StakePoolSnapshot>)
    ensures
        match pool {
            Some(p) => stake_pool_of(data@) == Some(p@),
            None => stake_pool_of(data@) is None,
        },
{
    match decode_stake_pool(data.as_slice()) {
        None => None,
        Some(decoded) => StakePoolSnapshot::from_decoded(decoded, data),
    }
}

/// Decodes the bytes of a validator list account.
pub fn validator_list_from_bytes(data: Vec<u8>) -> (list: Option<ValidatorListSnapshot>)
    ensures
        match list {
            Some(l) => validator_list_of(data@) == Some(l@),
            None => validator_list_of(data@) is None,
        },
        list is Some ==> list.unwrap()@.within_capacity(),
{
    match decode_validator_list(data.as_slice()) {
        None => None,
        Some(decoded) => ValidatorListSnapshot::from_decoded(decoded, data),
    }
}

/// Reads a pool from what the fetch of its account brought: a failed fetch
/// is a transport error, bytes that hold no pool a decode error.
pub fn get_stake_pool(fetched: Result<Vec<u8>, TransportError>) -> (pool: Result<
    StakePoolSnapshot,
    UpdateError,
>)
    ensures
        pool_read_view(pool) == read_stake_pool(fetched_view(fetched)),
{
    match fetched {
        Err(_) => Err(UpdateError::Transport(Call::AccountData)),
        Ok(data) => match stake_pool_from_bytes(data) {
            None => Err(UpdateError::Decode(Account::StakePool)),
            Some(pool) => Ok(pool),
        },
    }
}

/// Reads a validator list from what the fetch of its account brought: a
/// failed fetch is a transport error; bytes that hold no list, or a list
/// longer than its header allows, a decode error.
pub fn get_validator_list(fetched: Result<Vec<u8>, TransportError>) -> (list: Result<
    ValidatorListSnapshot,
    UpdateError,
>)
    ensures
        list_read_view(list) == read_validator_list(fetched_view(fetched)),
        list is Ok ==> list.unwrap()@.within_capacity(),
{
    match fetched {
        Err(_) => Err(UpdateError::Transport(Call::AccountData)),
        Ok(data) => match validator_list_from_bytes(data) {
            None => Err(UpdateError::Decode(Account::ValidatorList)),
            Some(list) => Ok(list),
        },
    }
}

} // verus!
