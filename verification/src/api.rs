//! The read API: the current validator list of the first configured pool,
//! in the form that HTTP consumers are given.

use crate::address::{base58_address, Address};
use crate::client::{
    fetched_view, get_stake_pool, get_validator_list, list_read_view, pool_read_view,
    read_stake_pool, read_validator_list, StakePoolSnapshot, StakePoolSnapshotView, ValidatorEntry,
    ValidatorListSnapshot, ValidatorListSnapshotView,
};
use crate::encoding::le_bytes;
use crate::error::{TransportError, UpdateError};
use crate::utils::types::{
    status_byte, PodStakeStatus, PodU32, PodU64, ValidatorList, ValidatorListView,
    ValidatorStakeInfo,
};
use vstd::prelude::*;

verus! {

/// Why a request for the validator list is answered with an error.
#[derive(Clone, Copy, Debug, PartialEq, Eq)]
pub enum ApiError {
    NoStakePoolConfigured,
    InvalidStakePoolAddress,
    StakePoolUnavailable,
    ValidatorListUnavailable,
    InternalPanic,
}

/// The text that a client is given for an error. It says which step failed
/// and nothing of why.
pub open spec fn error_text(error: ApiError) -> Seq<char> {
    match error {
        ApiError::NoStakePoolConfigured => "No stake pool addresses configured"@,
        ApiError::InvalidStakePoolAddress => "Invalid stake pool address"@,
        ApiError::StakePoolUnavailable => "Failed to fetch stake pool"@,
        ApiError::ValidatorListUnavailable => "Failed to fetch validator list"@,
        ApiError::InternalPanic => "Internal panic occurred"@,
    }
}

/// The HTTP status of a successful answer.
pub const STATUS_OK: u16 = 200;

/// The HTTP status of every error.
pub const STATUS_INTERNAL_SERVER_ERROR: u16 = 500;

impl ApiError {
    /// The text that a client is given for this error.
    pub fn message(self) -> (text: &'static str)
        ensures
            text@ == error_text(self),
    {
        match self {
            ApiError::NoStakePoolConfigured => "No stake pool addresses configured",
            ApiError::InvalidStakePoolAddress => "Invalid stake pool address",
            ApiError::StakePoolUnavailable => "Failed to fetch stake pool",
            ApiError::ValidatorListUnavailable => "Failed to fetch validator list",
            ApiError::InternalPanic => "Internal panic occurred",
        }
    }
}

/// The HTTP status that answers a request, given how it went.
pub fn response_status(failed: bool) -> (status: u16)
    ensures
        status == if failed {
            STATUS_INTERNAL_SERVER_ERROR
        } else {
            STATUS_OK
        },
{
    if failed {
        STATUS_INTERNAL_SERVER_ERROR
    } else {
        STATUS_OK
    }
}

/// The pool that the read API serves: the first configured one, given what
/// its text was read as.
pub open spec fn served_pool(configured: nat, first: Option<Address>) -> Result<Address, ApiError> {
    if configured == 0 {
        Err(ApiError::NoStakePoolConfigured)
    } else {
        match first {
            None => Err(ApiError::InvalidStakePoolAddress),
            Some(address) => Ok(address),
        }
    }
}

/// The texts of a list of strings.
pub open spec fn texts(list: Seq<String>) -> Seq<Seq<char>> {
    list.map_values(|s: String| s@)
}

/// Picks the pool that the read API serves, given how many pools are
/// configured and what the text of the first was read as.
pub fn pool_to_serve(configured: usize, first: Option<Address>) -> (pool: Result<Address, ApiError>)
    ensures
        pool == served_pool(configured as nat, first),
{
    if configured == 0 {
        Err(ApiError::NoStakePoolConfigured)
    } else {
        match first {
            None => Err(ApiError::InvalidStakePoolAddress),
            Some(address) => Ok(address),
        }
    }
}

/// Picks the pool that the read API serves: the first configured one.
pub fn first_pool_address(addresses: &Vec<String>) -> (pool: Result<Address, ApiError>)
    ensures
        pool == served_pool(
            addresses@.len(),
            if addresses@.len() > 0 {
                base58_address(addresses@[0]@)
            } else {
                None
            },
        ),
{
    if addresses.len() == 0 {
        pool_to_serve(0, None)
    } else {
        pool_to_serve(addresses.len(), Address::from_base58(addresses[0].as_str()))
    }
}

/// The account of a pool's validator list, given what the reading of the
/// pool came to.
pub open spec fn list_of_pool(read: Result<StakePoolSnapshotView, UpdateError>) -> Result<
    Address,
    ApiError,
> {
    match read {
        Ok(pool) => Ok(pool.validator_list),
        Err(_) => Err(ApiError::StakePoolUnavailable),
    }
}

/// The account of a pool's validator list, given what the reading of the
/// pool came to.
pub fn validator_list_of_pool(read: Result<StakePoolSnapshot, UpdateError>) -> (list: Result<
    Address,
    ApiError,
>)
    ensures
        list == list_of_pool(pool_read_view(read)),
{
    match read {
        Ok(pool) => Ok(pool.validator_list),
        Err(_) => Err(ApiError::StakePoolUnavailable),
    }
}

/// The account of the pool's validator list, given what the fetch of the
/// pool's account brought.
pub fn validator_list_address(fetched: Result<Vec<u8>, TransportError>) -> (list: Result<
    Address,
    ApiError,
>)
    ensures
        list == list_of_pool(read_stake_pool(fetched_view(fetched))),
{
    validator_list_of_pool(get_stake_pool(fetched))
}

/// A validator is published with each number as its little-endian bytes,
/// the status as its byte, and the vote account as it is.
pub open spec fn published_as(entry: ValidatorEntry, info: ValidatorStakeInfo) -> bool {
    &&& info.active_stake_lamports.0@ == le_bytes(entry.active_stake_lamports as nat, 8)
    &&& info.transient_stake_lamports.0@ == le_bytes(entry.transient_stake_lamports as nat, 8)
    &&& info.last_update_epoch.0@ == le_bytes(entry.last_update_epoch as nat, 8)
    &&& info.transient_seed_suffix.0@ == le_bytes(entry.transient_seed_suffix as nat, 8)
    &&& info.unused.0@ == le_bytes(entry.unused as nat, 4)
    &&& info.validator_seed_suffix.0@ == le_bytes(entry.validator_seed_suffix as nat, 4)
    &&& info.status.0 == status_byte(entry.status)
    &&& info.vote_account_address == entry.vote_account_address
}

/// A list is published with its header as it is and its validators one for
/// one, in their order.
pub open spec fn list_published_as(list: ValidatorListSnapshotView, wire: ValidatorListView) -> bool {
    &&& wire.header == list.header
    &&& wire.validators.len() == list.validators.len()
    &&& forall|i: int|
        0 <= i < list.validators.len() ==> published_as(
            #[trigger] list.validators[i],
            wire.validators[i],
        )
}

/// A validator is published in one way only.
pub proof fn lemma_published_once(entry: ValidatorEntry, a: ValidatorStakeInfo, b: ValidatorStakeInfo)
    requires
        published_as(entry, a),
        published_as(entry, b),
    ensures
        a == b,
{
    assert(a.active_stake_lamports.0 =~= b.active_stake_lamports.0);
    assert(a.transient_stake_lamports.0 =~= b.transient_stake_lamports.0);
    assert(a.last_update_epoch.0 =~= b.last_update_epoch.0);
    assert(a.transient_seed_suffix.0 =~= b.transient_seed_suffix.0);
    assert(a.unused.0 =~= b.unused.0);
    assert(a.validator_seed_suffix.0 =~= b.validator_seed_suffix.0);
}

/// A list is published in one way only, and the published list holds no
/// more validators than its header allows where the snapshot does not.
pub proof fn lemma_list_published_once(
    list: ValidatorListSnapshotView,
    a: ValidatorListView,
    b: ValidatorListView,
)
    requires
        list_published_as(list, a),
        list_published_as(list, b),
    ensures
        a == b,
        list.within_capacity() ==> a.within_capacity(),
{
    assert forall|i: int| 0 <= i < a.validators.len() implies a.validators[i] == b.validators[i] by {
        lemma_published_once(list.validators[i], a.validators[i], b.validators[i]);
    }
    assert(a.validators =~= b.validators);
}

/// Publishes one validator.
pub fn publish_validator(entry: &ValidatorEntry) -> (info: ValidatorStakeInfo)
    ensures
        published_as(*entry, info),
{
    ValidatorStakeInfo {
        active_stake_lamports: PodU64::from_primitive(entry.active_stake_lamports),
        transient_stake_lamports: PodU64::from_primitive(entry.transient_stake_lamports),
        last_update_epoch: PodU64::from_primitive(entry.last_update_epoch),
        transient_seed_suffix: PodU64::from_primitive(entry.transient_seed_suffix),
        unused: PodU32::from_primitive(entry.unused),
        validator_seed_suffix: PodU32::from_primitive(entry.validator_seed_suffix),
        status: PodStakeStatus::from_status(entry.status),
        vote_account_address: entry.vote_account_address,
    }
}

/// Publishes a validator list.
pub fn publish_validator_list(list: &ValidatorListSnapshot) -> (wire: ValidatorList)
    ensures
        list_published_as(list@, wire@),
        list@.within_capacity() ==> wire@.within_capacity(),
{
    let mut validators: Vec<ValidatorStakeInfo> = Vec::new();
    let mut i: usize = 0;
    while i < list.validators.len()
        invariant
            i <= list.validators.len(),
            validators@.len() == i,
            forall|k: int| 0 <= k < i ==> published_as(#[trigger] list.validators@[k], validators@[k]),
        decreases list.validators.len() - i,
    {
        validators.push(publish_validator(&list.validators[i]));
        i = i + 1;
    }
    ValidatorList { header: list.header, validators }
}

/// The answer to a request for the validator list agrees with what the
/// reading of the list came to: the list is published, or the client is
/// told that it could not be had.
pub open spec fn answers(
    answer: Result<ValidatorList, ApiError>,
    read: Result<ValidatorListSnapshotView, UpdateError>,
) -> bool {
    match read {
        Ok(list) => answer is Ok && list_published_as(list, answer.unwrap()@),
        Err(_) => answer == Err::<ValidatorList, ApiError>(ApiError::ValidatorListUnavailable),
    }
}

/// Answers a request for the validator list, given what the reading of the
/// list came to.
pub fn publish(read: Result<ValidatorListSnapshot, UpdateError>) -> (answer: Result<
    ValidatorList,
    ApiError,
>)
    ensures
        answers(answer, list_read_view(read)),
        read is Ok && read.unwrap()@.within_capacity() ==> answer.unwrap()@.within_capacity(),
{
    match read {
        Ok(list) => Ok(publish_validator_list(&list)),
        Err(_) => Err(ApiError::ValidatorListUnavailable),
    }
}

/// Answers a request for the validator list, given what the fetch of the
/// list's account brought: the published list, or the error that the client
/// is told.
pub fn get_validators(fetched: Result<Vec<u8>, TransportError>) -> (answer: Result<
    ValidatorList,
    ApiError,
>)
    ensures
        answers(answer, read_validator_list(fetched_view(fetched))),
        answer is Ok ==> answer.unwrap()@.within_capacity(),
{
    publish(get_validator_list(fetched))
}

} // verus!
