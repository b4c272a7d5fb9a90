use solana_pubkey::Pubkey;
use spl_stake_pool::state::{
    AccountType as AccountKind, StakePool, StakeStatus as AccountStatus, ValidatorList as ListAccount,
    ValidatorListHeader as ListHeader, ValidatorStakeInfo as ListEntry,
};
use stake_pool_updater::address::Address;
use stake_pool_updater::api::{
    first_pool_address, get_validators, publish_validator, publish_validator_list, response_status,
    validator_list_address, ApiError,
};
use stake_pool_updater::client::{
    get_stake_pool, get_validator_list, stake_pool_from_bytes, validator_list_from_bytes,
    ValidatorEntry,
};
use stake_pool_updater::error::{Account, Call, TransportError, UpdateError};
use stake_pool_updater::utils::types::{
    AccountType, PodStakeStatus, PodU32, PodU64, StakeStatus, ValidatorListHeader,
};

fn key(seed: u8) -> Pubkey {
    Pubkey::from([seed; 32])
}

fn pool_account(last_update_epoch: u64) -> StakePool {
    StakePool {
        account_type: AccountKind::StakePool,
        validator_list: key(2),
        reserve_stake: key(3),
        pool_mint: key(4),
        manager_fee_account: key(5),
        token_program_id: key(6),
        total_lamports: 1_000_000,
        pool_token_supply: 900_000,
        last_update_epoch,
        ..StakePool::default()
    }
}

fn entry(seed: u8, last_update_epoch: u64, status: AccountStatus) -> ListEntry {
    ListEntry {
        active_stake_lamports: (1_000u64 + seed as u64).into(),
        transient_stake_lamports: (2_000u64 + seed as u64).into(),
        last_update_epoch: last_update_epoch.into(),
        transient_seed_suffix: (7u64 + seed as u64).into(),
        unused: 0u32.into(),
        validator_seed_suffix: (seed as u32).into(),
        status: status.into(),
        vote_account_address: key(100 + seed),
    }
}

fn list_account(max_validators: u32, validators: Vec<ListEntry>) -> ListAccount {
    ListAccount {
        header: ListHeader { account_type: AccountKind::ValidatorList, max_validators },
        validators,
    }
}

fn bytes_of_pool(pool: &StakePool) -> Vec<u8> {
    borsh::to_vec(pool).unwrap()
}

fn bytes_of_list(list: &ListAccount) -> Vec<u8> {
    borsh::to_vec(list).unwrap()
}

#[test]
fn stake_pool_is_decoded_from_its_account() {
    let data = bytes_of_pool(&pool_account(500));
    let pool = get_stake_pool(Ok(data.clone())).unwrap();
    assert_eq!(pool.account_type, AccountType::StakePool);
    assert_eq!(pool.validator_list, Address([2; 32]));
    assert_eq!(pool.reserve_stake, Address([3; 32]));
    assert_eq!(pool.pool_mint, Address([4; 32]));
    assert_eq!(pool.manager_fee_account, Address([5; 32]));
    assert_eq!(pool.token_program_id, Address([6; 32]));
    assert_eq!(pool.total_lamports, 1_000_000);
    assert_eq!(pool.pool_token_supply, 900_000);
    assert_eq!(pool.last_update_epoch, 500);
    assert_eq!(pool.account_data, data);
}

#[test]
fn stake_pool_decoding_ignores_trailing_bytes() {
    let mut data = bytes_of_pool(&pool_account(77));
    data.extend_from_slice(&[0u8; 64]);
    let pool = stake_pool_from_bytes(data).unwrap();
    assert_eq!(pool.last_update_epoch, 77);
}

#[test]
fn stake_pool_fetch_failure_is_a_transport_error() {
    assert_eq!(
        get_stake_pool(Err(TransportError)),
        Err(UpdateError::Transport(Call::AccountData))
    );
}

#[test]
fn malformed_stake_pool_is_a_decode_error() {
    assert_eq!(get_stake_pool(Ok(vec![])), Err(UpdateError::Decode(Account::StakePool)));
    assert_eq!(get_stake_pool(Ok(vec![1, 2, 3])), Err(UpdateError::Decode(Account::StakePool)));
    let mut data = bytes_of_pool(&pool_account(1));
    data[0] = 9;
    assert_eq!(get_stake_pool(Ok(data)), Err(UpdateError::Decode(Account::StakePool)));
    let mut short = bytes_of_pool(&pool_account(1));
    short.truncate(100);
    assert_eq!(stake_pool_from_bytes(short), None);
}

#[test]
fn validator_list_is_decoded_from_its_account() {
    let account = list_account(
        10,
        vec![
            entry(1, 499, AccountStatus::Active),
            entry(2, 500, AccountStatus::DeactivatingTransient),
            entry(3, 498, AccountStatus::ReadyForRemoval),
        ],
    );
    let data = bytes_of_list(&account);
    let list = get_validator_list(Ok(data.clone())).unwrap();
    assert_eq!(
        list.header,
        ValidatorListHeader { account_type: AccountType::ValidatorList, max_validators: 10 }
    );
    assert_eq!(list.validators.len(), 3);
    assert_eq!(
        list.validators[0],
        ValidatorEntry {
            active_stake_lamports: 1_001,
            transient_stake_lamports: 2_001,
            last_update_epoch: 499,
            transient_seed_suffix: 8,
            unused: 0,
            validator_seed_suffix: 1,
            status: StakeStatus::Active,
            vote_account_address: Address([101; 32]),
        }
    );
    assert_eq!(list.validators[1].status, StakeStatus::DeactivatingTransient);
    assert_eq!(list.validators[1].last_update_epoch, 500);
    assert_eq!(list.validators[2].status, StakeStatus::ReadyForRemoval);
    assert_eq!(list.validators[2].vote_account_address, Address([103; 32]));
    assert_eq!(list.account_data, data);
}

#[test]
fn every_status_is_decoded() {
    let statuses = [
        (AccountStatus::Active, StakeStatus::Active, 0u8),
        (AccountStatus::DeactivatingTransient, StakeStatus::DeactivatingTransient, 1),
        (AccountStatus::ReadyForRemoval, StakeStatus::ReadyForRemoval, 2),
        (AccountStatus::DeactivatingValidator, StakeStatus::DeactivatingValidator, 3),
        (AccountStatus::DeactivatingAll, StakeStatus::DeactivatingAll, 4),
    ];
    for (on_chain, expected, byte) in statuses {
        let data = bytes_of_list(&list_account(1, vec![entry(1, 1, on_chain)]));
        let list = validator_list_from_bytes(data).unwrap();
        assert_eq!(list.validators[0].status, expected);
        assert_eq!(expected.to_byte(), byte);
        assert_eq!(StakeStatus::from_byte(byte), Some(expected));
        assert_eq!(PodStakeStatus::from_status(expected), PodStakeStatus(byte));
        assert_eq!(PodStakeStatus(byte).status(), Some(expected));
    }
    assert_eq!(StakeStatus::from_byte(5), None);
    assert_eq!(PodStakeStatus(200).status(), None);
}

#[test]
fn account_types_by_byte() {
    assert_eq!(AccountType::from_byte(0), Some(AccountType::Uninitialized));
    assert_eq!(AccountType::from_byte(1), Some(AccountType::StakePool));
    assert_eq!(AccountType::from_byte(2), Some(AccountType::ValidatorList));
    assert_eq!(AccountType::from_byte(3), None);
    assert_eq!(AccountType::default(), AccountType::Uninitialized);
    let uninitialized = bytes_of_list(&ListAccount::default());
    let list = validator_list_from_bytes(uninitialized).unwrap();
    assert_eq!(list.header.account_type, AccountType::Uninitialized);
    assert_eq!(list.header.max_validators, 0);
    assert!(list.validators.is_empty());
}

#[test]
fn validator_list_never_exceeds_its_capacity() {
    let full = bytes_of_list(&list_account(
        2,
        vec![entry(1, 1, AccountStatus::Active), entry(2, 1, AccountStatus::Active)],
    ));
    let list = get_validator_list(Ok(full)).unwrap();
    assert!(list.validators.len() <= list.header.max_validators as usize);

    let overfull = bytes_of_list(&list_account(
        1,
        vec![entry(1, 1, AccountStatus::Active), entry(2, 1, AccountStatus::Active)],
    ));
    assert_eq!(
        get_validator_list(Ok(overfull)),
        Err(UpdateError::Decode(Account::ValidatorList))
    );
}

#[test]
fn validator_with_unknown_status_is_a_decode_error() {
    let mut data = bytes_of_list(&list_account(4, vec![entry(1, 1, AccountStatus::Active)]));
    // header: 1 + 4 bytes; length of the list: 4 bytes; the status is byte 40 of an entry
    let status_at = 1 + 4 + 4 + 40;
    assert_eq!(data[status_at], 0);
    data[status_at] = 9;
    assert_eq!(get_validator_list(Ok(data)), Err(UpdateError::Decode(Account::ValidatorList)));
}

#[test]
fn validator_list_failures() {
    assert_eq!(
        get_validator_list(Err(TransportError)),
        Err(UpdateError::Transport(Call::AccountData))
    );
    assert_eq!(
        get_validator_list(Ok(vec![2, 0, 0])),
        Err(UpdateError::Decode(Account::ValidatorList))
    );
    let mut cut = bytes_of_list(&list_account(4, vec![entry(1, 1, AccountStatus::Active)]));
    cut.truncate(40);
    assert_eq!(validator_list_from_bytes(cut), None);
}

#[test]
fn validators_are_published_as_little_endian_bytes() {
    let decoded = ValidatorEntry {
        active_stake_lamports: 0x0102_0304_0506_0708,
        transient_stake_lamports: 500,
        last_update_epoch: 501,
        transient_seed_suffix: u64::MAX,
        unused: 0,
        validator_seed_suffix: 0xAABB_CCDD,
        status: StakeStatus::DeactivatingValidator,
        vote_account_address: Address([9; 32]),
    };
    let published = publish_validator(&decoded);
    assert_eq!(published.active_stake_lamports, PodU64([8, 7, 6, 5, 4, 3, 2, 1]));
    assert_eq!(published.transient_stake_lamports, PodU64(500u64.to_le_bytes()));
    assert_eq!(published.last_update_epoch, PodU64([0xF5, 1, 0, 0, 0, 0, 0, 0]));
    assert_eq!(published.transient_seed_suffix, PodU64([255; 8]));
    assert_eq!(published.unused, PodU32([0; 4]));
    assert_eq!(published.validator_seed_suffix, PodU32([0xDD, 0xCC, 0xBB, 0xAA]));
    assert_eq!(published.status, PodStakeStatus(3));
    assert_eq!(published.vote_account_address, Address([9; 32]));
    assert_eq!(published.active_stake_lamports.get(), 0x0102_0304_0506_0708);
    assert_eq!(published.validator_seed_suffix.get(), 0xAABB_CCDD);
    assert_eq!(PodU64::from_primitive(77).get(), 77);
    assert_eq!(PodU32::from_primitive(78).get(), 78);
}

#[test]
fn published_list_mirrors_the_account() {
    let account = list_account(
        5,
        vec![
            entry(1, 499, AccountStatus::Active),
            entry(2, 500, AccountStatus::DeactivatingAll),
            entry(3, 498, AccountStatus::DeactivatingValidator),
        ],
    );
    let published = get_validators(Ok(bytes_of_list(&account))).unwrap();
    assert_eq!(published.header.account_type, AccountType::ValidatorList);
    assert_eq!(published.header.max_validators, 5);
    assert_eq!(published.validators.len(), 3);
    assert!(published.validators.len() <= published.header.max_validators as usize);
    for (wire, on_chain) in published.validators.iter().zip(account.validators.iter()) {
        assert_eq!(wire.active_stake_lamports.0, on_chain.active_stake_lamports.0);
        assert_eq!(wire.transient_stake_lamports.0, on_chain.transient_stake_lamports.0);
        assert_eq!(wire.last_update_epoch.0, on_chain.last_update_epoch.0);
        assert_eq!(wire.transient_seed_suffix.0, on_chain.transient_seed_suffix.0);
        assert_eq!(wire.unused.0, on_chain.unused.0);
        assert_eq!(wire.validator_seed_suffix.0, on_chain.validator_seed_suffix.0);
        assert_eq!(vec![wire.status.0], borsh::to_vec(&on_chain.status).unwrap());
        assert_eq!(wire.vote_account_address.0, on_chain.vote_account_address.to_bytes());
    }
    assert_eq!(published.validators[1].status, PodStakeStatus(4));
    let snapshot = validator_list_from_bytes(bytes_of_list(&account)).unwrap();
    assert_eq!(publish_validator_list(&snapshot), published);
}

#[test]
fn read_api_errors_say_which_step_failed() {
    assert_eq!(get_validators(Err(TransportError)), Err(ApiError::ValidatorListUnavailable));
    assert_eq!(get_validators(Ok(vec![1])), Err(ApiError::ValidatorListUnavailable));
    assert_eq!(validator_list_address(Err(TransportError)), Err(ApiError::StakePoolUnavailable));
    assert_eq!(validator_list_address(Ok(vec![])), Err(ApiError::StakePoolUnavailable));
    assert_eq!(
        validator_list_address(Ok(bytes_of_pool(&pool_account(3)))),
        Ok(Address([2; 32]))
    );
    assert_eq!(ApiError::NoStakePoolConfigured.message(), "No stake pool addresses configured");
    assert_eq!(ApiError::InvalidStakePoolAddress.message(), "Invalid stake pool address");
    assert_eq!(ApiError::StakePoolUnavailable.message(), "Failed to fetch stake pool");
    assert_eq!(ApiError::ValidatorListUnavailable.message(), "Failed to fetch validator list");
    assert_eq!(ApiError::InternalPanic.message(), "Internal panic occurred");
    assert_eq!(response_status(false), 200);
    assert_eq!(response_status(true), 500);
}

#[test]
fn read_api_serves_the_first_pool() {
    let none: Vec<String> = Vec::new();
    assert_eq!(first_pool_address(&none), Err(ApiError::NoStakePoolConfigured));
    assert_eq!(
        first_pool_address(&vec!["nonsense".to_string()]),
        Err(ApiError::InvalidStakePoolAddress)
    );
    let first = key(11).to_string();
    let second = key(12).to_string();
    assert_eq!(first_pool_address(&vec![first, second]), Ok(Address([11; 32])));
}
