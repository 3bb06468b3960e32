use vesting::engine::{evaluate_claim, vested_amount};
use vesting::error::ErrorCode;
use vesting::identity::Identity;
use vesting::state::EmployeeAccount;
use vesting::store::VestingStore;

fn id(b: u8) -> Identity {
    Identity::from_bytes(vec![b; 32])
}

fn schedule(total: u64, start: i64, cliff: i64, end: i64, withdrawn: u64, revoked: bool) -> EmployeeAccount {
    EmployeeAccount {
        beneficiary: id(2),
        vesting_account: id(9),
        total_amount: total,
        total_withdrawn: withdrawn,
        start_time: start,
        cliff_time: cliff,
        end_time: end,
        revoked,
        bump: 0,
    }
}

fn store_with_schedule(total: u64, start: i64, cliff: i64, end: i64) -> (VestingStore, Identity) {
    let mut store = VestingStore::new(id(7));
    let ledger = store
        .init_vesting(b"acme".to_vec(), &id(3), &id(1))
        .expect("ledger");
    store
        .add_employee(&ledger, &id(2), total, start, cliff, end, &id(1))
        .expect("schedule");
    (store, ledger)
}

#[test]
fn vested_amount_is_linear_between_cliff_and_end() {
    assert_eq!(vested_amount(1000, 0, 1000, 100), 100);
    assert_eq!(vested_amount(1000, 0, 1000, 250), 250);
    assert_eq!(vested_amount(1000, 0, 1000, 999), 999);
    assert_eq!(vested_amount(900, 100, 1100, 600), 450);
}

#[test]
fn vested_amount_rounds_down() {
    assert_eq!(vested_amount(10, 0, 3, 1), 3);
    assert_eq!(vested_amount(10, 0, 3, 2), 6);
    assert_eq!(vested_amount(7, 0, 9, 4), 3);
}

#[test]
fn vested_amount_is_total_from_end_time_on() {
    assert_eq!(vested_amount(1000, 0, 1000, 1000), 1000);
    assert_eq!(vested_amount(1000, 0, 1000, i64::MAX), 1000);
    assert_eq!(vested_amount(u64::MAX, -5, 5, 5), u64::MAX);
}

#[test]
fn vested_amount_is_zero_before_start() {
    assert_eq!(vested_amount(1000, 100, 200, 50), 0);
    assert_eq!(vested_amount(1000, 0, 1000, 0), 0);
}

#[test]
fn vested_amount_handles_extreme_windows() {
    assert_eq!(vested_amount(u64::MAX, i64::MIN, i64::MAX, 0), u64::MAX / 2 + 1);
}

#[test]
fn claim_before_cliff_fails_with_temporal_error() {
    let e = schedule(1000, 0, 100, 1000, 0, false);
    assert_eq!(evaluate_claim(&e, 50), Err(ErrorCode::ClaimNotAvailable));
    let rich = schedule(u64::MAX, 0, 100, 1000, 17, false);
    assert_eq!(evaluate_claim(&rich, 99), Err(ErrorCode::ClaimNotAvailable));
}

#[test]
fn claim_on_revoked_schedule_fails_with_state_error() {
    let e = schedule(1000, 0, 100, 1000, 0, true);
    assert_eq!(evaluate_claim(&e, 50), Err(ErrorCode::EmployeeRevoked));
    assert_eq!(evaluate_claim(&e, 500), Err(ErrorCode::EmployeeRevoked));
    assert_eq!(evaluate_claim(&e, i64::MAX), Err(ErrorCode::EmployeeRevoked));
}

#[test]
fn claim_with_empty_window_fails_with_configuration_error() {
    let e = schedule(1000, 500, 0, 500, 0, false);
    assert_eq!(evaluate_claim(&e, 600), Err(ErrorCode::InvalidVestingDuration));
    let inverted = schedule(1000, 500, 0, 400, 0, false);
    assert_eq!(evaluate_claim(&inverted, 600), Err(ErrorCode::InvalidVestingDuration));
}

#[test]
fn claim_with_nothing_vested_fails_with_empty_claim_error() {
    let drained = schedule(1000, 0, 100, 1000, 1000, false);
    assert_eq!(evaluate_claim(&drained, 1500), Err(ErrorCode::NothingToClaim));
    let empty = schedule(0, 0, 100, 1000, 0, false);
    assert_eq!(evaluate_claim(&empty, 500), Err(ErrorCode::NothingToClaim));
}

#[test]
fn scenario_linear_claims() {
    let (mut store, ledger) = store_with_schedule(1000, 0, 100, 1000);
    let company = b"acme".to_vec();
    let beneficiary = id(2);

    assert_eq!(
        store.claim_tokens(&company, &beneficiary, &beneficiary, 50),
        Err(ErrorCode::ClaimNotAvailable)
    );
    assert_eq!(store.claim_tokens(&company, &beneficiary, &beneficiary, 100), Ok(100));
    assert_eq!(store.get_employee(&ledger, &beneficiary).unwrap().total_withdrawn, 100);
    assert_eq!(store.claim_tokens(&company, &beneficiary, &beneficiary, 500), Ok(400));
    assert_eq!(store.get_employee(&ledger, &beneficiary).unwrap().total_withdrawn, 500);
    assert_eq!(store.claim_tokens(&company, &beneficiary, &beneficiary, 1000), Ok(500));
    assert_eq!(store.get_employee(&ledger, &beneficiary).unwrap().total_withdrawn, 1000);
    assert_eq!(
        store.claim_tokens(&company, &beneficiary, &beneficiary, 1500),
        Err(ErrorCode::NothingToClaim)
    );
    assert_eq!(store.get_employee(&ledger, &beneficiary).unwrap().total_withdrawn, 1000);
}

#[test]
fn scenario_revocation_freezes_withdrawals() {
    let (mut store, ledger) = store_with_schedule(1000, 0, 100, 1000);
    let company = b"acme".to_vec();
    let beneficiary = id(2);
    let owner = id(1);

    assert_eq!(store.claim_tokens(&company, &beneficiary, &beneficiary, 100), Ok(100));
    assert_eq!(store.claim_tokens(&company, &beneficiary, &beneficiary, 500), Ok(400));
    assert_eq!(store.revoke_employee(&ledger, &beneficiary, &owner), Ok(()));
    assert_eq!(
        store.claim_tokens(&company, &beneficiary, &beneficiary, 1000),
        Err(ErrorCode::EmployeeRevoked)
    );
    let e = store.get_employee(&ledger, &beneficiary).unwrap();
    assert_eq!(e.total_withdrawn, 500);
    assert_eq!(e.total_amount, 1000);
    assert!(e.revoked);
}

#[test]
fn scenario_registration_by_stranger_is_rejected() {
    let mut store = VestingStore::new(id(7));
    let ledger = store.init_vesting(b"acme".to_vec(), &id(3), &id(1)).unwrap();
    let intruder = id(8);
    assert!(matches!(
        store.add_employee(&ledger, &id(2), 1000, 0, 100, 1000, &intruder),
        Err(ErrorCode::Unauthorized)
    ));
    assert!(store.get_employee(&ledger, &id(2)).is_none());
}

#[test]
fn revocation_is_idempotent_and_owner_only() {
    let (mut store, ledger) = store_with_schedule(1000, 0, 100, 1000);
    let beneficiary = id(2);
    let owner = id(1);
    assert_eq!(
        store.revoke_employee(&ledger, &beneficiary, &beneficiary),
        Err(ErrorCode::Unauthorized)
    );
    assert_eq!(store.revoke_employee(&ledger, &beneficiary, &owner), Ok(()));
    assert_eq!(store.revoke_employee(&ledger, &beneficiary, &owner), Ok(()));
    let e = store.get_employee(&ledger, &beneficiary).unwrap();
    assert!(e.revoked);
    assert_eq!(e.total_withdrawn, 0);
}

#[test]
fn claim_by_stranger_is_rejected() {
    let (mut store, ledger) = store_with_schedule(1000, 0, 100, 1000);
    let company = b"acme".to_vec();
    let beneficiary = id(2);
    let intruder = id(8);
    assert_eq!(
        store.claim_tokens(&company, &beneficiary, &intruder, 500),
        Err(ErrorCode::Unauthorized)
    );
    assert_eq!(store.get_employee(&ledger, &beneficiary).unwrap().total_withdrawn, 0);
}

#[test]
fn claim_against_unknown_company_is_rejected() {
    let (mut store, _ledger) = store_with_schedule(1000, 0, 100, 1000);
    let beneficiary = id(2);
    assert_eq!(
        store.claim_tokens(&b"umbrella".to_vec(), &beneficiary, &beneficiary, 500),
        Err(ErrorCode::AccountNotFound)
    );
}

#[test]
fn duplicate_ledger_is_rejected() {
    let mut store = VestingStore::new(id(7));
    store.init_vesting(b"acme".to_vec(), &id(3), &id(1)).unwrap();
    assert!(matches!(
        store.init_vesting(b"acme".to_vec(), &id(3), &id(1)),
        Err(ErrorCode::AlreadyExists)
    ));
    assert!(matches!(
        store.init_vesting(b"acme".to_vec(), &id(4), &id(5)),
        Err(ErrorCode::AlreadyExists)
    ));
}

#[test]
fn duplicate_schedule_is_rejected() {
    let (mut store, ledger) = store_with_schedule(1000, 0, 100, 1000);
    assert!(matches!(
        store.add_employee(&ledger, &id(2), 500, 0, 0, 10, &id(1)),
        Err(ErrorCode::AlreadyExists)
    ));
}

#[test]
fn schedule_under_unknown_ledger_is_rejected() {
    let mut store = VestingStore::new(id(7));
    assert!(matches!(
        store.add_employee(&id(9), &id(2), 1000, 0, 100, 1000, &id(1)),
        Err(ErrorCode::AccountNotFound)
    ));
}

#[test]
fn over_long_company_name_is_rejected() {
    let mut store = VestingStore::new(id(7));
    assert!(matches!(
        store.init_vesting(vec![97; 101], &id(3), &id(1)),
        Err(ErrorCode::CompanyNameTooLong)
    ));
}

#[test]
fn derived_identities_are_real_addresses() {
    let mut store = VestingStore::new(id(7));
    let acme = store.init_vesting(b"acme".to_vec(), &id(3), &id(1)).unwrap();
    let umbrella = store.init_vesting(b"umbrella".to_vec(), &id(3), &id(1)).unwrap();
    assert_eq!(acme.bytes.len(), 32);
    assert_eq!(umbrella.bytes.len(), 32);
    assert_ne!(acme.bytes, umbrella.bytes);
    assert_ne!(acme.bytes, vec![7; 32]);
    let ledger = store.get_ledger(&acme).unwrap();
    assert_eq!(ledger.treasury_token_account.bytes.len(), 32);
    assert_ne!(ledger.treasury_token_account.bytes, acme.bytes);
    assert_eq!(ledger.token_amount, 0);
}

#[test]
fn ledger_records_its_creation_arguments() {
    let mut store = VestingStore::new(id(7));
    let ledger = store.init_vesting(b"acme".to_vec(), &id(3), &id(1)).unwrap();
    let account = store.get_ledger(&ledger).unwrap();
    assert_eq!(account.company_name, b"acme".to_vec());
    assert_eq!(account.owner.bytes, vec![1; 32]);
    assert_eq!(account.mint.bytes, vec![3; 32]);
}

#[test]
fn schedule_records_its_creation_arguments() {
    let (store, ledger) = store_with_schedule(1000, -5, 100, 1000);
    let e = store.get_employee(&ledger, &id(2)).unwrap();
    assert_eq!(e.beneficiary.bytes, vec![2; 32]);
    assert_eq!(e.vesting_account.bytes, ledger.bytes);
    assert_eq!(e.total_amount, 1000);
    assert_eq!(e.total_withdrawn, 0);
    assert_eq!(e.start_time, -5);
    assert_eq!(e.cliff_time, 100);
    assert_eq!(e.end_time, 1000);
    assert!(!e.revoked);
}
