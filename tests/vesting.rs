use vesting::admission::create_vesting_accounts;
use vesting::contract::Vesting;
use vesting::curve::{Curve, SaturatingLinear};
use vesting::error::ContractError;
use vesting::storage::{Address, DistributionInfo, MinterInfo, VestingBalance, VestingInfo, VestingTokenInfo};

const ADMIN: Address = Address { id: 1 };
const ALICE: Address = Address { id: 2 };
const BOB: Address = Address { id: 3 };
const MINTER: Address = Address { id: 4 };
const TOKEN: Address = Address { id: 100 };

fn token_info() -> VestingTokenInfo {
    VestingTokenInfo {
        name: String::from("Phoenix"),
        symbol: String::from("PHO"),
        decimals: 6,
        address: TOKEN,
    }
}

fn schedule(rcpt: Address, start: u64, end: u64, amount: u128) -> VestingBalance {
    VestingBalance {
        rcpt_address: rcpt,
        distribution_info: DistributionInfo {
            start_timestamp: start,
            end_timestamp: end,
            amount,
        },
    }
}

fn active(balances: Vec<VestingBalance>, minter: Option<MinterInfo>) -> Vesting {
    let mut v = Vesting::new();
    let total: u128 = balances.iter().map(|b| b.distribution_info.amount).sum();
    assert_eq!(
        v.initialize(ADMIN, token_info(), balances, minter, 10, total as i128, 0),
        Ok(total)
    );
    v
}

#[test]
fn constant_curve_is_flat() {
    let c = Curve::Constant(42);
    assert_eq!(c.value(0), 42);
    assert_eq!(c.value(u64::MAX), 42);
}

#[test]
fn saturating_linear_clamps_and_interpolates() {
    let s = SaturatingLinear { min_x: 1000, min_y: 100_000, max_x: 2000, max_y: 0 };
    assert_eq!(s.value(0), 100_000);
    assert_eq!(s.value(1000), 100_000);
    assert_eq!(s.value(1250), 75_000);
    assert_eq!(s.value(1500), 50_000);
    assert_eq!(s.value(2000), 0);
    assert_eq!(s.value(3000), 0);
    // rounds towards min_y
    let odd = SaturatingLinear { min_x: 0, min_y: 10, max_x: 3, max_y: 0 };
    assert_eq!(odd.value(1), 7);
    assert_eq!(odd.value(2), 4);
    let rising = SaturatingLinear { min_x: 0, min_y: 0, max_x: 3, max_y: 10 };
    assert_eq!(rising.value(1), 3);
    assert_eq!(rising.value(2), 6);
}

#[test]
fn saturating_linear_huge_values_do_not_overflow() {
    let s = SaturatingLinear { min_x: 0, min_y: u128::MAX, max_x: u64::MAX, max_y: 0 };
    // u128::MAX is exactly (2^64 + 1) * u64::MAX, so each step unlocks 2^64 + 1
    let step: u128 = (1u128 << 64) + 1;
    assert_eq!(s.value(1), u128::MAX - step);
    assert_eq!(s.value(1u64 << 63), u128::MAX - step * (1u128 << 63));
    assert_eq!(s.value(1u64 << 63), 170141183460469231722463931679029329919);
}

#[test]
fn saturating_linear_is_non_increasing() {
    let s = SaturatingLinear { min_x: 10, min_y: 997, max_x: 77, max_y: 3 };
    let mut prev = s.value(0);
    for t in 1..100u64 {
        let cur = s.value(t);
        assert!(cur <= prev);
        assert!(cur >= 3 && cur <= 997);
        prev = cur;
    }
}

#[test]
fn degenerate_schedule_unlocks_at_its_end() {
    let d = DistributionInfo { start_timestamp: 50, end_timestamp: 50, amount: 9 };
    assert_eq!(d.get_curve().value(50), 9);
    assert_eq!(d.get_curve().value(51), 0);
}

#[test]
fn curves_of_schedule_and_minter() {
    let d = DistributionInfo { start_timestamp: 1, end_timestamp: 2, amount: 3 };
    assert_eq!(
        d.get_curve(),
        Curve::SaturatingLinear(SaturatingLinear { min_x: 1, min_y: 3, max_x: 2, max_y: 0 })
    );
    let m = MinterInfo { address: MINTER, mint_capacity: 77 };
    assert_eq!(m.get_curve(), Curve::Constant(77));
}

#[test]
fn concrete_vesting_scenario() {
    let mut v = active(vec![schedule(ALICE, 1000, 2000, 100_000)], None);
    let e = *v.vestings.get(&ALICE.id).unwrap();
    assert_eq!(e.locked_amount(1000), 100_000);
    assert_eq!(v.query_available_to_claim(ALICE, 1000), Ok(0));
    assert_eq!(v.claim(ALICE, 1000), Err(ContractError::NeverFullyVested));

    assert_eq!(e.locked_amount(1500), 50_000);
    assert_eq!(v.query_available_to_claim(ALICE, 1500), Ok(50_000));
    assert_eq!(v.claim(ALICE, 1500), Ok(50_000));
    assert_eq!(v.vestings.get(&ALICE.id).unwrap().balance, 50_000);

    assert_eq!(e.locked_amount(2000), 0);
    assert_eq!(v.query_available_to_claim(ALICE, 2000), Ok(50_000));
    assert_eq!(v.claim(ALICE, 2000), Ok(50_000));
    assert_eq!(v.vestings.get(&ALICE.id).unwrap().balance, 0);

    assert_eq!(e.locked_amount(3000), 0);
    assert_eq!(v.claim(ALICE, 3000), Err(ContractError::NeverFullyVested));
}

#[test]
fn second_claim_at_same_time_fails() {
    let mut v = active(vec![schedule(ALICE, 0, 100, 1000)], None);
    assert_eq!(v.claim(ALICE, 30), Ok(300));
    assert_eq!(v.claim(ALICE, 30), Err(ContractError::NeverFullyVested));
    assert_eq!(v.vestings.get(&ALICE.id).unwrap().balance, 700);
}

#[test]
fn claim_leaves_exactly_the_locked_amount() {
    let mut v = active(vec![schedule(ALICE, 0, 3, 10)], None);
    assert_eq!(v.claim(ALICE, 1), Ok(3));
    let e = *v.vestings.get(&ALICE.id).unwrap();
    assert_eq!(e.balance, e.locked_amount(1));
    assert_eq!(e.balance, 7);
}

#[test]
fn claim_unknown_address_fails() {
    let mut v = active(vec![schedule(ALICE, 0, 3, 10)], None);
    assert_eq!(v.claim(BOB, 1), Err(ContractError::VestingNotFoundForAddress));
    assert_eq!(
        v.query_available_to_claim(BOB, 1),
        Err(ContractError::VestingNotFoundForAddress)
    );
}

#[test]
fn transfer_within_liquid_part() {
    let mut v = active(vec![schedule(ALICE, 0, 100, 1000)], None);
    assert_eq!(v.transfer_token(ALICE, BOB, 0, 50), Err(ContractError::InvalidTransferAmount));
    assert_eq!(v.transfer_token(ALICE, BOB, -5, 50), Err(ContractError::InvalidTransferAmount));
    assert_eq!(v.transfer_token(ALICE, BOB, 501, 50), Err(ContractError::InsufficientLiquidity));
    assert_eq!(v.vestings.get(&ALICE.id).unwrap().balance, 1000);
    assert_eq!(v.transfer_token(ALICE, BOB, 200, 50), Ok(()));
    assert_eq!(v.vestings.get(&ALICE.id).unwrap().balance, 800);
    assert_eq!(v.query_available_to_claim(ALICE, 50), Ok(300));
    assert_eq!(v.transfer_token(BOB, ALICE, 1, 50), Err(ContractError::VestingNotFoundForAddress));
}

#[test]
fn debit_and_liquid_amount() {
    let mut e = VestingInfo {
        balance: 100,
        distribution_info: DistributionInfo { start_timestamp: 0, end_timestamp: 10, amount: 100 },
    };
    assert_eq!(e.liquid_amount(4), Ok(40));
    assert_eq!(e.debit(41, 4), Err(ContractError::InsufficientLiquidity));
    assert_eq!(e.debit(40, 4), Ok(60));
    assert_eq!(e.liquid_amount(4), Ok(0));
    let broken = VestingInfo { balance: 10, ..e };
    assert_eq!(broken.liquid_amount(0), Err(ContractError::NotEnoughBalance));
}

#[test]
fn admission_checks() {
    assert_eq!(create_vesting_accounts(5, &vec![]).err(), Some(ContractError::EmptySet));
    let three = vec![
        schedule(ALICE, 0, 1, 1),
        schedule(BOB, 0, 1, 2),
        schedule(MINTER, 0, 1, 3),
    ];
    assert_eq!(create_vesting_accounts(2, &three).err(), Some(ContractError::ComplexityExceeded));
    let (accounts, total) = create_vesting_accounts(3, &three).unwrap();
    assert_eq!(total, 6);
    assert_eq!(accounts.len(), 3);
    assert_eq!(accounts.get(&BOB.id).unwrap().balance, 2);
    let big = vec![schedule(ALICE, 0, 1, u128::MAX), schedule(BOB, 0, 1, 1)];
    assert_eq!(create_vesting_accounts(2, &big).err(), Some(ContractError::Overflow));
}

#[test]
fn repeated_recipient_keeps_later_schedule() {
    let two = vec![schedule(ALICE, 0, 1, 5), schedule(ALICE, 0, 1, 7)];
    let (accounts, total) = create_vesting_accounts(2, &two).unwrap();
    assert_eq!(total, 12);
    assert_eq!(accounts.len(), 1);
    assert_eq!(accounts.get(&ALICE.id).unwrap().balance, 7);
}

#[test]
fn initialize_errors_leave_state_untouched() {
    let mut v = Vesting::new();
    let s = vec![schedule(ALICE, 0, 10, 100), schedule(BOB, 0, 10, 50)];
    assert_eq!(
        v.initialize(ADMIN, token_info(), vec![], None, 10, 1000, 0),
        Err(ContractError::EmptySet)
    );
    assert_eq!(
        v.initialize(ADMIN, token_info(), s.clone(), None, 1, 1000, 0),
        Err(ContractError::ComplexityExceeded)
    );
    assert_eq!(
        v.initialize(ADMIN, token_info(), s.clone(), None, 10, 149, 0),
        Err(ContractError::NoEnoughTokensToStart)
    );
    assert_eq!(
        v.initialize(ADMIN, token_info(), s.clone(), None, 10, -1, 0),
        Err(ContractError::NoEnoughTokensToStart)
    );
    let small = MinterInfo { address: MINTER, mint_capacity: 149 };
    assert_eq!(
        v.initialize(ADMIN, token_info(), s.clone(), Some(small), 10, 1000, 0),
        Err(ContractError::TotalVestedOverCapacity)
    );
    assert_eq!(v.admin, None);
    assert_eq!(v.minter, None);
    assert_eq!(v.query_token_info().err(), Some(ContractError::NoTokenInfoFound));
    assert!(v.vestings.is_empty());

    let enough = MinterInfo { address: MINTER, mint_capacity: 150 };
    assert_eq!(v.initialize(ADMIN, token_info(), s.clone(), Some(enough), 10, 150, 0), Ok(150));
    assert_eq!(v.admin, Some(ADMIN));
    assert_eq!(v.query_minter(), Ok(enough));
    assert_eq!(v.max_vesting_complexity, Some(10));
    assert_eq!(v.query_token_info().unwrap().symbol, "PHO");
    assert_eq!(
        v.query_distribution_info(BOB),
        Ok(DistributionInfo { start_timestamp: 0, end_timestamp: 10, amount: 50 })
    );
    assert_eq!(
        v.initialize(ADMIN, token_info(), s, None, 10, 1000, 0),
        Err(ContractError::AlreadyInitialized)
    );
}

#[test]
fn burn_checks() {
    let v = Vesting::new();
    assert_eq!(v.burn(ALICE, 5), Err(ContractError::NoTokenInfoFound));
    let v = active(vec![schedule(ALICE, 0, 10, 100)], None);
    assert_eq!(v.burn(ALICE, 0), Err(ContractError::InvalidBurnAmount));
    assert_eq!(v.burn(BOB, 5), Ok(()));
}

#[test]
fn mint_spends_capacity() {
    let mut v = active(
        vec![schedule(ALICE, 0, 10, 100)],
        Some(MinterInfo { address: MINTER, mint_capacity: 500 }),
    );
    assert_eq!(v.mint(MINTER, 0), Err(ContractError::InvalidMintAmount));
    assert_eq!(v.mint(ALICE, 10), Err(ContractError::NotAuthorized));
    assert_eq!(v.mint(MINTER, 501), Err(ContractError::NotEnoughCapacity));
    assert_eq!(v.mint(MINTER, 200), Ok(()));
    assert_eq!(v.query_minter().unwrap().mint_capacity, 300);
    assert_eq!(v.mint(MINTER, 300), Ok(()));
    assert_eq!(v.query_minter().unwrap().mint_capacity, 0);
    assert_eq!(v.mint(MINTER, 1), Err(ContractError::NotEnoughCapacity));

    let mut none = active(vec![schedule(ALICE, 0, 10, 100)], None);
    assert_eq!(none.mint(MINTER, 1), Err(ContractError::MinterNotFound));
    assert_eq!(none.query_minter(), Err(ContractError::MinterNotFound));
}

#[test]
fn minter_authorization() {
    let mut v = active(vec![schedule(ALICE, 0, 10, 100)], None);
    assert_eq!(v.update_minter(ALICE, MINTER), Err(ContractError::NotAuthorized));
    assert_eq!(v.update_minter(ADMIN, MINTER), Ok(()));
    assert_eq!(v.query_minter(), Ok(MinterInfo { address: MINTER, mint_capacity: 0 }));
    assert_eq!(v.update_minter(ADMIN, ALICE), Err(ContractError::NotAuthorized));
    assert_eq!(v.update_minter_capacity(MINTER, 10), Err(ContractError::NotAuthorized));
    assert_eq!(v.update_minter_capacity(ADMIN, 10), Ok(()));
    assert_eq!(v.update_minter(MINTER, BOB), Ok(()));
    assert_eq!(v.query_minter(), Ok(MinterInfo { address: BOB, mint_capacity: 10 }));
    assert_eq!(v.update_minter(MINTER, ALICE), Err(ContractError::NotAuthorized));

    let mut fresh = Vesting::new();
    assert_eq!(fresh.update_minter(ADMIN, MINTER), Err(ContractError::NoAdminFound));
    assert_eq!(fresh.update_minter_capacity(ADMIN, 1), Err(ContractError::NoAdminFound));
    let mut no_minter = active(vec![schedule(ALICE, 0, 10, 100)], None);
    assert_eq!(no_minter.update_minter_capacity(ADMIN, 1), Err(ContractError::MinterNotFound));
}

#[test]
fn ledger_invariant_over_a_run() {
    let mut v = active(
        vec![schedule(ALICE, 100, 200, 1000), schedule(BOB, 0, 400, 400)],
        Some(MinterInfo { address: MINTER, mint_capacity: 5000 }),
    );
    let check = |v: &Vesting, t: u64| {
        for (_, e) in v.vestings.iter() {
            assert!(e.balance >= e.locked_amount(t));
        }
    };
    check(&v, 0);
    let _ = v.transfer_token(BOB, ALICE, 50, 50);
    check(&v, 50);
    let _ = v.claim(ALICE, 150);
    check(&v, 150);
    let _ = v.mint(MINTER, 10);
    let _ = v.transfer_token(ALICE, BOB, 600, 150);
    check(&v, 150);
    let _ = v.claim(BOB, 399);
    check(&v, 399);
    check(&v, 1000);
}
