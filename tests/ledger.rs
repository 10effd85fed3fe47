use unknown_tokens::{Asset, Error, Event, Location, Pallet};

fn loc(bytes: &[u8]) -> Location {
    Location::new(bytes.to_vec())
}

fn concrete(id: &[u8], amount: u128) -> Asset {
    Asset::ConcreteFungible { id: loc(id), amount }
}

fn abstract_asset(id: &[u8], amount: u128) -> Asset {
    Asset::AbstractFungible { id: id.to_vec(), amount }
}

#[test]
fn concrete_deposit_then_too_large_withdraw() {
    let mut p = Pallet::new();
    let l1 = loc(&[0, 1]);
    let l2 = loc(&[1, 0, 7]);
    assert_eq!(p.concrete_fungible(&l1, &l2), 0);
    assert_eq!(p.deposit(&concrete(&[1, 0, 7], 100), &l1), Ok(()));
    assert_eq!(p.concrete_fungible(&l1, &l2), 100);
    assert_eq!(p.withdraw(&concrete(&[1, 0, 7], 150), &l1), Err(Error::BalanceTooLow));
    assert_eq!(p.concrete_fungible(&l1, &l2), 100);
}

#[test]
fn deposit_adds_and_records_one_event() {
    let mut p = Pallet::new();
    let to = loc(&[5]);
    assert_eq!(p.deposit(&abstract_asset(b"dot", 40), &to), Ok(()));
    assert_eq!(p.deposit(&abstract_asset(b"dot", 2), &to), Ok(()));
    assert_eq!(p.abstract_fungible(&to, &b"dot".to_vec()), 42);
    assert_eq!(p.events().len(), 2);
    match &p.events()[1] {
        Event::Deposited(Asset::AbstractFungible { id, amount }, at) => {
            assert_eq!(id, &b"dot".to_vec());
            assert_eq!(*amount, 2);
            assert_eq!(at.encoded(), &vec![5u8]);
        }
        other => panic!("unexpected event {:?}", other),
    }
}

#[test]
fn deposit_overflow_leaves_balance() {
    let mut p = Pallet::new();
    let to = loc(&[9]);
    assert_eq!(p.deposit(&concrete(&[3], u128::MAX - 1), &to), Ok(()));
    assert_eq!(p.deposit(&concrete(&[3], 2), &to), Err(Error::BalanceOverflow));
    assert_eq!(p.concrete_fungible(&to, &loc(&[3])), u128::MAX - 1);
    assert_eq!(p.events().len(), 2);
    assert!(matches!(
        &p.events()[1],
        Event::DepositFailed(Asset::ConcreteFungible { amount: 2, .. }, _, Error::BalanceOverflow)
    ));
}

#[test]
fn zero_deposit_at_max_succeeds() {
    let mut p = Pallet::new();
    let to = loc(&[9]);
    assert_eq!(p.deposit(&concrete(&[3], u128::MAX), &to), Ok(()));
    assert_eq!(p.deposit(&concrete(&[3], 0), &to), Ok(()));
    assert_eq!(p.concrete_fungible(&to, &loc(&[3])), u128::MAX);
}

#[test]
fn withdraw_subtracts_and_records_event() {
    let mut p = Pallet::new();
    let at = loc(&[2, 2]);
    assert_eq!(p.deposit(&concrete(&[4], 100), &at), Ok(()));
    assert_eq!(p.withdraw(&concrete(&[4], 30), &at), Ok(()));
    assert_eq!(p.concrete_fungible(&at, &loc(&[4])), 70);
    assert_eq!(p.withdraw(&concrete(&[4], 70), &at), Ok(()));
    assert_eq!(p.concrete_fungible(&at, &loc(&[4])), 0);
    assert!(matches!(
        &p.events()[2],
        Event::Withdrawn(Asset::ConcreteFungible { amount: 70, .. }, _)
    ));
}

#[test]
fn withdraw_too_low_leaves_balance() {
    let mut p = Pallet::new();
    let at = loc(&[2]);
    assert_eq!(p.withdraw(&abstract_asset(b"x", 1), &at), Err(Error::BalanceTooLow));
    assert_eq!(p.abstract_fungible(&at, &b"x".to_vec()), 0);
    assert!(matches!(
        &p.events()[0],
        Event::WithdrawFailed(Asset::AbstractFungible { amount: 1, .. }, _, Error::BalanceTooLow)
    ));
}

#[test]
fn other_assets_are_unhandled() {
    let mut p = Pallet::new();
    let at = loc(&[1]);
    let other = Asset::Other { encoded: vec![3, 1] };
    assert_eq!(p.deposit(&other, &at), Err(Error::UnhandledAsset));
    assert_eq!(p.withdraw(&other, &at), Err(Error::UnhandledAsset));
    assert!(matches!(&p.events()[0], Event::DepositFailed(Asset::Other { .. }, _, Error::UnhandledAsset)));
    assert!(matches!(&p.events()[1], Event::WithdrawFailed(Asset::Other { .. }, _, Error::UnhandledAsset)));
    assert_eq!(p.events().len(), 2);
}

#[test]
fn round_trip_restores_balance() {
    let mut p = Pallet::new();
    let at = loc(&[8]);
    assert_eq!(p.deposit(&abstract_asset(b"k", 11), &at), Ok(()));
    assert_eq!(p.deposit(&abstract_asset(b"k", 500), &at), Ok(()));
    assert_eq!(p.withdraw(&abstract_asset(b"k", 500), &at), Ok(()));
    assert_eq!(p.abstract_fungible(&at, &b"k".to_vec()), 11);
}

#[test]
fn tables_are_independent() {
    let mut p = Pallet::new();
    let at = loc(&[8]);
    assert_eq!(p.deposit(&concrete(&[6, 6], 10), &at), Ok(()));
    assert_eq!(p.abstract_fungible(&at, &vec![6, 6]), 0);
    assert_eq!(p.deposit(&abstract_asset(&[6, 6], 3), &at), Ok(()));
    assert_eq!(p.concrete_fungible(&at, &loc(&[6, 6])), 10);
    assert_eq!(p.withdraw(&abstract_asset(&[6, 6], 10), &at), Err(Error::BalanceTooLow));
}

#[test]
fn holders_and_assets_are_separate() {
    let mut p = Pallet::new();
    assert_eq!(p.deposit(&concrete(&[1], 5), &loc(&[1])), Ok(()));
    assert_eq!(p.deposit(&concrete(&[2], 7), &loc(&[1])), Ok(()));
    assert_eq!(p.deposit(&concrete(&[1], 9), &loc(&[2])), Ok(()));
    assert_eq!(p.concrete_fungible(&loc(&[1]), &loc(&[1])), 5);
    assert_eq!(p.concrete_fungible(&loc(&[1]), &loc(&[2])), 7);
    assert_eq!(p.concrete_fungible(&loc(&[2]), &loc(&[1])), 9);
    assert_eq!(p.concrete_fungible(&loc(&[2]), &loc(&[2])), 0);
}

#[test]
fn clone_keeps_contents() {
    let a = abstract_asset(b"abc", 77);
    match a.clone() {
        Asset::AbstractFungible { id, amount } => {
            assert_eq!(id, b"abc".to_vec());
            assert_eq!(amount, 77);
        }
        other => panic!("unexpected asset {:?}", other),
    }
    assert_eq!(loc(&[4, 5]).clone().encoded(), &vec![4u8, 5]);
}
