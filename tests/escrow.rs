use std::cell::RefCell;

use rental_escrow::{
    ensure_caller_is_landlord, ensure_caller_is_renter, ensure_escrow_leased,
    ensure_escrow_not_leased, ensure_lease_duration_passed, ensure_rent_amount_paid, AccountId,
    Escrow, EscrowError, EscrowId, MyPSP34,
};

fn account(b: u8) -> AccountId {
    AccountId::new([b; 32])
}

fn blank_escrow() -> Escrow {
    Escrow {
        renter: account(0),
        landlord: account(0),
        rent_amount: 0,
        lease_duration: 0,
        lease_start_time: 0,
        escrow_balance: 0,
        is_leased: false,
    }
}

#[test]
fn create_escrow_works() {
    let mut contract = MyPSP34::new();
    let escrow_id = EscrowId::new([1; 32]);
    let landlord = account(2);
    let rent_amount = 100;
    let lease_duration = 10;

    contract.create_escrow(escrow_id, account(0), landlord, rent_amount, lease_duration);

    let escrow = contract.get_escrow_or_revert(escrow_id).unwrap();
    assert_eq!(escrow.renter, AccountId::new([0x0; 32]));
    assert_eq!(escrow.landlord, landlord);
    assert_eq!(escrow.rent_amount, rent_amount);
    assert_eq!(escrow.lease_duration, lease_duration);
    assert_eq!(escrow.lease_start_time, 0);
    assert_eq!(escrow.escrow_balance, 0);
    assert_eq!(escrow.is_leased, false);
}

#[test]
fn rent_works() {
    let mut contract = MyPSP34::new();
    let escrow_id = EscrowId::new([1; 32]);
    let landlord = account(2);
    let renter = account(3);

    contract.create_escrow(escrow_id, renter, landlord, 100, 10);
    assert_eq!(contract.rent(escrow_id, renter, 7), Ok(()));

    let escrow = contract.get_escrow_or_revert(escrow_id).unwrap();
    assert_eq!(escrow.is_leased, true);
    assert_eq!(escrow.lease_start_time > 0, true);
    assert_eq!(escrow.lease_start_time, 7);
}

#[test]
fn pay_rent_works() {
    let mut contract = MyPSP34::new();
    let escrow_id = EscrowId::new([1; 32]);
    let landlord = account(2);
    let renter = account(3);
    let rent_payment = 150;

    contract.create_escrow(escrow_id, renter, landlord, 100, 10);
    contract.rent(escrow_id, renter, 1).unwrap();
    assert_eq!(contract.pay_rent(escrow_id, renter, rent_payment), Ok(()));

    let escrow = contract.get_escrow_or_revert(escrow_id).unwrap();
    assert_eq!(escrow.escrow_balance, rent_payment);
}

#[test]
fn lease_ended_works() {
    let mut contract = MyPSP34::new();
    let escrow_id = EscrowId::new([1; 32]);
    let landlord = account(2);
    let renter = account(3);
    let lease_duration = 10;

    contract.create_escrow(escrow_id, renter, landlord, 100, lease_duration);
    contract.rent(escrow_id, renter, 1).unwrap();
    contract.pay_rent(escrow_id, renter, 150).unwrap();

    let current_time = 1 + lease_duration + 1;
    let paid = RefCell::new(Vec::new());
    let r = contract.lease_ended(escrow_id, landlord, current_time, |to, amount| {
        paid.borrow_mut().push((to, amount));
        true
    });
    assert_eq!(r, Ok(150));
    assert_eq!(paid.into_inner(), vec![(landlord, 150)]);
    assert_eq!(contract.get_escrow_or_revert(escrow_id).unwrap_err(), EscrowError::NotFound);
}

#[test]
fn cancel_lease_works() {
    let mut contract = MyPSP34::new();
    let escrow_id = EscrowId::new([1; 32]);
    let landlord = account(2);
    let renter = account(3);

    contract.create_escrow(escrow_id, renter, landlord, 100, 10);
    let paid = RefCell::new(Vec::new());
    let r = contract.cancel_lease(escrow_id, landlord, |to, amount| {
        paid.borrow_mut().push((to, amount));
        true
    });
    assert_eq!(r, Ok(0));
    assert_eq!(paid.into_inner(), vec![(landlord, 0)]);
    assert_eq!(contract.get_escrow_or_revert(escrow_id).unwrap_err(), EscrowError::NotFound);
}

#[test]
fn cancel_lease_after_rent_is_refused() {
    let mut contract = MyPSP34::new();
    let escrow_id = EscrowId::new([1; 32]);
    let landlord = account(2);
    let renter = account(3);

    contract.create_escrow(escrow_id, renter, landlord, 100, 10);
    contract.rent(escrow_id, renter, 1).unwrap();
    contract.pay_rent(escrow_id, renter, 150).unwrap();
    let r = contract.cancel_lease(escrow_id, landlord, |_, _| panic!("no transfer is due"));
    assert_eq!(r, Err(EscrowError::InvalidState));
    assert_eq!(contract.get_escrow_or_revert(escrow_id).unwrap().escrow_balance, 150);
}

#[test]
fn get_escrow_or_revert_panics_if_escrow_not_found() {
    let contract = MyPSP34::new();
    let escrow_id = EscrowId::new([1; 32]);
    assert_eq!(contract.get_escrow_or_revert(escrow_id).unwrap_err(), EscrowError::NotFound);
}

#[test]
fn ensure_escrow_not_leased_panics_if_escrow_leased() {
    let escrow = Escrow { is_leased: true, ..blank_escrow() };
    assert_eq!(ensure_escrow_not_leased(&escrow), Err(EscrowError::InvalidState));
    assert_eq!(ensure_escrow_not_leased(&blank_escrow()), Ok(()));
}

#[test]
fn ensure_escrow_leased_panics_if_escrow_not_leased() {
    let escrow = Escrow { is_leased: false, ..blank_escrow() };
    assert_eq!(ensure_escrow_leased(&escrow), Err(EscrowError::InvalidState));
    assert_eq!(ensure_escrow_leased(&Escrow { is_leased: true, ..escrow }), Ok(()));
}

#[test]
fn ensure_caller_is_renter_panics_if_caller_not_renter() {
    let escrow = Escrow { renter: account(1), ..blank_escrow() };
    let caller = account(2);
    assert_eq!(ensure_caller_is_renter(&escrow, &caller), Err(EscrowError::Unauthorized));
    assert_eq!(ensure_caller_is_renter(&escrow, &account(1)), Ok(()));
}

#[test]
fn ensure_caller_is_landlord_panics_if_caller_not_landlord() {
    let escrow = Escrow { landlord: account(1), ..blank_escrow() };
    let caller = account(2);
    assert_eq!(ensure_caller_is_landlord(&escrow, &caller), Err(EscrowError::Unauthorized));
    assert_eq!(ensure_caller_is_landlord(&escrow, &account(1)), Ok(()));
}

#[test]
fn ensure_rent_amount_paid_panics_if_insufficient_rent() {
    let escrow = Escrow { rent_amount: 100, ..blank_escrow() };
    let value = 50;
    assert_eq!(ensure_rent_amount_paid(&escrow, value), Err(EscrowError::InsufficientPayment));
    assert_eq!(ensure_rent_amount_paid(&escrow, 100), Ok(()));
}

#[test]
fn ensure_lease_duration_passed_panics_if_lease_duration_not_passed() {
    let mut contract = MyPSP34::new();
    let escrow_id = EscrowId::new([1; 32]);
    let landlord = account(2);
    let renter = account(3);
    let lease_duration = 10;

    contract.create_escrow(escrow_id, renter, landlord, 100, lease_duration);
    contract.rent(escrow_id, renter, 5).unwrap();

    let current_time = 5 + lease_duration - 1;
    let r = contract.lease_ended(escrow_id, landlord, current_time, |_, _| true);
    assert_eq!(r, Err(EscrowError::LeaseNotExpired));
    assert!(contract.get_escrow_or_revert(escrow_id).is_ok());

    let escrow = contract.get_escrow_or_revert(escrow_id).unwrap();
    assert_eq!(
        ensure_lease_duration_passed(&escrow, current_time),
        Err(EscrowError::LeaseNotExpired)
    );
    assert_eq!(ensure_lease_duration_passed(&escrow, 15), Ok(()));
}
