use rent_a_car::{Address, Car, CarStatus, Error, RentACarContract, Rental};

fn owed(c: &RentACarContract, owners: &[Address]) -> i128 {
    owners
        .iter()
        .map(|owner| match c.storage().read_car(owner) {
            Ok(car) => car.available_to_withdraw,
            Err(_) => 0,
        })
        .sum()
}

fn conserved(c: &RentACarContract, owners: &[Address]) -> bool {
    c.storage().read_contract_balance() == owed(c, owners) + c.get_admin_accumulated_fees()
}

#[test]
fn fee_listing_rental_payout_withdrawal() {
    let admin = Address::account(0, 10);
    let token = Address::contract(0, 11);
    let owner = Address::account(0, 12);
    let renter = Address::account(0, 13);

    let mut c = RentACarContract::new();
    assert!(c.__constructor(admin, token).is_ok());
    assert_eq!(c.set_admin_fee(admin, admin, 5), Ok(()));
    assert!(c.add_car(admin, owner, 100).is_ok());

    assert!(c.rental(renter, renter, owner, 3, 305, Ok(())).is_ok());
    assert_eq!(
        c.storage().read_rental(&renter, &owner),
        Some(Rental { total_days_to_rent: 3, amount: 300 })
    );
    assert_eq!(c.storage().read_car(&owner).map(|car| car.available_to_withdraw), Ok(300));
    assert_eq!(c.storage().read_contract_balance(), 305);
    assert_eq!(c.get_admin_accumulated_fees(), 5);

    assert!(c.payout_owner(owner, owner, 300, Ok(())).is_ok());
    assert_eq!(c.storage().read_car(&owner).map(|car| car.available_to_withdraw), Ok(0));
    assert_eq!(c.storage().read_contract_balance(), 5);

    assert_eq!(c.withdraw_admin_fees(admin, admin, 5, Ok(())), Ok(()));
    assert_eq!(c.get_admin_accumulated_fees(), 0);
    assert_eq!(c.storage().read_contract_balance(), 0);
}

#[test]
fn books_balance_after_every_operation() {
    let admin = Address::account(0, 10);
    let token = Address::contract(0, 11);
    let owners = [Address::account(1, 0), Address::account(2, 0), Address::account(3, 0)];
    let renter = Address::account(0, 13);

    let mut c = RentACarContract::new();
    assert!(conserved(&c, &owners));
    assert!(c.__constructor(admin, token).is_ok());
    assert!(conserved(&c, &owners));
    assert_eq!(c.set_admin_fee(admin, admin, 7), Ok(()));
    assert!(conserved(&c, &owners));
    for (i, owner) in owners.iter().enumerate() {
        assert!(c.add_car(admin, *owner, 50 + i as i128).is_ok());
        assert!(conserved(&c, &owners));
    }
    assert!(c.rental(renter, renter, owners[0], 2, 107, Ok(())).is_ok());
    assert!(conserved(&c, &owners));
    assert!(c.rental(renter, renter, owners[1], 4, 211, Ok(())).is_ok());
    assert!(conserved(&c, &owners));
    assert_eq!(c.storage().read_contract_balance(), 318);
    assert_eq!(owed(&c, &owners), 304);
    assert_eq!(c.get_admin_accumulated_fees(), 14);

    assert_eq!(c.rental(renter, renter, owners[1], 4, 211, Ok(())), Err(Error::CarAlreadyRented));
    assert!(conserved(&c, &owners));
    assert_eq!(c.rental(renter, renter, owners[2], 1, 60, Err(Error::OverflowError)), Err(Error::OverflowError));
    assert!(conserved(&c, &owners));

    assert!(c.payout_owner(owners[0], owners[0], 60, Ok(())).is_ok());
    assert!(conserved(&c, &owners));
    assert_eq!(c.withdraw_admin_fees(admin, admin, 9, Ok(())), Ok(()));
    assert!(conserved(&c, &owners));
    assert_eq!(c.set_admin_fee(admin, admin, 0), Ok(()));
    assert!(c.rental(renter, renter, owners[2], 1, 60, Ok(())).is_ok());
    assert!(conserved(&c, &owners));

    assert_eq!(c.storage().read_contract_balance(), 309);
    assert_eq!(c.get_admin_accumulated_fees(), 5);
}

#[test]
fn removing_an_empty_listing_keeps_the_books_balanced() {
    let admin = Address::account(0, 10);
    let token = Address::contract(0, 11);
    let owners = [Address::account(1, 0), Address::account(2, 0)];
    let renter = Address::account(0, 13);

    let mut c = RentACarContract::new();
    assert!(c.__constructor(admin, token).is_ok());
    assert!(c.add_car(admin, owners[0], 10).is_ok());
    assert!(c.add_car(admin, owners[1], 10).is_ok());
    assert!(c.rental(renter, renter, owners[0], 1, 10, Ok(())).is_ok());
    assert!(c.payout_owner(owners[0], owners[0], 10, Ok(())).is_ok());
    assert!(c.remove_car(admin, owners[0]).is_ok());
    assert!(c.remove_car(admin, owners[1]).is_ok());
    assert!(conserved(&c, &owners));
    assert_eq!(c.storage().read_contract_balance(), 0);
}

#[test]
fn removing_a_funded_listing_orphans_the_balance() {
    let admin = Address::account(0, 10);
    let token = Address::contract(0, 11);
    let owner = Address::account(1, 0);
    let renter = Address::account(0, 13);

    let mut c = RentACarContract::new();
    assert!(c.__constructor(admin, token).is_ok());
    assert!(c.add_car(admin, owner, 10).is_ok());
    assert!(c.rental(renter, renter, owner, 1, 10, Ok(())).is_ok());
    assert!(conserved(&c, &[owner]));
    assert!(c.remove_car(admin, owner).is_ok());
    assert!(!conserved(&c, &[owner]));
    assert_eq!(c.storage().read_contract_balance(), 10);
    assert_eq!(owed(&c, &[owner]), 0);
    assert_eq!(c.get_admin_accumulated_fees(), 0);

    assert!(c.add_car(admin, owner, 10).is_ok());
    assert_eq!(
        c.storage().read_car(&owner),
        Ok(Car { price_per_day: 10, car_status: CarStatus::Available, available_to_withdraw: 0 })
    );
}
