use rent_a_car::{Address, Car, CarStatus, Error, Rental, Storage};

fn party(n: u128) -> Address {
    Address::account(0, n)
}

#[test]
fn empty_store_reads_defaults() {
    let s = Storage::new();
    assert!(!s.has_admin());
    assert_eq!(s.read_admin(), Err(Error::AdminNotFound));
    assert_eq!(s.read_token(), None);
    assert!(!s.has_admin_fee());
    assert_eq!(s.read_admin_fee(), 0);
    assert_eq!(s.read_admin_accumulated_fees(), 0);
    assert_eq!(s.read_contract_balance(), 0);
    assert!(!s.has_car(&party(1)));
    assert_eq!(s.read_car(&party(1)), Err(Error::CarNotFound));
    assert_eq!(s.read_rental(&party(1), &party(2)), None);
}

#[test]
fn singletons_read_back_what_was_written() {
    let mut s = Storage::new();
    s.write_admin(&party(1));
    s.write_token(&Address::contract(7, 8));
    s.write_admin_fee(&5);
    s.write_admin_accumulated_fees(&17);
    s.write_contract_balance(&322);
    assert!(s.has_admin());
    assert_eq!(s.read_admin(), Ok(party(1)));
    assert_eq!(s.read_token(), Some(Address::contract(7, 8)));
    assert!(s.has_admin_fee());
    assert_eq!(s.read_admin_fee(), 5);
    assert_eq!(s.read_admin_accumulated_fees(), 17);
    assert_eq!(s.read_contract_balance(), 322);
}

#[test]
fn a_fee_of_zero_counts_as_written() {
    let mut s = Storage::new();
    s.write_admin_fee(&0);
    assert!(s.has_admin_fee());
    assert_eq!(s.read_admin_fee(), 0);
}

#[test]
fn cars_are_kept_by_owner() {
    let mut s = Storage::new();
    let a = Car { price_per_day: 100, car_status: CarStatus::Available, available_to_withdraw: 0 };
    let b = Car { price_per_day: 70, car_status: CarStatus::Rented, available_to_withdraw: 210 };
    s.write_car(&party(1), &a);
    s.write_car(&party(2), &b);
    assert_eq!(s.read_car(&party(1)), Ok(a));
    assert_eq!(s.read_car(&party(2)), Ok(b));
    assert!(!s.has_car(&party(3)));

    let a2 = Car { price_per_day: 100, car_status: CarStatus::Maintenance, available_to_withdraw: 9 };
    s.write_car(&party(1), &a2);
    assert_eq!(s.read_car(&party(1)), Ok(a2));
    assert_eq!(s.read_car(&party(2)), Ok(b));

    s.remove_car(&party(1));
    assert!(!s.has_car(&party(1)));
    assert_eq!(s.read_car(&party(1)), Err(Error::CarNotFound));
    assert_eq!(s.read_car(&party(2)), Ok(b));

    s.remove_car(&party(1));
    assert!(s.has_car(&party(2)));
}

#[test]
fn addresses_differ_by_kind_and_by_either_word() {
    let mut s = Storage::new();
    let car = |price: i128| Car {
        price_per_day: price,
        car_status: CarStatus::Available,
        available_to_withdraw: 0,
    };
    s.write_car(&Address::account(1, 2), &car(1));
    s.write_car(&Address::contract(1, 2), &car(2));
    s.write_car(&Address::account(2, 1), &car(3));
    s.write_car(&Address::account(1, 3), &car(4));
    assert_eq!(s.read_car(&Address::account(1, 2)), Ok(car(1)));
    assert_eq!(s.read_car(&Address::contract(1, 2)), Ok(car(2)));
    assert_eq!(s.read_car(&Address::account(2, 1)), Ok(car(3)));
    assert_eq!(s.read_car(&Address::account(1, 3)), Ok(car(4)));
    assert!(!s.has_car(&Address::contract(2, 1)));
}

#[test]
fn rentals_are_kept_by_renter_and_owner() {
    let mut s = Storage::new();
    let first = Rental { total_days_to_rent: 3, amount: 300 };
    let second = Rental { total_days_to_rent: 1, amount: 40 };
    s.write_rental(&party(1), &party(2), &first);
    assert_eq!(s.read_rental(&party(1), &party(2)), Some(first));
    assert_eq!(s.read_rental(&party(2), &party(1)), None);
    assert_eq!(s.read_rental(&party(1), &party(3)), None);

    s.write_rental(&party(2), &party(1), &second);
    s.write_rental(&party(1), &party(2), &second);
    assert_eq!(s.read_rental(&party(1), &party(2)), Some(second));
    assert_eq!(s.read_rental(&party(2), &party(1)), Some(second));
}
