use affiliate_market::address::Address;
use affiliate_market::error::ErrorCode;
use affiliate_market::payment::{build_payments, split, total_paid_to};

fn addr(n: u8) -> Address {
    Address::new([n; 32])
}

#[test]
fn split_exact_five_percent() {
    assert_eq!(split(1000, 500), Ok((50, 950)));
}

#[test]
fn split_zero_fee() {
    assert_eq!(split(1000, 0), Ok((0, 1000)));
}

#[test]
fn split_full_fee() {
    assert_eq!(split(1000, 10000), Ok((1000, 0)));
}

#[test]
fn split_zero_price() {
    assert_eq!(split(0, 500), Ok((0, 0)));
}

#[test]
fn split_rounds_down() {
    assert_eq!(split(999, 500), Ok((49, 950)));
    assert_eq!(split(1, 9999), Ok((0, 1)));
}

#[test]
fn split_conserves_value() {
    for &(price, bps) in &[
        (0u64, 0u16),
        (1, 1),
        (1000, 500),
        (999, 333),
        (123_456_789, 10000),
        (u64::MAX, 10000),
        (u64::MAX, 1),
    ] {
        let (affiliate_cut, creator_cut) = split(price, bps).unwrap();
        assert_eq!(affiliate_cut as u128 + creator_cut as u128, price as u128);
    }
}

#[test]
fn split_rejects_out_of_scale_fee_that_exceeds_price() {
    assert_eq!(split(1000, 20000), Err(ErrorCode::MathOverflow));
    assert_eq!(split(u64::MAX, 10001), Err(ErrorCode::MathOverflow));
}

#[test]
fn payments_route_affiliate_cut_to_affiliate() {
    let buyer = addr(1);
    let creator = addr(2);
    let affiliate = addr(3);
    let payments = build_payments(&buyer, &creator, &Some(affiliate), 50, 950);
    assert_eq!(payments.len(), 2);
    assert_eq!(payments[0].to, creator);
    assert_eq!(payments[0].amount, 950);
    assert_eq!(payments[1].to, affiliate);
    assert_eq!(payments[1].amount, 50);
    assert_eq!(total_paid_to(&payments, &creator), 950);
    assert_eq!(total_paid_to(&payments, &affiliate), 50);
    assert_eq!(total_paid_to(&payments, &buyer), 0);
}

#[test]
fn payments_route_affiliate_cut_to_creator_when_no_affiliate() {
    let buyer = addr(1);
    let creator = addr(2);
    let payments = build_payments(&buyer, &creator, &None, 50, 950);
    assert_eq!(payments.len(), 2);
    assert_eq!(payments[0].to, creator);
    assert_eq!(payments[1].to, creator);
    assert_eq!(total_paid_to(&payments, &creator), 1000);
}

#[test]
fn payments_skip_zero_amounts() {
    let buyer = addr(1);
    let creator = addr(2);
    let affiliate = addr(3);
    let payments = build_payments(&buyer, &creator, &Some(affiliate), 0, 1000);
    assert_eq!(payments.len(), 1);
    assert_eq!(payments[0].to, creator);
    assert_eq!(payments[0].amount, 1000);
    let none = build_payments(&buyer, &creator, &Some(affiliate), 0, 0);
    assert_eq!(none.len(), 0);
}
