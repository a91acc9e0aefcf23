use fixary::money::{derive_payment_status, reaches_threshold, PaymentStatus};

#[test]
fn status_follows_paid_and_total() {
    assert_eq!(derive_payment_status(0, 20_000_000), PaymentStatus::Unpaid);
    assert_eq!(derive_payment_status(5_000_000, 20_000_000), PaymentStatus::Partial);
    assert_eq!(derive_payment_status(20_000_000, 20_000_000), PaymentStatus::Paid);
    assert_eq!(derive_payment_status(25_000_000, 20_000_000), PaymentStatus::Paid);
    assert_eq!(derive_payment_status(0, 0), PaymentStatus::Paid);
}

#[test]
fn threshold_is_a_thousandth() {
    assert!(!reaches_threshold(0));
    assert!(!reaches_threshold(999));
    assert!(!reaches_threshold(-999));
    assert!(reaches_threshold(1_000));
    assert!(reaches_threshold(-1_000));
}
