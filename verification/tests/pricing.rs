use presale_launcher::constants::{
    LAUNCHPAD_PRESALE, LAUNCHPAD_RESERVE, POOL_SOL_LIQUIDITY, PRESALE_PRICE, PRICE_UNIT,
};
use presale_launcher::pricing::{purchase_payments, sale_payouts};

#[test]
fn constants_have_their_values() {
    assert_eq!(LAUNCHPAD_PRESALE, 500_000_000_000_000_000);
    assert_eq!(LAUNCHPAD_RESERVE, 500_000_000_000_000_000);
    assert_eq!(PRESALE_PRICE, 220);
    assert_eq!(PRICE_UNIT, 1_000_000_000);
    assert_eq!(POOL_SOL_LIQUIDITY, 100_000_000_000);
}

#[test]
fn purchase_payments_exact() {
    assert_eq!(purchase_payments(0), (0, 0));
    assert_eq!(purchase_payments(999_999_999), (0, 0));
    assert_eq!(purchase_payments(1_000_000_000), (217, 2));
    assert_eq!(purchase_payments(3_000_000_000), (653, 6));
    assert_eq!(purchase_payments(3_999_999_999), (653, 6));
    assert_eq!(purchase_payments(1_000_000_000_000_000_000), (217_800_000_000, 2_200_000_000));
    assert_eq!(purchase_payments(u64::MAX), (4_017_700_859_099, 40_582_836_960));
}

#[test]
fn sale_payouts_exact() {
    assert_eq!(sale_payouts(0), (0, 0));
    assert_eq!(sale_payouts(1), (0, 0));
    assert_eq!(sale_payouts(999_999_999), (0, 0));
    assert_eq!(sale_payouts(1_000_000_000), (217, 2));
    assert_eq!(sale_payouts(7_000_000_000), (1524, 15));
    assert_eq!(sale_payouts(1_000_000_000_000_000_000), (217_800_000_000, 2_200_000_000));
    assert_eq!(sale_payouts(u64::MAX), (4_017_700_859_099, 40_582_836_960));
}

#[test]
fn fee_split_loses_at_most_one_lamport() {
    for units in 0u64..2000 {
        let amount = units * PRICE_UNIT + units % 7;
        let gross = units * PRESALE_PRICE;
        let (treasury, fee) = purchase_payments(amount);
        assert!(treasury + fee <= gross);
        assert!(treasury + fee + 1 >= gross);
        assert!(fee * 100 <= gross);
        let (seller, sfee) = sale_payouts(amount);
        assert!(seller + sfee <= gross);
        assert!(seller + sfee + 1 >= gross);
    }
}
