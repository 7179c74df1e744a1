use asset_rebalancer::allocation::calculate_assets_percentage_worth_in_vault;
use asset_rebalancer::errors::ErrorCode;

#[test]
pub fn test_percentage_calc() {
    let value = calculate_assets_percentage_worth_in_vault(5, 1250, 3, 200);
    println!("{:?}", value);
    // worth of A is 6250, worth of B is 600: 6250 * 1000 / 6850 rounds down to 912
    assert_eq!(value, Ok(912));
}

#[test]
fn percentage_fails_when_nothing_is_worth_anything() {
    assert_eq!(
        calculate_assets_percentage_worth_in_vault(0, 1250, 0, 200),
        Err(ErrorCode::DivisionByZero)
    );
    assert_eq!(
        calculate_assets_percentage_worth_in_vault(5, 0, 3, 0),
        Err(ErrorCode::DivisionByZero)
    );
}

#[test]
fn percentage_overflow_is_an_error() {
    assert_eq!(
        calculate_assets_percentage_worth_in_vault(u64::MAX, u64::MAX, u64::MAX, u64::MAX),
        Err(ErrorCode::ArithmeticOverflow)
    );
    // the sum fits, a thousand times the worth of A does not
    assert_eq!(
        calculate_assets_percentage_worth_in_vault(u64::MAX, u64::MAX, 0, 0),
        Err(ErrorCode::ArithmeticOverflow)
    );
}

#[test]
fn percentage_of_a_lone_holding_is_whole() {
    assert_eq!(calculate_assets_percentage_worth_in_vault(7, 3, 0, 9), Ok(1000));
    assert_eq!(calculate_assets_percentage_worth_in_vault(0, 3, 7, 9), Ok(0));
}

#[test]
fn complementary_percentages_lose_at_most_one_thousandth() {
    let cases: [(u64, u64, u64, u64); 5] = [
        (1, 1, 2, 1),
        (1, 1, 1, 1),
        (5, 1250, 3, 200),
        (17, 3, 29, 11),
        (1_000_000, 999_983, 3, 7),
    ];
    for (a, pa, b, pb) in cases {
        let share_a = calculate_assets_percentage_worth_in_vault(a, pa, b, pb).unwrap();
        let share_b = calculate_assets_percentage_worth_in_vault(b, pb, a, pa).unwrap();
        let total = share_a + share_b;
        assert!(total == 999 || total == 1000, "{} + {}", share_a, share_b);
    }
    assert_eq!(calculate_assets_percentage_worth_in_vault(1, 1, 2, 1), Ok(333));
    assert_eq!(calculate_assets_percentage_worth_in_vault(2, 1, 1, 1), Ok(666));
    assert_eq!(calculate_assets_percentage_worth_in_vault(1, 1, 1, 1), Ok(500));
}
