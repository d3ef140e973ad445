use finance::StockPrice;

#[test]
fn test_for_stock_price_gives_valid_1() {
    let price: i64 = 123_456;
    assert_eq!(
        StockPrice::new(price)
            .expect("Failed to parse to `StockPrice`")
            .milli(),
        123_456
    );
}

#[test]
fn test_for_stock_price_gives_valid_2() {
    let price: i64 = 11_111_000;
    assert_eq!(
        StockPrice::new(price)
            .expect("Failed to parse to `StockPrice`")
            .milli(),
        11_111_000
    );
}

#[test]
fn test_for_stock_price_gives_invalid_out_of_range() {
    let invalid_price: i64 = 100_005_000;
    assert_eq!(
        StockPrice::new(invalid_price),
        Err(format!(
            "Failed to new StockPrice; Abnormal prices: {}",
            100_005
        ))
    )
}

#[test]
fn test_range_boundaries() {
    assert!(StockPrice::new(999).is_err());
    assert!(StockPrice::new(1000).is_ok());
    assert!(StockPrice::new(99_999_999).is_ok());
    assert!(StockPrice::new(100_000_000).is_err());
}

#[test]
fn test_reject_message_embeds_value() {
    assert_eq!(
        StockPrice::new(-5_000),
        Err("Failed to new StockPrice; Abnormal prices: -5".to_string())
    );
    assert_eq!(
        StockPrice::new(123),
        Err("Failed to new StockPrice; Abnormal prices: 0.123".to_string())
    );
}

#[test]
fn test_sub_rounds_half_away_from_zero() {
    let a = StockPrice::new(123_456).unwrap();
    let b = StockPrice::new(120_000).unwrap();
    assert_eq!(a.sub(b), 346);
    let c = StockPrice::new(1_005).unwrap();
    let d = StockPrice::new(1_000).unwrap();
    assert_eq!(c.sub(d), 1);
    assert_eq!(d.sub(d), 0);
}

#[test]
fn test_sub_negative() {
    let a = StockPrice::new(123_456).unwrap();
    let b = StockPrice::new(120_000).unwrap();
    assert_eq!(b.sub(a), -346);
    let c = StockPrice::new(1_005).unwrap();
    let d = StockPrice::new(1_000).unwrap();
    assert_eq!(d.sub(c), -1);
}
