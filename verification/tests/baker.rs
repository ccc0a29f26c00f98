use ccdscan_backend::baker::{
    index_edges, Baker, BakerPoolOpenStatus, BakerState, IdBaker, QueryBaker,
};
use ccdscan_backend::connection::{set_ascending_flags, PageBounds};
use ccdscan_backend::decimal::Decimal;
use ccdscan_backend::error::{require_found, ApiError};

fn baker(staked: i64) -> Baker {
    Baker {
        id: 42,
        staked,
        restake_earnings: true,
        open_status: Some(BakerPoolOpenStatus::OpenForAll),
        metadata_url: Some("https://example.com/baker.json".to_string()),
        transaction_commission: Some(5000),
        baking_commission: Some(10000),
        finalization_commission: Some(100000),
    }
}

/// The value of a decimal, as a fraction in lowest terms of powers of ten.
fn equals(d: Decimal, num: i128, den: i128) -> bool {
    d.mantissa * den == num * 10i128.pow(d.scale)
}

#[test]
fn baker_id_renders_decimal_text() {
    assert_eq!(baker(1).id(), "42");
    let mut b = baker(1);
    b.id = -17;
    assert_eq!(b.id(), "-17");
    assert_eq!(b.baker_id(), -17);
}

#[test]
fn id_baker_reads_decimal_text() {
    assert_eq!(IdBaker::from_str("42"), Ok(IdBaker { baker_id: 42 }));
    assert_eq!(IdBaker::from_str("+7"), Ok(IdBaker { baker_id: 7 }));
    assert_eq!(IdBaker::from_str("-9"), Ok(IdBaker { baker_id: -9 }));
    assert_eq!(IdBaker::from_str("9223372036854775807"), Ok(IdBaker { baker_id: i64::MAX }));
    assert_eq!(IdBaker::from_str("9223372036854775808"), Err(ApiError::InvalidIdInt));
    assert_eq!(IdBaker::from_str(""), Err(ApiError::InvalidIdInt));
    assert_eq!(IdBaker::from_str("-"), Err(ApiError::InvalidIdInt));
    assert_eq!(IdBaker::from_str(" 1"), Err(ApiError::InvalidIdInt));
    assert_eq!(IdBaker::from_str("1a"), Err(ApiError::InvalidIdInt));
    assert_eq!(IdBaker::try_from("12".to_string()), Ok(IdBaker { baker_id: 12 }));
}

#[test]
fn baker_id_round_trips_through_its_text() {
    for v in [0i64, 1, -1, 42, i64::MAX, i64::MIN, 1_000_000_007] {
        let mut b = baker(1);
        b.id = v;
        assert_eq!(QueryBaker::baker_id_of(b.id()), Ok(v));
    }
}

#[test]
fn lookup_of_missing_resource_is_not_found() {
    assert_eq!(require_found(Some(3)), Ok(3));
    assert_eq!(require_found::<i32>(None), Err(ApiError::NotFound));
}

#[test]
fn active_state_sums_pool_stake_and_takes_share() {
    let b = baker(1_000);
    let BakerState::ActiveBakerState(s) = b.state(10_000, Some(3), Some(500)).unwrap();
    assert_eq!(s.staked_amount, 1_000);
    assert!(s.restake_earnings);
    assert_eq!(s.pool.total_stake, 1_500);
    assert_eq!(s.pool.delegated_stake, 500);
    assert_eq!(s.pool.delegator_count, 3);
    // 1500 * 100 / 10000 = 15 percent
    assert!(equals(s.pool.total_stake_percentage, 15, 1));
    assert_eq!(s.pool.open_status, Some(BakerPoolOpenStatus::OpenForAll));
    assert_eq!(s.pool.metadata_url.as_deref(), Some("https://example.com/baker.json"));
    let rates = s.pool.commission_rates;
    assert_eq!(rates.transaction_commission, Some(Decimal { mantissa: 5000, scale: 5 }));
    assert_eq!(rates.baking_commission, Some(Decimal { mantissa: 10000, scale: 5 }));
    assert_eq!(rates.finalization_commission, Some(Decimal { mantissa: 100000, scale: 5 }));
}

#[test]
fn active_state_share_is_rounded_quotient() {
    let b = baker(1);
    let BakerState::ActiveBakerState(s) = b.state(3, None, None).unwrap();
    // 100 / 3
    let p = s.pool.total_stake_percentage;
    assert!(p.scale > 0);
    assert!(p.mantissa * 3 < 100 * 10i128.pow(p.scale) + 3);
    assert!(p.mantissa * 3 > 100 * 10i128.pow(p.scale) - 3);
    assert_eq!(s.pool.delegator_count, 0);
    assert_eq!(s.pool.delegated_stake, 0);
    assert_eq!(s.pool.total_stake, 1);
}

#[test]
fn active_state_without_total_amount_is_division_by_zero() {
    let b = baker(1_000);
    match b.state(0, Some(1), Some(1)) {
        Err(ApiError::InternalError(m)) => assert_eq!(m, "Division by zero"),
        _ => panic!("expected a division error"),
    }
}

#[test]
fn negative_stakes_are_out_of_range() {
    assert!(matches!(baker(-1).state(10, None, None), Err(ApiError::InvalidInt)));
    assert!(matches!(baker(5).state(10, None, Some(-6)), Err(ApiError::InvalidInt)));
    assert!(matches!(baker(5).state(10, None, Some(-1)), Err(ApiError::InvalidInt)));
}

#[test]
fn commission_out_of_range_is_invalid_int() {
    let mut b = baker(1);
    b.baking_commission = Some(1i64 << 32);
    assert!(matches!(b.state(10, None, None), Err(ApiError::InvalidInt)));
    let mut b = baker(1);
    b.transaction_commission = Some(-1);
    assert!(matches!(b.state(0, None, None), Err(ApiError::InvalidInt)));
}

#[test]
fn state_with_failed_division() {
    let b = baker(1);
    match b.state_with_percentage(None, None, None) {
        Err(ApiError::InternalError(m)) => assert_eq!(m, "Division by zero"),
        _ => panic!("expected a division error"),
    }
    let pct = Decimal { mantissa: 123, scale: 2 };
    let BakerState::ActiveBakerState(s) = b.state_with_percentage(Some(2), Some(4), Some(pct)).unwrap();
    assert_eq!(s.pool.total_stake_percentage, pct);
    assert_eq!(s.pool.total_stake, 5);
}

#[test]
fn transaction_page_cursors_and_bounds() {
    let rows = vec![(9i64, "c"), (5, "b"), (3, "a")];
    let (mut page, bounds) = index_edges(rows);
    let cursors: Vec<&str> = page.edges.iter().map(|e| e.cursor.as_str()).collect();
    assert_eq!(cursors, vec!["9", "5", "3"]);
    let nodes: Vec<&str> = page.edges.iter().map(|e| e.node).collect();
    assert_eq!(nodes, vec!["c", "b", "a"]);
    assert!(!page.has_previous_page && !page.has_next_page);
    let bounds = bounds.unwrap();
    assert_eq!(bounds, PageBounds { min: 3, max: 9 });
    set_ascending_flags(&mut page, bounds, Some(1), Some(9));
    assert!(page.has_previous_page);
    assert!(!page.has_next_page);
    set_ascending_flags(&mut page, bounds, Some(3), Some(12));
    assert!(!page.has_previous_page);
    assert!(page.has_next_page);
    set_ascending_flags(&mut page, bounds, None, None);
    assert!(!page.has_previous_page && !page.has_next_page);
}

#[test]
fn empty_transaction_page_has_no_bounds() {
    let (page, bounds) = index_edges::<u8>(vec![]);
    assert!(page.edges.is_empty());
    assert!(bounds.is_none());
}
