use ccdscan_backend::commission::{commission_rate, commission_rates};
use ccdscan_backend::connection::{descending_edges, set_descending_flags, DescendingI64};
use ccdscan_backend::decimal::Decimal;
use ccdscan_backend::error::ApiError;
use ccdscan_backend::passive_delegation::{percentage_from_conversion, PassiveDelegation};

fn passive(stake: Option<i128>) -> PassiveDelegation {
    PassiveDelegation {
        delegator_count: Some(12),
        delegated_stake: stake,
        payday_transaction_commission: Some(10000),
        payday_baking_commission: Some(12000),
        payday_finalization_commission: None,
    }
}

#[test]
fn counts_and_stake_default_to_zero() {
    let p = PassiveDelegation {
        delegator_count: None,
        delegated_stake: None,
        payday_transaction_commission: None,
        payday_baking_commission: None,
        payday_finalization_commission: None,
    };
    assert_eq!(p.delegator_count(), 0);
    assert_eq!(p.delegated_stake(), 0);
    assert_eq!(passive(Some(77)).delegator_count(), 12);
    assert_eq!(passive(Some(77)).delegated_stake(), 77);
}

#[test]
fn payday_commission_rates() {
    let r = passive(None).commission_rates().unwrap();
    assert_eq!(r.transaction_commission, Some(Decimal { mantissa: 10000, scale: 5 }));
    assert_eq!(r.baking_commission, Some(Decimal { mantissa: 12000, scale: 5 }));
    assert_eq!(r.finalization_commission, None);
    let mut p = passive(None);
    p.payday_finalization_commission = Some(u32::MAX as i64 + 1);
    assert_eq!(p.commission_rates(), Err(ApiError::InvalidInt));
}

#[test]
fn commission_rate_reads_parts_per_hundred_thousand() {
    assert_eq!(commission_rate(None), Ok(None));
    assert_eq!(commission_rate(Some(0)), Ok(Some(Decimal { mantissa: 0, scale: 5 })));
    assert_eq!(commission_rate(Some(u32::MAX as i64)), Ok(Some(Decimal { mantissa: u32::MAX as i128, scale: 5 })));
    assert_eq!(commission_rate(Some(-5)), Err(ApiError::InvalidInt));
    assert_eq!(commission_rates(Some(1), Some(2), Some(-3)), Err(ApiError::InvalidInt));
}

#[test]
fn delegated_stake_percentage_is_share_of_total() {
    let d = passive(Some(250)).delegated_stake_percentage(1000).unwrap();
    assert_eq!(d.mantissa * 1, 25 * 10i128.pow(d.scale));
    let d = passive(None).delegated_stake_percentage(1000).unwrap();
    assert_eq!(d.mantissa, 0);
    // 100 / 3 percent, rounded by the division
    let d = passive(Some(1)).delegated_stake_percentage(3).unwrap();
    assert!(d.scale > 0);
    assert!((d.mantissa * 3 - 100 * 10i128.pow(d.scale)).abs() < 10);
}

#[test]
fn delegated_stake_percentage_of_a_large_stake() {
    // 8e26 * 100 / 9e18, about 8.9e9
    let d = passive(Some(800_000_000_000_000_000_000_000_000)).delegated_stake_percentage(9_000_000_000_000_000_000).unwrap();
    let whole = d.mantissa / 10i128.pow(d.scale);
    assert_eq!(whole, 8_888_888_888);
}

#[test]
fn delegated_stake_percentage_out_of_decimal_range() {
    match passive(Some(i128::MAX / 200)).delegated_stake_percentage(1) {
        Err(ApiError::InternalError(m)) => {
            assert!(m.starts_with("Can not convert `delegated_stake_percentage` to `scalar_types::Decimal`: "));
            assert!(m.len() > "Can not convert `delegated_stake_percentage` to `scalar_types::Decimal`: ".len());
        },
        _ => panic!("expected a conversion error"),
    }
    match percentage_from_conversion(Err("overflow".to_string())) {
        Err(ApiError::InternalError(m)) => assert_eq!(
            m,
            "Can not convert `delegated_stake_percentage` to `scalar_types::Decimal`: overflow"
        ),
        _ => panic!("expected a conversion error"),
    }
    let q = Decimal { mantissa: 5, scale: 1 };
    assert_eq!(percentage_from_conversion(Ok(q)), Ok(q));
}

#[test]
fn descending_page_flags() {
    let rows = vec![(30i64, 'x'), (20, 'y'), (10, 'z')];
    let mut page = descending_edges(rows);
    let cursors: Vec<DescendingI64> = page.edges.iter().map(|e| e.cursor).collect();
    assert_eq!(
        cursors,
        vec![DescendingI64 { value: 30 }, DescendingI64 { value: 20 }, DescendingI64 { value: 10 }]
    );
    set_descending_flags(&mut page, Some(5), Some(30));
    assert!(!page.has_previous_page);
    assert!(page.has_next_page);
    set_descending_flags(&mut page, Some(10), Some(31));
    assert!(page.has_previous_page);
    assert!(!page.has_next_page);
}

#[test]
fn descending_empty_page_is_unchanged() {
    let mut page = descending_edges::<u8>(vec![]);
    set_descending_flags(&mut page, Some(1), Some(100));
    assert!(!page.has_previous_page && !page.has_next_page);
}
