use ccdscan_backend::energy::{ccd_cost, EnergyRates, ExchangeRate};
use ccdscan_backend::indexer::{
    prepare_genesis_account, prepare_genesis_block, start_height, AccountTransactionEffects,
    BlockData, BlockItemSummary, BlockItemSummaryDetails, FinalizationState, IndexerError,
    PreparedBlock, PreparedBlockItem, PreparedEvent, RewardsOverview, StartHeight,
};
use ccdscan_backend::transaction_type::{
    baker_transaction_types, AccountTransactionType, CredentialDeploymentTransactionType,
    DbTransactionType, UpdateTransactionType,
};

fn rates(xn: u64, xd: u64, yn: u64, yd: u64) -> EnergyRates {
    EnergyRates {
        micro_ccd_per_euro: ExchangeRate { numerator: xn, denominator: xd },
        euro_per_energy: ExchangeRate { numerator: yn, denominator: yd },
    }
}

fn slot_time() -> chrono::NaiveDateTime {
    chrono::NaiveDate::from_ymd_opt(2024, 5, 1).unwrap().and_hms_opt(12, 0, 0).unwrap()
}

fn item(index: u64, energy: u64, details: BlockItemSummaryDetails) -> BlockItemSummary {
    BlockItemSummary { index, hash: format!("tx{}", index), energy_cost: energy, details }
}

fn block(height: u64, events: Vec<BlockItemSummary>) -> BlockData {
    BlockData {
        height,
        block_hash: "b10".to_string(),
        block_last_finalized: "b8".to_string(),
        block_slot_time: slot_time(),
        block_baker: Some(4),
        tokenomics_info: RewardsOverview::V1 { total_amount: 1_000_000, total_staked_capital: 400_000 },
        energy_rates: rates(100_000_000, 1, 1, 50_000),
        events,
    }
}

fn transfer(index: u64) -> BlockItemSummary {
    item(index, 501, BlockItemSummaryDetails::AccountTransaction {
        sender: "sender".to_string(),
        transaction_type: Some(AccountTransactionType::Transfer),
        effects: AccountTransactionEffects::Applied { events: "[{\"Transferred\":{}}]".to_string() },
    })
}

#[test]
fn ccd_cost_rounds_up_and_wraps() {
    assert_eq!(ccd_cost(&rates(100_000_000, 1, 1, 50_000), 501), 1_002_000);
    assert_eq!(ccd_cost(&rates(1, 1, 1, 2), 3), 2);
    assert_eq!(ccd_cost(&rates(5, 1, 5, 1), 0), 0);
    assert_eq!(ccd_cost(&rates(u64::MAX, 1, u64::MAX, 1), u64::MAX), 0);
    assert_eq!(
        ccd_cost(&rates(987654321987654321, 3, (1u64 << 62) + 7, 17), 12345678901234),
        715228699546904214
    );
}

#[test]
fn prepares_block_and_items_in_order() {
    let data = block(10, vec![
        transfer(0),
        item(1, 300, BlockItemSummaryDetails::AccountTransaction {
            sender: "other".to_string(),
            transaction_type: None,
            effects: AccountTransactionEffects::Rejected { reject_reason: "{\"SerializationFailure\":{}}".to_string() },
        }),
        item(2, 0, BlockItemSummaryDetails::AccountCreation {
            credential_type: CredentialDeploymentTransactionType::Normal,
            address: "new-account".to_string(),
            events: "[{\"AccountCreated\":{}}]".to_string(),
        }),
        item(3, 0, BlockItemSummaryDetails::Update {
            update_type: UpdateTransactionType::UpdateMinBlockTime,
            events: "[]".to_string(),
        }),
    ]);
    let b = PreparedBlock::prepare(&data).unwrap();
    assert_eq!(b.hash, "b10");
    assert_eq!(b.height, 10);
    assert_eq!(b.slot_time, slot_time());
    assert_eq!(b.baker_id, Some(4));
    assert_eq!(b.total_amount, 1_000_000);
    assert_eq!(b.total_staked, 400_000);
    assert_eq!(b.block_last_finalized, "b8");
    assert_eq!(b.prepared_block_items.len(), 4);

    let t: &PreparedBlockItem = &b.prepared_block_items[0];
    assert_eq!((t.block_index, t.height, t.energy_cost, t.ccd_cost), (0, 10, 501, 1_002_000));
    assert_eq!(t.tx_hash, "tx0");
    assert_eq!(t.sender.as_deref(), Some("sender"));
    assert_eq!(t.transaction_type, DbTransactionType::Account);
    assert_eq!(t.account_type, Some(AccountTransactionType::Transfer));
    assert!(t.success);
    assert_eq!(t.events.as_deref(), Some("[{\"Transferred\":{}}]"));
    assert!(t.reject.is_none() && t.prepared_event.is_none());

    let r = &b.prepared_block_items[1];
    assert!(!r.success);
    assert!(r.events.is_none());
    assert_eq!(r.reject.as_deref(), Some("{\"SerializationFailure\":{}}"));
    assert_eq!(r.account_type, None);
    assert_eq!(r.ccd_cost, 600_000);

    let c = &b.prepared_block_items[2];
    assert!(c.success);
    assert_eq!(c.transaction_type, DbTransactionType::CredentialDeployment);
    assert_eq!(c.credential_type, Some(CredentialDeploymentTransactionType::Normal));
    assert!(c.sender.is_none());
    match &c.prepared_event {
        Some(PreparedEvent::AccountCreation(a)) => {
            assert_eq!(a.account_address, "new-account");
            assert_eq!((a.height, a.block_index), (10, 2));
        },
        None => panic!("expected an account creation"),
    }

    let u = &b.prepared_block_items[3];
    assert_eq!(u.transaction_type, DbTransactionType::Update);
    assert_eq!(u.update_type, Some(UpdateTransactionType::UpdateMinBlockTime));
    assert_eq!(u.events.as_deref(), Some("[]"));
}

#[test]
fn v0_tokenomics_reports_no_stake() {
    let mut data = block(3, vec![]);
    data.tokenomics_info = RewardsOverview::V0 { total_amount: 77 };
    data.block_baker = None;
    let b = PreparedBlock::prepare(&data).unwrap();
    assert_eq!(b.total_amount, 77);
    assert_eq!(b.total_staked, 0);
    assert_eq!(b.baker_id, None);
    assert!(b.prepared_block_items.is_empty());
}

#[test]
fn numbers_out_of_bigint_range_are_refused() {
    let big = i64::MAX as u64 + 1;
    assert!(matches!(PreparedBlock::prepare(&block(big, vec![])), Err(IndexerError::IntegerOutOfRange)));
    let mut data = block(1, vec![]);
    data.block_baker = Some(big);
    assert!(matches!(PreparedBlock::prepare(&data), Err(IndexerError::IntegerOutOfRange)));
    let mut data = block(1, vec![]);
    data.tokenomics_info = RewardsOverview::V1 { total_amount: 1, total_staked_capital: big };
    assert!(matches!(PreparedBlock::prepare(&data), Err(IndexerError::IntegerOutOfRange)));
    assert!(matches!(PreparedBlock::prepare(&block(1, vec![transfer(big)])), Err(IndexerError::IntegerOutOfRange)));
    // a cost of more than i64::MAX micro CCD
    let mut data = block(1, vec![item(0, 3, BlockItemSummaryDetails::Update {
        update_type: UpdateTransactionType::UpdateProtocol,
        events: "[]".to_string(),
    })]);
    data.energy_rates = rates(1u64 << 62, 1, 1, 1);
    assert!(matches!(PreparedBlock::prepare(&data), Err(IndexerError::IntegerOutOfRange)));
    let data = block(1, vec![item(0, big, BlockItemSummaryDetails::Update {
        update_type: UpdateTransactionType::UpdateProtocol,
        events: "[]".to_string(),
    })]);
    let mut data = data;
    data.energy_rates = rates(0, 1, 0, 1);
    assert!(matches!(PreparedBlockItem::prepare(&data, &data.events[0]), Err(IndexerError::IntegerOutOfRange)));
}

#[test]
fn start_height_follows_stored_blocks() {
    assert_eq!(start_height(None), Ok(StartHeight { height: 1, save_genesis: true }));
    assert_eq!(start_height(Some(0)), Ok(StartHeight { height: 1, save_genesis: false }));
    assert_eq!(start_height(Some(41)), Ok(StartHeight { height: 42, save_genesis: false }));
    assert_eq!(
        start_height(Some(i64::MAX)),
        Ok(StartHeight { height: i64::MAX as u64 + 1, save_genesis: false })
    );
    assert_eq!(start_height(Some(-1)), Err(IndexerError::IntegerOutOfRange));
}

#[test]
fn finalization_state_follows_blocks() {
    let mut state = FinalizationState { last_finalized_height: 5, last_finalized_hash: "b5".to_string() };
    let b = PreparedBlock::prepare(&block(10, vec![])).unwrap();
    assert_eq!(state.pending_finalization(&b), Some(5));
    state.record_finalized(&b, 8);
    assert_eq!(state.last_finalized_height, 8);
    assert_eq!(state.last_finalized_hash, "b8");
    assert_eq!(state.pending_finalization(&b), None);
}

#[test]
fn genesis_rows() {
    let g = prepare_genesis_block(
        "genesis".to_string(),
        slot_time(),
        None,
        &RewardsOverview::V1 { total_amount: 10, total_staked_capital: 3 },
    )
    .unwrap();
    assert_eq!(g.hash, "genesis");
    assert_eq!(g.baker_id, None);
    assert_eq!((g.total_amount, g.total_staked), (10, 3));
    assert!(prepare_genesis_block("g".to_string(), slot_time(), Some(u64::MAX), &RewardsOverview::V0 { total_amount: 1 }).is_err());
    let a = prepare_genesis_account(7, "addr".to_string(), 500).unwrap();
    assert_eq!((a.index, a.address.as_str(), a.amount), (7, "addr", 500));
    assert_eq!(prepare_genesis_account(7, "addr".to_string(), u64::MAX).err(), Some(IndexerError::IntegerOutOfRange));
}

#[test]
fn baker_transaction_kinds() {
    let kinds = baker_transaction_types();
    assert_eq!(kinds.len(), 6);
    assert!(kinds.contains(&AccountTransactionType::ConfigureBaker));
    assert!(kinds.contains(&AccountTransactionType::AddBaker));
    assert!(!kinds.contains(&AccountTransactionType::ConfigureDelegation));
}
