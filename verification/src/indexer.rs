//! The indexer's preparation of finalized blocks for the database, and the
//! decisions it takes while saving them.
use vstd::prelude::*;
use crate::energy::{ccd_cost, ccd_cost_of, EnergyRates};
use crate::transaction_type::{
    AccountTransactionType, CredentialDeploymentTransactionType, DbTransactionType,
    UpdateTransactionType,
};

verus! {

#[verifier::external_type_specification]
#[verifier::external_body]
pub struct ExNaiveDateTime(chrono::NaiveDateTime);

/// Why a block cannot be prepared for the database.
#[derive(Clone, Copy, Debug, PartialEq, Eq, Structural)]
pub enum IndexerError {
    /// A number from the chain does not fit the database column it goes to.
    IntegerOutOfRange,
}

/// The state of the CCD distribution at a block, in micro CCD.
#[derive(Clone, Copy, Debug, PartialEq, Eq, Structural)]
pub enum RewardsOverview {
    /// Protocol versions 1 to 3, which do not report the staked capital.
    V0 { total_amount: u64 },
    V1 { total_amount: u64, total_staked_capital: u64 },
}

/// The effects of an account transaction: its events when it was applied
/// (as JSON), the reason when it was rejected (as JSON).
pub enum AccountTransactionEffects {
    Applied { events: String },
    Rejected { reject_reason: String },
}

/// What a block item was, with the JSON of its events.
pub enum BlockItemSummaryDetails {
    AccountTransaction {
        sender: String,
        transaction_type: Option<AccountTransactionType>,
        effects: AccountTransactionEffects,
    },
    AccountCreation {
        credential_type: CredentialDeploymentTransactionType,
        address: String,
        events: String,
    },
    Update { update_type: UpdateTransactionType, events: String },
}

/// The outcome of one block item.
pub struct BlockItemSummary {
    /// Index of the item within its block.
    pub index: u64,
    pub hash: String,
    pub energy_cost: u64,
    pub details: BlockItemSummaryDetails,
}

/// What the node reports of a finalized block that the database records.
pub struct BlockData {
    pub height: u64,
    pub block_hash: String,
    /// Hash of the last finalized block that this block records.
    pub block_last_finalized: String,
    pub block_slot_time: chrono::NaiveDateTime,
    /// Baker of the block; the genesis block has none.
    pub block_baker: Option<u64>,
    pub tokenomics_info: RewardsOverview,
    /// The chain parameters' exchange rates at this block.
    pub energy_rates: EnergyRates,
    pub events: Vec<BlockItemSummary>,
}

/// An account created by a block item.
pub struct PreparedAccountCreation {
    pub account_address: String,
    pub height: i64,
    pub block_index: i64,
}

/// The events of a block item that the indexer records beyond the item.
pub enum PreparedEvent {
    AccountCreation(PreparedAccountCreation),
}

/// A block item as the `transactions` table records it.
pub struct PreparedBlockItem {
    pub block_index: i64,
    pub tx_hash: String,
    pub ccd_cost: i64,
    pub energy_cost: i64,
    pub height: i64,
    pub sender: Option<String>,
    pub transaction_type: DbTransactionType,
    pub account_type: Option<AccountTransactionType>,
    pub credential_type: Option<CredentialDeploymentTransactionType>,
    pub update_type: Option<UpdateTransactionType>,
    pub success: bool,
    pub events: Option<String>,
    pub reject: Option<String>,
    pub prepared_event: Option<PreparedEvent>,
}

/// A block as the `blocks` table records it, with its items.
pub struct PreparedBlock {
    pub hash: String,
    pub height: i64,
    pub slot_time: chrono::NaiveDateTime,
    pub baker_id: Option<i64>,
    pub total_amount: i64,
    pub total_staked: i64,
    pub block_last_finalized: String,
    pub prepared_block_items: Vec<PreparedBlockItem>,
}

/// An unsigned number from the chain fits a `BIGINT` column.
pub open spec fn fits_i64(v: u64) -> bool {
    v <= i64::MAX
}

/// `i64::try_from` of an unsigned number.
pub fn to_i64(v: u64) -> (r: Result<i64, IndexerError>)
    ensures
        fits_i64(v) ==> r == Ok::<i64, IndexerError>(v as i64),
        !fits_i64(v) ==> r == Err::<i64, IndexerError>(IndexerError::IntegerOutOfRange),
{
    if v <= 0x7FFF_FFFF_FFFF_FFFFu64 {
        Ok(v as i64)
    } else {
        Err(IndexerError::IntegerOutOfRange)
    }
}

impl RewardsOverview {
    pub open spec fn spec_total_amount(self) -> u64 {
        match self {
            RewardsOverview::V0 { total_amount } => total_amount,
            RewardsOverview::V1 { total_amount, .. } => total_amount,
        }
    }

    /// The staked capital; zero where the protocol does not report it.
    pub open spec fn spec_total_staked(self) -> u64 {
        match self {
            RewardsOverview::V0 { .. } => 0,
            RewardsOverview::V1 { total_staked_capital, .. } => total_staked_capital,
        }
    }

    /// The total CCD in existence, as a `BIGINT`.
    pub fn total_amount(&self) -> (r: Result<i64, IndexerError>)
        ensures
            fits_i64(self.spec_total_amount()) ==> r == Ok::<i64, IndexerError>(self.spec_total_amount() as i64),
            !fits_i64(self.spec_total_amount()) ==> r == Err::<i64, IndexerError>(IndexerError::IntegerOutOfRange),
    {
        match self {
            RewardsOverview::V0 { total_amount } => to_i64(*total_amount),
            RewardsOverview::V1 { total_amount, .. } => to_i64(*total_amount),
        }
    }

    /// The total staked capital, as a `BIGINT`.
    pub fn total_staked(&self) -> (r: Result<i64, IndexerError>)
        ensures
            fits_i64(self.spec_total_staked()) ==> r == Ok::<i64, IndexerError>(self.spec_total_staked() as i64),
            !fits_i64(self.spec_total_staked()) ==> r == Err::<i64, IndexerError>(IndexerError::IntegerOutOfRange),
    {
        match self {
            RewardsOverview::V0 { .. } => Ok(0),
            RewardsOverview::V1 { total_staked_capital, .. } => to_i64(*total_staked_capital),
        }
    }
}

/// The baker of a block, as a `BIGINT`.
pub fn baker_id_of(block_baker: Option<u64>) -> (r: Result<Option<i64>, IndexerError>)
    ensures
        match block_baker {
            None => r == Ok::<Option<i64>, IndexerError>(None),
            Some(b) => if fits_i64(b) {
                r == Ok::<Option<i64>, IndexerError>(Some(b as i64))
            } else {
                r == Err::<Option<i64>, IndexerError>(IndexerError::IntegerOutOfRange)
            },
        },
{
    match block_baker {
        None => Ok(None),
        Some(b) => match to_i64(b) {
            Ok(v) => Ok(Some(v)),
            Err(e) => Err(e),
        },
    }
}

impl BlockItemSummary {
    /// Whether the item had its intended effect: every item but a rejected
    /// account transaction.
    pub open spec fn is_success(self) -> bool {
        !(self.details matches BlockItemSummaryDetails::AccountTransaction {
            effects: AccountTransactionEffects::Rejected { .. },
            ..
        })
    }

    /// The numbers of the item fit their `BIGINT` columns: the block height,
    /// the index, the CCD cost and the energy cost.
    pub open spec fn fits(self, height: u64, rates: EnergyRates) -> bool {
        &&& fits_i64(height)
        &&& fits_i64(self.index)
        &&& ccd_cost_of(rates, self.energy_cost as nat) <= i64::MAX
        &&& fits_i64(self.energy_cost)
    }
}

/// `p` records the item `item` of the block at `height`.
pub open spec fn is_prepared_item(p: PreparedBlockItem, height: u64, rates: EnergyRates, item: BlockItemSummary) -> bool {
    &&& p.block_index as int == item.index as int
    &&& p.tx_hash == item.hash
    &&& p.ccd_cost as int == ccd_cost_of(rates, item.energy_cost as nat)
    &&& p.energy_cost as int == item.energy_cost as int
    &&& p.height as int == height as int
    &&& p.success == item.is_success()
    &&& match item.details {
        BlockItemSummaryDetails::AccountTransaction { sender, transaction_type, effects } => {
            &&& p.sender == Some(sender)
            &&& p.transaction_type == DbTransactionType::Account
            &&& p.account_type == transaction_type
            &&& p.credential_type is None
            &&& p.update_type is None
            &&& p.prepared_event is None
            &&& match effects {
                AccountTransactionEffects::Applied { events } => p.events == Some(events) && p.reject is None,
                AccountTransactionEffects::Rejected { reject_reason } => p.events is None && p.reject
                    == Some(reject_reason),
            }
        },
        BlockItemSummaryDetails::AccountCreation { credential_type, address, events } => {
            &&& p.sender is None
            &&& p.transaction_type == DbTransactionType::CredentialDeployment
            &&& p.account_type is None
            &&& p.credential_type == Some(credential_type)
            &&& p.update_type is None
            &&& p.events == Some(events)
            &&& p.reject is None
            &&& p.prepared_event matches Some(PreparedEvent::AccountCreation(a)) && a.account_address
                == address && a.height as int == height as int && a.block_index as int == item.index as int
        },
        BlockItemSummaryDetails::Update { update_type, events } => {
            &&& p.sender is None
            &&& p.transaction_type == DbTransactionType::Update
            &&& p.account_type is None
            &&& p.credential_type is None
            &&& p.update_type == Some(update_type)
            &&& p.events == Some(events)
            &&& p.reject is None
            &&& p.prepared_event is None
        },
    }
}

impl PreparedAccountCreation {
    /// The account that an account creation at `block_item` of the block in
    /// `data` creates.
    pub fn prepare(data: &BlockData, block_item: &BlockItemSummary, address: &String) -> (r: Result<
        PreparedAccountCreation,
        IndexerError,
    >)
        ensures
            fits_i64(data.height) && fits_i64(block_item.index) <==> r is Ok,
            r matches Ok(a) ==> a.account_address == *address && a.height as int == data.height as int
                && a.block_index as int == block_item.index as int,
    {
        let height = match to_i64(data.height) {
            Ok(h) => h,
            Err(e) => {
                return Err(e);
            },
        };
        let block_index = match to_i64(block_item.index) {
            Ok(i) => i,
            Err(e) => {
                return Err(e);
            },
        };
        Ok(PreparedAccountCreation { account_address: address.clone(), height, block_index })
    }
}

impl PreparedBlockItem {
    /// The record of the item `block_item` of the block in `data`.
    pub fn prepare(data: &BlockData, block_item: &BlockItemSummary) -> (r: Result<PreparedBlockItem, IndexerError>)
        requires
            data.energy_rates.wf(),
        ensures
            block_item.fits(data.height, data.energy_rates) <==> r is Ok,
            r matches Ok(p) ==> is_prepared_item(p, data.height, data.energy_rates, *block_item),
            r matches Ok(p) ==> records_item(p, data.height, *block_item),
    {
        let height = match to_i64(data.height) {
            Ok(h) => h,
            Err(e) => {
                return Err(e);
            },
        };
        let block_index = match to_i64(block_item.index) {
            Ok(i) => i,
            Err(e) => {
                return Err(e);
            },
        };
        let tx_hash = block_item.hash.clone();
        let ccd_cost = match to_i64(ccd_cost(&data.energy_rates, block_item.energy_cost)) {
            Ok(c) => c,
            Err(e) => {
                return Err(e);
            },
        };
        let energy_cost = match to_i64(block_item.energy_cost) {
            Ok(c) => c,
            Err(e) => {
                return Err(e);
            },
        };
        match &block_item.details {
            BlockItemSummaryDetails::AccountTransaction { sender, transaction_type, effects } => {
                let (success, events, reject) = match effects {
                    AccountTransactionEffects::Applied { events } => (true, Some(events.clone()), None),
                    AccountTransactionEffects::Rejected { reject_reason } => (
                        false,
                        None,
                        Some(reject_reason.clone()),
                    ),
                };
                Ok(PreparedBlockItem {
                    block_index,
                    tx_hash,
                    ccd_cost,
                    energy_cost,
                    height,
                    sender: Some(sender.clone()),
                    transaction_type: DbTransactionType::Account,
                    account_type: *transaction_type,
                    credential_type: None,
                    update_type: None,
                    success,
                    events,
                    reject,
                    prepared_event: None,
                })
            },
            BlockItemSummaryDetails::AccountCreation { credential_type, address, events } => {
                let created = match PreparedAccountCreation::prepare(data, block_item, address) {
                    Ok(a) => a,
                    Err(e) => {
                        return Err(e);
                    },
                };
                Ok(PreparedBlockItem {
                    block_index,
                    tx_hash,
                    ccd_cost,
                    energy_cost,
                    height,
                    sender: None,
                    transaction_type: DbTransactionType::CredentialDeployment,
                    account_type: None,
                    credential_type: Some(*credential_type),
                    update_type: None,
                    success: true,
                    events: Some(events.clone()),
                    reject: None,
                    prepared_event: Some(PreparedEvent::AccountCreation(created)),
                })
            },
            BlockItemSummaryDetails::Update { update_type, events } => {
                Ok(PreparedBlockItem {
                    block_index,
                    tx_hash,
                    ccd_cost,
                    energy_cost,
                    height,
                    sender: None,
                    transaction_type: DbTransactionType::Update,
                    account_type: None,
                    credential_type: None,
                    update_type: Some(*update_type),
                    success: true,
                    events: Some(events.clone()),
                    reject: None,
                    prepared_event: None,
                })
            },
        }
    }
}

impl BlockData {
    /// The block's own numbers fit their `BIGINT` columns.
    pub open spec fn block_fits(self) -> bool {
        &&& fits_i64(self.height)
        &&& match self.block_baker {
            Some(b) => fits_i64(b),
            None => true,
        }
        &&& fits_i64(self.tokenomics_info.spec_total_amount())
        &&& fits_i64(self.tokenomics_info.spec_total_staked())
    }

    /// The block and all its items fit the database.
    pub open spec fn fits(self) -> bool {
        &&& self.block_fits()
        &&& forall|i: int| 0 <= i < self.events@.len() ==> (#[trigger] self.events@[i]).fits(
            self.height,
            self.energy_rates,
        )
    }
}

/// `b` records the block in `data`, with each of its items in order.
pub open spec fn is_prepared_block(b: PreparedBlock, data: BlockData) -> bool {
    &&& b.hash == data.block_hash
    &&& b.height as int == data.height as int
    &&& b.slot_time == data.block_slot_time
    &&& b.baker_id == match data.block_baker {
        Some(id) => Some(id as i64),
        None => None,
    }
    &&& b.total_amount as int == data.tokenomics_info.spec_total_amount() as int
    &&& b.total_staked as int == data.tokenomics_info.spec_total_staked() as int
    &&& b.block_last_finalized == data.block_last_finalized
    &&& b.prepared_block_items@.len() == data.events@.len()
    &&& forall|i: int| 0 <= i < data.events@.len() ==> is_prepared_item(
        #[trigger] b.prepared_block_items@[i],
        data.height,
        data.energy_rates,
        data.events@[i],
    )
}

impl PreparedBlock {
    /// The records of the block in `data`: the block and each of its items.
    pub fn prepare(data: &BlockData) -> (r: Result<PreparedBlock, IndexerError>)
        requires
            data.energy_rates.wf(),
        ensures
            data.fits() <==> r is Ok,
            r matches Ok(b) ==> is_prepared_block(b, *data),
            r matches Ok(b) ==> records_block(b, *data),
    {
        let height = match to_i64(data.height) {
            Ok(h) => h,
            Err(e) => {
                return Err(e);
            },
        };
        let hash = data.block_hash.clone();
        let block_last_finalized = data.block_last_finalized.clone();
        let slot_time = data.block_slot_time;
        let baker_id = match baker_id_of(data.block_baker) {
            Ok(b) => b,
            Err(e) => {
                return Err(e);
            },
        };
        let total_amount = match data.tokenomics_info.total_amount() {
            Ok(a) => a,
            Err(e) => {
                return Err(e);
            },
        };
        let total_staked = match data.tokenomics_info.total_staked() {
            Ok(a) => a,
            Err(e) => {
                return Err(e);
            },
        };
        let mut prepared_block_items: Vec<PreparedBlockItem> = Vec::new();
        let mut i: usize = 0;
        while i < data.events.len()
            invariant
                data.energy_rates.wf(),
                data.block_fits(),
                height as int == data.height as int,
                i <= data.events@.len(),
                prepared_block_items@.len() == i,
                forall|j: int| 0 <= j < i ==> (#[trigger] data.events@[j]).fits(data.height, data.energy_rates),
                forall|j: int| 0 <= j < i ==> is_prepared_item(
                    #[trigger] prepared_block_items@[j],
                    data.height,
                    data.energy_rates,
                    data.events@[j],
                ),
            decreases data.events@.len() - i,
        {
            let item = match PreparedBlockItem::prepare(data, &data.events[i]) {
                Ok(p) => p,
                Err(e) => {
                    return Err(e);
                },
            };
            prepared_block_items.push(item);
            i = i + 1;
        }
        Ok(PreparedBlock {
            hash,
            height,
            slot_time,
            baker_id,
            total_amount,
            total_staked,
            block_last_finalized,
            prepared_block_items,
        })
    }
}

/// The genesis block as the `blocks` table records it.
pub struct GenesisBlock {
    pub hash: String,
    pub slot_time: chrono::NaiveDateTime,
    pub baker_id: Option<i64>,
    pub total_amount: i64,
    pub total_staked: i64,
}

/// An account that exists at genesis, as the `accounts` table records it.
pub struct GenesisAccount {
    pub index: i64,
    pub address: String,
    pub amount: i64,
}

/// The record of the genesis block, from its hash, slot time, baker and
/// tokenomics.
pub fn prepare_genesis_block(
    block_hash: String,
    slot_time: chrono::NaiveDateTime,
    block_baker: Option<u64>,
    tokenomics: &RewardsOverview,
) -> (r: Result<GenesisBlock, IndexerError>)
    ensures
        ({
            &&& match block_baker {
                Some(b) => fits_i64(b),
                None => true,
            }
            &&& fits_i64(tokenomics.spec_total_amount())
            &&& fits_i64(tokenomics.spec_total_staked())
        }) <==> r is Ok,
        r matches Ok(g) ==> {
            &&& g.hash == block_hash
            &&& g.slot_time == slot_time
            &&& g.baker_id == match block_baker {
                Some(id) => Some(id as i64),
                None => None,
            }
            &&& g.total_amount as int == tokenomics.spec_total_amount() as int
            &&& g.total_staked as int == tokenomics.spec_total_staked() as int
        },
{
    let baker_id = match baker_id_of(block_baker) {
        Ok(b) => b,
        Err(e) => {
            return Err(e);
        },
    };
    let total_staked = match tokenomics.total_staked() {
        Ok(a) => a,
        Err(e) => {
            return Err(e);
        },
    };
    let total_amount = match tokenomics.total_amount() {
        Ok(a) => a,
        Err(e) => {
            return Err(e);
        },
    };
    Ok(GenesisBlock { hash: block_hash, slot_time, baker_id, total_amount, total_staked })
}

/// The record of an account at genesis, from its index, address and balance
/// in micro CCD.
pub fn prepare_genesis_account(index: u64, address: String, amount: u64) -> (r: Result<GenesisAccount, IndexerError>)
    ensures
        fits_i64(index) && fits_i64(amount) <==> r is Ok,
        r matches Ok(a) ==> a.index as int == index as int && a.address == address && a.amount as int
            == amount as int,
{
    let index = match to_i64(index) {
        Ok(i) => i,
        Err(e) => {
            return Err(e);
        },
    };
    let amount = match to_i64(amount) {
        Ok(a) => a,
        Err(e) => {
            return Err(e);
        },
    };
    Ok(GenesisAccount { index, address, amount })
}

/// Where indexing starts.
#[derive(Clone, Copy, Debug, PartialEq, Eq, Structural)]
pub struct StartHeight {
    /// The first block height to index.
    pub height: u64,
    /// Whether the genesis block must be saved first.
    pub save_genesis: bool,
}

/// Where indexing starts, given the height of the last block stored: right
/// after it, or, on an empty database, after the genesis block, which is
/// saved first. A negative stored height is out of range.
pub fn start_height(last_height_stored: Option<i64>) -> (r: Result<StartHeight, IndexerError>)
    ensures
        match last_height_stored {
            Some(h) => if h >= 0 {
                r == Ok::<StartHeight, IndexerError>(StartHeight { height: (h + 1) as u64, save_genesis: false })
            } else {
                r == Err::<StartHeight, IndexerError>(IndexerError::IntegerOutOfRange)
            },
            None => r == Ok::<StartHeight, IndexerError>(StartHeight { height: 1, save_genesis: true }),
        },
{
    match last_height_stored {
        Some(h) => {
            if h < 0 {
                Err(IndexerError::IntegerOutOfRange)
            } else {
                Ok(StartHeight { height: (h as u64) + 1, save_genesis: false })
            }
        },
        None => Ok(StartHeight { height: 1, save_genesis: true }),
    }
}

/// Indexing never starts at or below a stored block, and never before the
/// block after genesis.
pub proof fn lemma_start_height_after_stored(last_height_stored: Option<i64>, r: StartHeight)
    requires
        match last_height_stored {
            Some(h) => h >= 0 && r == StartHeight { height: (h + 1) as u64, save_genesis: false },
            None => r == StartHeight { height: 1, save_genesis: true },
        },
    ensures
        r.height >= 1,
        last_height_stored matches Some(h) ==> r.height > h,
        r.save_genesis <==> last_height_stored is None,
{
}

/// The last finalized block that the indexer knows of, from the latest block
/// it saved; blocks below it have their finalization time recorded.
pub struct FinalizationState {
    pub last_finalized_height: i64,
    pub last_finalized_hash: String,
}

impl View for FinalizationState {
    type V = (i64, Seq<char>);

    open spec fn view(&self) -> (i64, Seq<char>) {
        (self.last_finalized_height, self.last_finalized_hash@)
    }
}

impl FinalizationState {
    /// When `block` records a newer finalized block than the one known: the
    /// height from which blocks are to be marked finalized by it.
    pub fn pending_finalization(&self, block: &PreparedBlock) -> (r: Option<i64>)
        ensures
            block.block_last_finalized@ != self.last_finalized_hash@ ==> r == Some(self.last_finalized_height),
            block.block_last_finalized@ == self.last_finalized_hash@ ==> r is None,
            r is None ==> forall|h: i64| finalization_after(self@, block.block_last_finalized@, h) == self@,
    {
        if block.block_last_finalized != self.last_finalized_hash {
            Some(self.last_finalized_height)
        } else {
            None
        }
    }

    /// Records that the blocks up to `finalizer_height`, the height of the
    /// last finalized block that `block` records, are marked finalized.
    pub fn record_finalized(&mut self, block: &PreparedBlock, finalizer_height: i64)
        ensures
            final(self).last_finalized_height == finalizer_height,
            final(self).last_finalized_hash@ == block.block_last_finalized@,
            block.block_last_finalized@ != old(self)@.1 ==> final(self)@ == finalization_after(
                old(self)@,
                block.block_last_finalized@,
                finalizer_height,
            ),
    {
        self.last_finalized_height = finalizer_height;
        self.last_finalized_hash = block.block_last_finalized.clone();
    }
}

/// The state after saving a block that records `last_finalized`, where the
/// database answered the finalization update with `finalizer_height`.
pub open spec fn finalization_after(
    state: (i64, Seq<char>),
    last_finalized: Seq<char>,
    finalizer_height: i64,
) -> (i64, Seq<char>) {
    if last_finalized != state.1 {
        (finalizer_height, last_finalized)
    } else {
        state
    }
}

/// After a block is saved, the known last finalized block is the one that the
/// block records; saving another block that records the same one changes
/// nothing and updates no finalization times.
pub proof fn lemma_finalization_follows_blocks(
    state: (i64, Seq<char>),
    last_finalized: Seq<char>,
    h1: i64,
    h2: i64,
)
    ensures
        finalization_after(state, last_finalized, h1).1 == last_finalized,
        finalization_after(finalization_after(state, last_finalized, h1), last_finalized, h2)
            == finalization_after(state, last_finalized, h1),
{
}

/// A prepared item records its events exactly when it succeeded, and its
/// reject reason exactly when it failed; it carries the one kind column that
/// its transaction type calls for.
pub proof fn lemma_prepared_item_outcome(p: PreparedBlockItem, height: u64, rates: EnergyRates, item: BlockItemSummary)
    requires
        is_prepared_item(p, height, rates, item),
    ensures
        p.success <==> p.events is Some,
        p.success <==> p.reject is None,
        !p.success ==> p.transaction_type == DbTransactionType::Account,
        p.credential_type is Some <==> p.transaction_type == DbTransactionType::CredentialDeployment,
        p.update_type is Some <==> p.transaction_type == DbTransactionType::Update,
        p.account_type is Some ==> p.transaction_type == DbTransactionType::Account,
        p.sender is Some <==> p.transaction_type == DbTransactionType::Account,
        p.prepared_event is Some <==> p.transaction_type == DbTransactionType::CredentialDeployment,
{
}

/// What a record of an item must carry, stated column by column over the
/// item: its position, hash, energy and block height; for an account
/// transaction its sender and its transaction type whether it was applied or
/// rejected, with its events when applied and its reject reason when
/// rejected; for an account creation the credential kind and the created
/// account; for an update the update kind.
pub open spec fn records_item(p: PreparedBlockItem, height: u64, item: BlockItemSummary) -> bool {
    &&& p.block_index == item.index
    &&& p.tx_hash@ == item.hash@
    &&& p.energy_cost == item.energy_cost
    &&& p.height == height
    &&& (item.details matches BlockItemSummaryDetails::AccountTransaction { sender, transaction_type, effects } ==> {
        &&& p.transaction_type == DbTransactionType::Account
        &&& p.sender matches Some(x) && x@ == sender@
        &&& p.account_type == transaction_type
        &&& (effects matches AccountTransactionEffects::Applied { events } ==> p.success && (p.events matches Some(e)
            && e@ == events@) && p.reject is None)
        &&& (effects matches AccountTransactionEffects::Rejected { reject_reason } ==> !p.success && p.events is None
            && (p.reject matches Some(x) && x@ == reject_reason@))
    })
    &&& (item.details matches BlockItemSummaryDetails::AccountCreation { credential_type, address, events } ==> {
        &&& p.transaction_type == DbTransactionType::CredentialDeployment
        &&& p.credential_type == Some(credential_type)
        &&& p.success
        &&& p.events matches Some(e) && e@ == events@
        &&& p.prepared_event matches Some(PreparedEvent::AccountCreation(a)) && a.account_address@ == address@
            && a.height == height && a.block_index == item.index
    })
    &&& (item.details matches BlockItemSummaryDetails::Update { update_type, events } ==> {
        &&& p.transaction_type == DbTransactionType::Update
        &&& p.update_type == Some(update_type)
        &&& p.success
        &&& p.events matches Some(e) && e@ == events@
    })
}

/// What the row of a block must carry, stated over the block: its height,
/// hash, slot time, baker, the last finalized block it records, the total
/// amount of CCD, the staked capital (zero where the protocol does not report
/// it), and one record per item, in the items' order.
pub open spec fn records_block(b: PreparedBlock, data: BlockData) -> bool {
    &&& b.height == data.height
    &&& b.hash@ == data.block_hash@
    &&& b.slot_time == data.block_slot_time
    &&& b.block_last_finalized@ == data.block_last_finalized@
    &&& (data.block_baker is None ==> b.baker_id is None)
    &&& (data.block_baker matches Some(id) ==> b.baker_id matches Some(x) && x == id)
    &&& (data.tokenomics_info matches RewardsOverview::V0 { total_amount } ==> b.total_amount == total_amount
        && b.total_staked == 0)
    &&& (data.tokenomics_info matches RewardsOverview::V1 { total_amount, total_staked_capital } ==> b.total_amount
        == total_amount && b.total_staked == total_staked_capital)
    &&& b.prepared_block_items@.len() == data.events@.len()
    &&& forall|i: int| 0 <= i < data.events@.len() ==> records_item(
        #[trigger] b.prepared_block_items@[i],
        data.height,
        data.events@[i],
    )
}

/// A prepared item carries what the item is: in particular an account
/// transaction keeps its transaction type whether it was applied or
/// rejected, and the item is a success exactly when it was not a rejected
/// account transaction.
pub proof fn lemma_prepared_item_records_item(
    p: PreparedBlockItem,
    height: u64,
    rates: EnergyRates,
    item: BlockItemSummary,
)
    requires
        is_prepared_item(p, height, rates, item),
    ensures
        records_item(p, height, item),
        p.success <==> !(item.details matches BlockItemSummaryDetails::AccountTransaction {
            effects: AccountTransactionEffects::Rejected { .. },
            ..
        }),
        item.details matches BlockItemSummaryDetails::AccountTransaction { transaction_type, .. } ==> p.account_type
            == transaction_type,
        !(item.details is AccountTransaction) ==> p.account_type is None,
{
}

/// A prepared block carries what the block is, and each of its items in order.
pub proof fn lemma_prepared_block_records_block(b: PreparedBlock, data: BlockData)
    requires
        is_prepared_block(b, data),
        data.block_fits(),
    ensures
        records_block(b, data),
{
    assert forall|i: int| 0 <= i < data.events@.len() implies records_item(
        #[trigger] b.prepared_block_items@[i],
        data.height,
        data.events@[i],
    ) by {
        lemma_prepared_item_records_item(b.prepared_block_items@[i], data.height, data.energy_rates, data.events@[i]);
    }
}

} // verus!
