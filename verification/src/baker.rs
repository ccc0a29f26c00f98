//! Bakers as the GraphQL API presents them.
use vstd::prelude::*;
use crate::commission::{commission_rates, commission_rates_from_parts, CommissionRates};
use crate::connection::{bounds_of, Connection, Edge, PageBounds};
use crate::decimal::{decimal_checked_div, decimal_quotient, Decimal};
use crate::error::ApiError;
use crate::text::{decimal_text, i64_text, parse_i64, parse_i64_text};

verus! {

/// The root of the baker queries.
pub struct QueryBaker;

/// A baker identifier as the GraphQL `ID` of a baker carries it.
#[derive(Clone, Copy, Debug, PartialEq, Eq, Structural)]
pub struct IdBaker {
    pub baker_id: i64,
}

impl IdBaker {
    /// Reads the identifier from its decimal text (`FromStr`).
    pub fn from_str(value: &str) -> (r: Result<IdBaker, ApiError>)
        ensures
            match parse_i64_text(value@) {
                Some(v) => r == Ok::<IdBaker, ApiError>(IdBaker { baker_id: v }),
                None => r == Err::<IdBaker, ApiError>(ApiError::InvalidIdInt),
            },
    {
        match parse_i64(value) {
            Some(baker_id) => Ok(IdBaker { baker_id }),
            None => Err(ApiError::InvalidIdInt),
        }
    }

    /// Reads the identifier from a GraphQL `ID` (`TryFrom<ID>`).
    pub fn try_from(id: String) -> (r: Result<IdBaker, ApiError>)
        ensures
            match parse_i64_text(id@) {
                Some(v) => r == Ok::<IdBaker, ApiError>(IdBaker { baker_id: v }),
                None => r == Err::<IdBaker, ApiError>(ApiError::InvalidIdInt),
            },
    {
        IdBaker::from_str(id.as_str())
    }
}

impl QueryBaker {
    /// The baker identifier that the query `baker(id)` looks up.
    pub fn baker_id_of(id: String) -> (r: Result<i64, ApiError>)
        ensures
            match parse_i64_text(id@) {
                Some(v) => r == Ok::<i64, ApiError>(v),
                None => r == Err::<i64, ApiError>(ApiError::InvalidIdInt),
            },
    {
        match IdBaker::try_from(id) {
            Ok(id) => Ok(id.baker_id),
            Err(e) => Err(e),
        }
    }
}

/// Whether a baker pool accepts delegators.
#[derive(Clone, Copy, Debug, PartialEq, Eq, Structural)]
pub enum BakerPoolOpenStatus {
    OpenForAll,
    ClosedForNew,
    ClosedForAll,
}

/// A baker as stored in the `bakers` table.
pub struct Baker {
    pub id: i64,
    pub staked: i64,
    pub restake_earnings: bool,
    pub open_status: Option<BakerPoolOpenStatus>,
    pub metadata_url: Option<String>,
    pub transaction_commission: Option<i64>,
    pub baking_commission: Option<i64>,
    pub finalization_commission: Option<i64>,
}

/// The pool of an active baker.
pub struct BakerPool {
    /// Total stake of the baker pool as a percentage of all CCDs in existence.
    /// Includes both baker stake and delegated stake.
    pub total_stake_percentage: Decimal,
    /// The total amount staked in this baker pool, in micro CCD. Includes both
    /// baker stake and delegated stake.
    pub total_stake: u64,
    /// The total amount staked by delegators to this baker pool, in micro CCD.
    pub delegated_stake: u64,
    /// The number of delegators that delegate to this baker pool.
    pub delegator_count: i64,
    pub open_status: Option<BakerPoolOpenStatus>,
    pub commission_rates: CommissionRates,
    pub metadata_url: Option<String>,
}

/// The state of a baker that is active.
pub struct ActiveBakerState {
    /// The baker's own stake, in micro CCD.
    pub staked_amount: u64,
    pub restake_earnings: bool,
    pub pool: BakerPool,
}

/// The state of a baker.
pub enum BakerState {
    ActiveBakerState(ActiveBakerState),
}

/// The stake in a pool: the baker's own and the delegated stake.
pub open spec fn pool_stake(staked: i64, delegated_stake: Option<i64>) -> int {
    staked + match delegated_stake {
        Some(d) => d as int,
        None => 0int,
    }
}

/// The dividend whose quotient by the total amount of CCD in existence is the
/// pool's share of it, in percent: the pool stake times 100.
pub open spec fn share_dividend(staked: i64, delegated_stake: Option<i64>) -> Decimal {
    Decimal::integer(pool_stake(staked, delegated_stake) * 100)
}

/// The error text of a failed division of the pool stake by the total amount.
pub open spec fn division_by_zero_text() -> Seq<char> {
    "Division by zero"@
}

impl Baker {
    /// `s` is the active state of this baker, given the number of delegators
    /// to its pool, the sum of their stakes, the pool's share of the total
    /// stake, and the pool's commission rates.
    pub open spec fn is_active_state(
        self,
        s: ActiveBakerState,
        delegator_count: Option<i64>,
        delegated_stake: Option<i64>,
        total_stake_percentage: Decimal,
        rates: CommissionRates,
    ) -> bool {
        &&& s.staked_amount == self.staked
        &&& s.restake_earnings == self.restake_earnings
        &&& s.pool.total_stake_percentage == total_stake_percentage
        &&& s.pool.total_stake == pool_stake(self.staked, delegated_stake)
        &&& s.pool.delegated_stake == match delegated_stake {
            Some(d) => d as int,
            None => 0int,
        }
        &&& s.pool.delegator_count == match delegator_count {
            Some(c) => c,
            None => 0i64,
        }
        &&& s.pool.open_status == self.open_status
        &&& s.pool.commission_rates == rates
        &&& s.pool.metadata_url == self.metadata_url
    }

    /// What `Baker.state` answers, given the pool's share of all CCD in existence
    /// as the division computed it (`None` where it failed): the commission
    /// rates must be in range, the division must have succeeded, and the
    /// baker's stake, the pool stake and the delegated stake must not be
    /// negative.
    pub open spec fn state_outcome(
        self,
        r: Result<BakerState, ApiError>,
        delegator_count: Option<i64>,
        delegated_stake: Option<i64>,
        total_stake_percentage: Option<Decimal>,
    ) -> bool {
        let delegated = match delegated_stake {
            Some(d) => d as int,
            None => 0int,
        };
        match commission_rates_from_parts(
            self.transaction_commission,
            self.baking_commission,
            self.finalization_commission,
        ) {
            Err(e) => r == Err::<BakerState, ApiError>(e),
            Ok(rates) => match total_stake_percentage {
                None => r matches Err(ApiError::InternalError(m)) && m@ == division_by_zero_text(),
                Some(pct) => if self.staked < 0 || pool_stake(self.staked, delegated_stake) < 0
                    || delegated < 0 {
                    r == Err::<BakerState, ApiError>(ApiError::InvalidInt)
                } else {
                    r matches Ok(BakerState::ActiveBakerState(s)) && self.is_active_state(
                        s,
                        delegator_count,
                        delegated_stake,
                        pct,
                        rates,
                    )
                },
            },
        }
    }

    /// The state of the baker, from the pool's share of all CCD in existence as
    /// the division computed it.
    pub fn state_with_percentage(
        &self,
        delegator_count: Option<i64>,
        delegated_stake: Option<i64>,
        total_stake_percentage: Option<Decimal>,
    ) -> (r: Result<BakerState, ApiError>)
        requires
            i64::MIN <= pool_stake(self.staked, delegated_stake) <= i64::MAX,
        ensures
            self.state_outcome(r, delegator_count, delegated_stake, total_stake_percentage),
            r matches Ok(BakerState::ActiveBakerState(s)) ==> {
                &&& s.staked_amount == self.staked
                &&& s.restake_earnings == self.restake_earnings
                &&& s.pool.open_status == self.open_status
                &&& s.pool.metadata_url == self.metadata_url
                &&& s.pool.total_stake == self.staked + match delegated_stake {
                    Some(d) => d as int,
                    None => 0int,
                }
            },
    {
        broadcast use vstd::string::to_string_from_display_ensures_for_str;

        let rates = match commission_rates(
            self.transaction_commission,
            self.baking_commission,
            self.finalization_commission,
        ) {
            Ok(rates) => rates,
            Err(e) => {
                return Err(e);
            },
        };
        let delegated: i64 = match delegated_stake {
            Some(d) => d,
            None => 0,
        };
        let total_pool_stake: i64 = self.staked + delegated;
        let pct = match total_stake_percentage {
            Some(p) => p,
            None => {
                return Err(ApiError::InternalError("Division by zero".to_string()));
            },
        };
        if self.staked < 0 || total_pool_stake < 0 || delegated < 0 {
            return Err(ApiError::InvalidInt);
        }
        let metadata_url = match &self.metadata_url {
            Some(u) => Some(u.clone()),
            None => None,
        };
        let count: i64 = match delegator_count {
            Some(c) => c,
            None => 0,
        };
        Ok(
            BakerState::ActiveBakerState(
                ActiveBakerState {
                    staked_amount: self.staked as u64,
                    restake_earnings: self.restake_earnings,
                    pool: BakerPool {
                        total_stake_percentage: pct,
                        total_stake: total_pool_stake as u64,
                        delegated_stake: delegated as u64,
                        delegator_count: count,
                        open_status: self.open_status,
                        commission_rates: rates,
                        metadata_url,
                    },
                },
            ),
        )
    }
}

impl Baker {
    /// The GraphQL `ID` of the baker: the decimal text of its identifier.
    pub fn id(&self) -> (r: String)
        ensures
            r@ == decimal_text(self.id as int),
    {
        i64_text(self.id)
    }

    /// The baker's identifier.
    pub fn baker_id(&self) -> (r: i64)
        ensures
            r == self.id,
    {
        self.id
    }

    /// `Baker.state`: the baker's state, given the total amount of CCD in
    /// existence, and the number of delegators to the pool and the sum of
    /// their stakes. The pool's share is the pool stake times 100 divided by
    /// the total amount; a zero total fails the division.
    pub fn state(
        &self,
        total_amount: i64,
        delegator_count: Option<i64>,
        delegated_stake: Option<i64>,
    ) -> (r: Result<BakerState, ApiError>)
        requires
            i64::MIN <= pool_stake(self.staked, delegated_stake) <= i64::MAX,
        ensures
            total_amount == 0 ==> self.state_outcome(r, delegator_count, delegated_stake, None),
            total_amount != 0 ==> self.state_outcome(
                r,
                delegator_count,
                delegated_stake,
                Some(
                    decimal_quotient(
                        share_dividend(self.staked, delegated_stake),
                        Decimal::integer(total_amount as int),
                    ),
                ),
            ),
            r matches Ok(BakerState::ActiveBakerState(s)) ==> {
                &&& s.staked_amount == self.staked
                &&& s.restake_earnings == self.restake_earnings
                &&& s.pool.open_status == self.open_status
                &&& s.pool.metadata_url == self.metadata_url
                &&& s.pool.total_stake == self.staked + match delegated_stake {
                    Some(d) => d as int,
                    None => 0int,
                }
            },
    {
        let delegated: i64 = match delegated_stake {
            Some(d) => d,
            None => 0,
        };
        let total_pool_stake: i64 = self.staked + delegated;
        let dividend = Decimal { mantissa: (total_pool_stake as i128) * 100, scale: 0 };
        let divisor = Decimal { mantissa: total_amount as i128, scale: 0 };
        let percentage = decimal_checked_div(dividend, divisor);
        self.state_with_percentage(delegator_count, delegated_stake, percentage)
    }
}

/// The edges of a page of transactions, each with the decimal text of its
/// index as cursor, in the order of `rows`, with the least and the greatest
/// index on the page (`None` for an empty page).
pub fn index_edges<N>(rows: Vec<(i64, N)>) -> (r: (Connection<String, N>, Option<PageBounds>))
    ensures
        r.0.edges@.len() == rows@.len(),
        forall|i: int| 0 <= i < rows@.len() ==> {
            &&& (#[trigger] r.0.edges@[i]).cursor@ == decimal_text(rows@[i].0 as int)
            &&& r.0.edges@[i].node == rows@[i].1
        },
        !r.0.has_previous_page,
        !r.0.has_next_page,
        rows@.len() == 0 <==> r.1 is None,
        r.1 matches Some(b) ==> bounds_of(rows@, b) && b.min <= b.max,
{
    let mut page: Connection<String, N> = Connection::new();
    let mut bounds: Option<PageBounds> = None;
    let ghost all = rows@;
    for row in it: rows.into_iter()
        invariant
            all == it.seq(),
            page.edges@.len() == it.index(),
            forall|i: int| 0 <= i < it.index() ==> {
                &&& (#[trigger] page.edges@[i]).cursor@ == decimal_text(all[i].0 as int)
                &&& page.edges@[i].node == all[i].1
            },
            !page.has_previous_page,
            !page.has_next_page,
            it.index() == 0 <==> bounds is None,
            bounds matches Some(b) ==> bounds_of(all.take(it.index() as int), b) && b.min <= b.max,
    {
        let ghost k = it.index() as int;
        let (index, node) = row;
        let next = match bounds {
            None => PageBounds { min: index, max: index },
            Some(b) => PageBounds {
                min: if index < b.min { index } else { b.min },
                max: if index > b.max { index } else { b.max },
            },
        };
        proof {
            let prefix = all.take(k + 1);
            assert(prefix[k] == all[k]);
            assert forall|i: int| 0 <= i < prefix.len() implies next.min <= #[trigger] prefix[i].0 <= next.max by {
                if i < k {
                    assert(prefix[i] == all.take(k)[i]);
                }
            }
            if bounds is Some {
                let b = bounds->0;
                let old_prefix = all.take(k);
                let i0 = choose|i: int| 0 <= i < old_prefix.len() && #[trigger] old_prefix[i].0 == b.min;
                let j0 = choose|j: int| 0 <= j < old_prefix.len() && #[trigger] old_prefix[j].0 == b.max;
                assert(prefix[i0] == old_prefix[i0]);
                assert(prefix[j0] == old_prefix[j0]);
            }
        }
        bounds = Some(next);
        page.edges.push(Edge { cursor: i64_text(index), node });
    }
    proof {
        assert(all.take(all.len() as int) =~= all);
    }
    (page, bounds)
}

/// Whatever the division gave, an active state reports the stored baker as
/// it is: its own stake, whether it restakes its earnings, its pool's open
/// status and metadata URL, the pool stake as its stake plus the delegated
/// stake (none counting as zero), the delegated stake and the number of
/// delegators (none counting as zero), and the commission rates as the
/// stored parts per hundred thousand at five decimal places.
pub proof fn lemma_active_state_reports_baker(
    baker: Baker,
    r: Result<BakerState, ApiError>,
    delegator_count: Option<i64>,
    delegated_stake: Option<i64>,
    total_stake_percentage: Option<Decimal>,
    s: ActiveBakerState,
)
    requires
        baker.state_outcome(r, delegator_count, delegated_stake, total_stake_percentage),
        r == Ok::<BakerState, ApiError>(BakerState::ActiveBakerState(s)),
    ensures
        s.staked_amount == baker.staked,
        s.restake_earnings == baker.restake_earnings,
        s.pool.open_status == baker.open_status,
        s.pool.metadata_url == baker.metadata_url,
        delegated_stake is None ==> s.pool.total_stake == baker.staked && s.pool.delegated_stake == 0,
        delegated_stake matches Some(d) ==> s.pool.total_stake == baker.staked + d && s.pool.delegated_stake == d,
        delegator_count is None ==> s.pool.delegator_count == 0,
        delegator_count matches Some(c) ==> s.pool.delegator_count == c,
        total_stake_percentage == Some(s.pool.total_stake_percentage),
        baker.transaction_commission matches Some(t) ==> s.pool.commission_rates.transaction_commission
            == Some(Decimal { mantissa: t as i128, scale: 5 }),
        baker.transaction_commission is None ==> s.pool.commission_rates.transaction_commission is None,
        baker.baking_commission matches Some(b) ==> s.pool.commission_rates.baking_commission == Some(
            Decimal { mantissa: b as i128, scale: 5 },
        ),
        baker.baking_commission is None ==> s.pool.commission_rates.baking_commission is None,
        baker.finalization_commission matches Some(f) ==> s.pool.commission_rates.finalization_commission
            == Some(Decimal { mantissa: f as i128, scale: 5 }),
        baker.finalization_commission is None ==> s.pool.commission_rates.finalization_commission is None,
{
}

/// `Baker.state` succeeds exactly when the commission rates are within the
/// range of `u32`, the division gave a share, and neither the baker's stake
/// nor the delegated stake is negative.
pub proof fn lemma_state_succeeds_exactly(
    baker: Baker,
    r: Result<BakerState, ApiError>,
    delegator_count: Option<i64>,
    delegated_stake: Option<i64>,
    total_stake_percentage: Option<Decimal>,
)
    requires
        baker.state_outcome(r, delegator_count, delegated_stake, total_stake_percentage),
    ensures
        r is Ok <==> {
            &&& (baker.transaction_commission matches Some(t) ==> 0 <= t <= u32::MAX)
            &&& (baker.baking_commission matches Some(b) ==> 0 <= b <= u32::MAX)
            &&& (baker.finalization_commission matches Some(f) ==> 0 <= f <= u32::MAX)
            &&& total_stake_percentage is Some
            &&& baker.staked >= 0
            &&& (delegated_stake matches Some(d) ==> d >= 0)
        },
{
}

} // verus!
