use vstd::prelude::*;

use crate::error::{fails_with, ResonanceError};
use crate::optimal_amount::{calculate_optimal_amount_in, optimal_amount_result};
use crate::pool_state::{parsed_pool, PoolState, POOL_DATA_MIN_LEN};
use crate::saros_cpi::SwapParams;
use crate::vault::{commits, ArbitrageVault, SigningContext};

verus! {

/// Quote input asked for when the caller names no ceiling.
pub const DEFAULT_TRADE_AMOUNT: u64 = 100_000_000;

/// Fixed-point scale of a pool price, used to bound the second leg's output.
pub const PRICE_SCALE: u128 = 1_000_000;

/// One of the two pools of an arbitrage.
#[derive(Clone, Copy, Debug, PartialEq, Eq, Structural)]
pub enum PoolSide {
    A,
    B,
}

/// A swap to issue: the pool it goes to, its parameters, and the context
/// under which the vault authorises it.
#[derive(Clone, Copy, Debug)]
pub struct SwapLeg {
    pub pool: PoolSide,
    pub params: SwapParams,
    pub signer: SigningContext,
}

/// What sizing decided: the direction and the quote input of the first leg,
/// and the cheap pool's price.
#[derive(Clone, Copy, Debug, PartialEq, Eq, Structural)]
pub struct TradePlan {
    pub buy_from_a: bool,
    pub amount_in: u64,
    pub cheap_price: u64,
}

/// Where an arbitrage stands.
#[derive(Clone, Copy, Debug, PartialEq, Eq, Structural)]
pub enum Phase {
    AwaitingFirstLeg,
    AwaitingSecondLeg,
    Committed,
    Aborted,
}

/// One arbitrage in progress: its plan and the balances it measures against.
#[derive(Clone, Copy, Debug)]
pub struct ArbitrageSession {
    pub phase: Phase,
    pub plan: TradePlan,
    pub initial_quote: u64,
    pub initial_base: u64,
    pub quote_before_second_leg: u64,
    pub signer: SigningContext,
}

/// What the caller reports after carrying out a swap: the vault's balances
/// read again afterwards, or that the swap call itself failed.
#[derive(Clone, Copy, Debug, PartialEq, Eq, Structural)]
pub enum ArbitrageEvent {
    FirstLegDone { base_balance: u64, quote_balance: u64 },
    SecondLegDone { quote_balance: u64 },
    SwapCallFailed,
}

/// A committed trade: its profit and the vault's statistics after it.
#[derive(Clone, Copy, Debug, PartialEq, Eq, Structural)]
pub struct TradeOutcome {
    pub profit: u64,
    pub total_profits: u64,
    pub total_trades: u64,
}

/// What the caller must do next: issue a swap, commit the trade, or abort the
/// whole invocation so that the host reverts every effect of it.
#[derive(Clone, Copy, Debug)]
pub enum ArbitrageAction {
    Swap(SwapLeg),
    Commit(TradeOutcome),
    Abort(ResonanceError),
}

/// The trade size asked for: the caller's ceiling, or the default.
pub open spec fn requested_amount(max_amount_in: Option<u64>) -> u64 {
    match max_amount_in {
        Some(a) => a,
        None => DEFAULT_TRADE_AMOUNT,
    }
}

/// The first check of validation that fails, if one does.
pub open spec fn validation_error(vault: ArbitrageVault, requested: u64, quote_balance: u64) -> Option<
    ResonanceError,
> {
    if requested == 0 {
        Some(ResonanceError::InvalidAmount)
    } else if requested > vault.max_single_trade {
        Some(ResonanceError::ExceedsMaxTrade)
    } else if quote_balance < requested {
        Some(ResonanceError::InsufficientFunds)
    } else {
        None
    }
}

/// Both pools' snapshots, or the error that reading them gives.
pub open spec fn observed_pools(a: Seq<u8>, b: Seq<u8>) -> Result<(PoolState, PoolState), ResonanceError> {
    if a.len() < POOL_DATA_MIN_LEN || b.len() < POOL_DATA_MIN_LEN {
        Err(ResonanceError::MalformedPoolData)
    } else {
        Ok((parsed_pool(a), parsed_pool(b)))
    }
}

/// The trade that sizing decides on for two distinct pool prices: buy where
/// the price is lower, and trade the solver's size capped by the request.
pub open spec fn sized_trade(pa: PoolState, pb: PoolState, requested: u64, quote_balance: u64) -> Result<
    TradePlan,
    ResonanceError,
> {
    let buy_from_a = pa.current_price < pb.current_price;
    let cheap = if buy_from_a {
        pa
    } else {
        pb
    };
    let expensive = if buy_from_a {
        pb
    } else {
        pa
    };
    match optimal_amount_result(cheap, expensive, quote_balance) {
        Err(e) => Err(e),
        Ok(optimal) => Ok(
            TradePlan {
                buy_from_a,
                amount_in: if optimal <= requested {
                    optimal
                } else {
                    requested
                },
                cheap_price: cheap.current_price,
            },
        ),
    }
}

/// The outcome of validation, observation and sizing, in that order.
pub open spec fn planned_trade(
    vault: ArbitrageVault,
    requested: u64,
    quote_balance: u64,
    a: Seq<u8>,
    b: Seq<u8>,
) -> Result<TradePlan, ResonanceError> {
    match validation_error(vault, requested, quote_balance) {
        Some(e) => Err(e),
        None => match observed_pools(a, b) {
            Err(e) => Err(e),
            Ok((pa, pb)) => if pa.current_price == pb.current_price {
                Err(ResonanceError::NoArbitrageOpportunity)
            } else {
                sized_trade(pa, pb, requested, quote_balance)
            },
        },
    }
}

/// The first leg of a plan: spend its quote input on the cheap pool, asking
/// for at least half as much base back.
pub open spec fn first_leg(plan: TradePlan, signer: SigningContext) -> SwapLeg {
    SwapLeg {
        pool: if plan.buy_from_a {
            PoolSide::A
        } else {
            PoolSide::B
        },
        params: SwapParams {
            amount_in: plan.amount_in,
            minimum_amount_out: plan.amount_in / 2,
            swap_for_y: true,
        },
        signer,
    }
}

/// The second leg once the base balance reads `base_balance`: sell all the
/// base the first leg brought in on the expensive pool. The first leg failed
/// if it brought in nothing.
pub open spec fn second_leg(s: ArbitrageSession, base_balance: u64) -> Result<SwapLeg, ResonanceError> {
    if base_balance <= s.initial_base {
        Err(ResonanceError::SwapFailed)
    } else {
        let received = base_balance - s.initial_base;
        let minimum_out = received * s.plan.cheap_price / PRICE_SCALE as int;
        if minimum_out > u64::MAX {
            Err(ResonanceError::ArithmeticOverflow)
        } else {
            Ok(
                SwapLeg {
                    pool: if s.plan.buy_from_a {
                        PoolSide::B
                    } else {
                        PoolSide::A
                    },
                    params: SwapParams {
                        amount_in: received as u64,
                        minimum_amount_out: minimum_out as u64,
                        swap_for_y: false,
                    },
                    signer: s.signer,
                },
            )
        }
    }
}

/// The profit to commit once the quote balance reads `quote_balance` after
/// the second leg, or why the trade is refused.
pub open spec fn settlement(s: ArbitrageSession, v: ArbitrageVault, quote_balance: u64) -> Result<
    u64,
    ResonanceError,
> {
    if quote_balance <= s.quote_before_second_leg {
        Err(ResonanceError::SwapFailed)
    } else if quote_balance < s.initial_quote {
        Err(ResonanceError::ArithmeticOverflow)
    } else if quote_balance - s.initial_quote < v.min_profit_threshold {
        Err(ResonanceError::ProfitNotRealized)
    } else if v.total_profits + (quote_balance - s.initial_quote) > u64::MAX {
        Err(ResonanceError::ArithmeticOverflow)
    } else if v.total_trades + 1 > u64::MAX {
        Err(ResonanceError::ArithmeticOverflow)
    } else {
        Ok((quote_balance - s.initial_quote) as u64)
    }
}

/// The action that answers `e` in session `s` with vault `v`.
pub open spec fn step_action(s: ArbitrageSession, v: ArbitrageVault, e: ArbitrageEvent) -> ArbitrageAction {
    match e {
        ArbitrageEvent::SwapCallFailed => ArbitrageAction::Abort(ResonanceError::SwapFailed),
        ArbitrageEvent::FirstLegDone { base_balance, .. } => match second_leg(s, base_balance) {
            Ok(leg) => ArbitrageAction::Swap(leg),
            Err(err) => ArbitrageAction::Abort(err),
        },
        ArbitrageEvent::SecondLegDone { quote_balance } => match settlement(s, v, quote_balance) {
            Ok(profit) => ArbitrageAction::Commit(
                TradeOutcome {
                    profit,
                    total_profits: (v.total_profits + profit) as u64,
                    total_trades: (v.total_trades + 1) as u64,
                },
            ),
            Err(err) => ArbitrageAction::Abort(err),
        },
    }
}

/// The phase that follows an action.
pub open spec fn phase_after(a: ArbitrageAction) -> Phase {
    match a {
        ArbitrageAction::Swap(_) => Phase::AwaitingSecondLeg,
        ArbitrageAction::Commit(_) => Phase::Committed,
        ArbitrageAction::Abort(_) => Phase::Aborted,
    }
}

impl ArbitrageSession {
    /// Whether `e` is an event this session is waiting for.
    pub open spec fn expects(self, e: ArbitrageEvent) -> bool {
        match self.phase {
            Phase::AwaitingFirstLeg => !(e is SecondLegDone),
            Phase::AwaitingSecondLeg => !(e is FirstLegDone),
            _ => false,
        }
    }

    /// Validates a request, reads both pools and sizes the trade, in that
    /// order; on success the session waits for the first leg, returned with
    /// it. No swap is asked for unless every check passes.
    ///
    /// `quote_balance` and `base_balance` are the vault's holdings read
    /// before any swap; `pool_a_data` and `pool_b_data` are the pools' state
    /// blobs.
    pub fn start(
        vault: &ArbitrageVault,
        max_amount_in: Option<u64>,
        quote_balance: u64,
        base_balance: u64,
        pool_a_data: &[u8],
        pool_b_data: &[u8],
    ) -> (r: Result<(ArbitrageSession, SwapLeg), ResonanceError>)
        ensures
            requested_amount(max_amount_in) == 0 ==> fails_with(r, ResonanceError::InvalidAmount),
            requested_amount(max_amount_in) > vault.max_single_trade ==> fails_with(
                r,
                ResonanceError::ExceedsMaxTrade,
            ),
            validation_error(*vault, requested_amount(max_amount_in), quote_balance) is None
                ==> (observed_pools(pool_a_data@, pool_b_data@) matches Ok((pa, pb))
                ==> (pa.current_price == pb.current_price ==> fails_with(
                r,
                ResonanceError::NoArbitrageOpportunity,
            ))),
            match planned_trade(
                *vault,
                requested_amount(max_amount_in),
                quote_balance,
                pool_a_data@,
                pool_b_data@,
            ) {
                Err(e) => fails_with(r, e),
                Ok(plan) => r matches Ok((s, leg)) && s == (ArbitrageSession {
                    phase: Phase::AwaitingFirstLeg,
                    plan,
                    initial_quote: quote_balance,
                    initial_base: base_balance,
                    quote_before_second_leg: quote_balance,
                    signer: SigningContext { authority: vault.authority, bump: vault.bump },
                }) && leg == first_leg(plan, s.signer),
            },
            r matches Ok((s, leg)) ==> {
                &&& 0 < leg.params.amount_in
                &&& leg.params.amount_in <= vault.max_single_trade
                &&& leg.params.amount_in <= quote_balance
            },
    {
        let requested = match max_amount_in {
            Some(a) => a,
            None => DEFAULT_TRADE_AMOUNT,
        };
        if requested == 0 {
            return Err(ResonanceError::InvalidAmount);
        }
        if requested > vault.max_single_trade {
            return Err(ResonanceError::ExceedsMaxTrade);
        }
        if quote_balance < requested {
            return Err(ResonanceError::InsufficientFunds);
        }
        let pool_a = match PoolState::from_account_info(pool_a_data) {
            Ok(p) => p,
            Err(e) => return Err(e),
        };
        let pool_b = match PoolState::from_account_info(pool_b_data) {
            Ok(p) => p,
            Err(e) => return Err(e),
        };
        if pool_a.current_price == pool_b.current_price {
            return Err(ResonanceError::NoArbitrageOpportunity);
        }
        let buy_from_a = pool_a.current_price < pool_b.current_price;
        let sized = if buy_from_a {
            calculate_optimal_amount_in(&pool_a, &pool_b, quote_balance)
        } else {
            calculate_optimal_amount_in(&pool_b, &pool_a, quote_balance)
        };
        let optimal = match sized {
            Ok(a) => a,
            Err(e) => return Err(e),
        };
        let plan = TradePlan {
            buy_from_a,
            amount_in: if optimal <= requested {
                optimal
            } else {
                requested
            },
            cheap_price: if buy_from_a {
                pool_a.current_price
            } else {
                pool_b.current_price
            },
        };
        let signer = vault.signing_context();
        let session = ArbitrageSession {
            phase: Phase::AwaitingFirstLeg,
            plan,
            initial_quote: quote_balance,
            initial_base: base_balance,
            quote_before_second_leg: quote_balance,
            signer,
        };
        let leg = SwapLeg {
            pool: if buy_from_a {
                PoolSide::A
            } else {
                PoolSide::B
            },
            params: SwapParams {
                amount_in: plan.amount_in,
                minimum_amount_out: plan.amount_in / 2,
                swap_for_y: true,
            },
            signer,
        };
        Ok((session, leg))
    }

    /// Answers an event: after the first leg, sizes the second from the base
    /// actually received; after the second, settles the profit into the
    /// vault. The vault changes only when the trade commits, and then by one
    /// trade and the realised profit.
    pub fn step(&mut self, vault: &mut ArbitrageVault, event: ArbitrageEvent) -> (r: ArbitrageAction)
        requires
            old(self).expects(event),
        ensures
            r == step_action(*old(self), *old(vault), event),
            r matches ArbitrageAction::Commit(o) ==> {
                &&& commits(*old(vault), *final(vault), o.profit)
                &&& o.total_profits == final(vault).total_profits
                &&& o.total_trades == final(vault).total_trades
            },
            !(r is Commit) ==> *final(vault) == *old(vault),
            final(self).phase == phase_after(r),
            final(self).plan == old(self).plan,
            final(self).initial_quote == old(self).initial_quote,
            final(self).initial_base == old(self).initial_base,
            final(self).signer == old(self).signer,
            final(self).quote_before_second_leg == (match (event, r) {
                (ArbitrageEvent::FirstLegDone { quote_balance, .. }, ArbitrageAction::Swap(_)) => quote_balance,
                _ => old(self).quote_before_second_leg,
            }),
    {
        match event {
            ArbitrageEvent::SwapCallFailed => {
                self.phase = Phase::Aborted;
                ArbitrageAction::Abort(ResonanceError::SwapFailed)
            },
            ArbitrageEvent::FirstLegDone { base_balance, quote_balance } => {
                if base_balance <= self.initial_base {
                    self.phase = Phase::Aborted;
                    return ArbitrageAction::Abort(ResonanceError::SwapFailed);
                }
                let received = base_balance - self.initial_base;
                let price = self.plan.cheap_price;
                proof {
                    assert(received as u128 * price as u128 <= u64::MAX * u64::MAX) by (nonlinear_arith)
                        requires
                            received <= u64::MAX,
                            price <= u64::MAX,
                    ;
                }
                let minimum_out = (received as u128) * (price as u128) / PRICE_SCALE;
                if minimum_out > u64::MAX as u128 {
                    self.phase = Phase::Aborted;
                    return ArbitrageAction::Abort(ResonanceError::ArithmeticOverflow);
                }
                self.phase = Phase::AwaitingSecondLeg;
                self.quote_before_second_leg = quote_balance;
                ArbitrageAction::Swap(
                    SwapLeg {
                        pool: if self.plan.buy_from_a {
                            PoolSide::B
                        } else {
                            PoolSide::A
                        },
                        params: SwapParams {
                            amount_in: received,
                            minimum_amount_out: minimum_out as u64,
                            swap_for_y: false,
                        },
                        signer: self.signer,
                    },
                )
            },
            ArbitrageEvent::SecondLegDone { quote_balance } => {
                if quote_balance <= self.quote_before_second_leg {
                    self.phase = Phase::Aborted;
                    return ArbitrageAction::Abort(ResonanceError::SwapFailed);
                }
                let profit = match quote_balance.checked_sub(self.initial_quote) {
                    Some(p) => p,
                    None => {
                        self.phase = Phase::Aborted;
                        return ArbitrageAction::Abort(ResonanceError::ArithmeticOverflow);
                    },
                };
                if profit < vault.min_profit_threshold {
                    self.phase = Phase::Aborted;
                    return ArbitrageAction::Abort(ResonanceError::ProfitNotRealized);
                }
                let total_profits = match vault.total_profits.checked_add(profit) {
                    Some(t) => t,
                    None => {
                        self.phase = Phase::Aborted;
                        return ArbitrageAction::Abort(ResonanceError::ArithmeticOverflow);
                    },
                };
                let total_trades = match vault.total_trades.checked_add(1) {
                    Some(t) => t,
                    None => {
                        self.phase = Phase::Aborted;
                        return ArbitrageAction::Abort(ResonanceError::ArithmeticOverflow);
                    },
                };
                vault.total_profits = total_profits;
                vault.total_trades = total_trades;
                self.phase = Phase::Committed;
                ArbitrageAction::Commit(TradeOutcome { profit, total_profits, total_trades })
            },
        }
    }

    /// Tells whether `step` may be given `event` now.
    pub fn accepts(&self, event: &ArbitrageEvent) -> (r: bool)
        ensures
            r == self.expects(*event),
    {
        match self.phase {
            Phase::AwaitingFirstLeg => !matches!(event, ArbitrageEvent::SecondLegDone { .. }),
            Phase::AwaitingSecondLeg => !matches!(event, ArbitrageEvent::FirstLegDone { .. }),
            _ => false,
        }
    }
}

/// One invocation's effect on the vault: `Some(profit)` for a committed
/// trade, `None` for an invocation that failed and left the vault as it was.
pub open spec fn invocation_effect(before: ArbitrageVault, after: ArbitrageVault, outcome: Option<u64>) -> bool {
    match outcome {
        Some(profit) => commits(before, after, profit),
        None => after == before,
    }
}

/// How many of the invocations committed a trade.
pub open spec fn successes(outcomes: Seq<Option<u64>>) -> nat
    decreases outcomes.len(),
{
    if outcomes.len() == 0 {
        0
    } else {
        successes(outcomes.drop_last()) + if outcomes.last() is Some {
            1nat
        } else {
            0nat
        }
    }
}

/// Over any run of invocations, each of which commits a trade or leaves the
/// vault unchanged, total profits never decrease and total trades grow by
/// exactly one per committed trade.
pub proof fn lemma_statistics_monotone(vaults: Seq<ArbitrageVault>, outcomes: Seq<Option<u64>>)
    requires
        vaults.len() == outcomes.len() + 1,
        forall|i: int|
            0 <= i < outcomes.len() ==> invocation_effect(vaults[i], vaults[i + 1], #[trigger] outcomes[i]),
    ensures
        forall|i: int, j: int|
            0 <= i <= j < vaults.len() ==> #[trigger] vaults[i].total_profits <= #[trigger] vaults[j].total_profits,
        vaults.last().total_trades == vaults[0].total_trades + successes(outcomes),
    decreases outcomes.len(),
{
    if outcomes.len() > 0 {
        let n = outcomes.len() as int;
        let prefix = vaults.drop_last();
        let earlier = outcomes.drop_last();
        assert forall|i: int| 0 <= i < earlier.len() implies invocation_effect(
            prefix[i],
            prefix[i + 1],
            #[trigger] earlier[i],
        ) by {
            assert(outcomes[i] == earlier[i]);
        }
        lemma_statistics_monotone(prefix, earlier);
        assert(invocation_effect(vaults[n - 1], vaults[n], outcomes[n - 1]));
        assert forall|i: int, j: int| 0 <= i <= j < vaults.len() implies #[trigger] vaults[i].total_profits
            <= #[trigger] vaults[j].total_profits by {
            if i == j {
            } else if j == n {
                assert(prefix[i] == vaults[i]);
                assert(prefix[n - 1] == vaults[n - 1]);
            } else {
                assert(prefix[i] == vaults[i]);
                assert(prefix[j] == vaults[j]);
            }
        }
        assert(prefix.last() == vaults[n - 1]);
        assert(prefix[0] == vaults[0]);
    }
}

} // verus!
