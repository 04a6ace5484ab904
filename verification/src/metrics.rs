//! Counts and readings that describe the running system, and figures of
//! trading performance.

use vstd::prelude::*;

use crate::clock::current_time;
use crate::clock::elapsed_micros;
use crate::clock::micros_between;
use crate::clock::Timestamp;
use crate::money::lemma_less_than_is_transitive;
use crate::money::Money;

verus! {

/// One more than `count`, unless it is at its limit.
pub open spec fn bumped(count: u64) -> u64 {
    if count < u64::MAX {
        (count + 1) as u64
    } else {
        count
    }
}

/// One more than `count`, unless it is at its limit.
fn bump(count: u64) -> (next: u64)
    ensures
        next == bumped(count),
{
    if count < u64::MAX {
        count + 1
    } else {
        count
    }
}

/// What a latency timer measures.
#[derive(Debug, Clone, Copy, PartialEq, Eq, Structural)]
pub enum LatencyKind {
    /// The execution of a trade.
    Execution,
    /// The processing of an order.
    OrderProcessing,
    /// The processing of market data.
    MarketData,
}

/// The latencies observed of one kind: how many, and their sum in
/// microseconds. Both stay at their limit once they reach it.
#[derive(Debug, Clone, Copy, PartialEq, Eq, Structural)]
pub struct LatencyRecord {
    pub observations: u64,
    pub total_micros: u64,
}

impl LatencyRecord {
    /// The record with one more observation of `micros`.
    pub open spec fn with(self, micros: u64) -> LatencyRecord {
        LatencyRecord {
            observations: bumped(self.observations),
            total_micros: if self.total_micros + micros >= u64::MAX {
                u64::MAX
            } else {
                (self.total_micros + micros) as u64
            },
        }
    }

    /// The record with one more observation of `micros`.
    pub fn observe(self, micros: u64) -> (record: LatencyRecord)
        ensures
            record == self.with(micros),
    {
        LatencyRecord {
            observations: bump(self.observations),
            total_micros: if micros >= u64::MAX - self.total_micros {
                u64::MAX
            } else {
                self.total_micros + micros
            },
        }
    }
}

/// Measures how long something takes.
#[derive(Debug, Clone, Copy, PartialEq, Eq, Structural)]
pub struct LatencyTimer {
    pub start: Timestamp,
    pub kind: LatencyKind,
}

/// The system's counters and gauges. Counters only rise, and stay at their
/// limit once they reach it; gauges hold the last reading. The portfolio
/// heat is a share of the whole as a decimal amount, the other ratios are in
/// basis points.
#[derive(Debug, Clone, Copy, PartialEq, Eq, Structural)]
pub struct MetricsCollector {
    pub trades_executed: u64,
    pub trades_successful: u64,
    pub trades_failed: u64,
    pub agent_messages: u64,
    pub system_errors: u64,
    pub circuit_breaker_trips: u64,
    pub model_predictions: u64,
    pub portfolio_value: Money,
    pub cash_balance: Money,
    pub daily_pnl: Money,
    pub total_pnl: Money,
    pub active_positions: u32,
    pub portfolio_heat: Money,
    pub max_drawdown: Money,
    pub var_95: Money,
    pub model_accuracy: u32,
    pub strategy_performance: i64,
    pub execution_latency: LatencyRecord,
    pub order_processing_time: LatencyRecord,
    pub market_data_latency: LatencyRecord,
}

impl MetricsCollector {
    /// A collector in which nothing was counted and nothing read.
    pub open spec fn blank() -> MetricsCollector {
        let nothing = Money { mantissa: 0, scale: 0 };
        MetricsCollector {
            trades_executed: 0,
            trades_successful: 0,
            trades_failed: 0,
            agent_messages: 0,
            system_errors: 0,
            circuit_breaker_trips: 0,
            model_predictions: 0,
            portfolio_value: nothing,
            cash_balance: nothing,
            daily_pnl: nothing,
            total_pnl: nothing,
            active_positions: 0,
            portfolio_heat: nothing,
            max_drawdown: nothing,
            var_95: nothing,
            model_accuracy: 0,
            strategy_performance: 0,
            execution_latency: LatencyRecord { observations: 0, total_micros: 0 },
            order_processing_time: LatencyRecord { observations: 0, total_micros: 0 },
            market_data_latency: LatencyRecord { observations: 0, total_micros: 0 },
        }
    }

    /// Creates a collector in which nothing was counted and nothing read.
    pub fn new() -> (collector: MetricsCollector)
        ensures
            collector == MetricsCollector::blank(),
    {
        MetricsCollector {
            trades_executed: 0,
            trades_successful: 0,
            trades_failed: 0,
            agent_messages: 0,
            system_errors: 0,
            circuit_breaker_trips: 0,
            model_predictions: 0,
            portfolio_value: Money::zero(),
            cash_balance: Money::zero(),
            daily_pnl: Money::zero(),
            total_pnl: Money::zero(),
            active_positions: 0,
            portfolio_heat: Money::zero(),
            max_drawdown: Money::zero(),
            var_95: Money::zero(),
            model_accuracy: 0,
            strategy_performance: 0,
            execution_latency: LatencyRecord { observations: 0, total_micros: 0 },
            order_processing_time: LatencyRecord { observations: 0, total_micros: 0 },
            market_data_latency: LatencyRecord { observations: 0, total_micros: 0 },
        }
    }

    /// The collector after a latency of `micros` of the given kind was
    /// observed.
    pub open spec fn with_latency(self, kind: LatencyKind, micros: u64) -> MetricsCollector {
        match kind {
            LatencyKind::Execution => MetricsCollector {
                execution_latency: self.execution_latency.with(micros),
                ..self
            },
            LatencyKind::OrderProcessing => MetricsCollector {
                order_processing_time: self.order_processing_time.with(micros),
                ..self
            },
            LatencyKind::MarketData => MetricsCollector {
                market_data_latency: self.market_data_latency.with(micros),
                ..self
            },
        }
    }

    /// Takes note of a latency of `micros` of the given kind.
    pub fn observe_latency(&mut self, kind: LatencyKind, micros: u64)
        ensures
            *final(self) == old(self).with_latency(kind, micros),
    {
        match kind {
            LatencyKind::Execution => {
                self.execution_latency = self.execution_latency.observe(micros);
            },
            LatencyKind::OrderProcessing => {
                self.order_processing_time = self.order_processing_time.observe(micros);
            },
            LatencyKind::MarketData => {
                self.market_data_latency = self.market_data_latency.observe(micros);
            },
        }
    }

    /// Starts to time the execution of a trade.
    pub fn start_execution_timer() -> (timer: LatencyTimer)
        ensures
            timer.kind == LatencyKind::Execution,
            timer.start.is_clock_reading(),
    {
        LatencyTimer::new(LatencyKind::Execution)
    }

    /// Starts to time the processing of an order.
    pub fn start_order_timer() -> (timer: LatencyTimer)
        ensures
            timer.kind == LatencyKind::OrderProcessing,
            timer.start.is_clock_reading(),
    {
        LatencyTimer::new(LatencyKind::OrderProcessing)
    }

    /// Starts to time the processing of market data.
    pub fn start_market_data_timer() -> (timer: LatencyTimer)
        ensures
            timer.kind == LatencyKind::MarketData,
            timer.start.is_clock_reading(),
    {
        LatencyTimer::new(LatencyKind::MarketData)
    }

    /// Takes the readings of the portfolio.
    pub fn update_portfolio_metrics(
        &mut self,
        total_value: Money,
        cash_balance: Money,
        daily_pnl: Money,
        total_pnl: Money,
        active_positions: u32,
    )
        ensures
            *final(self) == (MetricsCollector {
                portfolio_value: total_value,
                cash_balance,
                daily_pnl,
                total_pnl,
                active_positions,
                ..*old(self)
            }),
    {
        self.portfolio_value = total_value;
        self.cash_balance = cash_balance;
        self.daily_pnl = daily_pnl;
        self.total_pnl = total_pnl;
        self.active_positions = active_positions;
    }

    /// Takes the readings of risk.
    pub fn update_risk_metrics(&mut self, portfolio_heat: Money, max_drawdown: Money, var_95: Money)
        ensures
            *final(self) == (MetricsCollector {
                portfolio_heat,
                max_drawdown,
                var_95,
                ..*old(self)
            }),
    {
        self.portfolio_heat = portfolio_heat;
        self.max_drawdown = max_drawdown;
        self.var_95 = var_95;
    }

    /// Counts a trade that succeeded.
    pub fn record_successful_trade(&mut self)
        ensures
            *final(self) == (MetricsCollector {
                trades_executed: bumped(old(self).trades_executed),
                trades_successful: bumped(old(self).trades_successful),
                ..*old(self)
            }),
    {
        self.trades_executed = bump(self.trades_executed);
        self.trades_successful = bump(self.trades_successful);
    }

    /// Counts a trade that failed.
    pub fn record_failed_trade(&mut self)
        ensures
            *final(self) == (MetricsCollector {
                trades_executed: bumped(old(self).trades_executed),
                trades_failed: bumped(old(self).trades_failed),
                ..*old(self)
            }),
    {
        self.trades_executed = bump(self.trades_executed);
        self.trades_failed = bump(self.trades_failed);
    }

    /// Counts an error of the system.
    pub fn record_system_error(&mut self)
        ensures
            *final(self) == (MetricsCollector {
                system_errors: bumped(old(self).system_errors),
                ..*old(self)
            }),
    {
        self.system_errors = bump(self.system_errors);
    }

    /// Counts a trip of the circuit breaker.
    pub fn record_circuit_breaker(&mut self)
        ensures
            *final(self) == (MetricsCollector {
                circuit_breaker_trips: bumped(old(self).circuit_breaker_trips),
                ..*old(self)
            }),
    {
        self.circuit_breaker_trips = bump(self.circuit_breaker_trips);
    }

    /// Counts a message that the router took off the bus.
    pub fn record_agent_message(&mut self)
        ensures
            *final(self) == (MetricsCollector {
                agent_messages: bumped(old(self).agent_messages),
                ..*old(self)
            }),
    {
        self.agent_messages = bump(self.agent_messages);
    }

    /// Counts a prediction of a model.
    pub fn record_model_prediction(&mut self)
        ensures
            *final(self) == (MetricsCollector {
                model_predictions: bumped(old(self).model_predictions),
                ..*old(self)
            }),
    {
        self.model_predictions = bump(self.model_predictions);
    }

    /// Takes the reading of the model's accuracy, in basis points.
    pub fn update_model_accuracy(&mut self, accuracy: u32)
        ensures
            *final(self) == (MetricsCollector { model_accuracy: accuracy, ..*old(self) }),
    {
        self.model_accuracy = accuracy;
    }

    /// Takes the reading of the strategy's performance, in basis points.
    pub fn update_strategy_performance(&mut self, performance: i64)
        ensures
            *final(self) == (MetricsCollector { strategy_performance: performance, ..*old(self) }),
    {
        self.strategy_performance = performance;
    }
}

impl LatencyTimer {
    /// A timer of the given kind that was started at `start`.
    pub fn started_at(kind: LatencyKind, start: Timestamp) -> (timer: LatencyTimer)
        ensures
            timer == (LatencyTimer { start, kind }),
    {
        LatencyTimer { start, kind }
    }

    /// Starts a timer of the given kind now.
    pub fn new(kind: LatencyKind) -> (timer: LatencyTimer)
        ensures
            timer.kind == kind,
            timer.start.is_clock_reading(),
    {
        LatencyTimer::started_at(kind, current_time())
    }

    /// Stops the timer at `end` and hands what it measured to `collector`.
    pub fn observe_at(self, end: Timestamp, collector: &mut MetricsCollector)
        ensures
            *final(collector) == old(collector).with_latency(
                self.kind,
                micros_between(self.start, end),
            ),
    {
        collector.observe_latency(self.kind, elapsed_micros(self.start, end));
    }

    /// Stops the timer now and hands what it measured to `collector`: one
    /// more observation of the timer's kind, and nothing else.
    pub fn observe(self, collector: &mut MetricsCollector)
        ensures
            exists|end: Timestamp|
                end.is_clock_reading() && *final(collector) == old(collector).with_latency(
                    self.kind,
                    micros_between(self.start, end),
                ),
    {
        let end = current_time();
        self.observe_at(end, collector);
    }
}

/// Every trade that was counted either succeeded or failed: while no counter
/// has reached its limit, the trades executed are the successes and the
/// failures together.
pub proof fn lemma_trades_add_up(before: MetricsCollector, after: MetricsCollector, succeeded: bool)
    requires
        before.trades_executed == before.trades_successful + before.trades_failed,
        before.trades_executed < u64::MAX,
        after == if succeeded {
            MetricsCollector {
                trades_executed: bumped(before.trades_executed),
                trades_successful: bumped(before.trades_successful),
                ..before
            }
        } else {
            MetricsCollector {
                trades_executed: bumped(before.trades_executed),
                trades_failed: bumped(before.trades_failed),
                ..before
            }
        },
    ensures
        after.trades_executed == after.trades_successful + after.trades_failed,
{
}

/// Computes figures of trading performance.
pub struct PerformanceCalculator;

/// The state of a scan for the deepest drawdown: the highest value so far
/// and the deepest fall from a high.
#[derive(Debug, Clone, Copy, PartialEq, Eq, Structural)]
pub struct DrawdownScan {
    pub peak: Money,
    pub deepest: Money,
}

/// The scan after one more value, given the fall from the peak to that value.
/// A value above the peak becomes the new peak. Otherwise the fall counts if
/// it is deeper than the deepest so far, and the scan fails if the fall could
/// not be computed.
pub open spec fn scan_step(scan: DrawdownScan, value: Money, fall: Option<Money>) -> Option<
    DrawdownScan,
> {
    if scan.peak.less_than(value) {
        Some(DrawdownScan { peak: value, deepest: scan.deepest })
    } else {
        match fall {
            Some(depth) => if scan.deepest.less_than(depth) {
                Some(DrawdownScan { peak: scan.peak, deepest: depth })
            } else {
                Some(scan)
            },
            None => None,
        }
    }
}

/// The scan after the first `count` values of `curve`.
pub open spec fn scan_of(curve: Seq<Money>, count: nat) -> Option<DrawdownScan>
    decreases count,
{
    if count <= 1 {
        Some(DrawdownScan { peak: curve[0], deepest: Money { mantissa: 0, scale: 0 } })
    } else {
        match scan_of(curve, (count - 1) as nat) {
            Some(scan) => scan_step(scan, curve[count - 1], scan.peak.minus(curve[count - 1])),
            None => None,
        }
    }
}

/// The deepest fall of `curve` from a high to a later value: zero for an
/// empty curve, and nothing if a fall overflows.
pub open spec fn max_drawdown_of(curve: Seq<Money>) -> Option<Money> {
    if curve.len() == 0 {
        Some(Money { mantissa: 0, scale: 0 })
    } else {
        match scan_of(curve, curve.len()) {
            Some(scan) => Some(scan.deepest),
            None => None,
        }
    }
}

/// Whether every value of `curve` fits the decimal format.
pub open spec fn all_well_formed(curve: Seq<Money>) -> bool {
    forall|i: int| 0 <= i < curve.len() ==> (#[trigger] curve[i]).well_formed()
}

/// How the profits compare with the losses.
#[derive(Debug, Clone, Copy, PartialEq, Eq, Structural)]
pub enum ProfitFactor {
    /// There were profits and no losses.
    Unbounded,
    /// The profits divided by the size of the losses.
    Of(Money),
}

/// The profit factor of the given total profit and total loss: without
/// losses it is unbounded if there were profits and zero if there were none;
/// otherwise it is the profit divided by the size of the loss, and nothing
/// if that division overflows.
pub open spec fn profit_factor_of(total_profit: Money, total_loss: Money) -> Option<ProfitFactor> {
    if total_loss.mantissa == 0 {
        if total_profit.is_positive() {
            Some(ProfitFactor::Unbounded)
        } else {
            Some(ProfitFactor::Of(Money { mantissa: 0, scale: 0 }))
        }
    } else {
        let size = Money {
            mantissa: if total_loss.mantissa < 0 {
                (-total_loss.mantissa) as i128
            } else {
                total_loss.mantissa
            },
            scale: total_loss.scale,
        };
        match total_profit.over(size) {
            Some(factor) => Some(ProfitFactor::Of(factor)),
            None => None,
        }
    }
}

impl PerformanceCalculator {
    /// The profit factor of the given total profit and total loss.
    pub fn calculate_profit_factor(total_profit: Money, total_loss: Money) -> (factor: Option<
        ProfitFactor,
    >)
        requires
            total_profit.well_formed(),
            total_loss.well_formed(),
        ensures
            factor == profit_factor_of(total_profit, total_loss),
    {
        if total_loss.mantissa == 0 {
            if total_profit.is_sign_positive() {
                Some(ProfitFactor::Unbounded)
            } else {
                Some(ProfitFactor::Of(Money::zero()))
            }
        } else {
            match total_profit.checked_div(&total_loss.abs()) {
                Some(factor) => Some(ProfitFactor::Of(factor)),
                None => None,
            }
        }
    }

    /// The win rate in basis points: the winning trades as a share of all
    /// trades, and zero where there were none.
    pub fn calculate_win_rate(winning_trades: u64, total_trades: u64) -> (rate: u128)
        ensures
            rate == if total_trades == 0 {
                0
            } else {
                winning_trades * 10_000 / (total_trades as int)
            },
    {
        if total_trades == 0 {
            0
        } else {
            (winning_trades as u128) * 10_000 / (total_trades as u128)
        }
    }

    /// Takes one more value into a scan for the deepest drawdown, given the
    /// fall from the peak to that value.
    pub fn track_drawdown(scan: DrawdownScan, value: Money, fall: Option<Money>) -> (next: Option<
        DrawdownScan,
    >)
        requires
            scan.peak.well_formed(),
            scan.deepest.well_formed(),
            value.well_formed(),
            fall matches Some(depth) ==> depth.well_formed(),
        ensures
            next == scan_step(scan, value, fall),
            next matches Some(later) ==> later.peak.well_formed() && later.deepest.well_formed(),
    {
        if scan.peak.is_less_than(&value) {
            Some(DrawdownScan { peak: value, deepest: scan.deepest })
        } else {
            match fall {
                Some(depth) => if scan.deepest.is_less_than(&depth) {
                    Some(DrawdownScan { peak: scan.peak, deepest: depth })
                } else {
                    Some(scan)
                },
                None => None,
            }
        }
    }

    /// The deepest fall of `equity_curve` from a high to a later value, or
    /// nothing if a fall overflows the decimal format.
    pub fn calculate_max_drawdown(equity_curve: &[Money]) -> (deepest: Option<Money>)
        requires
            all_well_formed(equity_curve@),
        ensures
            deepest == max_drawdown_of(equity_curve@),
    {
        if equity_curve.len() == 0 {
            return Some(Money::zero());
        }
        let mut scan = DrawdownScan { peak: equity_curve[0], deepest: Money::zero() };
        let mut i: usize = 1;
        while i < equity_curve.len()
            invariant
                1 <= i <= equity_curve.len(),
                all_well_formed(equity_curve@),
                scan_of(equity_curve@, i as nat) == Some(scan),
                scan.peak.well_formed(),
                scan.deepest.well_formed(),
            decreases equity_curve.len() - i,
        {
            let value = equity_curve[i];
            let fall = scan.peak.checked_sub(&value);
            match PerformanceCalculator::track_drawdown(scan, value, fall) {
                Some(next) => {
                    scan = next;
                },
                None => {
                    proof {
                        lemma_scan_stays_failed(equity_curve@, (i + 1) as nat, equity_curve@.len());
                    }
                    return None;
                },
            }
            i += 1;
        }
        Some(scan.deepest)
    }
}

/// The fall that the scan computes at the value in place `place` of `curve`:
/// from the highest value in front of it down to it, where the value is not
/// a new high; nothing at a new high and where the fall overflows.
pub open spec fn fall_at(curve: Seq<Money>, place: nat) -> Option<Money> {
    match scan_of(curve, place) {
        Some(scan) => if scan.peak.less_than(curve[place as int]) {
            None
        } else {
            scan.peak.minus(curve[place as int])
        },
        None => None,
    }
}

/// Whether `deepest` is the deepest of the falls that the scan computes in
/// front of place `count` of `curve`: it is zero or one of those falls, and
/// none of those falls is greater.
pub open spec fn is_deepest_fall(curve: Seq<Money>, count: nat, deepest: Money) -> bool {
    &&& deepest == (Money { mantissa: 0, scale: 0 }) || exists|place: nat|
        1 <= place < count && #[trigger] fall_at(curve, place) == Some(deepest)
    &&& forall|place: nat|
        1 <= place < count ==> (#[trigger] fall_at(curve, place) matches Some(fall)
            ==> !deepest.less_than(fall))
}

/// A scan holds the deepest of the falls that it has computed.
pub proof fn lemma_scan_holds_the_deepest(curve: Seq<Money>, count: nat)
    requires
        scan_of(curve, count) is Some,
    ensures
        is_deepest_fall(curve, count, scan_of(curve, count)->Some_0.deepest),
    decreases count,
{
    if count > 1 {
        let before = (count - 1) as nat;
        let earlier = scan_of(curve, before)->Some_0;
        let scan = scan_of(curve, count)->Some_0;
        lemma_scan_holds_the_deepest(curve, before);
        if scan.deepest == earlier.deepest {
            if earlier.deepest != (Money { mantissa: 0, scale: 0 }) {
                let place = choose|place: nat|
                    1 <= place < before && #[trigger] fall_at(curve, place) == Some(
                        earlier.deepest,
                    );
                assert(1 <= place < count && fall_at(curve, place) == Some(scan.deepest));
            }
            assert forall|place: nat| 1 <= place < count implies (#[trigger] fall_at(
                curve,
                place,
            ) matches Some(fall) ==> !scan.deepest.less_than(fall)) by {
                if place < before {
                } else {
                    assert(place == before);
                }
            }
        } else {
            assert(fall_at(curve, before) == Some(scan.deepest));
            assert(earlier.deepest.less_than(scan.deepest));
            assert forall|place: nat| 1 <= place < count implies (#[trigger] fall_at(
                curve,
                place,
            ) matches Some(fall) ==> !scan.deepest.less_than(fall)) by {
                if fall_at(curve, place) is Some {
                    let fall = fall_at(curve, place)->Some_0;
                    if place < before {
                        if scan.deepest.less_than(fall) {
                            lemma_less_than_is_transitive(earlier.deepest, scan.deepest, fall);
                        }
                    } else {
                        assert(place == before);
                        assert(fall == scan.deepest);
                        assert(!scan.deepest.less_than(scan.deepest));
                    }
                }
            }
        }
    }
}

/// The deepest drawdown of a curve is zero or one of the falls from a high
/// that the scan of the curve computes, and none of those falls is greater.
pub proof fn lemma_max_drawdown_is_the_deepest_fall(curve: Seq<Money>)
    requires
        max_drawdown_of(curve) is Some,
    ensures
        is_deepest_fall(curve, curve.len(), max_drawdown_of(curve)->Some_0),
{
    if curve.len() > 0 {
        lemma_scan_holds_the_deepest(curve, curve.len());
    }
}

/// A scan that has failed stays failed.
pub proof fn lemma_scan_stays_failed(curve: Seq<Money>, failed: nat, later: nat)
    requires
        scan_of(curve, failed) is None,
        failed <= later,
    ensures
        scan_of(curve, later) is None,
    decreases later,
{
    if failed < later {
        lemma_scan_stays_failed(curve, failed, (later - 1) as nat);
    }
}

} // verus!
