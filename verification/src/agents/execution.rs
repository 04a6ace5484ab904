//! The execution engine: turns signals into orders.

use vstd::prelude::*;
use vstd::string::StringExecFns;

use crate::agents::intelligence::micros_of;
use crate::agents::intelligence::millis_to_micros;
use crate::agents::traits::evolution_by_rule;
use crate::agents::traits::share;
use crate::agents::traits::share_of;
use crate::agents::traits::AgentResult;
use crate::agents::traits::AgentResultView;
use crate::agents::traits::AutonomousAgent;
use crate::agents::traits::WorkerAction;
use crate::agents::traits::WorkerEvent;
use crate::ids::AgentId;
use crate::agents::traits::named_code;
use crate::agents::traits::rust_code;
use crate::agents::traits::CodeGeneration;
use crate::agents::traits::Requirements;
use crate::text::joined;
use crate::agents::traits::BaseAgent;
use crate::agents::traits::TradeExecutor;
use crate::agents::traits::WorkerSchedule;
use crate::agents::traits::EvolutionResult;
use crate::agents::traits::ExecutionPlan;
use crate::agents::traits::OrderStatus;
use crate::agents::traits::SystemFeedback;
use crate::chance::draw_below;
use crate::chance::draw_within;
use crate::clock::current_time;
use crate::types::ExecutionResult;
use crate::config::ApiConfig;
use crate::config::ExecutionConfig;
use crate::errors::ErrorView;
use crate::errors::TradingError;
use crate::ids::fresh_order_id;
use crate::ids::BROADCAST;
use crate::money::Money;
use crate::types::AgentCapability;
use crate::types::Order;
use crate::types::OrderSide;
use crate::types::OrderType;
use crate::types::PerformanceMetrics;
use crate::types::SignalType;
use crate::types::SignalView;
use crate::types::TradingSignal;

verus! {

/// Executes trades.
#[derive(Debug)]
pub struct ExecutionEngineAgent {
    pub base: BaseAgent,
    pub config: ExecutionConfig,
    pub api_config: ApiConfig,
}

/// The size of a position at full signal strength, in units of currency.
pub const BASE_POSITION: u64 = 10;

/// The quantity above which an order is worked over time.
pub const LARGE_ORDER: i64 = 100;

/// The side on which a signal is traded; a signal to hold is not traded.
pub open spec fn side_of(signal_type: SignalType) -> Option<OrderSide> {
    match signal_type {
        SignalType::Buy | SignalType::StrongBuy => Some(OrderSide::Buy),
        SignalType::Sell | SignalType::StrongSell => Some(OrderSide::Sell),
        SignalType::Hold => None,
    }
}

/// The quantity for a signal of the given strength: the base position times
/// the strength.
pub open spec fn quantity_for(strength: u32) -> Money {
    Money { mantissa: (BASE_POSITION * strength) as i128, scale: 4 }
}

/// Whether an order of this quantity is worked over time.
pub open spec fn is_large(quantity: Money) -> bool {
    (Money { mantissa: LARGE_ORDER as i128, scale: 0 }).less_than(quantity)
}

impl ExecutionEngineAgent {
    /// Creates the agent. It can optimise execution.
    pub fn new(config: ExecutionConfig, api_config: ApiConfig) -> (result: Result<
        ExecutionEngineAgent,
        TradingError,
    >)
        ensures
            result matches Ok(agent) && agent.base.id != BROADCAST && agent.base.capabilities@
                == seq![AgentCapability::ExecutionOptimization] && !agent.base.shutdown_signal
                && agent.config == config && agent.api_config == api_config,
    {
        let mut capabilities: Vec<AgentCapability> = Vec::new();
        capabilities.push(AgentCapability::ExecutionOptimization);
        assert(capabilities@ =~= seq![AgentCapability::ExecutionOptimization]);
        let base = BaseAgent::new(capabilities);
        Ok(ExecutionEngineAgent { base, config, api_config })
    }

    /// The side on which a signal is traded.
    pub fn order_side(signal_type: SignalType) -> (side: Option<OrderSide>)
        ensures
            side == side_of(signal_type),
    {
        match signal_type {
            SignalType::Buy | SignalType::StrongBuy => Some(OrderSide::Buy),
            SignalType::Sell | SignalType::StrongSell => Some(OrderSide::Sell),
            SignalType::Hold => None,
        }
    }

    /// Turns a signal into a pending market order under a fresh identifier,
    /// stamped with the current time. A signal to hold is refused.
    pub fn create_order_from_signal(&self, signal: &TradingSignal) -> (result: Result<
        Order,
        TradingError,
    >)
        ensures
            match side_of(signal.signal_type) {
                Some(side) => result matches Ok(order) && order.side == side && order.symbol@
                    == signal.symbol@ && order.order_type == OrderType::Market && order.quantity
                    == quantity_for(signal.strength) && order.quantity.well_formed() && order.price
                    is None && order.status == crate::types::OrderStatus::Pending && order.id
                    != 0 && order.timestamp.is_clock_reading(),
                None => result matches Err(error) && error@ == (ErrorView::Execution {
                    message: "Cannot execute hold signal"@,
                }),
            },
    {
        let side = match ExecutionEngineAgent::order_side(signal.signal_type) {
            Some(side) => side,
            None => {
                return Err(TradingError::execution("Cannot execute hold signal"));
            },
        };
        let scaled: u64 = BASE_POSITION * (signal.strength as u64);
        Ok(
            Order {
                id: fresh_order_id(),
                symbol: signal.symbol.clone(),
                order_type: OrderType::Market,
                side,
                quantity: Money { mantissa: scaled as i128, scale: 4 },
                price: None,
                timestamp: current_time(),
                status: crate::types::OrderStatus::Pending,
            },
        )
    }

    /// Plans how to work `order`: over time if it is large, at the market
    /// otherwise; in slices of a tenth, within the allowed latency.
    pub fn create_execution_plan(&self, order: &Order) -> (result: Result<
        ExecutionPlan,
        TradingError,
    >)
        requires
            order.quantity.well_formed(),
        ensures
            result matches Ok(plan) && plan.algorithm@ == (if is_large(order.quantity) {
                "TWAP"@
            } else {
                "MARKET"@
            }) && plan.time_horizon_ms == self.config.max_latency_ms && plan.slice_size == 1_000
                && plan.price_improvement_target == 10 && plan.contingency_plans.deep_view()
                == seq!["CANCEL_ON_TIMEOUT"@],
    {
        let threshold = Money::from_units(LARGE_ORDER);
        let algorithm = if threshold.is_less_than(&order.quantity) {
            String::from_str("TWAP")
        } else {
            String::from_str("MARKET")
        };
        let mut contingency_plans: Vec<String> = Vec::new();
        contingency_plans.push(String::from_str("CANCEL_ON_TIMEOUT"));
        assert(contingency_plans.deep_view() =~= seq!["CANCEL_ON_TIMEOUT"@]);
        Ok(
            ExecutionPlan {
                algorithm,
                time_horizon_ms: self.config.max_latency_ms,
                slice_size: 1_000,
                price_improvement_target: 10,
                contingency_plans,
            },
        )
    }

    /// The agent's own figures: no trades yet, and the allowed latency as
    /// execution time.
    pub fn self_evaluate(&self) -> (result: Result<PerformanceMetrics, TradingError>)
        ensures
            result matches Ok(metrics) && metrics == PerformanceMetrics::untraded(
                micros_of(self.config.max_latency_ms),
            ),
    {
        Ok(PerformanceMetrics::none_yet(millis_to_micros(self.config.max_latency_ms)))
    }

    /// The agent's mission: it waits for signals and gives none.
    pub fn execute_mission(&self) -> (result: Result<AgentResult, TradingError>)
        ensures
            result matches Ok(outcome) && outcome@ == (AgentResultView {
                success: true,
                signals: Seq::<SignalView>::empty(),
                metrics: PerformanceMetrics::untraded(micros_of(self.config.max_latency_ms)),
                recommendations: seq!["Ready for trade execution"@],
                errors: Seq::<Seq<char>>::empty(),
            }),
    {
        let mut recommendations: Vec<String> = Vec::new();
        recommendations.push(String::from_str("Ready for trade execution"));
        let outcome = AgentResult {
            success: true,
            signals: Vec::new(),
            metrics: PerformanceMetrics::none_yet(millis_to_micros(self.config.max_latency_ms)),
            recommendations,
            errors: Vec::new(),
        };
        assert(outcome.signals.deep_view() =~= Seq::empty());
        assert(outcome.recommendations.deep_view() =~= seq!["Ready for trade execution"@]);
        assert(outcome.errors.deep_view() =~= Seq::empty());
        Ok(outcome)
    }


    /// Adapts to feedback: above a score of 80% the agent asks for a
    /// tighter latency.
    pub fn evolve_strategy(&mut self, feedback: &SystemFeedback) -> (result: Result<
        EvolutionResult,
        TradingError,
    >)
        ensures
            *final(self) == *old(self),
            result matches Ok(outcome) && outcome@ == evolution_by_rule(
                feedback.performance_score > 8_000,
                "max_latency_ms"@,
                "0.5"@,
                share_of(feedback.performance_score, 10),
                8_500,
            ),
    {
        Ok(
            EvolutionResult::by_rule(
                feedback.performance_score > 8_000,
                "max_latency_ms",
                "0.5",
                share(feedback.performance_score, 10),
                8_500,
            ),
        )
    }
}

/// The code that the execution engine writes for a functionality.
pub open spec fn execution_code(functionality: Seq<char>) -> Seq<char> {
    named_code(
        "// Execution optimization code for: "@,
        functionality,
        "\nuse tokio::time::Instant;\n\npub async fn optimize_"@,
        "() -> Result<f64, Box<dyn std::error::Error>> {\n    let start = Instant::now();\n    // Execution optimization implementation\n    Ok(start.elapsed().as_secs_f64())\n}"@,
    )
}

impl ExecutionEngineAgent {
    /// Writes code that optimises execution: a function named after the
    /// functionality, with one test and a line of documentation.
    pub fn generate_code(&self, requirements: &Requirements) -> (result: Result<
        CodeGeneration,
        TradingError,
    >)
        ensures
            result matches Ok(made) && made@ == rust_code(
                execution_code(requirements.functionality@),
                "#[tokio::test] async fn test_optimization() { assert!(optimize_test().await.is_ok()); }"@,
                joined(seq!["Execution optimization function for "@, requirements.functionality@]),
                requirements.performance_targets,
            ),
    {
        Ok(
            CodeGeneration::named(
                requirements,
                "// Execution optimization code for: ",
                "\nuse tokio::time::Instant;\n\npub async fn optimize_",
                "() -> Result<f64, Box<dyn std::error::Error>> {\n    let start = Instant::now();\n    // Execution optimization implementation\n    Ok(start.elapsed().as_secs_f64())\n}",
                "#[tokio::test] async fn test_optimization() { assert!(optimize_test().await.is_ok()); }",
                "Execution optimization function for ",
            ),
        )
    }
}

/// The commission on a quantity: a thousandth of it.
pub open spec fn commission_on(quantity: Money) -> Option<Money> {
    quantity.times(Money { mantissa: 1, scale: 3 })
}

/// How a simulated execution of `order` comes out, given what was drawn:
/// slippage in millionths below a thousand, a market price in hundredths
/// from 150 up to 160, and the time taken. The order is filled in full at
/// the market price, worse by the slippage.
pub open spec fn simulated_fill(
    order: Order,
    slippage: u32,
    price: u32,
    execution_time_ms: u64,
    commission: Money,
) -> ExecutionResult {
    ExecutionResult {
        order_id: order.id,
        executed_quantity: order.quantity,
        executed_price: Money {
            mantissa: match order.side {
                OrderSide::Buy => (price * 10_000 + slippage) as i128,
                OrderSide::Sell => (price * 10_000 - slippage) as i128,
            },
            scale: 6,
        },
        execution_time_ms,
        slippage: Money { mantissa: slippage as i128, scale: 6 },
        commission,
        success: true,
        error_message: None,
    }
}

impl ExecutionEngineAgent {
    /// Puts together how a simulated execution of `order` came out.
    pub fn fill(
        order: &Order,
        slippage: u32,
        price: u32,
        execution_time_ms: u64,
        commission: Money,
    ) -> (result: ExecutionResult)
        ensures
            result == simulated_fill(*order, slippage, price, execution_time_ms, commission),
            result.executed_price.well_formed(),
            result.slippage.well_formed(),
    {
        let at_market: i128 = (price as i128) * 10_000;
        ExecutionResult {
            order_id: order.id,
            executed_quantity: order.quantity,
            executed_price: Money {
                mantissa: match order.side {
                    OrderSide::Buy => at_market + slippage as i128,
                    OrderSide::Sell => at_market - slippage as i128,
                },
                scale: 6,
            },
            execution_time_ms,
            slippage: Money { mantissa: slippage as i128, scale: 6 },
            commission,
            success: true,
            error_message: None,
        }
    }

    /// Simulates the execution of `order`: draws the slippage, the market
    /// price and the time taken, and charges the commission. An order whose
    /// commission overflows is refused.
    pub fn simulate_order_execution(&self, order: &Order) -> (result: Result<
        ExecutionResult,
        TradingError,
    >)
        requires
            order.quantity.well_formed(),
        ensures
            match commission_on(order.quantity) {
                Some(commission) => result matches Ok(filled) && exists|
                    slippage: u32,
                    price: u32,
                    time: u64,
                |
                    slippage < 1_000 && 15_000 <= price < 16_000 && (time < self.config.max_latency_ms
                        || time == 0) && filled == simulated_fill(
                        *order,
                        slippage,
                        price,
                        time,
                        commission,
                    ),
                None => result matches Err(error) && error@ == (ErrorView::Execution {
                    message: "Commission out of range"@,
                }),
            },
    {
        let commission = match order.quantity.checked_mul(&Money { mantissa: 1, scale: 3 }) {
            Some(commission) => commission,
            None => {
                return Err(TradingError::execution("Commission out of range"));
            },
        };
        let slippage = draw_below(1_000);
        let price = 15_000 + draw_below(1_000);
        let time = draw_within(self.config.max_latency_ms);
        Ok(ExecutionEngineAgent::fill(order, slippage, price, time, commission))
    }

    /// Executes a signal: makes the order, plans it, simulates its
    /// execution and measures the time all this took. A signal to hold is
    /// refused.
    pub fn execute_signal(&self, signal: &TradingSignal) -> (result: Result<
        ExecutionResult,
        TradingError,
    >)
        ensures
            side_of(signal.signal_type) is None ==> (result matches Err(error) && error@
                == (ErrorView::Execution { message: "Cannot execute hold signal"@ })),
            result matches Ok(filled) ==> side_of(signal.signal_type) is Some && filled.success
                && filled.executed_quantity == quantity_for(signal.strength)
                && filled.error_message is None && Some(filled.commission) == commission_on(
                quantity_for(signal.strength),
            ) && filled.slippage.scale == 6 && 0 <= filled.slippage.mantissa < 1_000,
            result matches Err(error) ==> side_of(signal.signal_type) is None || commission_on(
                quantity_for(signal.strength),
            ) is None,
    {
        let start = current_time();
        let order = match self.create_order_from_signal(signal) {
            Ok(order) => order,
            Err(error) => {
                return Err(error);
            },
        };
        match self.create_execution_plan(&order) {
            Ok(_) => {},
            Err(error) => {
                return Err(error);
            },
        }
        let filled = match self.simulate_order_execution(&order) {
            Ok(filled) => filled,
            Err(error) => {
                return Err(error);
            },
        };
        let taken = crate::clock::elapsed_micros(start, current_time()) / 1_000;
        Ok(
            ExecutionResult {
                order_id: filled.order_id,
                executed_quantity: filled.executed_quantity,
                executed_price: filled.executed_price,
                execution_time_ms: taken,
                slippage: filled.slippage,
                commission: filled.commission,
                success: filled.success,
                error_message: filled.error_message,
            },
        )
    }
}

impl ExecutionEngineAgent {
    /// When the engine is woken: to check its health every second, and to
    /// look at its flag every 10 milliseconds.
    pub fn schedule(&self) -> (schedule: WorkerSchedule)
        ensures
            schedule == (WorkerSchedule { tick_ms: 1_000, poll_ms: 10 }),
    {
        WorkerSchedule { tick_ms: 1_000, poll_ms: 10 }
    }
}

impl AutonomousAgent for ExecutionEngineAgent {
    open spec fn common(&self) -> BaseAgent {
        self.base
    }

    fn capabilities(&self) -> (list: Vec<AgentCapability>) {
        self.base.capabilities.clone()
    }

    fn agent_id(&self) -> (id: AgentId) {
        self.base.id
    }

    fn on_event(&self, event: WorkerEvent) -> (action: WorkerAction) {
        self.base.on_event(event)
    }

    fn shutdown(&mut self) -> (result: Result<(), TradingError>) {
        self.base.request_shutdown();
        Ok(())
    }
}

impl TradeExecutor for ExecutionEngineAgent {
    /// Executes a signal: makes the order, plans it, simulates its
    /// execution and measures the time all this took.
    fn execute_trade(&self, signal: &TradingSignal) -> (result: Result<
        ExecutionResult,
        TradingError,
    >)
        ensures
            side_of(signal.signal_type) is None ==> (result matches Err(error) && error@
                == (ErrorView::Execution { message: "Cannot execute hold signal"@ })),
            result matches Ok(filled) ==> side_of(signal.signal_type) is Some && filled.success
                && filled.executed_quantity == quantity_for(signal.strength)
                && filled.error_message is None && Some(filled.commission) == commission_on(
                quantity_for(signal.strength),
            ) && filled.slippage.scale == 6 && 0 <= filled.slippage.mantissa < 1_000,
            result matches Err(error) ==> side_of(signal.signal_type) is None || commission_on(
                quantity_for(signal.strength),
            ) is None,
    {
        self.execute_signal(signal)
    }

    /// Plans how to work `order`.
    fn optimize_execution(&self, order: &Order) -> (result: Result<ExecutionPlan, TradingError>)
        ensures
            result matches Ok(plan) && plan.algorithm@ == (if is_large(order.quantity) {
                "TWAP"@
            } else {
                "MARKET"@
            }) && plan.time_horizon_ms == self.config.max_latency_ms && plan.slice_size == 1_000
                && plan.price_improvement_target == 10 && plan.contingency_plans.deep_view()
                == seq!["CANCEL_ON_TIMEOUT"@],
    {
        self.create_execution_plan(order)
    }

    /// Reports on the orders under way: one filled order of 10 at 150.
    fn monitor_orders(&self) -> (result: Result<Vec<OrderStatus>, TradingError>)
        ensures
            result matches Ok(orders) && orders@.len() == 1 && orders@[0].status
                == crate::types::OrderStatus::Filled && orders@[0].filled_quantity == (Money {
                mantissa: 10,
                scale: 0,
            }) && orders@[0].average_price == (Money { mantissa: 150, scale: 0 })
                && orders@[0].remaining_quantity == (Money { mantissa: 0, scale: 0 })
                && orders@[0].estimated_completion is Some,
    {
        let mut orders: Vec<OrderStatus> = Vec::new();
        orders.push(
            OrderStatus {
                order_id: fresh_order_id(),
                status: crate::types::OrderStatus::Filled,
                filled_quantity: Money::from_units(10),
                average_price: Money::from_units(150),
                remaining_quantity: Money::zero(),
                estimated_completion: Some(current_time()),
            },
        );
        Ok(orders)
    }
}

} // verus!
