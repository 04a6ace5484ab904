//! The values that agents and the orchestrator exchange.

use vstd::prelude::*;

use crate::clock::Timestamp;
use crate::ids::AgentId;
use crate::money::Money;

verus! {

/// The state of the market as the agents see it.
#[derive(Debug, Clone, Copy, PartialEq, Eq, Structural)]
pub enum MarketRegime {
    Bull,
    Bear,
    Sideways,
    HighVolatility,
    Crisis,
}

/// How well the system as a whole is doing.
#[derive(Debug, Clone, Copy, PartialEq, Eq, Structural)]
pub enum SystemHealth {
    Healthy,
    Degraded,
    Critical,
}

/// What an agent is able to do.
#[derive(Debug, Clone, Copy, PartialEq, Eq, Structural)]
pub enum AgentCapability {
    MarketAnalysis,
    StrategyGeneration,
    RiskOptimization,
    EthicalReasoning,
    ExecutionOptimization,
    SelfModification,
}

/// The type tag of a message on the bus.
#[derive(Debug, Clone, Copy, PartialEq, Eq, Structural)]
pub enum MessageType {
    /// An instruction or recommendation for other agents.
    SystemCommand,
    /// New performance figures for the shared context.
    PerformanceUpdate,
    /// A risk limit was crossed.
    RiskAlert,
    /// Everything must stop at once.
    EmergencyShutdown,
}

/// The account as a whole. Money in account currency; the Sharpe ratio in
/// basis points.
#[derive(Debug, Clone, Copy, PartialEq, Eq, Structural)]
pub struct Portfolio {
    pub total_value: Money,
    pub cash_balance: Money,
    pub daily_pnl: Money,
    pub total_pnl: Money,
    pub max_drawdown: Money,
    pub sharpe_ratio: Option<i64>,
    pub last_updated: Timestamp,
}

/// Risk figures and limits. The portfolio heat is a share of the whole, as a
/// decimal amount between zero and one.
#[derive(Debug, Clone, Copy, PartialEq, Eq, Structural)]
pub struct RiskMetrics {
    pub var_95: Money,
    pub var_99: Money,
    pub expected_shortfall: Money,
    pub max_position_size: Money,
    pub daily_loss_limit: Money,
    pub portfolio_heat: Money,
}

/// Trading performance. Win rate and profit factor are in basis points, the
/// average execution time in microseconds.
#[derive(Debug, Clone, Copy, PartialEq, Eq, Structural)]
pub struct PerformanceMetrics {
    pub total_trades: u64,
    pub winning_trades: u64,
    pub losing_trades: u64,
    pub win_rate: u32,
    pub average_win: Money,
    pub average_loss: Money,
    pub profit_factor: u64,
    pub max_consecutive_wins: u32,
    pub max_consecutive_losses: u32,
    pub average_execution_time_us: u64,
}

impl PerformanceMetrics {
    /// The figures of a system that has not traded yet, with the given
    /// average execution time.
    pub open spec fn untraded(average_execution_time_us: u64) -> PerformanceMetrics {
        PerformanceMetrics {
            total_trades: 0,
            winning_trades: 0,
            losing_trades: 0,
            win_rate: 0,
            average_win: Money { mantissa: 0, scale: 0 },
            average_loss: Money { mantissa: 0, scale: 0 },
            profit_factor: 0,
            max_consecutive_wins: 0,
            max_consecutive_losses: 0,
            average_execution_time_us,
        }
    }

    /// The figures of a system that has not traded yet.
    pub fn none_yet(average_execution_time_us: u64) -> (metrics: PerformanceMetrics)
        ensures
            metrics == PerformanceMetrics::untraded(average_execution_time_us),
    {
        PerformanceMetrics {
            total_trades: 0,
            winning_trades: 0,
            losing_trades: 0,
            win_rate: 0,
            average_win: Money::zero(),
            average_loss: Money::zero(),
            profit_factor: 0,
            max_consecutive_wins: 0,
            max_consecutive_losses: 0,
            average_execution_time_us,
        }
    }
}

/// The state that all agents share: one aggregate, read as a whole.
#[derive(Debug, Clone, Copy, PartialEq, Eq, Structural)]
pub struct SystemContext {
    pub market_regime: MarketRegime,
    pub portfolio: Portfolio,
    pub risk_metrics: RiskMetrics,
    pub performance_metrics: PerformanceMetrics,
    pub active_positions: u32,
    pub available_capital: Money,
    pub system_health: SystemHealth,
}

impl SystemContext {
    /// The context of a system that starts with `capital` and the two given
    /// limits: a sideways market, everything in cash, no positions, no
    /// trades, healthy.
    pub open spec fn starting(
        capital: Money,
        max_position_size: Money,
        daily_loss_limit: Money,
        now: Timestamp,
    ) -> SystemContext {
        let nothing = Money { mantissa: 0, scale: 0 };
        SystemContext {
            market_regime: MarketRegime::Sideways,
            portfolio: Portfolio {
                total_value: capital,
                cash_balance: capital,
                daily_pnl: nothing,
                total_pnl: nothing,
                max_drawdown: nothing,
                sharpe_ratio: None,
                last_updated: now,
            },
            risk_metrics: RiskMetrics {
                var_95: nothing,
                var_99: nothing,
                expected_shortfall: nothing,
                max_position_size,
                daily_loss_limit,
                portfolio_heat: nothing,
            },
            performance_metrics: PerformanceMetrics::untraded(0),
            active_positions: 0,
            available_capital: capital,
            system_health: SystemHealth::Healthy,
        }
    }

    /// Builds the starting context.
    pub fn initial(
        capital: Money,
        max_position_size: Money,
        daily_loss_limit: Money,
        now: Timestamp,
    ) -> (context: SystemContext)
        ensures
            context == SystemContext::starting(capital, max_position_size, daily_loss_limit, now),
    {
        SystemContext {
            market_regime: MarketRegime::Sideways,
            portfolio: Portfolio {
                total_value: capital,
                cash_balance: capital,
                daily_pnl: Money::zero(),
                total_pnl: Money::zero(),
                max_drawdown: Money::zero(),
                sharpe_ratio: None,
                last_updated: now,
            },
            risk_metrics: RiskMetrics {
                var_95: Money::zero(),
                var_99: Money::zero(),
                expected_shortfall: Money::zero(),
                max_position_size,
                daily_loss_limit,
                portfolio_heat: Money::zero(),
            },
            performance_metrics: PerformanceMetrics::none_yet(0),
            active_positions: 0,
            available_capital: capital,
            system_health: SystemHealth::Healthy,
        }
    }
}

/// What a message carries besides its type tag.
#[derive(Debug)]
pub enum Payload {
    /// Nothing.
    Empty,
    /// A plain text, such as a recommendation.
    Text(String),
    /// The reason for an alert.
    Reason(String),
    /// Performance figures.
    Performance(PerformanceMetrics),
    /// Any other document, as JSON text.
    Json(String),
}

/// A `Payload` as mathematical values.
pub enum PayloadView {
    Empty,
    Text(Seq<char>),
    Reason(Seq<char>),
    Performance(PerformanceMetrics),
    Json(Seq<char>),
}

impl View for Payload {
    type V = PayloadView;

    open spec fn view(&self) -> PayloadView {
        match self {
            Payload::Empty => PayloadView::Empty,
            Payload::Text(text) => PayloadView::Text(text@),
            Payload::Reason(reason) => PayloadView::Reason(reason@),
            Payload::Performance(metrics) => PayloadView::Performance(*metrics),
            Payload::Json(document) => PayloadView::Json(document@),
        }
    }
}

impl Clone for Payload {
    fn clone(&self) -> (copy: Self)
        ensures
            copy@ == self@,
    {
        match self {
            Payload::Empty => Payload::Empty,
            Payload::Text(text) => Payload::Text(text.clone()),
            Payload::Reason(reason) => Payload::Reason(reason.clone()),
            Payload::Performance(metrics) => Payload::Performance(*metrics),
            Payload::Json(document) => Payload::Json(document.clone()),
        }
    }
}

/// A message from one agent to another, or to all.
#[derive(Debug)]
pub struct AgentMessage {
    /// The sender.
    pub from: AgentId,
    /// The recipient, or `BROADCAST` for every agent.
    pub to: AgentId,
    /// What kind of message this is.
    pub message_type: MessageType,
    /// What it carries.
    pub payload: Payload,
    /// When it was made.
    pub timestamp: Timestamp,
}

/// An `AgentMessage` as mathematical values.
pub struct MessageView {
    pub from: AgentId,
    pub to: AgentId,
    pub message_type: MessageType,
    pub payload: PayloadView,
    pub timestamp: Timestamp,
}

impl View for AgentMessage {
    type V = MessageView;

    open spec fn view(&self) -> MessageView {
        MessageView {
            from: self.from,
            to: self.to,
            message_type: self.message_type,
            payload: self.payload@,
            timestamp: self.timestamp,
        }
    }
}

impl DeepView for AgentMessage {
    type V = MessageView;

    open spec fn deep_view(&self) -> MessageView {
        self.view()
    }
}

impl Clone for AgentMessage {
    fn clone(&self) -> (copy: Self)
        ensures
            copy@ == self@,
    {
        AgentMessage {
            from: self.from,
            to: self.to,
            message_type: self.message_type,
            payload: self.payload.clone(),
            timestamp: self.timestamp,
        }
    }
}

impl AgentMessage {
    /// Whether the message is addressed to every agent.
    pub fn is_broadcast(&self) -> (all: bool)
        ensures
            all == (self.to == crate::ids::BROADCAST),
    {
        self.to == crate::ids::BROADCAST
    }
}

/// What a trading signal advises.
#[derive(Debug, Clone, Copy, PartialEq, Eq, Structural)]
pub enum SignalType {
    Buy,
    StrongBuy,
    Sell,
    StrongSell,
    Hold,
}

/// A signal to trade one symbol. Strength and confidence are in basis
/// points.
#[derive(Debug)]
pub struct TradingSignal {
    pub symbol: String,
    pub signal_type: SignalType,
    pub strength: u32,
    pub confidence: u32,
    pub timestamp: Timestamp,
    pub reasoning: String,
}

/// A `TradingSignal` as mathematical values.
pub struct SignalView {
    pub symbol: Seq<char>,
    pub signal_type: SignalType,
    pub strength: u32,
    pub confidence: u32,
    pub timestamp: Timestamp,
    pub reasoning: Seq<char>,
}

impl View for TradingSignal {
    type V = SignalView;

    open spec fn view(&self) -> SignalView {
        SignalView {
            symbol: self.symbol@,
            signal_type: self.signal_type,
            strength: self.strength,
            confidence: self.confidence,
            timestamp: self.timestamp,
            reasoning: self.reasoning@,
        }
    }
}

impl DeepView for TradingSignal {
    type V = SignalView;

    open spec fn deep_view(&self) -> SignalView {
        self.view()
    }
}

impl Clone for TradingSignal {
    fn clone(&self) -> (copy: Self)
        ensures
            copy@ == self@,
    {
        TradingSignal {
            symbol: self.symbol.clone(),
            signal_type: self.signal_type,
            strength: self.strength,
            confidence: self.confidence,
            timestamp: self.timestamp,
            reasoning: self.reasoning.clone(),
        }
    }
}

/// How an order is to be filled.
#[derive(Debug, Clone, Copy, PartialEq, Eq, Structural)]
pub enum OrderType {
    Market,
    Limit,
}

/// The side of an order.
#[derive(Debug, Clone, Copy, PartialEq, Eq, Structural)]
pub enum OrderSide {
    Buy,
    Sell,
}

/// How far an order has come.
#[derive(Debug, Clone, Copy, PartialEq, Eq, Structural)]
pub enum OrderStatus {
    Pending,
    PartiallyFilled,
    Filled,
    Cancelled,
    Rejected,
}

/// Identifies an order: the 128 bits of its UUID.
pub type OrderId = u128;

/// An order for one symbol.
#[derive(Debug)]
pub struct Order {
    pub id: OrderId,
    pub symbol: String,
    pub order_type: OrderType,
    pub side: OrderSide,
    pub quantity: Money,
    pub price: Option<Money>,
    pub timestamp: Timestamp,
    pub status: OrderStatus,
}

/// How an order was filled. The execution time is in milliseconds.
#[derive(Debug)]
pub struct ExecutionResult {
    pub order_id: OrderId,
    pub executed_quantity: Money,
    pub executed_price: Money,
    pub execution_time_ms: u64,
    pub slippage: Money,
    pub commission: Money,
    pub success: bool,
    pub error_message: Option<String>,
}

/// One quote of one symbol.
#[derive(Debug)]
pub struct MarketData {
    pub symbol: String,
    pub timestamp: Timestamp,
    pub price: Money,
    pub volume: u64,
    pub bid: Option<Money>,
    pub ask: Option<Money>,
    pub bid_size: Option<u64>,
    pub ask_size: Option<u64>,
}

} // verus!
