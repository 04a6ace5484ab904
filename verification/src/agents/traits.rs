//! What all agents have in common.

use vstd::prelude::*;
use vstd::string::StringExecFns;

use crate::bus::MessageBus;
use crate::context::SharedContext;
use crate::errors::ErrorView;
use crate::errors::TradingError;
use crate::ids::fresh_agent_id;
use crate::ids::is_random_uuid;
use crate::ids::AgentId;
use crate::ids::BROADCAST;
use crate::money::Money;
use crate::text::identifier;
use crate::text::identifier_of;
use crate::text::join;
use crate::text::joined;
use crate::text::slices;
use crate::config::StrategyParameter;
use crate::types::AgentCapability;
use crate::types::MarketRegime;
use crate::types::RiskMetrics;
use crate::clock::current_time;
use crate::types::AgentMessage;
use crate::types::MessageType;
use crate::types::MessageView;
use crate::types::Payload;
use crate::types::PayloadView;
use crate::types::PerformanceMetrics;
use crate::types::SignalView;
use crate::types::SystemContext;
use crate::types::TradingSignal;

verus! {

/// What an agent's mission brought.
#[derive(Debug)]
pub struct AgentResult {
    pub success: bool,
    pub signals: Vec<TradingSignal>,
    pub metrics: PerformanceMetrics,
    pub recommendations: Vec<String>,
    pub errors: Vec<String>,
}

/// An `AgentResult` as mathematical values.
pub struct AgentResultView {
    pub success: bool,
    pub signals: Seq<SignalView>,
    pub metrics: PerformanceMetrics,
    pub recommendations: Seq<Seq<char>>,
    pub errors: Seq<Seq<char>>,
}

impl View for AgentResult {
    type V = AgentResultView;

    open spec fn view(&self) -> AgentResultView {
        AgentResultView {
            success: self.success,
            signals: self.signals.deep_view(),
            metrics: self.metrics,
            recommendations: self.recommendations.deep_view(),
            errors: self.errors.deep_view(),
        }
    }
}

/// What wakes a worker: its own timer, or the shorter timer on which it
/// looks at its shutdown flag.
#[derive(Debug, Clone, Copy, PartialEq, Eq, Structural)]
pub enum WorkerEvent {
    Tick,
    ShutdownPoll,
}

/// What a worker does when it wakes.
#[derive(Debug, Clone, Copy, PartialEq, Eq, Structural)]
pub enum WorkerAction {
    /// Do one unit of work.
    Work,
    /// Go back to waiting.
    Wait,
    /// Leave the loop.
    Stop,
}

/// What a worker does on `event`: it works on every tick of its timer, and
/// it stops only when it looks at its flag and finds it set.
pub open spec fn worker_action(shutdown_requested: bool, event: WorkerEvent) -> WorkerAction {
    match event {
        WorkerEvent::Tick => WorkerAction::Work,
        WorkerEvent::ShutdownPoll => if shutdown_requested {
            WorkerAction::Stop
        } else {
            WorkerAction::Wait
        },
    }
}

/// How often a worker is woken: by its own timer for a unit of work, and
/// by the shorter timer on which it looks at its shutdown flag. Both in
/// milliseconds.
#[derive(Debug, Clone, Copy, PartialEq, Eq, Structural)]
pub struct WorkerSchedule {
    pub tick_ms: u64,
    pub poll_ms: u64,
}

/// The milliseconds in the given hours, or the largest number if there are
/// too many.
pub open spec fn hours_in_millis(hours: u64) -> u64 {
    if hours as int * 3_600_000 > u64::MAX {
        u64::MAX
    } else {
        (hours * 3_600_000) as u64
    }
}

/// The milliseconds in the given hours.
pub fn hours_to_millis(hours: u64) -> (millis: u64)
    ensures
        millis == hours_in_millis(hours),
{
    if hours > u64::MAX / 3_600_000 {
        u64::MAX
    } else {
        hours * 3_600_000
    }
}

/// What every agent holds: who it is, what it can do, and whether it was
/// asked to stop.
#[derive(Debug)]
pub struct BaseAgent {
    pub id: AgentId,
    pub capabilities: Vec<AgentCapability>,
    pub shutdown_signal: bool,
}

impl Clone for BaseAgent {
    fn clone(&self) -> (copy: Self)
        ensures
            copy.id == self.id,
            copy.capabilities@ == self.capabilities@,
            copy.shutdown_signal == self.shutdown_signal,
    {
        BaseAgent {
            id: self.id,
            capabilities: self.capabilities.clone(),
            shutdown_signal: self.shutdown_signal,
        }
    }
}

impl BaseAgent {
    /// Creates an agent under a fresh identifier. It has not been asked to
    /// stop.
    pub fn new(capabilities: Vec<AgentCapability>) -> (agent: BaseAgent)
        ensures
            is_random_uuid(agent.id),
            agent.id != BROADCAST,
            agent.capabilities@ == capabilities@,
            !agent.shutdown_signal,
    {
        BaseAgent { id: fresh_agent_id(), capabilities, shutdown_signal: false }
    }

    /// Sends `message` over the bus; a closed bus is a communication error.
    pub fn send_message(&self, bus: &mut MessageBus, message: AgentMessage) -> (result: Result<
        (),
        TradingError,
    >)
        ensures
            final(bus).is_closed() == old(bus).is_closed(),
            match result {
                Ok(_) => !old(bus).is_closed() && final(bus).pending() == old(bus).pending().push(
                    message@,
                ),
                Err(error) => old(bus).is_closed() && final(bus).pending() == old(bus).pending()
                    && error@ == (ErrorView::AgentCommunication {
                    message: "Failed to send message"@,
                }),
            },
    {
        bus.broadcast(message)
    }

    /// Whether the agent was asked to stop.
    pub fn should_shutdown(&self) -> (requested: bool)
        ensures
            requested == self.shutdown_signal,
    {
        self.shutdown_signal
    }

    /// Asks the agent to stop. Work in progress is not interrupted: the
    /// agent sees the request when it next looks at its flag.
    pub fn request_shutdown(&mut self)
        ensures
            final(self).shutdown_signal,
            final(self).id == old(self).id,
            final(self).capabilities == old(self).capabilities,
    {
        self.shutdown_signal = true;
    }

    /// The shared state as it is now.
    pub fn get_system_context(&self, shared: &SharedContext) -> (context: SystemContext)
        ensures
            context == shared@,
    {
        shared.snapshot()
    }

    /// What the agent's loop does when `event` wakes it.
    pub fn on_event(&self, event: WorkerEvent) -> (action: WorkerAction)
        ensures
            action == worker_action(self.shutdown_signal, event),
    {
        match event {
            WorkerEvent::Tick => WorkerAction::Work,
            WorkerEvent::ShutdownPoll => if self.shutdown_signal {
                WorkerAction::Stop
            } else {
                WorkerAction::Wait
            },
        }
    }
}

/// Shutdown is cooperative. A worker never stops on a tick of its own timer,
/// whatever its flag says, so a unit of work that has begun is finished; it
/// stops at the first look at its flag after the flag was set; and without
/// the flag it never stops.
pub proof fn lemma_shutdown_is_cooperative(shutdown_requested: bool, event: WorkerEvent)
    ensures
        worker_action(shutdown_requested, WorkerEvent::Tick) == WorkerAction::Work,
        worker_action(true, WorkerEvent::ShutdownPoll) == WorkerAction::Stop,
        worker_action(shutdown_requested, event) == WorkerAction::Stop ==> shutdown_requested
            && event == WorkerEvent::ShutdownPoll,
{
}

/// Something an agent wants every other agent to know.
#[derive(Debug)]
pub struct Notice {
    pub message_type: MessageType,
    pub payload: Payload,
}

/// A `Notice` as mathematical values.
pub struct NoticeView {
    pub message_type: MessageType,
    pub payload: PayloadView,
}

impl View for Notice {
    type V = NoticeView;

    open spec fn view(&self) -> NoticeView {
        NoticeView { message_type: self.message_type, payload: self.payload@ }
    }
}

impl DeepView for Notice {
    type V = NoticeView;

    open spec fn deep_view(&self) -> NoticeView {
        self.view()
    }
}

/// Whether `message` carries `notice` from `sender` to all agents.
pub open spec fn is_notice_from(message: MessageView, sender: AgentId, notice: NoticeView) -> bool {
    &&& message.from == sender
    &&& message.to == BROADCAST
    &&& message.message_type == notice.message_type
    &&& message.payload == notice.payload
    &&& message.timestamp.is_clock_reading()
}

/// Whether `sent` carry `notices` from `sender`, one each and in the same
/// order.
pub open spec fn are_notices_from(
    sent: Seq<MessageView>,
    sender: AgentId,
    notices: Seq<NoticeView>,
) -> bool {
    &&& sent.len() == notices.len()
    &&& forall|i: int|
        0 <= i < sent.len() ==> is_notice_from(#[trigger] sent[i], sender, notices[i])
}

impl BaseAgent {
    /// Sends each of `notices` to all agents, in order, stamped with the
    /// time of its sending. On a closed bus the first one fails and nothing
    /// is sent.
    pub fn announce(&self, bus: &mut MessageBus, notices: &Vec<Notice>) -> (result: Result<
        (),
        TradingError,
    >)
        ensures
            final(bus).is_closed() == old(bus).is_closed(),
            result is Err <==> old(bus).is_closed() && notices@.len() > 0,
            match result {
                Ok(_) => exists|sent: Seq<MessageView>|
                    final(bus).pending() == old(bus).pending() + sent && are_notices_from(
                        sent,
                        self.id,
                        notices.deep_view(),
                    ),
                Err(error) => final(bus).pending() == old(bus).pending() && error@
                    == (ErrorView::AgentCommunication { message: "Failed to send message"@ }),
            },
    {
        let ghost wanted = notices.deep_view();
        let ghost mut sent: Seq<MessageView> = Seq::empty();
        assert(old(bus).pending() + sent =~= old(bus).pending());
        let mut i: usize = 0;
        while i < notices.len()
            invariant
                i <= notices.len(),
                wanted == notices.deep_view(),
                wanted.len() == notices@.len(),
                bus.is_closed() == old(bus).is_closed(),
                bus.pending() == old(bus).pending() + sent,
                are_notices_from(sent, self.id, wanted.take(i as int)),
                sent.len() == i,
                i > 0 ==> !old(bus).is_closed(),
            decreases notices.len() - i,
        {
            let message = AgentMessage {
                from: self.id,
                to: BROADCAST,
                message_type: notices[i].message_type,
                payload: notices[i].payload.clone(),
                timestamp: current_time(),
            };
            assert(wanted[i as int] == notices@[i as int]@);
            match self.send_message(bus, message) {
                Ok(_) => {},
                Err(error) => {
                    assert(i == 0);
                    assert(old(bus).pending() + sent =~= old(bus).pending());
                    return Err(error);
                },
            }
            proof {
                let before = sent;
                sent = sent.push(message@);
                assert(old(bus).pending() + sent =~= (old(bus).pending() + before).push(message@));
                assert forall|j: int| 0 <= j < sent.len() implies is_notice_from(
                    #[trigger] sent[j],
                    self.id,
                    wanted.take(i + 1)[j],
                ) by {
                    if j < i {
                        assert(sent[j] == before[j]);
                        assert(wanted.take(i as int)[j] == wanted.take(i + 1)[j]);
                    }
                }
            }
            i += 1;
        }
        assert(wanted.take(i as int) =~= wanted);
        Ok(())
    }
}

/// A position that offsets a risk. The urgency is in basis points.
#[derive(Debug)]
pub struct HedgeRecommendation {
    pub instrument: String,
    /// "buy" or "sell"
    pub action: String,
    pub quantity: Money,
    pub reasoning: String,
    pub urgency: u32,
}

/// A `HedgeRecommendation` as mathematical values.
pub struct HedgeView {
    pub instrument: Seq<char>,
    pub action: Seq<char>,
    pub quantity: Money,
    pub reasoning: Seq<char>,
    pub urgency: u32,
}

impl View for HedgeRecommendation {
    type V = HedgeView;

    open spec fn view(&self) -> HedgeView {
        HedgeView {
            instrument: self.instrument@,
            action: self.action@,
            quantity: self.quantity,
            reasoning: self.reasoning@,
            urgency: self.urgency,
        }
    }
}

impl DeepView for HedgeRecommendation {
    type V = HedgeView;

    open spec fn deep_view(&self) -> HedgeView {
        self.view()
    }
}

/// The verdict on a trade. The risk score is a share of the whole, the size
/// adjustment is in basis points.
#[derive(Debug)]
pub struct RiskValidation {
    pub approved: bool,
    pub risk_score: Money,
    pub position_size_adjustment: u32,
    pub warnings: Vec<String>,
    pub required_hedges: Vec<HedgeRecommendation>,
}

/// A `RiskValidation` as mathematical values.
pub struct RiskValidationView {
    pub approved: bool,
    pub risk_score: Money,
    pub position_size_adjustment: u32,
    pub warnings: Seq<Seq<char>>,
    pub required_hedges: Seq<HedgeView>,
}

impl View for RiskValidation {
    type V = RiskValidationView;

    open spec fn view(&self) -> RiskValidationView {
        RiskValidationView {
            approved: self.approved,
            risk_score: self.risk_score,
            position_size_adjustment: self.position_size_adjustment,
            warnings: self.warnings.deep_view(),
            required_hedges: self.required_hedges.deep_view(),
        }
    }
}

/// How one trade went. Signal strength, return and slippage are in basis
/// points.
#[derive(Debug, Clone, Copy, PartialEq, Eq, Structural)]
pub struct TradeOutcome {
    pub signal_strength: u32,
    pub actual_return: i64,
    pub execution_time_ms: u64,
    pub slippage: i64,
    pub success: bool,
}

/// What the system tells an agent about its work. The performance score is
/// in basis points.
#[derive(Debug)]
pub struct SystemFeedback {
    pub performance_score: u32,
    pub market_conditions: String,
    pub recent_trades: Vec<TradeOutcome>,
    pub risk_metrics: RiskMetrics,
    pub suggestions: Vec<String>,
}

/// How an agent changed its strategy. Improvement and confidence are in
/// basis points.
#[derive(Debug)]
pub struct EvolutionResult {
    pub strategy_updated: bool,
    pub new_parameters: Vec<StrategyParameter>,
    pub performance_improvement: u32,
    pub confidence: u32,
}

/// An `EvolutionResult` as mathematical values: the new parameters as pairs
/// of name and value.
pub struct EvolutionView {
    pub strategy_updated: bool,
    pub new_parameters: Seq<(Seq<char>, Seq<char>)>,
    pub performance_improvement: u32,
    pub confidence: u32,
}

impl View for EvolutionResult {
    type V = EvolutionView;

    open spec fn view(&self) -> EvolutionView {
        EvolutionView {
            strategy_updated: self.strategy_updated,
            new_parameters: self.new_parameters@.map_values(
                |parameter: StrategyParameter| (parameter.name@, parameter.value@),
            ),
            performance_improvement: self.performance_improvement,
            confidence: self.confidence,
        }
    }
}

/// The outcome of a rule that sets one parameter when it applies.
pub open spec fn evolution_by_rule(
    applies: bool,
    name: Seq<char>,
    value: Seq<char>,
    improvement: u32,
    confidence: u32,
) -> EvolutionView {
    EvolutionView {
        strategy_updated: applies,
        new_parameters: if applies {
            seq![(name, value)]
        } else {
            Seq::empty()
        },
        performance_improvement: improvement,
        confidence,
    }
}

impl EvolutionResult {
    /// The outcome of a rule that sets the parameter `name` to `value` when
    /// it applies, and changes nothing otherwise.
    pub fn by_rule(
        applies: bool,
        name: &str,
        value: &str,
        improvement: u32,
        confidence: u32,
    ) -> (outcome: EvolutionResult)
        ensures
            outcome@ == evolution_by_rule(applies, name@, value@, improvement, confidence),
    {
        let mut new_parameters: Vec<StrategyParameter> = Vec::new();
        if applies {
            new_parameters.push(
                StrategyParameter { name: String::from_str(name), value: String::from_str(value) },
            );
        }
        let outcome = EvolutionResult {
            strategy_updated: applies,
            new_parameters,
            performance_improvement: improvement,
            confidence,
        };
        assert(outcome@.new_parameters =~= evolution_by_rule(
            applies,
            name@,
            value@,
            improvement,
            confidence,
        ).new_parameters);
        outcome
    }
}

/// The given share of a score, both in basis points of the whole.
pub open spec fn share_of(score: u32, percent: u32) -> u32 {
    (score as int * percent as int / 100) as u32
}

/// The given share of a score.
pub(crate) fn share(score: u32, percent: u32) -> (part: u32)
    requires
        percent <= 100,
    ensures
        part == share_of(score, percent),
        part <= score,
{
    assert(0 <= score as int * percent as int <= score as int * 100) by (nonlinear_arith)
        requires
            0 <= percent <= 100,
            score >= 0,
    ;
    let wide: u64 = score as u64 * percent as u64;
    (wide / 100) as u32
}

/// What generated code must achieve. The accuracy is in basis points.
#[derive(Debug, Clone, Copy, PartialEq, Eq, Structural)]
pub struct PerformanceTargets {
    pub max_latency_ms: u64,
    pub min_accuracy: u32,
    pub max_memory_mb: u64,
    pub min_throughput: u64,
}

/// What code is asked for.
#[derive(Debug)]
pub struct Requirements {
    pub functionality: String,
    pub performance_targets: PerformanceTargets,
    pub constraints: Vec<String>,
    pub dependencies: Vec<String>,
}

/// Code that an agent wrote.
#[derive(Debug)]
pub struct CodeGeneration {
    pub code: String,
    pub language: String,
    pub tests: Vec<String>,
    pub documentation: String,
    pub performance_estimate: PerformanceTargets,
}

/// A `CodeGeneration` as mathematical values.
pub struct CodeView {
    pub code: Seq<char>,
    pub language: Seq<char>,
    pub tests: Seq<Seq<char>>,
    pub documentation: Seq<char>,
    pub performance_estimate: PerformanceTargets,
}

impl View for CodeGeneration {
    type V = CodeView;

    open spec fn view(&self) -> CodeView {
        CodeView {
            code: self.code@,
            language: self.language@,
            tests: self.tests.deep_view(),
            documentation: self.documentation@,
            performance_estimate: self.performance_estimate,
        }
    }
}

/// Rust code with one test, documented in one line.
pub open spec fn rust_code(
    code: Seq<char>,
    test: Seq<char>,
    documentation: Seq<char>,
    performance_estimate: PerformanceTargets,
) -> CodeView {
    CodeView { code, language: "rust"@, tests: seq![test], documentation, performance_estimate }
}

/// Code for a functionality: some lines that name the functionality,
/// then a function named after it.
pub open spec fn named_code(
    opening: Seq<char>,
    functionality: Seq<char>,
    heading: Seq<char>,
    body: Seq<char>,
) -> Seq<char> {
    joined(seq![opening, functionality, heading, identifier(functionality), body])
}

impl CodeGeneration {
    /// Rust code for `requirements`: `opening`, the functionality,
    /// `heading`, the name that the functionality gets in code, and `body`;
    /// with one test, and documented by `purpose` and the functionality.
    pub fn named(
        requirements: &Requirements,
        opening: &str,
        heading: &str,
        body: &str,
        test: &str,
        purpose: &str,
    ) -> (made: CodeGeneration)
        ensures
            made@ == rust_code(
                named_code(opening@, requirements.functionality@, heading@, body@),
                test@,
                joined(seq![purpose@, requirements.functionality@]),
                requirements.performance_targets,
            ),
    {
        let name = identifier_of(requirements.functionality.as_str());
        let parts = [opening, requirements.functionality.as_str(), heading, name.as_str(), body];
        let code = join(&parts);
        assert(slices(parts@) =~= seq![
            opening@,
            requirements.functionality@,
            heading@,
            identifier(requirements.functionality@),
            body@,
        ]);
        let documented = [purpose, requirements.functionality.as_str()];
        let documentation = join(&documented);
        assert(slices(documented@) =~= seq![purpose@, requirements.functionality@]);
        CodeGeneration::rust(code, test, documentation, requirements.performance_targets)
    }

    /// Rust code with one test, documented in one line.
    pub fn rust(
        code: String,
        test: &str,
        documentation: String,
        performance_estimate: PerformanceTargets,
    ) -> (made: CodeGeneration)
        ensures
            made@ == rust_code(code@, test@, documentation@, performance_estimate),
    {
        let mut tests: Vec<String> = Vec::new();
        tests.push(String::from_str(test));
        assert(tests.deep_view() =~= seq![test@]);
        CodeGeneration {
            code,
            language: String::from_str("rust"),
            tests,
            documentation,
            performance_estimate,
        }
    }
}

/// Where volume was traded. The trend is +1 or -1 in basis points.
#[derive(Debug)]
pub struct VolumeProfile {
    pub total_volume: u64,
    pub average_volume: u64,
    pub volume_trend: i32,
    pub high_volume_nodes: Vec<Money>,
}

/// What the analysis of the market found. Volatility and trend strength are
/// in basis points; so is the sentiment, which runs from -10 000 to 10 000.
#[derive(Debug)]
pub struct MarketAnalysis {
    pub regime: MarketRegime,
    pub volatility: u32,
    pub trend_strength: u32,
    pub support_levels: Vec<Money>,
    pub resistance_levels: Vec<Money>,
    pub sentiment_score: i32,
    pub volume_profile: VolumeProfile,
}

/// How an order is to be worked. Slice size and price improvement are in
/// basis points, the time horizon in milliseconds.
#[derive(Debug)]
pub struct ExecutionPlan {
    pub algorithm: String,
    pub time_horizon_ms: u64,
    pub slice_size: u32,
    pub price_improvement_target: u32,
    pub contingency_plans: Vec<String>,
}

/// Where an order stands.
#[derive(Debug, Clone, Copy, PartialEq, Eq, Structural)]
pub struct OrderStatus {
    pub order_id: crate::types::OrderId,
    pub status: crate::types::OrderStatus,
    pub filled_quantity: Money,
    pub average_price: Money,
    pub remaining_quantity: Money,
    pub estimated_completion: Option<crate::clock::Timestamp>,
}

/// What was learnt from a batch of trades. Improvement and confidence are
/// in basis points.
#[derive(Debug)]
pub struct LearningResult {
    pub accuracy_improvement: u32,
    pub new_patterns_discovered: u32,
    pub model_confidence: u32,
    pub recommended_actions: Vec<String>,
}

/// What a model is updated with.
#[derive(Debug)]
pub struct ModelUpdateData {
    pub market_data: Vec<crate::types::MarketData>,
    pub trade_outcomes: Vec<TradeOutcome>,
    pub performance_metrics: PerformanceMetrics,
}

/// How a model update went. The performance change is in basis points.
#[derive(Debug)]
pub struct ModelUpdateResult {
    pub success: bool,
    pub performance_change: i32,
    pub new_model_version: String,
    pub rollback_available: bool,
}

/// A strategy that the learning engine wrote.
#[derive(Debug)]
pub struct GeneratedStrategy {
    pub name: String,
    pub description: String,
    pub parameters: Vec<StrategyParameter>,
    pub expected_performance: PerformanceTargets,
    pub risk_profile: String,
    pub market_conditions: Vec<String>,
}

/// What every agent offers, whatever its role.
pub trait AutonomousAgent {
    /// What the agent holds in common with all agents.
    spec fn common(&self) -> BaseAgent;

    /// What the agent can do.
    fn capabilities(&self) -> (list: Vec<AgentCapability>)
        ensures
            list@ == self.common().capabilities@,
    ;

    /// Who the agent is.
    fn agent_id(&self) -> (id: AgentId)
        ensures
            id == self.common().id,
    ;

    /// What the agent's loop does when `event` wakes it.
    fn on_event(&self, event: WorkerEvent) -> (action: WorkerAction)
        ensures
            action == worker_action(self.common().shutdown_signal, event),
    ;

    /// Asks the agent to stop. It stays who it is.
    fn shutdown(&mut self) -> (result: Result<(), TradingError>)
        ensures
            result is Ok,
            final(self).common().shutdown_signal,
            final(self).common().id == old(self).common().id,
            final(self).common().capabilities == old(self).common().capabilities,
    ;
}

/// An agent that analyses the market.
pub trait MarketAnalyzer: AutonomousAgent {
    /// Analyses the market as it is now.
    fn analyze_market(&self) -> Result<MarketAnalysis, TradingError>;

    /// The signals that `analysis` leads to, stamped with `now`.
    fn generate_signals(&self, analysis: &MarketAnalysis, now: crate::clock::Timestamp) -> Result<
        Vec<TradingSignal>,
        TradingError,
    >;
}

/// An agent that manages risk.
pub trait RiskManager: AutonomousAgent {
    /// The risk figures of the portfolio in `context`.
    fn calculate_risk(&self, context: &SystemContext) -> Result<RiskMetrics, TradingError>
        requires
            context.portfolio.daily_pnl.well_formed(),
            context.portfolio.total_value.well_formed(),
    ;

    /// Judges a trade by the portfolio in `context`.
    fn validate_trade(&self, context: &SystemContext) -> Result<RiskValidation, TradingError>
        requires
            context.portfolio.daily_pnl.well_formed(),
            context.portfolio.total_value.well_formed(),
    ;

    /// The hedges that `context` calls for.
    fn generate_hedges(&self, context: &SystemContext) -> Result<
        Vec<HedgeRecommendation>,
        TradingError,
    >;
}

/// An agent that executes trades.
pub trait TradeExecutor: AutonomousAgent {
    /// Executes a signal.
    fn execute_trade(&self, signal: &TradingSignal) -> Result<
        crate::types::ExecutionResult,
        TradingError,
    >;

    /// Plans how to work an order.
    fn optimize_execution(&self, order: &crate::types::Order) -> Result<ExecutionPlan, TradingError>
        requires
            order.quantity.well_formed(),
    ;

    /// Reports on the orders under way.
    fn monitor_orders(&self) -> Result<Vec<OrderStatus>, TradingError>;
}

/// An agent that learns.
pub trait LearningAgent: AutonomousAgent {
    /// Learns from a batch of trades.
    fn learn_from_outcomes(&mut self, outcomes: &Vec<TradeOutcome>) -> Result<
        LearningResult,
        TradingError,
    >;

    /// Updates the model with new data.
    fn update_model(&mut self, data: &ModelUpdateData) -> Result<ModelUpdateResult, TradingError>;

    /// Writes the strategies that suit `context`.
    fn generate_strategies(&self, context: &SystemContext) -> Result<
        Vec<GeneratedStrategy>,
        TradingError,
    >;
}

} // verus!
