//! The learning engine: judges performance and adapts the strategies.

use vstd::prelude::*;
use vstd::string::StringExecFns;

use crate::agents::traits::evolution_by_rule;
use crate::agents::traits::share;
use crate::agents::traits::share_of;
use crate::agents::traits::AgentResult;
use crate::agents::traits::AgentResultView;
use crate::agents::traits::AutonomousAgent;
use crate::agents::traits::WorkerAction;
use crate::agents::traits::WorkerEvent;
use crate::ids::AgentId;
use crate::agents::traits::named_code;
use crate::agents::traits::rust_code;
use crate::agents::traits::CodeGeneration;
use crate::agents::traits::Requirements;
use crate::agents::traits::hours_in_millis;
use crate::agents::traits::hours_to_millis;
use crate::agents::traits::BaseAgent;
use crate::agents::traits::LearningAgent;
use crate::agents::traits::WorkerSchedule;
use crate::agents::traits::EvolutionResult;
use crate::agents::traits::GeneratedStrategy;
use crate::agents::traits::LearningResult;
use crate::agents::traits::ModelUpdateData;
use crate::agents::traits::ModelUpdateResult;
use crate::agents::traits::PerformanceTargets;
use crate::agents::traits::SystemFeedback;
use crate::agents::traits::TradeOutcome;
use crate::ai_thoughts::initial_thought;
use crate::ai_thoughts::AIAgent;
use crate::ai_thoughts::AIThought;
use crate::ai_thoughts::AIThoughtBroadcaster;
use crate::ai_thoughts::ThoughtType;
use crate::ai_thoughts::ThoughtView;
use crate::chance::draw_below;
use crate::clock::Timestamp;
use crate::config::LearningConfig;
use crate::config::StrategyParameter;
use crate::errors::TradingError;
use crate::ids::BROADCAST;
use crate::text::decimal;
use crate::text::decimal_string;
use crate::text::fixed_point;
use crate::text::fixed_point_string;
use crate::text::hundredth;
use crate::text::join;
use crate::text::joined;
use crate::text::pair;
use crate::text::triple;
use crate::text::percent_one_place;
use crate::text::percent_one_place_string;
use crate::text::slices;
use crate::thought_templates::learning_record;
use crate::thought_templates::ThoughtTemplates;
use crate::types::AgentCapability;
use crate::types::MarketRegime;
use crate::types::PerformanceMetrics;
use crate::types::SignalView;
use crate::types::SystemContext;

verus! {

/// Trains the models and adapts the strategies.
#[derive(Debug)]
pub struct LearningEngineAgent {
    pub base: BaseAgent,
    pub config: LearningConfig,
    pub model_version: String,
    pub training_data: Vec<TradeOutcome>,
}

/// Where performance is heading.
#[derive(Debug, Clone, Copy, PartialEq, Eq, Structural)]
pub enum Trend {
    Improving,
    Stable,
    Declining,
}

/// The verdict on the system's performance. The score is in basis points.
#[derive(Debug)]
pub struct PerformanceAnalysis {
    pub score: u32,
    pub trend: Trend,
    pub key_metrics: Vec<String>,
    pub recommendations: Vec<String>,
}

/// The part of the score that the speed of execution earns: all of its
/// 2000 basis points up to one second on average, and less in proportion
/// beyond: 2000 times a second over the average.
pub open spec fn speed_score(average_execution_time_us: u64) -> int {
    if average_execution_time_us <= 1_000_000 {
        2_000int
    } else {
        2_000_000_000int / (average_execution_time_us as int)
    }
}

/// The profit factor counted up to three, as a share of the whole in basis
/// points.
pub open spec fn profit_score(profit_factor: u64) -> int {
    if profit_factor / 3 >= 10_000 {
        10_000
    } else {
        (profit_factor / 3) as int
    }
}

/// The performance score in basis points: two fifths for the win rate, two
/// fifths for the profit factor and one fifth for speed; one half for a
/// system that has not traded.
pub open spec fn performance_score(metrics: PerformanceMetrics) -> int {
    if metrics.total_trades > 0 {
        metrics.win_rate * 4 / 10 + profit_score(metrics.profit_factor) * 4 / 10 + speed_score(
            metrics.average_execution_time_us,
        )
    } else {
        5_000
    }
}

/// Where a score is heading: up above 70%, down below 30%.
pub open spec fn trend_of(score: int) -> Trend {
    if score > 7_000 {
        Trend::Improving
    } else if score < 3_000 {
        Trend::Declining
    } else {
        Trend::Stable
    }
}

/// What a score calls for: caution below 40%, boldness above 80%, and
/// steadiness in between.
pub open spec fn recommendations_for(score: int) -> Seq<Seq<char>> {
    if score < 4_000 {
        seq![
            "Consider reducing position sizes"@,
            "Implement more conservative risk management"@,
            "Review and optimize trading strategies"@,
        ]
    } else if score > 8_000 {
        seq![
            "Consider increasing position sizes gradually"@,
            "Explore more aggressive strategies"@,
            "Scale up successful patterns"@,
        ]
    } else {
        seq!["Maintain current strategy mix"@, "Continue monitoring performance"@]
    }
}

/// Whether the model is to be updated: when the score is below 40%.
pub open spec fn update_called_for(score: int) -> bool {
    score < 4_000 || trend_of(score) == Trend::Declining
}

/// The name of the strategy that suits a regime.
pub open spec fn strategy_name_for(regime: MarketRegime) -> Seq<char> {
    match regime {
        MarketRegime::Bull => "momentum_bull"@,
        MarketRegime::Bear => "defensive_bear"@,
        MarketRegime::HighVolatility => "volatility_scalping"@,
        _ => "balanced_sideways"@,
    }
}

/// What the strategy for a regime is expected to achieve.
pub open spec fn targets_for(regime: MarketRegime) -> PerformanceTargets {
    match regime {
        MarketRegime::Bull => PerformanceTargets {
            max_latency_ms: 100,
            min_accuracy: 7_500,
            max_memory_mb: 50,
            min_throughput: 100,
        },
        MarketRegime::Bear => PerformanceTargets {
            max_latency_ms: 50,
            min_accuracy: 8_000,
            max_memory_mb: 40,
            min_throughput: 80,
        },
        MarketRegime::HighVolatility => PerformanceTargets {
            max_latency_ms: 10,
            min_accuracy: 6_500,
            max_memory_mb: 30,
            min_throughput: 200,
        },
        _ => PerformanceTargets {
            max_latency_ms: 100,
            min_accuracy: 7_000,
            max_memory_mb: 45,
            min_throughput: 120,
        },
    }
}

/// The risk profile of the strategy for a regime.
pub open spec fn risk_profile_for(regime: MarketRegime) -> Seq<char> {
    match regime {
        MarketRegime::Bear => "conservative"@,
        MarketRegime::HighVolatility => "aggressive"@,
        _ => "moderate"@,
    }
}

/// The version text of a model: major version 1, then the two numbers.
pub open spec fn version_text(minor: u32, patch: u32) -> Seq<char> {
    joined(seq!["v1."@, decimal(minor as nat), "."@, decimal(patch as nat)])
}

/// The record with which the learning engine reports for duty.
pub open spec fn startup_record(id: Seq<char>, timestamp: Timestamp) -> ThoughtView {
    ThoughtView {
        reasoning: seq![
            "Neural networks loaded and calibrated"@,
            "Historical pattern database ready"@,
            "Strategy evolution algorithms active"@,
        ],
        tags: seq!["initialization"@, "ai"@],
        educational: true,
        ..initial_thought(
            id,
            timestamp,
            AIAgent::LearningEngine,
            ThoughtType::Learning,
            "Learning Engine initialized. Ready to evolve trading strategies based on market patterns."@,
            9_000,
        )
    }
}

/// The record that opens a round of evolution.
pub open spec fn round_opened_record(id: Seq<char>, timestamp: Timestamp) -> ThoughtView {
    ThoughtView {
        reasoning: seq![
            "Collecting recent trading data for analysis"@,
            "Evaluating strategy performance metrics"@,
            "Preparing to adapt strategies based on learnings"@,
        ],
        tags: seq!["evolution"@, "analysis"@],
        ..initial_thought(
            id,
            timestamp,
            AIAgent::LearningEngine,
            ThoughtType::Learning,
            "Starting model evolution cycle. Analyzing recent market patterns and performance."@,
            8_500,
        )
    }
}

/// The record that closes a round of evolution which wrote `strategies`
/// strategies at the given score.
pub open spec fn round_closed_record(
    id: Seq<char>,
    timestamp: Timestamp,
    strategies: nat,
    score: u32,
) -> ThoughtView {
    ThoughtView {
        reasoning: seq![
            joined(
                seq!["Successfully generated "@, decimal(strategies), " adaptive strategies"@],
            ),
            joined(seq!["Current model accuracy: "@, percent_one_place(score as nat), "%"@]),
            "Ready for next evolution cycle"@,
        ],
        tags: seq!["completion"@, "strategies"@],
        educational: true,
        ..initial_thought(
            id,
            timestamp,
            AIAgent::LearningEngine,
            ThoughtType::Learning,
            joined(
                seq![
                    "Evolution cycle complete! Generated "@,
                    decimal(strategies),
                    " new strategies. Model accuracy: "@,
                    percent_one_place(score as nat),
                    "%"@,
                ],
            ),
            9_000,
        )
    }
}

/// A parameter with the given name and value.
fn parameter(name: &str, value: &str) -> (made: StrategyParameter)
    ensures
        made.name@ == name@,
        made.value@ == value@,
{
    StrategyParameter { name: String::from_str(name), value: String::from_str(value) }
}

impl LearningEngineAgent {
    /// Creates the learning engine at model version 1.0.0 and reports for
    /// duty on the thought stream. It can generate strategies and modify
    /// itself.
    pub fn new(config: LearningConfig, broadcaster: &mut AIThoughtBroadcaster) -> (result: Result<
        LearningEngineAgent,
        TradingError,
    >)
        requires
            old(broadcaster).well_formed(),
        ensures
            final(broadcaster).well_formed(),
            final(broadcaster).capacity() == old(broadcaster).capacity(),
            final(broadcaster).same_receivers(*old(broadcaster)),
            exists|id: Seq<char>, timestamp: Timestamp|
                final(broadcaster).published() == old(broadcaster).published().push(
                    startup_record(id, timestamp),
                ),
            result matches Ok(agent) && agent.base.id != BROADCAST && agent.base.capabilities@
                == seq![AgentCapability::StrategyGeneration, AgentCapability::SelfModification]
                && !agent.base.shutdown_signal && agent.config == config && agent.model_version@
                == "v1.0.0"@ && agent.training_data@.len() == 0,
    {
        let mut capabilities: Vec<AgentCapability> = Vec::new();
        capabilities.push(AgentCapability::StrategyGeneration);
        capabilities.push(AgentCapability::SelfModification);
        assert(capabilities@ =~= seq![
            AgentCapability::StrategyGeneration,
            AgentCapability::SelfModification,
        ]);
        let base = BaseAgent::new(capabilities);
        let thought = AIThought::new(
            AIAgent::LearningEngine,
            ThoughtType::Learning,
            String::from_str(
                "Learning Engine initialized. Ready to evolve trading strategies based on market patterns.",
            ),
            9_000,
        ).with_reasoning(
            triple(
                "Neural networks loaded and calibrated",
                "Historical pattern database ready",
                "Strategy evolution algorithms active",
            ),
        ).with_tags(pair("initialization", "ai")).educational();
        assert(thought@ == startup_record(thought@.id, thought@.timestamp));
        broadcaster.broadcast_thought(thought);
        Ok(
            LearningEngineAgent {
                base,
                config,
                model_version: String::from_str("v1.0.0"),
                training_data: Vec::new(),
            },
        )
    }

    /// The performance score of `metrics`, in basis points.
    pub fn score(metrics: &PerformanceMetrics) -> (score: u32)
        ensures
            score == performance_score(*metrics),
    {
        if metrics.total_trades == 0 {
            return 5_000;
        }
        let wins: u64 = (metrics.win_rate as u64) * 4 / 10;
        let third = metrics.profit_factor / 3;
        let profit: u64 = if third >= 10_000 {
            10_000
        } else {
            third
        };
        let speed: u64 = if metrics.average_execution_time_us <= 1_000_000 {
            2_000
        } else {
            2_000_000_000 / metrics.average_execution_time_us
        };
        let total = wins + profit * 4 / 10 + speed;
        total as u32
    }

    /// Where `score` is heading.
    pub fn trend(score: u32) -> (trend: Trend)
        ensures
            trend == trend_of(score as int),
    {
        if score > 7_000 {
            Trend::Improving
        } else if score < 3_000 {
            Trend::Declining
        } else {
            Trend::Stable
        }
    }

    /// What `score` calls for.
    pub fn generate_performance_recommendations(&self, score: u32) -> (result: Result<
        Vec<String>,
        TradingError,
    >)
        ensures
            result matches Ok(recommendations) && recommendations.deep_view()
                == recommendations_for(score as int),
    {
        if score < 4_000 {
            Ok(
                triple(
                    "Consider reducing position sizes",
                    "Implement more conservative risk management",
                    "Review and optimize trading strategies",
                ),
            )
        } else if score > 8_000 {
            Ok(
                triple(
                    "Consider increasing position sizes gradually",
                    "Explore more aggressive strategies",
                    "Scale up successful patterns",
                ),
            )
        } else {
            Ok(pair("Maintain current strategy mix", "Continue monitoring performance"))
        }
    }

    /// Whether an analysis with this score asks for a model update.
    pub fn should_update_model(&self, score: u32) -> (result: Result<bool, TradingError>)
        ensures
            result matches Ok(update) && update == update_called_for(score as int),
    {
        Ok(score < 4_000)
    }
}

/// The three figures that an analysis quotes: the win rate as a percentage,
/// the profit factor to two places, and the average execution time in
/// milliseconds to one place; each rounded half up.
pub open spec fn key_metrics_of(metrics: PerformanceMetrics) -> Seq<Seq<char>> {
    seq![
        joined(seq!["Win Rate: "@, percent_one_place(metrics.win_rate as nat), "%"@]),
        joined(
            seq!["Profit Factor: "@, fixed_point(((metrics.profit_factor + 50) / 100) as nat, 2)],
        ),
        joined(
            seq![
                "Avg Execution: "@,
                fixed_point(((metrics.average_execution_time_us + 50) / 100) as nat, 1),
                "ms"@,
            ],
        ),
    ]
}

/// The parameters of the strategy for a regime, as pairs of name and value.
pub open spec fn parameters_for(regime: MarketRegime) -> Seq<(Seq<char>, Seq<char>)> {
    match regime {
        MarketRegime::Bull => seq![
            ("trend_threshold"@, "0.7"@),
            ("position_size_multiplier"@, "1.2"@),
        ],
        MarketRegime::Bear => seq![
            ("stop_loss_threshold"@, "0.02"@),
            ("position_size_multiplier"@, "0.8"@),
        ],
        MarketRegime::HighVolatility => seq![
            ("volatility_threshold"@, "0.4"@),
            ("hold_time_seconds"@, "30"@),
        ],
        _ => seq![("range_threshold"@, "0.02"@), ("reversion_strength"@, "0.6"@)],
    }
}

/// The description of the strategy for a regime.
pub open spec fn description_for(regime: MarketRegime) -> Seq<char> {
    match regime {
        MarketRegime::Bull => "Momentum strategy optimized for bull markets"@,
        MarketRegime::Bear => "Defensive strategy for bear markets"@,
        MarketRegime::HighVolatility => "High-frequency scalping for volatile markets"@,
        _ => "Balanced strategy for sideways markets"@,
    }
}

/// The market conditions that the strategy for a regime is made for.
pub open spec fn conditions_for(regime: MarketRegime) -> Seq<Seq<char>> {
    match regime {
        MarketRegime::Bull => seq!["bull_market"@, "low_volatility"@],
        MarketRegime::Bear => seq!["bear_market"@, "high_volatility"@],
        MarketRegime::HighVolatility => seq!["high_volatility"@],
        _ => seq!["sideways_market"@, "low_volatility"@],
    }
}

/// Whether `strategy` is the one that suits `regime`.
pub open spec fn suits(strategy: GeneratedStrategy, regime: MarketRegime) -> bool {
    &&& strategy.name@ == strategy_name_for(regime)
    &&& strategy.description@ == description_for(regime)
    &&& strategy.parameters@.map_values(
        |parameter: StrategyParameter| (parameter.name@, parameter.value@),
    ) == parameters_for(regime)
    &&& strategy.expected_performance == targets_for(regime)
    &&& strategy.risk_profile@ == risk_profile_for(regime)
    &&& strategy.market_conditions.deep_view() == conditions_for(regime)
}

/// A strategy from its parts.
fn strategy(
    name: &str,
    description: &str,
    first: StrategyParameter,
    second: StrategyParameter,
    expected_performance: PerformanceTargets,
    risk_profile: &str,
    market_conditions: Vec<String>,
) -> (made: GeneratedStrategy)
    ensures
        made.name@ == name@,
        made.description@ == description@,
        made.parameters@.map_values(
            |parameter: StrategyParameter| (parameter.name@, parameter.value@),
        ) == seq![(first.name@, first.value@), (second.name@, second.value@)],
        made.expected_performance == expected_performance,
        made.risk_profile@ == risk_profile@,
        made.market_conditions == market_conditions,
{
    let mut parameters: Vec<StrategyParameter> = Vec::new();
    parameters.push(first);
    parameters.push(second);
    assert(parameters@.map_values(
        |parameter: StrategyParameter| (parameter.name@, parameter.value@),
    ) =~= seq![(first.name@, first.value@), (second.name@, second.value@)]);
    GeneratedStrategy {
        name: String::from_str(name),
        description: String::from_str(description),
        parameters,
        expected_performance,
        risk_profile: String::from_str(risk_profile),
        market_conditions,
    }
}

impl LearningEngineAgent {
    /// Judges the performance in `context`.
    pub fn analyze_performance(&self, context: &SystemContext) -> (result: Result<
        PerformanceAnalysis,
        TradingError,
    >)
        ensures
            result matches Ok(analysis) && analysis.score == performance_score(
                context.performance_metrics,
            ) && analysis.trend == trend_of(analysis.score as int) && analysis.key_metrics.deep_view()
                == key_metrics_of(context.performance_metrics)
                && analysis.recommendations.deep_view() == recommendations_for(
                analysis.score as int,
            ),
    {
        let metrics = &context.performance_metrics;
        let score = LearningEngineAgent::score(metrics);
        let win_rate = percent_one_place_string(metrics.win_rate);
        let profit_factor = fixed_point_string(hundredth(metrics.profit_factor), 2);
        let execution = fixed_point_string(hundredth(metrics.average_execution_time_us), 1);
        let win_parts = ["Win Rate: ", win_rate.as_str(), "%"];
        let first = join(&win_parts);
        assert(slices(win_parts@) =~= seq![
            "Win Rate: "@,
            percent_one_place(metrics.win_rate as nat),
            "%"@,
        ]);
        let profit_parts = ["Profit Factor: ", profit_factor.as_str()];
        let second = join(&profit_parts);
        assert(slices(profit_parts@) =~= seq![
            "Profit Factor: "@,
            fixed_point(((metrics.profit_factor + 50) / 100) as nat, 2),
        ]);
        let execution_parts = ["Avg Execution: ", execution.as_str(), "ms"];
        let third = join(&execution_parts);
        assert(slices(execution_parts@) =~= seq![
            "Avg Execution: "@,
            fixed_point(((metrics.average_execution_time_us + 50) / 100) as nat, 1),
            "ms"@,
        ]);
        let mut key_metrics: Vec<String> = Vec::new();
        key_metrics.push(first);
        key_metrics.push(second);
        key_metrics.push(third);
        assert(key_metrics.deep_view() =~= key_metrics_of(context.performance_metrics));
        let recommendations = match self.generate_performance_recommendations(score) {
            Ok(recommendations) => recommendations,
            Err(error) => {
                return Err(error);
            },
        };
        Ok(
            PerformanceAnalysis {
                score,
                trend: LearningEngineAgent::trend(score),
                key_metrics,
                recommendations,
            },
        )
    }

    /// Writes the strategy that suits the regime of `context`.
    pub fn generate_adaptive_strategies(&self, context: &SystemContext) -> (result: Result<
        Vec<GeneratedStrategy>,
        TradingError,
    >)
        ensures
            result matches Ok(strategies) && strategies@.len() == 1 && suits(
                strategies@[0],
                context.market_regime,
            ),
    {
        let made = match context.market_regime {
            MarketRegime::Bull => strategy(
                "momentum_bull",
                "Momentum strategy optimized for bull markets",
                parameter("trend_threshold", "0.7"),
                parameter("position_size_multiplier", "1.2"),
                PerformanceTargets {
                    max_latency_ms: 100,
                    min_accuracy: 7_500,
                    max_memory_mb: 50,
                    min_throughput: 100,
                },
                "moderate",
                pair("bull_market", "low_volatility"),
            ),
            MarketRegime::Bear => strategy(
                "defensive_bear",
                "Defensive strategy for bear markets",
                parameter("stop_loss_threshold", "0.02"),
                parameter("position_size_multiplier", "0.8"),
                PerformanceTargets {
                    max_latency_ms: 50,
                    min_accuracy: 8_000,
                    max_memory_mb: 40,
                    min_throughput: 80,
                },
                "conservative",
                pair("bear_market", "high_volatility"),
            ),
            MarketRegime::HighVolatility => {
                let mut conditions: Vec<String> = Vec::new();
                conditions.push(String::from_str("high_volatility"));
                assert(conditions.deep_view() =~= seq!["high_volatility"@]);
                strategy(
                    "volatility_scalping",
                    "High-frequency scalping for volatile markets",
                    parameter("volatility_threshold", "0.4"),
                    parameter("hold_time_seconds", "30"),
                    PerformanceTargets {
                        max_latency_ms: 10,
                        min_accuracy: 6_500,
                        max_memory_mb: 30,
                        min_throughput: 200,
                    },
                    "aggressive",
                    conditions,
                )
            },
            _ => strategy(
                "balanced_sideways",
                "Balanced strategy for sideways markets",
                parameter("range_threshold", "0.02"),
                parameter("reversion_strength", "0.6"),
                PerformanceTargets {
                    max_latency_ms: 100,
                    min_accuracy: 7_000,
                    max_memory_mb: 45,
                    min_throughput: 120,
                },
                "moderate",
                pair("sideways_market", "low_volatility"),
            ),
        };
        let mut strategies: Vec<GeneratedStrategy> = Vec::new();
        strategies.push(made);
        Ok(strategies)
    }

    /// The version text for the two numbers.
    pub fn version_string(minor: u32, patch: u32) -> (text: String)
        ensures
            text@ == version_text(minor, patch),
    {
        let minor_text = decimal_string(minor as u64);
        let patch_text = decimal_string(patch as u64);
        let parts = ["v1.", minor_text.as_str(), ".", patch_text.as_str()];
        let text = join(&parts);
        assert(slices(parts@) =~= seq![
            "v1."@,
            decimal(minor as nat),
            "."@,
            decimal(patch as nat),
        ]);
        text
    }

    /// Gives the model a new version, drawn at random below 1.10.100,
    /// together with a performance change drawn between -10% and +10%.
    pub fn update_model_parameters(&mut self) -> (result: Result<ModelUpdateResult, TradingError>)
        ensures
            final(self).base == old(self).base,
            final(self).config == old(self).config,
            final(self).training_data == old(self).training_data,
            result matches Ok(update) && update.success && update.rollback_available
                && update.new_model_version@ == final(self).model_version@ && -1_000
                <= update.performance_change < 1_000 && exists|minor: u32, patch: u32|
                minor < 10 && patch < 100 && final(self).model_version@ == version_text(
                    minor,
                    patch,
                ),
    {
        let change = draw_below(2_000) as i32 - 1_000;
        let minor = draw_below(10);
        let patch = draw_below(100);
        let version = LearningEngineAgent::version_string(minor, patch);
        self.model_version = version.clone();
        Ok(
            ModelUpdateResult {
                success: true,
                performance_change: change,
                new_model_version: version,
                rollback_available: true,
            },
        )
    }

    /// The learning engine's mission: it judges performance and gives no
    /// trading signals.
    pub fn execute_mission(&self, context: &SystemContext) -> (result: Result<
        AgentResult,
        TradingError,
    >)
        ensures
            result matches Ok(outcome) && outcome@ == (AgentResultView {
                success: true,
                signals: Seq::<SignalView>::empty(),
                metrics: context.performance_metrics,
                recommendations: recommendations_for(
                    performance_score(context.performance_metrics),
                ),
                errors: Seq::<Seq<char>>::empty(),
            }),
    {
        let analysis = match self.analyze_performance(context) {
            Ok(analysis) => analysis,
            Err(error) => {
                return Err(error);
            },
        };
        let outcome = AgentResult {
            success: true,
            signals: Vec::new(),
            metrics: context.performance_metrics,
            recommendations: analysis.recommendations,
            errors: Vec::new(),
        };
        assert(outcome.signals.deep_view() =~= Seq::empty());
        assert(outcome.errors.deep_view() =~= Seq::empty());
        Ok(outcome)
    }

    /// The learning engine's own figures: those of the system.
    pub fn self_evaluate(&self, context: &SystemContext) -> (result: Result<
        PerformanceMetrics,
        TradingError,
    >)
        ensures
            result matches Ok(metrics) && metrics == context.performance_metrics,
    {
        Ok(context.performance_metrics)
    }

    /// Adapts to feedback: below a score of 50% the agent asks to update
    /// its model every two hours.
    pub fn evolve_strategy(&mut self, feedback: &SystemFeedback) -> (result: Result<
        EvolutionResult,
        TradingError,
    >)
        ensures
            *final(self) == *old(self),
            result matches Ok(outcome) && outcome@ == evolution_by_rule(
                feedback.performance_score < 5_000,
                "model_update_interval_hours"@,
                "2"@,
                share_of(feedback.performance_score, 20),
                7_500,
            ),
    {
        Ok(
            EvolutionResult::by_rule(
                feedback.performance_score < 5_000,
                "model_update_interval_hours",
                "2",
                share(feedback.performance_score, 20),
                7_500,
            ),
        )
    }
}

/// Whether `records` are those of one round of evolution at the given
/// score: the opening record, the record of the model update if there was
/// one, and the closing record, which counts one new strategy.
pub open spec fn is_evolution_round(records: Seq<ThoughtView>, score: u32) -> bool {
    let updated = update_called_for(score as int);
    let last = records.len() - 1;
    &&& records.len() == if updated {
        3nat
    } else {
        2nat
    }
    &&& records[0] == round_opened_record(records[0].id, records[0].timestamp)
    &&& updated ==> records[1] == learning_record(
        records[1].id,
        records[1].timestamp,
        "adaptive_strategy"@,
        0,
        score,
        "Updated neural network weights based on recent performance"@,
    )
    &&& records[last] == round_closed_record(records[last].id, records[last].timestamp, 1, score)
}

/// How many of `outcomes` were successes.
pub open spec fn successes(outcomes: Seq<TradeOutcome>) -> nat
    decreases outcomes.len(),
{
    if outcomes.len() == 0 {
        0
    } else {
        successes(outcomes.drop_last()) + if outcomes.last().success {
            1nat
        } else {
            0nat
        }
    }
}

/// The gain in accuracy from a batch of trades: a tenth of the share of
/// successes, in basis points.
pub open spec fn accuracy_gain(outcomes: Seq<TradeOutcome>) -> nat {
    if outcomes.len() == 0 {
        0
    } else {
        successes(outcomes) * 1_000 / outcomes.len()
    }
}

/// There are no more successes than trades.
pub proof fn lemma_successes_bounded(outcomes: Seq<TradeOutcome>)
    ensures
        successes(outcomes) <= outcomes.len(),
    decreases outcomes.len(),
{
    if outcomes.len() > 0 {
        lemma_successes_bounded(outcomes.drop_last());
    }
}

impl LearningEngineAgent {
    /// One round of evolution: opens the round on the thought stream, judges
    /// the performance in `context`, writes the strategy for the regime,
    /// updates the model if the score calls for it and says so, and closes the
    /// round.
    pub fn evolve_models(&mut self, context: &SystemContext, broadcaster: &mut AIThoughtBroadcaster) -> (result:
        Result<(), TradingError>)
        requires
            old(broadcaster).well_formed(),
        ensures
            final(broadcaster).well_formed(),
            final(broadcaster).capacity() == old(broadcaster).capacity(),
            final(broadcaster).same_receivers(*old(broadcaster)),
            final(self).base == old(self).base,
            final(self).config == old(self).config,
            final(self).training_data == old(self).training_data,
            !update_called_for(performance_score(context.performance_metrics))
                ==> final(self).model_version == old(self).model_version,
            result is Ok,
            exists|records: Seq<ThoughtView>|
                final(broadcaster).published() == old(broadcaster).published() + records
                    && is_evolution_round(
                    records,
                    performance_score(context.performance_metrics) as u32,
                ),
    {
        let ghost before = broadcaster.published();
        let opening = AIThought::new(
            AIAgent::LearningEngine,
            ThoughtType::Learning,
            String::from_str(
                "Starting model evolution cycle. Analyzing recent market patterns and performance.",
            ),
            8_500,
        ).with_reasoning(
            triple(
                "Collecting recent trading data for analysis",
                "Evaluating strategy performance metrics",
                "Preparing to adapt strategies based on learnings",
            ),
        ).with_tags(pair("evolution", "analysis"));
        broadcaster.broadcast_thought(opening);
        let analysis = match self.analyze_performance(context) {
            Ok(analysis) => analysis,
            Err(error) => {
                return Err(error);
            },
        };
        let score = analysis.score;
        let strategies = match self.generate_adaptive_strategies(context) {
            Ok(strategies) => strategies,
            Err(error) => {
                return Err(error);
            },
        };
        let update = match self.should_update_model(score) {
            Ok(update) => update,
            Err(error) => {
                return Err(error);
            },
        };
        let ghost mut records = seq![opening@];
        if update {
            match self.update_model_parameters() {
                Ok(_) => {},
                Err(error) => {
                    return Err(error);
                },
            }
            let insight = ThoughtTemplates::learning_update(
                "adaptive_strategy",
                0,
                score,
                "Updated neural network weights based on recent performance",
            );
            broadcaster.broadcast_thought(insight);
            proof {
                let earlier = records;
                records = records.push(insight@);
                assert(records.drop_last() =~= earlier);
            }
        }
        assert(broadcaster.published() =~= before + records);
        let count = decimal_string(strategies.len() as u64);
        let accuracy = percent_one_place_string(score);
        let parts = [
            "Evolution cycle complete! Generated ",
            count.as_str(),
            " new strategies. Model accuracy: ",
            accuracy.as_str(),
            "%",
        ];
        let message = join(&parts);
        assert(slices(parts@) =~= seq![
            "Evolution cycle complete! Generated "@,
            decimal(1),
            " new strategies. Model accuracy: "@,
            percent_one_place(score as nat),
            "%"@,
        ]);
        let made_parts = ["Successfully generated ", count.as_str(), " adaptive strategies"];
        let made = join(&made_parts);
        assert(slices(made_parts@) =~= seq![
            "Successfully generated "@,
            decimal(1),
            " adaptive strategies"@,
        ]);
        let accuracy_parts = ["Current model accuracy: ", accuracy.as_str(), "%"];
        let reached = join(&accuracy_parts);
        assert(slices(accuracy_parts@) =~= seq![
            "Current model accuracy: "@,
            percent_one_place(score as nat),
            "%"@,
        ]);
        let mut reasoning: Vec<String> = Vec::new();
        reasoning.push(made);
        reasoning.push(reached);
        reasoning.push(String::from_str("Ready for next evolution cycle"));
        assert(reasoning.deep_view() =~= seq![made@, reached@, "Ready for next evolution cycle"@]);
        let closing = AIThought::new(
            AIAgent::LearningEngine,
            ThoughtType::Learning,
            message,
            9_000,
        ).with_reasoning(reasoning).with_tags(pair("completion", "strategies")).educational();
        broadcaster.broadcast_thought(closing);
        proof {
            let earlier = records;
            records = records.push(closing@);
            assert(records.drop_last() =~= earlier);
            assert(broadcaster.published() =~= before + records);
            assert(is_evolution_round(records, score));
        }
        Ok(())
    }


}

/// The code that the learning engine writes for a functionality.
pub open spec fn training_code(functionality: Seq<char>) -> Seq<char> {
    named_code(
        "// AI/ML code for: "@,
        functionality,
        "\n\npub fn train_"@,
        "(data: &[f64]) -> Result<f64, Box<dyn std::error::Error>> {\n    // Model training implementation\n    let accuracy = data.iter().sum::<f64>() / data.len() as f64;\n    Ok(accuracy)\n}"@,
    )
}

impl LearningEngineAgent {
    /// Writes code that trains a model: a function named after the
    /// functionality, with one test and a line of documentation.
    pub fn generate_code(&self, requirements: &Requirements) -> (result: Result<
        CodeGeneration,
        TradingError,
    >)
        ensures
            result matches Ok(made) && made@ == rust_code(
                training_code(requirements.functionality@),
                "#[test] fn test_training() { assert!(train_test(&[0.8, 0.9, 0.7]).unwrap() > 0.0); }"@,
                joined(seq!["AI training function for "@, requirements.functionality@]),
                requirements.performance_targets,
            ),
    {
        Ok(
            CodeGeneration::named(
                requirements,
                "// AI/ML code for: ",
                "\n\npub fn train_",
                "(data: &[f64]) -> Result<f64, Box<dyn std::error::Error>> {\n    // Model training implementation\n    let accuracy = data.iter().sum::<f64>() / data.len() as f64;\n    Ok(accuracy)\n}",
                "#[test] fn test_training() { assert!(train_test(&[0.8, 0.9, 0.7]).unwrap() > 0.0); }",
                "AI training function for ",
            ),
        )
    }
}

impl LearningEngineAgent {
    /// When the learning engine is woken: to evolve once in every model
    /// update interval, and to look at its flag every 100 milliseconds.
    pub fn schedule(&self) -> (schedule: WorkerSchedule)
        ensures
            schedule == (WorkerSchedule { tick_ms: hours_in_millis(self.config.model_update_interval_hours), poll_ms: 100 }),
    {
        WorkerSchedule { tick_ms: hours_to_millis(self.config.model_update_interval_hours), poll_ms: 100 }
    }
}

impl AutonomousAgent for LearningEngineAgent {
    open spec fn common(&self) -> BaseAgent {
        self.base
    }

    fn capabilities(&self) -> (list: Vec<AgentCapability>) {
        self.base.capabilities.clone()
    }

    fn agent_id(&self) -> (id: AgentId) {
        self.base.id
    }

    fn on_event(&self, event: WorkerEvent) -> (action: WorkerAction) {
        self.base.on_event(event)
    }

    fn shutdown(&mut self) -> (result: Result<(), TradingError>) {
        self.base.request_shutdown();
        Ok(())
    }
}

impl LearningAgent for LearningEngineAgent {
    /// Learns from a batch of trades: keeps them as training data and
    /// reports the gain in accuracy, with a number of new patterns drawn
    /// from 1 to 5 and a model confidence drawn from 70% up to 90%.
    fn learn_from_outcomes(&mut self, outcomes: &Vec<TradeOutcome>) -> (result: Result<
        LearningResult,
        TradingError,
    >)
        ensures
            final(self).base == old(self).base,
            final(self).config == old(self).config,
            final(self).model_version == old(self).model_version,
            final(self).training_data@ == old(self).training_data@ + outcomes@,
            result matches Ok(learnt) && learnt.accuracy_improvement == accuracy_gain(outcomes@) && 1
                <= learnt.new_patterns_discovered <= 5 && 7_000 <= learnt.model_confidence < 9_000
                && learnt.recommended_actions.deep_view() == seq![
                "Continue monitoring trade outcomes"@,
                "Adjust position sizing based on success rate"@,
            ],
    {
        let mut won: u64 = 0;
        let mut i: usize = 0;
        assert(outcomes@.take(0) =~= Seq::empty());
        assert(self.training_data@ + outcomes@.take(0) =~= self.training_data@);
        while i < outcomes.len()
            invariant
                i <= outcomes.len(),
                won == successes(outcomes@.take(i as int)),
                won <= i,
                self.base == old(self).base,
                self.config == old(self).config,
                self.model_version == old(self).model_version,
                self.training_data@ == old(self).training_data@ + outcomes@.take(i as int),
            decreases outcomes.len() - i,
        {
            let outcome = outcomes[i];
            proof {
                let longer = outcomes@.take(i + 1);
                assert(longer.drop_last() =~= outcomes@.take(i as int));
                assert(longer.last() == outcome);
                assert(old(self).training_data@ + longer =~= (old(self).training_data@
                    + outcomes@.take(i as int)).push(outcome));
            }
            if outcome.success {
                won += 1;
            }
            self.training_data.push(outcome);
            i += 1;
        }
        assert(outcomes@.take(i as int) =~= outcomes@);
        let gain: u128 = if outcomes.len() > 0 {
            (won as u128) * 1_000 / (outcomes.len() as u128)
        } else {
            0
        };
        assert(gain <= 1_000) by (nonlinear_arith)
            requires
                0 <= won <= outcomes@.len(),
                gain == if outcomes@.len() > 0 {
                    won * 1_000 / (outcomes@.len() as int)
                } else {
                    0
                },
        ;
        let patterns = draw_below(5) + 1;
        let confidence = 7_000 + draw_below(2_000);
        Ok(
            LearningResult {
                accuracy_improvement: gain as u32,
                new_patterns_discovered: patterns,
                model_confidence: confidence,
                recommended_actions: pair(
                    "Continue monitoring trade outcomes",
                    "Adjust position sizing based on success rate",
                ),
            },
        )
    }

    /// Updates the model with new data: a new version drawn at random
    /// below 1.10.100, and, with more than ten trades to learn from, a
    /// performance change drawn between -5% and +10%.
    fn update_model(&mut self, data: &ModelUpdateData) -> (result: Result<
        ModelUpdateResult,
        TradingError,
    >)
        ensures
            final(self).base == old(self).base,
            final(self).config == old(self).config,
            final(self).training_data == old(self).training_data,
            result matches Ok(update) && update.success && update.rollback_available
                && update.new_model_version@ == final(self).model_version@ && (if data.trade_outcomes@.len()
                > 10 {
                -500 <= update.performance_change < 1_000
            } else {
                update.performance_change == 0
            }) && exists|minor: u32, patch: u32|
                minor < 10 && patch < 100 && final(self).model_version@ == version_text(
                    minor,
                    patch,
                ),
    {
        let change = if data.trade_outcomes.len() > 10 {
            draw_below(1_500) as i32 - 500
        } else {
            0
        };
        let minor = draw_below(10);
        let patch = draw_below(100);
        let version = LearningEngineAgent::version_string(minor, patch);
        self.model_version = version.clone();
        Ok(
            ModelUpdateResult {
                success: true,
                performance_change: change,
                new_model_version: version,
                rollback_available: true,
            },
        )
    }

    /// Writes the strategy that suits the regime of `context`.
    fn generate_strategies(&self, context: &SystemContext) -> (result: Result<
        Vec<GeneratedStrategy>,
        TradingError,
    >)
        ensures
            result matches Ok(strategies) && strategies@.len() == 1 && suits(
                strategies@[0],
                context.market_regime,
            ),
    {
        self.generate_adaptive_strategies(context)
    }
}

} // verus!
