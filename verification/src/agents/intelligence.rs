//! The market intelligence agent: reads the market and gives signals.

use vstd::prelude::*;
use vstd::string::StringExecFns;

use crate::agents::traits::evolution_by_rule;
use crate::agents::traits::share;
use crate::agents::traits::share_of;
use crate::agents::traits::AgentResult;
use crate::agents::traits::AgentResultView;
use crate::agents::traits::AutonomousAgent;
use crate::agents::traits::WorkerAction;
use crate::agents::traits::WorkerEvent;
use crate::ids::AgentId;
use crate::agents::traits::rust_code;
use crate::agents::traits::named_code;
use crate::agents::traits::BaseAgent;
use crate::agents::traits::MarketAnalyzer;
use crate::agents::traits::WorkerSchedule;
use crate::agents::traits::CodeGeneration;
use crate::agents::traits::Requirements;
use crate::text::joined;
use crate::agents::traits::EvolutionResult;
use crate::agents::traits::MarketAnalysis;
use crate::agents::traits::SystemFeedback;
use crate::agents::traits::VolumeProfile;
use crate::chance::draw_below;
use crate::clock::current_time;
use crate::clock::Timestamp;
use crate::errors::ErrorView;
use crate::money::Money;
use crate::types::MarketData;
use crate::config::ApiConfig;
use crate::config::IntelligenceConfig;
use crate::errors::TradingError;
use crate::ids::BROADCAST;
use crate::types::AgentCapability;
use crate::types::MarketRegime;
use crate::types::PerformanceMetrics;
use crate::types::SignalType;
use crate::types::SignalView;
use crate::types::TradingSignal;

verus! {

/// Analyses the market.
#[derive(Debug)]
pub struct MarketIntelligenceAgent {
    pub base: BaseAgent,
    pub config: IntelligenceConfig,
    pub api_config: ApiConfig,
}

/// The volatility, in basis points, above which the market counts as
/// volatile.
pub const HIGH_VOLATILITY: u32 = 4_000;

/// The trend strength above which a trend counts as strong.
pub const STRONG_TREND: u32 = 7_000;

/// The sentiment above which it counts as positive.
pub const POSITIVE_SENTIMENT: i32 = 3_000;

/// The regime that volatility and trend point to: a volatile market above
/// all, then a strong trend, else a sideways market.
pub open spec fn regime_of(volatility: u32, trend_strength: u32) -> MarketRegime {
    if volatility > HIGH_VOLATILITY {
        MarketRegime::HighVolatility
    } else if trend_strength > STRONG_TREND {
        MarketRegime::Bull
    } else {
        MarketRegime::Sideways
    }
}

/// The signal for a strong trend with positive sentiment.
pub open spec fn trend_signal(trend_strength: u32, now: Timestamp) -> SignalView {
    SignalView {
        symbol: "AAPL"@,
        signal_type: SignalType::Buy,
        strength: trend_strength,
        confidence: 8_000,
        timestamp: now,
        reasoning: "Strong upward trend with positive sentiment"@,
    }
}

/// The signal for a volatile market.
pub open spec fn volatility_signal(volatility: u32, now: Timestamp) -> SignalView {
    SignalView {
        symbol: "TSLA"@,
        signal_type: SignalType::StrongBuy,
        strength: volatility,
        confidence: 7_000,
        timestamp: now,
        reasoning: "High volatility presents trading opportunities"@,
    }
}

/// The signals that an analysis leads to: a buy on a strong trend with
/// positive sentiment, then a strong buy in a volatile market.
pub open spec fn signals_for(
    volatility: u32,
    trend_strength: u32,
    sentiment_score: i32,
    now: Timestamp,
) -> Seq<SignalView> {
    let for_trend = if trend_strength > STRONG_TREND && sentiment_score > POSITIVE_SENTIMENT {
        seq![trend_signal(trend_strength, now)]
    } else {
        Seq::empty()
    };
    let for_volatility = if volatility > HIGH_VOLATILITY {
        seq![volatility_signal(volatility, now)]
    } else {
        Seq::empty()
    };
    for_trend + for_volatility
}

/// Microseconds in the given milliseconds, or the largest number if there
/// are too many.
pub open spec fn micros_of(millis: u64) -> u64 {
    if millis as int * 1000 > u64::MAX {
        u64::MAX
    } else {
        (millis * 1000) as u64
    }
}

/// Microseconds in the given milliseconds.
pub fn millis_to_micros(millis: u64) -> (micros: u64)
    ensures
        micros == micros_of(millis),
{
    if millis > u64::MAX / 1000 {
        u64::MAX
    } else {
        millis * 1000
    }
}

impl MarketIntelligenceAgent {
    /// Creates the agent. It can analyse the market and generate
    /// strategies.
    pub fn new(config: IntelligenceConfig, api_config: ApiConfig) -> (result: Result<
        MarketIntelligenceAgent,
        TradingError,
    >)
        ensures
            result matches Ok(agent) && agent.base.id != BROADCAST && agent.base.capabilities@
                == seq![AgentCapability::MarketAnalysis, AgentCapability::StrategyGeneration]
                && !agent.base.shutdown_signal && agent.config == config && agent.api_config
                == api_config,
    {
        let mut capabilities: Vec<AgentCapability> = Vec::new();
        capabilities.push(AgentCapability::MarketAnalysis);
        capabilities.push(AgentCapability::StrategyGeneration);
        assert(capabilities@ =~= seq![
            AgentCapability::MarketAnalysis,
            AgentCapability::StrategyGeneration,
        ]);
        let base = BaseAgent::new(capabilities);
        Ok(MarketIntelligenceAgent { base, config, api_config })
    }

    /// The regime that volatility and trend point to.
    pub fn classify_regime(volatility: u32, trend_strength: u32) -> (regime: MarketRegime)
        ensures
            regime == regime_of(volatility, trend_strength),
    {
        if volatility > HIGH_VOLATILITY {
            MarketRegime::HighVolatility
        } else if trend_strength > STRONG_TREND {
            MarketRegime::Bull
        } else {
            MarketRegime::Sideways
        }
    }

    /// The signals that `analysis` leads to, stamped with `now`.
    pub fn generate_trading_signals(&self, analysis: &MarketAnalysis, now: Timestamp) -> (result:
        Result<Vec<TradingSignal>, TradingError>)
        ensures
            result matches Ok(signals) && signals.deep_view() == signals_for(
                analysis.volatility,
                analysis.trend_strength,
                analysis.sentiment_score,
                now,
            ),
    {
        let mut signals: Vec<TradingSignal> = Vec::new();
        assert(signals.deep_view() =~= Seq::empty());
        if analysis.trend_strength > STRONG_TREND && analysis.sentiment_score > POSITIVE_SENTIMENT {
            signals.push(
                TradingSignal {
                    symbol: String::from_str("AAPL"),
                    signal_type: SignalType::Buy,
                    strength: analysis.trend_strength,
                    confidence: 8_000,
                    timestamp: now,
                    reasoning: String::from_str("Strong upward trend with positive sentiment"),
                },
            );
        }
        let ghost for_trend = signals.deep_view();
        assert(for_trend =~= if analysis.trend_strength > STRONG_TREND && analysis.sentiment_score
            > POSITIVE_SENTIMENT {
            seq![trend_signal(analysis.trend_strength, now)]
        } else {
            Seq::empty()
        });
        if analysis.volatility > HIGH_VOLATILITY {
            signals.push(
                TradingSignal {
                    symbol: String::from_str("TSLA"),
                    signal_type: SignalType::StrongBuy,
                    strength: analysis.volatility,
                    confidence: 7_000,
                    timestamp: now,
                    reasoning: String::from_str("High volatility presents trading opportunities"),
                },
            );
        }
        assert(signals.deep_view() =~= signals_for(
            analysis.volatility,
            analysis.trend_strength,
            analysis.sentiment_score,
            now,
        ));
        Ok(signals)
    }

    /// The agent's own figures: it does not trade, and works once in every
    /// update interval.
    pub fn self_evaluate(&self) -> (result: Result<PerformanceMetrics, TradingError>)
        ensures
            result matches Ok(metrics) && metrics == PerformanceMetrics::untraded(
                micros_of(self.config.update_interval_ms),
            ),
    {
        Ok(PerformanceMetrics::none_yet(millis_to_micros(self.config.update_interval_ms)))
    }

    /// The agent's mission, once its analysis has given `signals`.
    pub fn execute_mission(&self, signals: Vec<TradingSignal>) -> (result: Result<
        AgentResult,
        TradingError,
    >)
        ensures
            result matches Ok(outcome) && outcome@ == (AgentResultView {
                success: true,
                signals: signals.deep_view(),
                metrics: PerformanceMetrics::untraded(micros_of(self.config.update_interval_ms)),
                recommendations: seq!["Monitor high volatility periods"@],
                errors: Seq::<Seq<char>>::empty(),
            }),
    {
        let mut recommendations: Vec<String> = Vec::new();
        recommendations.push(String::from_str("Monitor high volatility periods"));
        let outcome = AgentResult {
            success: true,
            signals,
            metrics: PerformanceMetrics::none_yet(
                millis_to_micros(self.config.update_interval_ms),
            ),
            recommendations,
            errors: Vec::new(),
        };
        assert(outcome.recommendations.deep_view() =~= seq!["Monitor high volatility periods"@]);
        assert(outcome.errors.deep_view() =~= Seq::empty());
        Ok(outcome)
    }

    /// Adapts to feedback: below a score of 60% the agent asks to look at
    /// the market twice as often.
    pub fn evolve_strategy(&mut self, feedback: &SystemFeedback) -> (result: Result<
        EvolutionResult,
        TradingError,
    >)
        ensures
            *final(self) == *old(self),
            result matches Ok(outcome) && outcome@ == evolution_by_rule(
                feedback.performance_score < 6_000,
                "update_interval_ms"@,
                "50"@,
                share_of(feedback.performance_score, 15),
                8_000,
            ),
    {
        Ok(
            EvolutionResult::by_rule(
                feedback.performance_score < 6_000,
                "update_interval_ms",
                "50",
                share(feedback.performance_score, 15),
                8_000,
            ),
        )
    }
}

/// The code that the intelligence agent writes for a functionality.
pub open spec fn analysis_code(functionality: Seq<char>) -> Seq<char> {
    named_code(
        "// Market analysis code for: "@,
        functionality,
        "\nuse ta::indicators::*;\n\npub fn analyze_"@,
        "() -> f64 {\n    // Technical analysis implementation\n    0.0\n}"@,
    )
}

impl MarketIntelligenceAgent {
    /// Writes code for market analysis: a function named after the
    /// functionality, with one test and a line of documentation.
    pub fn generate_code(&self, requirements: &Requirements) -> (result: Result<
        CodeGeneration,
        TradingError,
    >)
        ensures
            result matches Ok(made) && made@ == rust_code(
                analysis_code(requirements.functionality@),
                "#[test] fn test_analysis() { assert!(analyze_test() >= 0.0); }"@,
                joined(seq!["Market analysis function for "@, requirements.functionality@]),
                requirements.performance_targets,
            ),
    {
        Ok(
            CodeGeneration::named(
                requirements,
                "// Market analysis code for: ",
                "\nuse ta::indicators::*;\n\npub fn analyze_",
                "() -> f64 {\n    // Technical analysis implementation\n    0.0\n}",
                "#[test] fn test_analysis() { assert!(analyze_test() >= 0.0); }",
                "Market analysis function for ",
            ),
        )
    }
}

/// Whether `quote` is a quote that the agent makes up for `symbol`: a price
/// from 150 up to 200, a volume from one million up to one and a half, and a
/// bid and an ask of 1000 each around 150.
pub open spec fn is_simulated_quote(quote: MarketData, symbol: Seq<char>) -> bool {
    &&& quote.symbol@ == symbol
    &&& quote.timestamp.is_clock_reading()
    &&& quote.price.scale == 2
    &&& 15_000 <= quote.price.mantissa < 20_000
    &&& 1_000_000 <= quote.volume < 1_500_000
    &&& quote.bid == Some(Money { mantissa: 14_995, scale: 2 })
    &&& quote.ask == Some(Money { mantissa: 15_005, scale: 2 })
    &&& quote.bid_size == Some(1000u64)
    &&& quote.ask_size == Some(1000u64)
}

/// The volumes of `data` added up.
pub open spec fn total_volume(data: Seq<MarketData>) -> int
    decreases data.len(),
{
    if data.len() == 0 {
        0
    } else {
        total_volume(data.drop_last()) + data.last().volume
    }
}

/// Whether `analysis` is one that the agent can make of market data with
/// the given total volume and number of quotes: volatility from 20% up to
/// 50%, any trend strength and sentiment, the regime that follows from
/// them, fixed price levels, and the volume in total and on average.
pub open spec fn is_simulated_analysis(analysis: MarketAnalysis, total: int, quotes: int) -> bool {
    &&& 2_000 <= analysis.volatility < 5_000
    &&& analysis.trend_strength < 10_000
    &&& -10_000 <= analysis.sentiment_score < 10_000
    &&& analysis.regime == regime_of(analysis.volatility, analysis.trend_strength)
    &&& analysis.support_levels@ == seq![
        Money { mantissa: 145, scale: 0 },
        Money { mantissa: 140, scale: 0 },
        Money { mantissa: 135, scale: 0 },
    ]
    &&& analysis.resistance_levels@ == seq![
        Money { mantissa: 155, scale: 0 },
        Money { mantissa: 160, scale: 0 },
        Money { mantissa: 165, scale: 0 },
    ]
    &&& analysis.volume_profile.total_volume == total
    &&& analysis.volume_profile.average_volume == total / quotes
    &&& (analysis.volume_profile.volume_trend == 10_000 || analysis.volume_profile.volume_trend
        == -10_000)
    &&& analysis.volume_profile.high_volume_nodes@ == seq![
        Money { mantissa: 150, scale: 0 },
        Money { mantissa: 152, scale: 0 },
        Money { mantissa: 148, scale: 0 },
    ]
}

/// A list of the three given whole amounts.
fn levels(first: i64, second: i64, third: i64) -> (list: Vec<Money>)
    ensures
        list@ == seq![
            Money { mantissa: first as i128, scale: 0 },
            Money { mantissa: second as i128, scale: 0 },
            Money { mantissa: third as i128, scale: 0 },
        ],
{
    let mut list: Vec<Money> = Vec::new();
    list.push(Money::from_units(first));
    list.push(Money::from_units(second));
    list.push(Money::from_units(third));
    assert(list@ =~= seq![
        Money { mantissa: first as i128, scale: 0 },
        Money { mantissa: second as i128, scale: 0 },
        Money { mantissa: third as i128, scale: 0 },
    ]);
    list
}

impl MarketIntelligenceAgent {
    /// A quote made up for `symbol`, stamped with the current time.
    pub fn simulate_quote(symbol: &str) -> (quote: MarketData)
        ensures
            is_simulated_quote(quote, symbol@),
    {
        MarketData {
            symbol: String::from_str(symbol),
            timestamp: current_time(),
            price: Money { mantissa: (15_000 + draw_below(5_000)) as i128, scale: 2 },
            volume: 1_000_000 + draw_below(500_000) as u64,
            bid: Some(Money { mantissa: 14_995, scale: 2 }),
            ask: Some(Money { mantissa: 15_005, scale: 2 }),
            bid_size: Some(1000),
            ask_size: Some(1000),
        }
    }

    /// Market data for the four symbols that the agent follows, made up in
    /// place of a feed.
    pub fn fetch_market_data(&self) -> (result: Result<Vec<MarketData>, TradingError>)
        ensures
            result matches Ok(data) && data@.len() == 4 && is_simulated_quote(data@[0], "AAPL"@)
                && is_simulated_quote(data@[1], "TSLA"@) && is_simulated_quote(data@[2], "MSFT"@)
                && is_simulated_quote(data@[3], "GOOGL"@),
    {
        let mut data: Vec<MarketData> = Vec::new();
        data.push(MarketIntelligenceAgent::simulate_quote("AAPL"));
        data.push(MarketIntelligenceAgent::simulate_quote("TSLA"));
        data.push(MarketIntelligenceAgent::simulate_quote("MSFT"));
        data.push(MarketIntelligenceAgent::simulate_quote("GOOGL"));
        Ok(data)
    }

    /// The volumes of `data` added up, or nothing where the sum is too
    /// large.
    pub fn sum_volumes(data: &Vec<MarketData>) -> (total: Option<u64>)
        ensures
            match total {
                Some(sum) => sum == total_volume(data@),
                None => total_volume(data@) > u64::MAX,
            },
    {
        let mut sum: u64 = 0;
        let mut i: usize = 0;
        assert(data@.take(0) =~= Seq::empty());
        while i < data.len()
            invariant
                i <= data.len(),
                sum == total_volume(data@.take(i as int)),
            decreases data.len() - i,
        {
            proof {
                let longer = data@.take(i + 1);
                assert(longer.drop_last() =~= data@.take(i as int));
                assert(longer.last() == data@[i as int]);
            }
            if data[i].volume > u64::MAX - sum {
                proof {
                    lemma_total_volume_grows(data@, (i + 1) as int);
                }
                return None;
            }
            sum = sum + data[i].volume;
            i += 1;
        }
        assert(data@.take(i as int) =~= data@);
        Some(sum)
    }

    /// Analyses market data. Volatility, trend and sentiment are made up in
    /// place of indicators; the volume is that of the data. No data and a
    /// total volume beyond the largest number are refused.
    pub fn analyze_market_data(&self, data: &Vec<MarketData>) -> (result: Result<
        MarketAnalysis,
        TradingError,
    >)
        ensures
            if data@.len() == 0 {
                result matches Err(error) && error@ == (ErrorView::MarketData {
                    message: "No market data"@,
                })
            } else if total_volume(data@) > u64::MAX {
                result matches Err(error) && error@ == (ErrorView::MarketData {
                    message: "Volume out of range"@,
                })
            } else {
                result matches Ok(analysis) && is_simulated_analysis(
                    analysis,
                    total_volume(data@),
                    data@.len() as int,
                )
            },
    {
        if data.len() == 0 {
            return Err(TradingError::market_data("No market data"));
        }
        let total = match MarketIntelligenceAgent::sum_volumes(data) {
            Some(total) => total,
            None => {
                return Err(TradingError::market_data("Volume out of range"));
            },
        };
        let volatility = 2_000 + draw_below(3_000);
        let trend_strength = draw_below(10_000);
        let sentiment_score = draw_below(20_000) as i32 - 10_000;
        let volume_trend: i32 = if draw_below(2) == 1 {
            10_000
        } else {
            -10_000
        };
        Ok(
            MarketAnalysis {
                regime: MarketIntelligenceAgent::classify_regime(volatility, trend_strength),
                volatility,
                trend_strength,
                support_levels: levels(145, 140, 135),
                resistance_levels: levels(155, 160, 165),
                sentiment_score,
                volume_profile: VolumeProfile {
                    total_volume: total,
                    average_volume: total / (data.len() as u64),
                    volume_trend,
                    high_volume_nodes: levels(150, 152, 148),
                },
            },
        )
    }

    /// One unit of work: fetches market data, analyses it and gives the
    /// signals that follow.
    pub fn analyze_and_signal(&self) -> (result: Result<Vec<TradingSignal>, TradingError>)
        ensures
            result matches Ok(signals) && exists|
                volatility: u32,
                trend_strength: u32,
                sentiment_score: i32,
                now: Timestamp,
            |
                2_000 <= volatility < 5_000 && trend_strength < 10_000 && -10_000 <= sentiment_score
                    < 10_000 && now.is_clock_reading() && signals.deep_view() == signals_for(
                    volatility,
                    trend_strength,
                    sentiment_score,
                    now,
                ),
    {
        let data = match self.fetch_market_data() {
            Ok(data) => data,
            Err(error) => {
                return Err(error);
            },
        };
        proof {
            lemma_total_volume_bounded(data@, 1_500_000);
        }
        let analysis = match self.analyze_market_data(&data) {
            Ok(analysis) => analysis,
            Err(error) => {
                return Err(error);
            },
        };
        self.generate_trading_signals(&analysis, current_time())
    }
}

/// The total volume never falls as quotes are added.
pub proof fn lemma_total_volume_grows(data: Seq<MarketData>, count: int)
    requires
        0 <= count <= data.len(),
    ensures
        total_volume(data.take(count)) <= total_volume(data),
    decreases data.len() - count,
{
    if count < data.len() {
        lemma_total_volume_grows(data, count + 1);
        let longer = data.take(count + 1);
        assert(longer.drop_last() =~= data.take(count));
    } else {
        assert(data.take(count) =~= data);
    }
}

/// If every volume is below a limit, the total is below that limit times
/// the number of quotes.
pub proof fn lemma_total_volume_bounded(data: Seq<MarketData>, limit: int)
    requires
        forall|i: int| 0 <= i < data.len() ==> (#[trigger] data[i]).volume < limit,
    ensures
        total_volume(data) <= data.len() * limit,
    decreases data.len(),
{
    if data.len() > 0 {
        lemma_total_volume_bounded(data.drop_last(), limit);
        assert(data.last() == data[data.len() - 1]);
        assert((data.len() - 1) * limit + limit == data.len() * limit) by (nonlinear_arith);
    }
}

impl MarketIntelligenceAgent {
    /// When the agent is woken: to analyse once in every update interval,
    /// and to look at its flag every 10 milliseconds.
    pub fn schedule(&self) -> (schedule: WorkerSchedule)
        ensures
            schedule == (WorkerSchedule { tick_ms: self.config.update_interval_ms, poll_ms: 10 }),
    {
        WorkerSchedule { tick_ms: self.config.update_interval_ms, poll_ms: 10 }
    }
}

impl AutonomousAgent for MarketIntelligenceAgent {
    open spec fn common(&self) -> BaseAgent {
        self.base
    }

    fn capabilities(&self) -> (list: Vec<AgentCapability>) {
        self.base.capabilities.clone()
    }

    fn agent_id(&self) -> (id: AgentId) {
        self.base.id
    }

    fn on_event(&self, event: WorkerEvent) -> (action: WorkerAction) {
        self.base.on_event(event)
    }

    fn shutdown(&mut self) -> (result: Result<(), TradingError>) {
        self.base.request_shutdown();
        Ok(())
    }
}

impl MarketAnalyzer for MarketIntelligenceAgent {
    /// Fetches market data and analyses it.
    fn analyze_market(&self) -> (result: Result<MarketAnalysis, TradingError>)
        ensures
            result matches Ok(analysis) && exists|total: int|
                is_simulated_analysis(analysis, total, 4),
    {
        let data = match self.fetch_market_data() {
            Ok(data) => data,
            Err(error) => {
                return Err(error);
            },
        };
        proof {
            lemma_total_volume_bounded(data@, 1_500_000);
        }
        self.analyze_market_data(&data)
    }

    /// The signals that `analysis` leads to, stamped with `now`.
    fn generate_signals(&self, analysis: &MarketAnalysis, now: Timestamp) -> (result: Result<
        Vec<TradingSignal>,
        TradingError,
    >)
        ensures
            result matches Ok(signals) && signals.deep_view() == signals_for(
                analysis.volatility,
                analysis.trend_strength,
                analysis.sentiment_score,
                now,
            ),
    {
        self.generate_trading_signals(analysis, now)
    }
}

} // verus!
