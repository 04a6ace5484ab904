//! The system's configuration, its defaults and the rules it must meet.

use vstd::prelude::*;
use vstd::string::StringExecFns;

use crate::errors::ErrorView;
use crate::errors::TradingError;
use crate::money::Money;
use crate::text::contains;
use crate::text::copy_strings;
use crate::text::strings;
use crate::text::occurs_in;
use crate::text::starts_with;
use crate::types::AgentCapability;

verus! {

/// One named setting of a strategy, its value as JSON text.
#[derive(Debug, Clone)]
pub struct StrategyParameter {
    pub name: String,
    pub value: String,
}

/// One trading strategy and its limits.
#[derive(Debug, Clone)]
pub struct StrategyConfig {
    pub name: String,
    pub enabled: bool,
    pub risk_limit: Money,
    pub max_position_size: Money,
    pub parameters: Vec<StrategyParameter>,
}

/// The whole configuration.
#[derive(Debug, Clone)]
pub struct SystemConfig {
    pub trading: TradingConfig,
    pub risk: RiskConfig,
    pub agents: AgentConfig,
    pub api: ApiConfig,
    pub monitoring: MonitoringConfig,
    pub strategies: Vec<StrategyConfig>,
}

/// Trading settings. The target daily return is in basis points.
#[derive(Debug, Clone)]
pub struct TradingConfig {
    pub initial_capital: Money,
    pub target_daily_return: u32,
    pub max_positions: u32,
    pub default_position_size: Money,
    pub commission_rate: Money,
    pub slippage_tolerance: Money,
    pub trading_hours: TradingHours,
}

/// When the market is open.
#[derive(Debug, Clone)]
pub struct TradingHours {
    pub market_open: String,
    pub market_close: String,
    pub timezone: String,
    pub trading_days: Vec<String>,
}

/// Risk limits. Confidence level, portfolio heat and correlation limit are
/// in basis points.
#[derive(Debug, Clone, Copy, PartialEq, Eq, Structural)]
pub struct RiskConfig {
    pub max_daily_loss: Money,
    pub max_position_size: Money,
    pub var_confidence_level: u32,
    pub max_portfolio_heat: u32,
    pub circuit_breaker_threshold: Money,
    pub emergency_stop_loss: Money,
    pub correlation_limit: u32,
}

/// The settings of the five agents.
#[derive(Debug, Clone)]
pub struct AgentConfig {
    pub master_coordinator: CoordinatorConfig,
    pub market_intelligence: IntelligenceConfig,
    pub risk_management: RiskAgentConfig,
    pub execution_engine: ExecutionConfig,
    pub learning_engine: LearningConfig,
}

/// Settings of the master coordinator. The consensus threshold is in basis
/// points.
#[derive(Debug)]
pub struct CoordinatorConfig {
    pub enabled: bool,
    pub decision_timeout_ms: u64,
    pub consensus_threshold: u32,
    pub capabilities: Vec<AgentCapability>,
    pub strategic_planning_interval_hours: u64,
}

/// Settings of the market intelligence agent.
#[derive(Debug)]
pub struct IntelligenceConfig {
    pub enabled: bool,
    pub data_sources: Vec<String>,
    pub update_interval_ms: u64,
    pub technical_indicators: Vec<String>,
    pub sentiment_analysis: bool,
    pub pattern_recognition: bool,
}

/// Settings of the risk management agent.
#[derive(Debug, Clone, Copy, PartialEq, Eq, Structural)]
pub struct RiskAgentConfig {
    pub enabled: bool,
    pub monitoring_interval_ms: u64,
    pub stress_testing: bool,
    pub monte_carlo_simulations: u32,
    pub dynamic_hedging: bool,
}

/// Settings of the execution engine.
#[derive(Debug)]
pub struct ExecutionConfig {
    pub enabled: bool,
    pub max_latency_ms: u64,
    pub order_routing_optimization: bool,
    pub slippage_optimization: bool,
    pub execution_algorithms: Vec<String>,
}

/// Settings of the learning engine.
#[derive(Debug, Clone, Copy, PartialEq, Eq, Structural)]
pub struct LearningConfig {
    pub enabled: bool,
    pub model_update_interval_hours: u64,
    pub online_learning: bool,
    pub ensemble_models: bool,
    pub strategy_generation: bool,
}

/// Settings of the outside services.
#[derive(Debug)]
pub struct ApiConfig {
    pub moomoo: MoomooConfig,
    pub data_providers: Vec<DataProviderConfig>,
    pub rate_limits: RateLimitConfig,
}

/// Settings of the broker connection.
#[derive(Debug)]
pub struct MoomooConfig {
    pub base_url: String,
    pub api_key: String,
    pub secret_key: String,
    pub paper_trading: bool,
    pub timeout_ms: u64,
    pub retry_attempts: u32,
}

/// One provider of market data.
#[derive(Debug)]
pub struct DataProviderConfig {
    pub name: String,
    pub url: String,
    pub api_key: Option<String>,
    pub enabled: bool,
    pub priority: u32,
}

/// Limits on the rate of requests.
#[derive(Debug)]
pub struct RateLimitConfig {
    pub requests_per_second: u32,
    pub burst_limit: u32,
    pub backoff_strategy: String,
}

/// Settings of monitoring.
#[derive(Debug, Clone)]
pub struct MonitoringConfig {
    pub metrics_enabled: bool,
    pub prometheus_port: u16,
    pub log_level: String,
    pub performance_tracking: bool,
    pub alerts: AlertConfig,
}

/// Settings of alerts. The degradation threshold is in basis points.
#[derive(Debug, Clone)]
pub struct AlertConfig {
    pub enabled: bool,
    pub email_notifications: bool,
    pub slack_webhook: Option<String>,
    pub critical_loss_threshold: Money,
    pub performance_degradation_threshold: u32,
}

impl CoordinatorConfig {
    /// Whether `other` holds the same settings.
    pub open spec fn same_as(&self, other: &CoordinatorConfig) -> bool {
        &&& self.enabled == other.enabled
        &&& self.decision_timeout_ms == other.decision_timeout_ms
        &&& self.consensus_threshold == other.consensus_threshold
        &&& self.capabilities@ == other.capabilities@
        &&& self.strategic_planning_interval_hours == other.strategic_planning_interval_hours
    }
}

impl Clone for CoordinatorConfig {
    fn clone(&self) -> (copy: Self)
        ensures
            copy.same_as(self),
    {
        CoordinatorConfig {
            enabled: self.enabled,
            decision_timeout_ms: self.decision_timeout_ms,
            consensus_threshold: self.consensus_threshold,
            capabilities: self.capabilities.clone(),
            strategic_planning_interval_hours: self.strategic_planning_interval_hours,
        }
    }
}

impl IntelligenceConfig {
    /// Whether `other` holds the same settings.
    pub open spec fn same_as(&self, other: &IntelligenceConfig) -> bool {
        &&& self.enabled == other.enabled
        &&& self.data_sources.deep_view() == other.data_sources.deep_view()
        &&& self.update_interval_ms == other.update_interval_ms
        &&& self.technical_indicators.deep_view() == other.technical_indicators.deep_view()
        &&& self.sentiment_analysis == other.sentiment_analysis
        &&& self.pattern_recognition == other.pattern_recognition
    }
}

impl Clone for IntelligenceConfig {
    fn clone(&self) -> (copy: Self)
        ensures
            copy.same_as(self),
    {
        IntelligenceConfig {
            enabled: self.enabled,
            data_sources: copy_strings(&self.data_sources),
            update_interval_ms: self.update_interval_ms,
            technical_indicators: copy_strings(&self.technical_indicators),
            sentiment_analysis: self.sentiment_analysis,
            pattern_recognition: self.pattern_recognition,
        }
    }
}

impl ExecutionConfig {
    /// Whether `other` holds the same settings.
    pub open spec fn same_as(&self, other: &ExecutionConfig) -> bool {
        &&& self.enabled == other.enabled
        &&& self.max_latency_ms == other.max_latency_ms
        &&& self.order_routing_optimization == other.order_routing_optimization
        &&& self.slippage_optimization == other.slippage_optimization
        &&& self.execution_algorithms.deep_view() == other.execution_algorithms.deep_view()
    }
}

impl Clone for ExecutionConfig {
    fn clone(&self) -> (copy: Self)
        ensures
            copy.same_as(self),
    {
        ExecutionConfig {
            enabled: self.enabled,
            max_latency_ms: self.max_latency_ms,
            order_routing_optimization: self.order_routing_optimization,
            slippage_optimization: self.slippage_optimization,
            execution_algorithms: copy_strings(&self.execution_algorithms),
        }
    }
}

/// What a provider of market data is set to, as mathematical values.
pub struct DataProviderView {
    pub name: Seq<char>,
    pub url: Seq<char>,
    pub api_key: Option<Seq<char>>,
    pub enabled: bool,
    pub priority: u32,
}

impl View for DataProviderConfig {
    type V = DataProviderView;

    open spec fn view(&self) -> DataProviderView {
        DataProviderView {
            name: self.name@,
            url: self.url@,
            api_key: match self.api_key {
                Some(key) => Some(key@),
                None => None,
            },
            enabled: self.enabled,
            priority: self.priority,
        }
    }
}

impl DeepView for DataProviderConfig {
    type V = DataProviderView;

    open spec fn deep_view(&self) -> DataProviderView {
        self.view()
    }
}

impl Clone for DataProviderConfig {
    fn clone(&self) -> (copy: Self)
        ensures
            copy@ == self@,
    {
        DataProviderConfig {
            name: self.name.clone(),
            url: self.url.clone(),
            api_key: match &self.api_key {
                Some(key) => Some(key.clone()),
                None => None,
            },
            enabled: self.enabled,
            priority: self.priority,
        }
    }
}

impl MoomooConfig {
    /// Whether `other` holds the same settings.
    pub open spec fn same_as(&self, other: &MoomooConfig) -> bool {
        &&& self.base_url@ == other.base_url@
        &&& self.api_key@ == other.api_key@
        &&& self.secret_key@ == other.secret_key@
        &&& self.paper_trading == other.paper_trading
        &&& self.timeout_ms == other.timeout_ms
        &&& self.retry_attempts == other.retry_attempts
    }
}

impl Clone for MoomooConfig {
    fn clone(&self) -> (copy: Self)
        ensures
            copy.same_as(self),
    {
        MoomooConfig {
            base_url: self.base_url.clone(),
            api_key: self.api_key.clone(),
            secret_key: self.secret_key.clone(),
            paper_trading: self.paper_trading,
            timeout_ms: self.timeout_ms,
            retry_attempts: self.retry_attempts,
        }
    }
}

impl RateLimitConfig {
    /// Whether `other` holds the same settings.
    pub open spec fn same_as(&self, other: &RateLimitConfig) -> bool {
        &&& self.requests_per_second == other.requests_per_second
        &&& self.burst_limit == other.burst_limit
        &&& self.backoff_strategy@ == other.backoff_strategy@
    }
}

impl Clone for RateLimitConfig {
    fn clone(&self) -> (copy: Self)
        ensures
            copy.same_as(self),
    {
        RateLimitConfig {
            requests_per_second: self.requests_per_second,
            burst_limit: self.burst_limit,
            backoff_strategy: self.backoff_strategy.clone(),
        }
    }
}

impl ApiConfig {
    /// Whether `other` holds the same settings.
    pub open spec fn same_as(&self, other: &ApiConfig) -> bool {
        &&& self.moomoo.same_as(&other.moomoo)
        &&& self.data_providers.deep_view() == other.data_providers.deep_view()
        &&& self.rate_limits.same_as(&other.rate_limits)
    }
}

impl Clone for ApiConfig {
    fn clone(&self) -> (copy: Self)
        ensures
            copy.same_as(self),
    {
        let mut data_providers: Vec<DataProviderConfig> = Vec::new();
        let mut i: usize = 0;
        while i < self.data_providers.len()
            invariant
                i <= self.data_providers.len(),
                data_providers.len() == i,
                forall|j: int| 0 <= j < i ==> data_providers@[j]@ == self.data_providers@[j]@,
            decreases self.data_providers.len() - i,
        {
            data_providers.push(self.data_providers[i].clone());
            i += 1;
        }
        assert(data_providers.deep_view() =~= self.data_providers.deep_view());
        ApiConfig {
            moomoo: self.moomoo.clone(),
            data_providers,
            rate_limits: self.rate_limits.clone(),
        }
    }
}

/// What is wrong with a configuration.
#[derive(Debug, Clone, Copy, PartialEq, Eq, Structural)]
pub enum ConfigViolation {
    CapitalNotPositive,
    DailyReturnOutOfRange,
    DailyLossNotBelowCapital,
    ConfidenceLevelOutOfRange,
    ApiKeyMissing,
    DemoKeyWithoutPaperTrading,
}

impl ConfigViolation {
    /// The violation in words.
    pub open spec fn message(self) -> Seq<char> {
        match self {
            ConfigViolation::CapitalNotPositive => "Initial capital must be positive"@,
            ConfigViolation::DailyReturnOutOfRange => "Target daily return must be between 0 and 1"@,
            ConfigViolation::DailyLossNotBelowCapital => "Max daily loss cannot exceed initial capital"@,
            ConfigViolation::ConfidenceLevelOutOfRange => "VaR confidence level must be between 0 and 1"@,
            ConfigViolation::ApiKeyMissing => "Moomoo API key is required for non-local connections"@,
            ConfigViolation::DemoKeyWithoutPaperTrading => "Demo API keys can only be used with paper trading enabled"@,
        }
    }

    /// The violation in words.
    pub fn describe(&self) -> (text: &'static str)
        ensures
            text@ == self.message(),
    {
        match self {
            ConfigViolation::CapitalNotPositive => "Initial capital must be positive",
            ConfigViolation::DailyReturnOutOfRange => "Target daily return must be between 0 and 1",
            ConfigViolation::DailyLossNotBelowCapital => "Max daily loss cannot exceed initial capital",
            ConfigViolation::ConfidenceLevelOutOfRange => "VaR confidence level must be between 0 and 1",
            ConfigViolation::ApiKeyMissing => "Moomoo API key is required for non-local connections",
            ConfigViolation::DemoKeyWithoutPaperTrading => "Demo API keys can only be used with paper trading enabled",
        }
    }
}

impl SystemConfig {
    /// Whether the amounts that the rules compare fit the decimal format.
    pub open spec fn well_formed(&self) -> bool {
        self.trading.initial_capital.well_formed() && self.risk.max_daily_loss.well_formed()
    }

    /// Whether the broker is reached through a gateway on this machine.
    pub open spec fn is_local(&self) -> bool {
        occurs_in(self.api.moomoo.base_url@, "localhost"@) || occurs_in(
            self.api.moomoo.base_url@,
            "127.0.0.1"@,
        )
    }

    /// The first rule that the configuration breaks, if it breaks one. The
    /// rules, in order: the initial capital is positive; the target daily
    /// return is above 0 and at most 1; the daily loss limit is below the
    /// initial capital; the VaR confidence level lies strictly between 0
    /// and 1; a broker that is not local needs an API key; a demo key needs
    /// paper trading.
    pub open spec fn violation(&self) -> Option<ConfigViolation> {
        if !self.trading.initial_capital.is_positive() {
            Some(ConfigViolation::CapitalNotPositive)
        } else if self.trading.target_daily_return == 0 || self.trading.target_daily_return
            > 10_000 {
            Some(ConfigViolation::DailyReturnOutOfRange)
        } else if !self.risk.max_daily_loss.less_than(self.trading.initial_capital) {
            Some(ConfigViolation::DailyLossNotBelowCapital)
        } else if self.risk.var_confidence_level == 0 || self.risk.var_confidence_level >= 10_000 {
            Some(ConfigViolation::ConfidenceLevelOutOfRange)
        } else if self.is_local() {
            None
        } else if self.api.moomoo.api_key@.len() == 0 {
            Some(ConfigViolation::ApiKeyMissing)
        } else if "demo_"@.is_prefix_of(self.api.moomoo.api_key@) && !self.api.moomoo.paper_trading {
            Some(ConfigViolation::DemoKeyWithoutPaperTrading)
        } else {
            None
        }
    }

    /// Finds the first rule that the configuration breaks.
    pub fn check(&self) -> (found: Option<ConfigViolation>)
        requires
            self.well_formed(),
        ensures
            found == self.violation(),
    {
        if !self.trading.initial_capital.is_sign_positive() {
            return Some(ConfigViolation::CapitalNotPositive);
        }
        if self.trading.target_daily_return == 0 || self.trading.target_daily_return > 10_000 {
            return Some(ConfigViolation::DailyReturnOutOfRange);
        }
        if !self.risk.max_daily_loss.is_less_than(&self.trading.initial_capital) {
            return Some(ConfigViolation::DailyLossNotBelowCapital);
        }
        if self.risk.var_confidence_level == 0 || self.risk.var_confidence_level >= 10_000 {
            return Some(ConfigViolation::ConfidenceLevelOutOfRange);
        }
        let url = self.api.moomoo.base_url.as_str();
        if contains(url, "localhost") || contains(url, "127.0.0.1") {
            return None;
        }
        let key = self.api.moomoo.api_key.as_str();
        if key.unicode_len() == 0 {
            return Some(ConfigViolation::ApiKeyMissing);
        }
        if starts_with(key, "demo_") && !self.api.moomoo.paper_trading {
            return Some(ConfigViolation::DemoKeyWithoutPaperTrading);
        }
        None
    }

    /// Accepts the configuration if it breaks no rule, and names the first
    /// broken rule otherwise.
    pub fn validate(&self) -> (result: Result<(), TradingError>)
        requires
            self.well_formed(),
        ensures
            match self.violation() {
                None => result is Ok,
                Some(violation) => result matches Err(error) && error@ == ErrorView::Config(
                    violation.message(),
                ),
            },
    {
        match self.check() {
            None => Ok(()),
            Some(violation) => Err(TradingError::Config(String::from_str(violation.describe()))),
        }
    }
}

/// The texts of a list of strings.
pub open spec fn texts(items: Vec<String>) -> Seq<Seq<char>> {
    items.deep_view()
}

impl SystemConfig {
    /// Whether the trading settings are the standard ones: 100 of capital,
    /// a target of 25% a day, ten positions of 10 each, 0.1% commission,
    /// 0.05% slippage, New York trading hours on weekdays.
    pub open spec fn has_standard_trading(&self) -> bool {
        &&& self.trading.initial_capital == (Money { mantissa: 100, scale: 0 })
        &&& self.trading.target_daily_return == 2_500
        &&& self.trading.max_positions == 10
        &&& self.trading.default_position_size == (Money { mantissa: 10, scale: 0 })
        &&& self.trading.commission_rate == (Money { mantissa: 1, scale: 3 })
        &&& self.trading.slippage_tolerance == (Money { mantissa: 5, scale: 4 })
        &&& self.trading.trading_hours.market_open@ == "09:30:00"@
        &&& self.trading.trading_hours.market_close@ == "16:00:00"@
        &&& self.trading.trading_hours.timezone@ == "America/New_York"@
        &&& texts(self.trading.trading_hours.trading_days) == seq![
            "Monday"@,
            "Tuesday"@,
            "Wednesday"@,
            "Thursday"@,
            "Friday"@,
        ]
    }

    /// Whether the risk limits are the standard ones: a daily loss of 2,
    /// positions up to 20, VaR at 95%, heat up to 80%, the circuit breaker
    /// at 5%, the emergency stop at 10%, correlation up to 0.7.
    pub open spec fn has_standard_risk(&self) -> bool {
        &&& self.risk.max_daily_loss == (Money { mantissa: 2, scale: 0 })
        &&& self.risk.max_position_size == (Money { mantissa: 20, scale: 0 })
        &&& self.risk.var_confidence_level == 9_500
        &&& self.risk.max_portfolio_heat == 8_000
        &&& self.risk.circuit_breaker_threshold == (Money { mantissa: 5, scale: 2 })
        &&& self.risk.emergency_stop_loss == (Money { mantissa: 10, scale: 2 })
        &&& self.risk.correlation_limit == 7_000
    }

    /// Whether the agents have their standard settings: all five enabled.
    pub open spec fn has_standard_agents(&self) -> bool {
        let agents = self.agents;
        &&& agents.master_coordinator.enabled
        &&& agents.master_coordinator.decision_timeout_ms == 100
        &&& agents.master_coordinator.consensus_threshold == 7_000
        &&& agents.master_coordinator.capabilities@ == seq![
            AgentCapability::StrategyGeneration,
            AgentCapability::RiskOptimization,
            AgentCapability::EthicalReasoning,
        ]
        &&& agents.master_coordinator.strategic_planning_interval_hours == 1
        &&& agents.market_intelligence.enabled
        &&& texts(agents.market_intelligence.data_sources) == seq!["moomoo"@]
        &&& agents.market_intelligence.update_interval_ms == 100
        &&& texts(agents.market_intelligence.technical_indicators) == seq![
            "sma"@,
            "ema"@,
            "rsi"@,
            "macd"@,
        ]
        &&& agents.market_intelligence.sentiment_analysis
        &&& agents.market_intelligence.pattern_recognition
        &&& agents.risk_management == (RiskAgentConfig {
            enabled: true,
            monitoring_interval_ms: 50,
            stress_testing: true,
            monte_carlo_simulations: 1000,
            dynamic_hedging: true,
        })
        &&& agents.execution_engine.enabled
        &&& agents.execution_engine.max_latency_ms == 1
        &&& agents.execution_engine.order_routing_optimization
        &&& agents.execution_engine.slippage_optimization
        &&& texts(agents.execution_engine.execution_algorithms) == seq!["twap"@, "vwap"@]
        &&& agents.learning_engine == (LearningConfig {
            enabled: true,
            model_update_interval_hours: 4,
            online_learning: true,
            ensemble_models: true,
            strategy_generation: true,
        })
    }

    /// Whether the outside services have their standard settings: the
    /// broker's public address, no keys, paper trading.
    pub open spec fn has_standard_api(&self) -> bool {
        &&& self.api.moomoo.base_url@ == "https://openapi.moomoo.com"@
        &&& self.api.moomoo.api_key@ == Seq::<char>::empty()
        &&& self.api.moomoo.secret_key@ == Seq::<char>::empty()
        &&& self.api.moomoo.paper_trading
        &&& self.api.moomoo.timeout_ms == 5000
        &&& self.api.moomoo.retry_attempts == 3
        &&& self.api.data_providers@.len() == 0
        &&& self.api.rate_limits.requests_per_second == 100
        &&& self.api.rate_limits.burst_limit == 200
        &&& self.api.rate_limits.backoff_strategy@ == "exponential"@
    }

    /// Whether monitoring has its standard settings.
    pub open spec fn has_standard_monitoring(&self) -> bool {
        &&& self.monitoring.metrics_enabled
        &&& self.monitoring.prometheus_port == 9090
        &&& self.monitoring.log_level@ == "info"@
        &&& self.monitoring.performance_tracking
        &&& self.monitoring.alerts.enabled
        &&& !self.monitoring.alerts.email_notifications
        &&& self.monitoring.alerts.slack_webhook is None
        &&& self.monitoring.alerts.critical_loss_threshold == (Money { mantissa: 5, scale: 0 })
        &&& self.monitoring.alerts.performance_degradation_threshold == 5_000
    }

    /// Whether the strategies are the two standard ones.
    pub open spec fn has_standard_strategies(&self) -> bool {
        &&& self.strategies@.len() == 2
        &&& self.strategies@[0].name@ == "momentum_scalping"@
        &&& self.strategies@[1].name@ == "mean_reversion"@
        &&& forall|i: int|
            0 <= i < 2 ==> {
                let strategy = #[trigger] self.strategies@[i];
                &&& strategy.enabled
                &&& strategy.risk_limit == (Money { mantissa: 1, scale: 0 })
                &&& strategy.max_position_size == (Money { mantissa: 10, scale: 0 })
                &&& strategy.parameters@.len() == 0
            }
    }

    /// Whether this is the standard configuration.
    pub open spec fn is_standard(&self) -> bool {
        &&& self.has_standard_trading()
        &&& self.has_standard_risk()
        &&& self.has_standard_agents()
        &&& self.has_standard_api()
        &&& self.has_standard_monitoring()
        &&& self.has_standard_strategies()
    }
}

/// A strategy with the standard limits and no parameters.
fn standard_strategy(name: &str) -> (strategy: StrategyConfig)
    ensures
        strategy.name@ == name@,
        strategy.enabled,
        strategy.risk_limit == (Money { mantissa: 1, scale: 0 }),
        strategy.max_position_size == (Money { mantissa: 10, scale: 0 }),
        strategy.parameters@.len() == 0,
{
    StrategyConfig {
        name: String::from_str(name),
        enabled: true,
        risk_limit: Money::from_units(1),
        max_position_size: Money::from_units(10),
        parameters: Vec::new(),
    }
}

impl Default for SystemConfig {
    /// The standard configuration. It names no API key: the keys come from
    /// the environment or from a file.
    fn default() -> (config: SystemConfig)
        ensures
            config.is_standard(),
            config.well_formed(),
    {
        let trading_days = strings(&["Monday", "Tuesday", "Wednesday", "Thursday", "Friday"]);
        let data_sources = strings(&["moomoo"]);
        let technical_indicators = strings(&["sma", "ema", "rsi", "macd"]);
        let execution_algorithms = strings(&["twap", "vwap"]);
        let mut capabilities: Vec<AgentCapability> = Vec::new();
        capabilities.push(AgentCapability::StrategyGeneration);
        capabilities.push(AgentCapability::RiskOptimization);
        capabilities.push(AgentCapability::EthicalReasoning);
        let mut strategies: Vec<StrategyConfig> = Vec::new();
        strategies.push(standard_strategy("momentum_scalping"));
        strategies.push(standard_strategy("mean_reversion"));
        let config = SystemConfig {
            trading: TradingConfig {
                initial_capital: Money::from_units(100),
                target_daily_return: 2_500,
                max_positions: 10,
                default_position_size: Money::from_units(10),
                commission_rate: Money { mantissa: 1, scale: 3 },
                slippage_tolerance: Money { mantissa: 5, scale: 4 },
                trading_hours: TradingHours {
                    market_open: String::from_str("09:30:00"),
                    market_close: String::from_str("16:00:00"),
                    timezone: String::from_str("America/New_York"),
                    trading_days,
                },
            },
            risk: RiskConfig {
                max_daily_loss: Money::from_units(2),
                max_position_size: Money::from_units(20),
                var_confidence_level: 9_500,
                max_portfolio_heat: 8_000,
                circuit_breaker_threshold: Money { mantissa: 5, scale: 2 },
                emergency_stop_loss: Money { mantissa: 10, scale: 2 },
                correlation_limit: 7_000,
            },
            agents: AgentConfig {
                master_coordinator: CoordinatorConfig {
                    enabled: true,
                    decision_timeout_ms: 100,
                    consensus_threshold: 7_000,
                    capabilities,
                    strategic_planning_interval_hours: 1,
                },
                market_intelligence: IntelligenceConfig {
                    enabled: true,
                    data_sources,
                    update_interval_ms: 100,
                    technical_indicators,
                    sentiment_analysis: true,
                    pattern_recognition: true,
                },
                risk_management: RiskAgentConfig {
                    enabled: true,
                    monitoring_interval_ms: 50,
                    stress_testing: true,
                    monte_carlo_simulations: 1000,
                    dynamic_hedging: true,
                },
                execution_engine: ExecutionConfig {
                    enabled: true,
                    max_latency_ms: 1,
                    order_routing_optimization: true,
                    slippage_optimization: true,
                    execution_algorithms,
                },
                learning_engine: LearningConfig {
                    enabled: true,
                    model_update_interval_hours: 4,
                    online_learning: true,
                    ensemble_models: true,
                    strategy_generation: true,
                },
            },
            api: ApiConfig {
                moomoo: MoomooConfig {
                    base_url: String::from_str("https://openapi.moomoo.com"),
                    api_key: String::new(),
                    secret_key: String::new(),
                    paper_trading: true,
                    timeout_ms: 5000,
                    retry_attempts: 3,
                },
                data_providers: Vec::new(),
                rate_limits: RateLimitConfig {
                    requests_per_second: 100,
                    burst_limit: 200,
                    backoff_strategy: String::from_str("exponential"),
                },
            },
            monitoring: MonitoringConfig {
                metrics_enabled: true,
                prometheus_port: 9090,
                log_level: String::from_str("info"),
                performance_tracking: true,
                alerts: AlertConfig {
                    enabled: true,
                    email_notifications: false,
                    slack_webhook: None,
                    critical_loss_threshold: Money::from_units(5),
                    performance_degradation_threshold: 5_000,
                },
            },
            strategies,
        };
        assert(texts(config.trading.trading_hours.trading_days) =~= seq![
            "Monday"@,
            "Tuesday"@,
            "Wednesday"@,
            "Thursday"@,
            "Friday"@,
        ]);
        assert(texts(config.agents.market_intelligence.data_sources) =~= seq!["moomoo"@]);
        assert(texts(config.agents.market_intelligence.technical_indicators) =~= seq![
            "sma"@,
            "ema"@,
            "rsi"@,
            "macd"@,
        ]);
        assert(texts(config.agents.execution_engine.execution_algorithms) =~= seq![
            "twap"@,
            "vwap"@,
        ]);
        assert(config.agents.master_coordinator.capabilities@ =~= seq![
            AgentCapability::StrategyGeneration,
            AgentCapability::RiskOptimization,
            AgentCapability::EthicalReasoning,
        ]);
        config
    }
}

/// What the environment says about the configuration: each value that is
/// set there, as it was read.
#[derive(Debug)]
pub struct Environment {
    /// The initial capital, if one is set and it is a number.
    pub initial_capital: Option<Money>,
    /// The broker's API key.
    pub moomoo_api_key: Option<String>,
    /// The broker's secret key.
    pub moomoo_secret_key: Option<String>,
    /// Whether to trade on paper, as text.
    pub paper_trading: Option<String>,
}

/// Whether a text asks for paper trading: it says "true", in any case of
/// letters.
pub open spec fn asks_for_paper_trading(text: Seq<char>) -> bool {
    crate::text::lowercase(text) == "true"@
}

/// Whether `after` is `before` with the values of `environment` in place of
/// its own, wherever the environment sets one.
pub open spec fn overridden(
    before: SystemConfig,
    environment: Environment,
    after: SystemConfig,
) -> bool {
    &&& after.trading.initial_capital == (match environment.initial_capital {
        Some(capital) => capital,
        None => before.trading.initial_capital,
    })
    &&& after.api.moomoo.api_key@ == (match environment.moomoo_api_key {
        Some(key) => key@,
        None => before.api.moomoo.api_key@,
    })
    &&& after.api.moomoo.secret_key@ == (match environment.moomoo_secret_key {
        Some(key) => key@,
        None => before.api.moomoo.secret_key@,
    })
    &&& after.api.moomoo.paper_trading == (match environment.paper_trading {
        Some(text) => asks_for_paper_trading(text@),
        None => before.api.moomoo.paper_trading,
    })
    &&& after.trading == (TradingConfig {
        initial_capital: after.trading.initial_capital,
        ..before.trading
    })
    &&& after.api == (ApiConfig {
        moomoo: MoomooConfig {
            api_key: after.api.moomoo.api_key,
            secret_key: after.api.moomoo.secret_key,
            paper_trading: after.api.moomoo.paper_trading,
            ..before.api.moomoo
        },
        ..before.api
    })
    &&& after == (SystemConfig { trading: after.trading, api: after.api, ..before })
}

impl SystemConfig {
    /// Puts the values of the environment in place of the configuration's
    /// own, wherever the environment sets one.
    pub fn apply_env_overrides(&mut self, environment: Environment)
        ensures
            overridden(*old(self), environment, *final(self)),
    {
        match environment.initial_capital {
            Some(capital) => {
                self.trading.initial_capital = capital;
            },
            None => {},
        }
        match environment.moomoo_api_key {
            Some(key) => {
                self.api.moomoo.api_key = key;
            },
            None => {},
        }
        match environment.moomoo_secret_key {
            Some(key) => {
                self.api.moomoo.secret_key = key;
            },
            None => {},
        }
        match environment.paper_trading {
            Some(text) => {
                let lower = crate::text::to_lowercase(text.as_str());
                self.api.moomoo.paper_trading = crate::text::same_text(lower.as_str(), "true");
            },
            None => {},
        }
    }

    /// The standard configuration with the values of the environment in
    /// place of its own, wherever the environment sets one.
    pub fn default_with_env(environment: Environment) -> (config: SystemConfig)
        ensures
            exists|standard: SystemConfig|
                standard.is_standard() && overridden(standard, environment, config),
    {
        let mut config = SystemConfig::default();
        config.apply_env_overrides(environment);
        config
    }
}

} // verus!
