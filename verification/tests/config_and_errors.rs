use autonomous_trading_system::config::{ConfigViolation, Environment, SystemConfig};
use autonomous_trading_system::errors::TradingError;
use autonomous_trading_system::money::Money;
use autonomous_trading_system::types::AgentCapability;

fn local_config() -> SystemConfig {
    let mut config = SystemConfig::default();
    config.api.moomoo.base_url = "http://127.0.0.1:11111".to_string();
    config
}

fn remote_config(key: &str) -> SystemConfig {
    let mut config = SystemConfig::default();
    config.api.moomoo.api_key = key.to_string();
    config
}

fn refusal(config: &SystemConfig) -> String {
    match config.validate() {
        Err(TradingError::Config(text)) => text,
        other => panic!("unexpected {:?}", other),
    }
}

#[test]
fn default_configuration_has_the_standard_values() {
    let config = SystemConfig::default();
    assert_eq!(config.trading.initial_capital, Money::from_units(100));
    assert_eq!(config.trading.target_daily_return, 2_500);
    assert_eq!(config.trading.max_positions, 10);
    assert_eq!(config.trading.default_position_size, Money::from_units(10));
    assert_eq!(config.trading.commission_rate, Money { mantissa: 1, scale: 3 });
    assert_eq!(config.trading.slippage_tolerance, Money { mantissa: 5, scale: 4 });
    assert_eq!(config.trading.trading_hours.market_open, "09:30:00");
    assert_eq!(config.trading.trading_hours.market_close, "16:00:00");
    assert_eq!(config.trading.trading_hours.timezone, "America/New_York");
    assert_eq!(
        config.trading.trading_hours.trading_days,
        vec!["Monday", "Tuesday", "Wednesday", "Thursday", "Friday"]
    );
    assert_eq!(config.risk.max_daily_loss, Money::from_units(2));
    assert_eq!(config.risk.max_position_size, Money::from_units(20));
    assert_eq!(config.risk.var_confidence_level, 9_500);
    assert_eq!(config.risk.max_portfolio_heat, 8_000);
    assert_eq!(config.risk.circuit_breaker_threshold, Money { mantissa: 5, scale: 2 });
    assert_eq!(config.risk.emergency_stop_loss, Money { mantissa: 10, scale: 2 });
    assert_eq!(config.risk.correlation_limit, 7_000);
    assert!(config.agents.master_coordinator.enabled);
    assert_eq!(config.agents.master_coordinator.decision_timeout_ms, 100);
    assert_eq!(config.agents.master_coordinator.consensus_threshold, 7_000);
    assert_eq!(
        config.agents.master_coordinator.capabilities,
        vec![
            AgentCapability::StrategyGeneration,
            AgentCapability::RiskOptimization,
            AgentCapability::EthicalReasoning,
        ]
    );
    assert_eq!(config.agents.master_coordinator.strategic_planning_interval_hours, 1);
    assert!(config.agents.market_intelligence.enabled);
    assert_eq!(config.agents.market_intelligence.data_sources, vec!["moomoo"]);
    assert_eq!(config.agents.market_intelligence.update_interval_ms, 100);
    assert_eq!(
        config.agents.market_intelligence.technical_indicators,
        vec!["sma", "ema", "rsi", "macd"]
    );
    assert!(config.agents.risk_management.enabled);
    assert_eq!(config.agents.risk_management.monitoring_interval_ms, 50);
    assert_eq!(config.agents.risk_management.monte_carlo_simulations, 1000);
    assert!(config.agents.execution_engine.enabled);
    assert_eq!(config.agents.execution_engine.max_latency_ms, 1);
    assert_eq!(config.agents.execution_engine.execution_algorithms, vec!["twap", "vwap"]);
    assert!(config.agents.learning_engine.enabled);
    assert_eq!(config.agents.learning_engine.model_update_interval_hours, 4);
    assert_eq!(config.api.moomoo.base_url, "https://openapi.moomoo.com");
    assert_eq!(config.api.moomoo.api_key, "");
    assert_eq!(config.api.moomoo.secret_key, "");
    assert!(config.api.moomoo.paper_trading);
    assert_eq!(config.api.moomoo.timeout_ms, 5000);
    assert_eq!(config.api.moomoo.retry_attempts, 3);
    assert!(config.api.data_providers.is_empty());
    assert_eq!(config.api.rate_limits.requests_per_second, 100);
    assert_eq!(config.api.rate_limits.burst_limit, 200);
    assert_eq!(config.api.rate_limits.backoff_strategy, "exponential");
    assert!(config.monitoring.metrics_enabled);
    assert_eq!(config.monitoring.prometheus_port, 9090);
    assert_eq!(config.monitoring.log_level, "info");
    assert!(config.monitoring.alerts.enabled);
    assert!(!config.monitoring.alerts.email_notifications);
    assert_eq!(config.monitoring.alerts.slack_webhook, None);
    assert_eq!(config.monitoring.alerts.critical_loss_threshold, Money::from_units(5));
    assert_eq!(config.monitoring.alerts.performance_degradation_threshold, 5_000);
    assert_eq!(config.strategies.len(), 2);
    assert_eq!(config.strategies[0].name, "momentum_scalping");
    assert_eq!(config.strategies[1].name, "mean_reversion");
    for strategy in config.strategies.iter() {
        assert!(strategy.enabled);
        assert_eq!(strategy.risk_limit, Money::from_units(1));
        assert_eq!(strategy.max_position_size, Money::from_units(10));
        assert!(strategy.parameters.is_empty());
    }
}

#[test]
fn local_gateway_needs_no_key() {
    assert!(local_config().validate().is_ok());
    assert_eq!(local_config().check(), None);
    let mut named = SystemConfig::default();
    named.api.moomoo.base_url = "http://localhost:11111".to_string();
    assert!(named.validate().is_ok());
}

#[test]
fn remote_broker_needs_a_key() {
    let config = SystemConfig::default();
    assert_eq!(config.check(), Some(ConfigViolation::ApiKeyMissing));
    assert_eq!(refusal(&config), "Moomoo API key is required for non-local connections");
    assert!(remote_config("live_connection_1").validate().is_ok());
    assert!(remote_config("anything").validate().is_ok());
}

#[test]
fn demo_key_needs_paper_trading() {
    let mut config = remote_config("demo_123");
    assert!(config.validate().is_ok());
    config.api.moomoo.paper_trading = false;
    assert_eq!(config.check(), Some(ConfigViolation::DemoKeyWithoutPaperTrading));
    assert_eq!(
        refusal(&config),
        "Demo API keys can only be used with paper trading enabled"
    );
    let mut live = remote_config("live_connection_1");
    live.api.moomoo.paper_trading = false;
    assert!(live.validate().is_ok());
}

#[test]
fn capital_must_be_positive() {
    let mut config = local_config();
    config.trading.initial_capital = Money::zero();
    assert_eq!(config.check(), Some(ConfigViolation::CapitalNotPositive));
    assert_eq!(refusal(&config), "Initial capital must be positive");
    config.trading.initial_capital = Money::from_units(-5);
    assert_eq!(refusal(&config), "Initial capital must be positive");
}

#[test]
fn daily_return_must_lie_between_zero_and_one() {
    let mut config = local_config();
    config.trading.target_daily_return = 0;
    assert_eq!(refusal(&config), "Target daily return must be between 0 and 1");
    config.trading.target_daily_return = 10_001;
    assert_eq!(config.check(), Some(ConfigViolation::DailyReturnOutOfRange));
    config.trading.target_daily_return = 10_000;
    assert!(config.validate().is_ok());
    config.trading.target_daily_return = 1;
    assert!(config.validate().is_ok());
}

#[test]
fn daily_loss_must_stay_below_the_capital() {
    let mut config = local_config();
    config.risk.max_daily_loss = Money::from_units(100);
    assert_eq!(config.check(), Some(ConfigViolation::DailyLossNotBelowCapital));
    assert_eq!(refusal(&config), "Max daily loss cannot exceed initial capital");
    config.risk.max_daily_loss = Money { mantissa: 10_000, scale: 2 };
    assert_eq!(refusal(&config), "Max daily loss cannot exceed initial capital");
    config.risk.max_daily_loss = Money { mantissa: 9_999, scale: 2 };
    assert!(config.validate().is_ok());
}

#[test]
fn confidence_level_must_lie_strictly_between_zero_and_one() {
    let mut config = local_config();
    config.risk.var_confidence_level = 0;
    assert_eq!(refusal(&config), "VaR confidence level must be between 0 and 1");
    config.risk.var_confidence_level = 10_000;
    assert_eq!(config.check(), Some(ConfigViolation::ConfidenceLevelOutOfRange));
    config.risk.var_confidence_level = 9_999;
    assert!(config.validate().is_ok());
}

#[test]
fn the_first_broken_rule_is_named() {
    let mut config = SystemConfig::default();
    config.trading.initial_capital = Money::zero();
    config.trading.target_daily_return = 0;
    config.risk.var_confidence_level = 0;
    assert_eq!(config.check(), Some(ConfigViolation::CapitalNotPositive));
    config.trading.initial_capital = Money::from_units(1);
    assert_eq!(config.check(), Some(ConfigViolation::DailyReturnOutOfRange));
    config.trading.target_daily_return = 5;
    assert_eq!(config.check(), Some(ConfigViolation::DailyLossNotBelowCapital));
    config.risk.max_daily_loss = Money::zero();
    assert_eq!(config.check(), Some(ConfigViolation::ConfidenceLevelOutOfRange));
    config.risk.var_confidence_level = 5;
    assert_eq!(config.check(), Some(ConfigViolation::ApiKeyMissing));
}

#[test]
fn violations_describe_themselves() {
    assert_eq!(ConfigViolation::CapitalNotPositive.describe(), "Initial capital must be positive");
    assert_eq!(
        ConfigViolation::ApiKeyMissing.describe(),
        "Moomoo API key is required for non-local connections"
    );
}

#[test]
fn environment_overrides_what_it_sets() {
    let mut config = SystemConfig::default();
    config.apply_env_overrides(Environment {
        initial_capital: Some(Money { mantissa: 2_505, scale: 1 }),
        moomoo_api_key: Some("key".to_string()),
        moomoo_secret_key: None,
        paper_trading: Some("FALSE".to_string()),
    });
    assert_eq!(config.trading.initial_capital, Money { mantissa: 2_505, scale: 1 });
    assert_eq!(config.api.moomoo.api_key, "key");
    assert_eq!(config.api.moomoo.secret_key, "");
    assert!(!config.api.moomoo.paper_trading);
    assert_eq!(config.trading.max_positions, 10);
    assert_eq!(config.api.moomoo.base_url, "https://openapi.moomoo.com");

    config.apply_env_overrides(Environment {
        initial_capital: None,
        moomoo_api_key: None,
        moomoo_secret_key: Some("secret".to_string()),
        paper_trading: Some("True".to_string()),
    });
    assert_eq!(config.trading.initial_capital, Money { mantissa: 2_505, scale: 1 });
    assert_eq!(config.api.moomoo.api_key, "key");
    assert_eq!(config.api.moomoo.secret_key, "secret");
    assert!(config.api.moomoo.paper_trading);
}

#[test]
fn empty_environment_changes_nothing() {
    let config = SystemConfig::default_with_env(Environment {
        initial_capital: None,
        moomoo_api_key: None,
        moomoo_secret_key: None,
        paper_trading: None,
    });
    assert_eq!(config.trading.initial_capital, Money::from_units(100));
    assert_eq!(config.api.moomoo.api_key, "");
    assert!(config.api.moomoo.paper_trading);
    let paper = SystemConfig::default_with_env(Environment {
        initial_capital: None,
        moomoo_api_key: None,
        moomoo_secret_key: None,
        paper_trading: Some("yes".to_string()),
    });
    assert!(!paper.api.moomoo.paper_trading);
}

#[test]
fn configuration_clones_keep_their_settings() {
    let config = SystemConfig::default();
    let coordinator = config.agents.master_coordinator.clone();
    assert_eq!(coordinator.capabilities, config.agents.master_coordinator.capabilities);
    assert_eq!(coordinator.strategic_planning_interval_hours, 1);
    let intelligence = config.agents.market_intelligence.clone();
    assert_eq!(intelligence.data_sources, vec!["moomoo"]);
    assert_eq!(intelligence.technical_indicators.len(), 4);
    assert_eq!(intelligence.update_interval_ms, 100);
    let execution = config.agents.execution_engine.clone();
    assert_eq!(execution.execution_algorithms, vec!["twap", "vwap"]);
    assert_eq!(execution.max_latency_ms, 1);
}

#[test]
fn errors_know_whether_the_system_can_go_on() {
    let fatal = [
        TradingError::Shutdown,
        TradingError::emergency_stop("loss"),
        TradingError::circuit_breaker("tripped"),
    ];
    for error in fatal.iter() {
        assert!(!error.is_recoverable());
        assert!(error.requires_shutdown());
    }
    let recoverable = [
        TradingError::Config("c".to_string()),
        TradingError::Api("a".to_string()),
        TradingError::Serialization("s".to_string()),
        TradingError::Io("i".to_string()),
        TradingError::WebSocket("w".to_string()),
        TradingError::risk_management("r"),
        TradingError::execution("e"),
        TradingError::market_data("m"),
        TradingError::agent_communication("a"),
        TradingError::strategy("s"),
    ];
    for error in recoverable.iter() {
        assert!(error.is_recoverable());
        assert!(!error.requires_shutdown());
    }
}

#[test]
fn errors_describe_themselves() {
    assert_eq!(TradingError::Config("bad".to_string()).describe(), "Configuration error: bad");
    assert_eq!(TradingError::Api("down".to_string()).describe(), "API error: down");
    assert_eq!(
        TradingError::Serialization("eof".to_string()).describe(),
        "Serialization error: eof"
    );
    assert_eq!(TradingError::Io("disk".to_string()).describe(), "IO error: disk");
    assert_eq!(TradingError::WebSocket("closed".to_string()).describe(), "WebSocket error: closed");
    assert_eq!(
        TradingError::risk_management("heat").describe(),
        "Risk management error: heat"
    );
    assert_eq!(TradingError::execution("hold").describe(), "Execution error: hold");
    assert_eq!(TradingError::market_data("gap").describe(), "Market data error: gap");
    assert_eq!(
        TradingError::agent_communication("lost").describe(),
        "Agent communication error: lost"
    );
    assert_eq!(TradingError::strategy("none").describe(), "Strategy error: none");
    assert_eq!(TradingError::Shutdown.describe(), "System shutdown requested");
    assert_eq!(
        TradingError::circuit_breaker("5%").describe(),
        "Circuit breaker triggered: 5%"
    );
    assert_eq!(TradingError::emergency_stop("loss").describe(), "Emergency stop: loss");
}

#[test]
fn error_constructors_keep_their_text() {
    assert!(matches!(TradingError::risk_management("a"),
        TradingError::RiskManagement { message } if message == "a"));
    assert!(matches!(TradingError::execution("b"),
        TradingError::Execution { message } if message == "b"));
    assert!(matches!(TradingError::market_data("c"),
        TradingError::MarketData { message } if message == "c"));
    assert!(matches!(TradingError::agent_communication("d"),
        TradingError::AgentCommunication { message } if message == "d"));
    assert!(matches!(TradingError::strategy("e"),
        TradingError::Strategy { message } if message == "e"));
    assert!(matches!(TradingError::circuit_breaker("f"),
        TradingError::CircuitBreaker { reason } if reason == "f"));
    assert!(matches!(TradingError::emergency_stop("g"),
        TradingError::EmergencyStop { reason } if reason == "g"));
}
