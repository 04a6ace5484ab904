use autonomous_trading_system::agents::coordinator::MasterCoordinatorAgent;
use autonomous_trading_system::agents::execution::ExecutionEngineAgent;
use autonomous_trading_system::agents::intelligence::{millis_to_micros, MarketIntelligenceAgent};
use autonomous_trading_system::agents::learning::{LearningEngineAgent, Trend};
use autonomous_trading_system::agents::risk::RiskManagementAgent;
use autonomous_trading_system::agents::traits::{
    hours_to_millis, AutonomousAgent, BaseAgent, EvolutionResult, LearningAgent,
    MarketAnalysis, MarketAnalyzer, ModelUpdateData, Notice, PerformanceTargets, Requirements,
    RiskManager, SystemFeedback, TradeExecutor, TradeOutcome, VolumeProfile, WorkerAction,
    WorkerEvent, WorkerSchedule,
};
use autonomous_trading_system::ai_thoughts::AIThoughtBroadcaster;
use autonomous_trading_system::bus::MessageBus;
use autonomous_trading_system::clock::Timestamp;
use autonomous_trading_system::config::SystemConfig;
use autonomous_trading_system::context::SharedContext;
use autonomous_trading_system::errors::TradingError;
use autonomous_trading_system::ids::BROADCAST;
use autonomous_trading_system::money::Money;
use autonomous_trading_system::types::{
    AgentCapability, MarketData, MarketRegime, MessageType, Order, OrderSide, OrderStatus,
    OrderType, Payload, PerformanceMetrics, RiskMetrics, SignalType, SystemContext, TradingSignal,
};

fn context() -> SystemContext {
    SystemContext::initial(
        Money::from_units(100),
        Money::from_units(20),
        Money::from_units(2),
        Timestamp { secs: 1, nanos: 0 },
    )
}

fn feedback(score: u32) -> SystemFeedback {
    SystemFeedback {
        performance_score: score,
        market_conditions: "calm".to_string(),
        recent_trades: Vec::new(),
        risk_metrics: context().risk_metrics,
        suggestions: Vec::new(),
    }
}

fn requirements(functionality: &str) -> Requirements {
    Requirements {
        functionality: functionality.to_string(),
        performance_targets: PerformanceTargets {
            max_latency_ms: 5,
            min_accuracy: 9_000,
            max_memory_mb: 64,
            min_throughput: 10,
        },
        constraints: Vec::new(),
        dependencies: Vec::new(),
    }
}

fn parameters(outcome: &EvolutionResult) -> Vec<(String, String)> {
    outcome
        .new_parameters
        .iter()
        .map(|parameter| (parameter.name.clone(), parameter.value.clone()))
        .collect()
}

fn coordinator() -> MasterCoordinatorAgent {
    MasterCoordinatorAgent::new(SystemConfig::default().agents.master_coordinator).unwrap()
}

fn risk_manager() -> RiskManagementAgent {
    let config = SystemConfig::default();
    RiskManagementAgent::new(config.agents.risk_management, config.risk).unwrap()
}

fn intelligence() -> MarketIntelligenceAgent {
    let config = SystemConfig::default();
    MarketIntelligenceAgent::new(config.agents.market_intelligence, config.api).unwrap()
}

fn execution() -> ExecutionEngineAgent {
    let config = SystemConfig::default();
    ExecutionEngineAgent::new(config.agents.execution_engine, config.api).unwrap()
}

fn learning() -> (LearningEngineAgent, AIThoughtBroadcaster) {
    let mut broadcaster = AIThoughtBroadcaster::new(10);
    let agent =
        LearningEngineAgent::new(SystemConfig::default().agents.learning_engine, &mut broadcaster)
            .unwrap();
    (agent, broadcaster)
}

fn signal(signal_type: SignalType, strength: u32) -> TradingSignal {
    TradingSignal {
        symbol: "AAPL".to_string(),
        signal_type,
        strength,
        confidence: 8_000,
        timestamp: Timestamp { secs: 1, nanos: 0 },
        reasoning: "because".to_string(),
    }
}

fn order(quantity: Money, side: OrderSide) -> Order {
    Order {
        id: 42,
        symbol: "AAPL".to_string(),
        order_type: OrderType::Market,
        side,
        quantity,
        price: None,
        timestamp: Timestamp { secs: 1, nanos: 0 },
        status: OrderStatus::Pending,
    }
}

fn quote(volume: u64) -> MarketData {
    MarketData {
        symbol: "X".to_string(),
        timestamp: Timestamp { secs: 1, nanos: 0 },
        price: Money::from_units(1),
        volume,
        bid: None,
        ask: None,
        bid_size: None,
        ask_size: None,
    }
}

fn analysis(volatility: u32, trend_strength: u32, sentiment_score: i32) -> MarketAnalysis {
    MarketAnalysis {
        regime: MarketRegime::Sideways,
        volatility,
        trend_strength,
        support_levels: Vec::new(),
        resistance_levels: Vec::new(),
        sentiment_score,
        volume_profile: VolumeProfile {
            total_volume: 0,
            average_volume: 0,
            volume_trend: 10_000,
            high_volume_nodes: Vec::new(),
        },
    }
}

#[test]
fn base_agent_starts_running_under_a_fresh_identifier() {
    let first = BaseAgent::new(vec![AgentCapability::MarketAnalysis]);
    let second = BaseAgent::new(Vec::new());
    assert_ne!(first.id, BROADCAST);
    assert_ne!(first.id, second.id);
    assert_eq!(first.capabilities, vec![AgentCapability::MarketAnalysis]);
    assert!(!first.should_shutdown());
    let copy = first.clone();
    assert_eq!(copy.id, first.id);
    assert_eq!(copy.capabilities, first.capabilities);
}

#[test]
fn worker_stops_only_at_a_poll_after_the_request() {
    let mut agent = BaseAgent::new(Vec::new());
    assert_eq!(agent.on_event(WorkerEvent::Tick), WorkerAction::Work);
    assert_eq!(agent.on_event(WorkerEvent::ShutdownPoll), WorkerAction::Wait);
    let id = agent.id;
    agent.request_shutdown();
    assert!(agent.should_shutdown());
    assert_eq!(agent.id, id);
    assert_eq!(agent.on_event(WorkerEvent::Tick), WorkerAction::Work);
    assert_eq!(agent.on_event(WorkerEvent::ShutdownPoll), WorkerAction::Stop);
}

#[test]
fn base_agent_reads_the_shared_context() {
    let agent = BaseAgent::new(Vec::new());
    let shared = SharedContext::new(context());
    assert_eq!(agent.get_system_context(&shared), context());
}

#[test]
fn base_agent_sends_and_announces() {
    let agent = BaseAgent::new(Vec::new());
    let mut bus = MessageBus::new();
    let notices = vec![
        Notice { message_type: MessageType::RiskAlert, payload: Payload::Reason("a".to_string()) },
        Notice { message_type: MessageType::SystemCommand, payload: Payload::Text("b".to_string()) },
    ];
    agent.announce(&mut bus, &notices).unwrap();
    let sent = bus.drain();
    assert_eq!(sent.len(), 2);
    assert_eq!(sent[0].from, agent.id);
    assert_eq!(sent[0].to, BROADCAST);
    assert_eq!(sent[0].message_type, MessageType::RiskAlert);
    assert!(matches!(&sent[0].payload, Payload::Reason(text) if text == "a"));
    assert_eq!(sent[1].message_type, MessageType::SystemCommand);
    assert!(matches!(&sent[1].payload, Payload::Text(text) if text == "b"));
    assert!(sent[0].timestamp.secs > 0);

    bus.close();
    assert!(agent.announce(&mut bus, &Vec::new()).is_ok());
    assert!(matches!(
        agent.announce(&mut bus, &notices),
        Err(TradingError::AgentCommunication { .. })
    ));
    assert!(bus.is_empty());
}

#[test]
fn every_agent_offers_the_common_interface() {
    let mut agent = execution();
    assert_eq!(agent.capabilities(), vec![AgentCapability::ExecutionOptimization]);
    assert_eq!(agent.agent_id(), agent.base.id);
    assert_eq!(agent.on_event(WorkerEvent::ShutdownPoll), WorkerAction::Wait);
    agent.shutdown().unwrap();
    assert_eq!(agent.on_event(WorkerEvent::ShutdownPoll), WorkerAction::Stop);
    assert_eq!(coordinator().capabilities().len(), 3);
    assert_eq!(
        risk_manager().capabilities(),
        vec![AgentCapability::RiskOptimization, AgentCapability::EthicalReasoning]
    );
    assert_eq!(
        intelligence().capabilities(),
        vec![AgentCapability::MarketAnalysis, AgentCapability::StrategyGeneration]
    );
    assert_eq!(
        learning().0.capabilities(),
        vec![AgentCapability::StrategyGeneration, AgentCapability::SelfModification]
    );
}

#[test]
fn schedules_follow_the_configuration() {
    assert_eq!(coordinator().schedule(), WorkerSchedule { tick_ms: 3_600_000, poll_ms: 100 });
    assert_eq!(intelligence().schedule(), WorkerSchedule { tick_ms: 100, poll_ms: 10 });
    assert_eq!(risk_manager().schedule(), WorkerSchedule { tick_ms: 50, poll_ms: 10 });
    assert_eq!(execution().schedule(), WorkerSchedule { tick_ms: 1_000, poll_ms: 10 });
    assert_eq!(learning().0.schedule(), WorkerSchedule { tick_ms: 14_400_000, poll_ms: 100 });
    assert_eq!(hours_to_millis(u64::MAX), u64::MAX);
    assert_eq!(hours_to_millis(0), 0);
    assert_eq!(millis_to_micros(3), 3_000);
    assert_eq!(millis_to_micros(u64::MAX), u64::MAX);
}

#[test]
fn evolution_shares() {
    let applied = EvolutionResult::by_rule(true, "n", "v", 1, 2);
    assert!(applied.strategy_updated);
    assert_eq!(parameters(&applied), vec![("n".to_string(), "v".to_string())]);
    assert_eq!(applied.performance_improvement, 1);
    assert_eq!(applied.confidence, 2);
    let idle = EvolutionResult::by_rule(false, "n", "v", 1, 2);
    assert!(!idle.strategy_updated);
    assert!(idle.new_parameters.is_empty());
}

#[test]
fn coordinator_recommends_by_loss_heat_and_regime() {
    let agent = coordinator();
    let mut situation = context();
    assert!(agent.generate_strategic_recommendations(&situation).unwrap().is_empty());
    situation.portfolio.daily_pnl = Money { mantissa: -1, scale: 2 };
    situation.risk_metrics.portfolio_heat = Money { mantissa: 80_001, scale: 5 };
    situation.market_regime = MarketRegime::HighVolatility;
    assert_eq!(
        agent.generate_strategic_recommendations(&situation).unwrap(),
        vec![
            "Reduce position sizes due to negative daily P&L",
            "Implement defensive strategies due to high portfolio heat",
            "Switch to volatility-based strategies",
        ]
    );
    situation.risk_metrics.portfolio_heat = Money { mantissa: 8, scale: 1 };
    situation.market_regime = MarketRegime::Crisis;
    situation.portfolio.daily_pnl = Money::zero();
    assert_eq!(
        agent.generate_strategic_recommendations(&situation).unwrap(),
        vec!["Activate emergency risk protocols"]
    );
    situation.market_regime = MarketRegime::Bull;
    assert!(agent.generate_strategic_recommendations(&situation).unwrap().is_empty());
}

#[test]
fn coordinator_mission_and_score() {
    let agent = coordinator();
    let mut situation = context();
    situation.market_regime = MarketRegime::Crisis;
    situation.performance_metrics.win_rate = 6_000;
    situation.performance_metrics.profit_factor = 15_000;
    situation.performance_metrics.average_execution_time_us = 999_999;
    let outcome = agent.execute_mission(&situation).unwrap();
    assert!(outcome.success);
    assert!(outcome.signals.is_empty());
    assert!(outcome.errors.is_empty());
    assert_eq!(outcome.metrics, situation.performance_metrics);
    assert_eq!(outcome.recommendations, vec!["Activate emergency risk protocols"]);
    // 60% * 0.4 + min(1.5 / 2, 1) * 0.4 + 0.2 = 0.74
    assert_eq!(agent.calculate_performance_score(&situation).unwrap(), 7_400);
    situation.performance_metrics.average_execution_time_us = 1_000_000;
    assert_eq!(agent.calculate_performance_score(&situation).unwrap(), 6_400);
    situation.performance_metrics.profit_factor = 50_000;
    assert_eq!(agent.calculate_performance_score(&situation).unwrap(), 7_400);
    assert_eq!(agent.self_evaluate(&situation).unwrap(), situation.performance_metrics);
}

#[test]
fn coordinator_planning_sends_commands() {
    let agent = coordinator();
    let mut bus = MessageBus::new();
    let mut situation = context();
    agent.strategic_planning(&situation, &mut bus).unwrap();
    assert!(bus.is_empty());
    situation.market_regime = MarketRegime::HighVolatility;
    agent.strategic_planning(&situation, &mut bus).unwrap();
    let sent = bus.drain();
    assert_eq!(sent.len(), 1);
    assert_eq!(sent[0].from, agent.base.id);
    assert_eq!(sent[0].message_type, MessageType::SystemCommand);
    assert!(matches!(&sent[0].payload, Payload::Text(text)
        if text == "Switch to volatility-based strategies"));
}

#[test]
fn agents_evolve_by_their_own_rules() {
    let mut agent = coordinator();
    let low = agent.evolve_strategy(&feedback(4_999)).unwrap();
    assert_eq!(parameters(&low), vec![("decision_timeout_ms".to_string(), "50".to_string())]);
    assert_eq!(low.performance_improvement, 499);
    assert_eq!(low.confidence, 7_000);
    assert!(!agent.evolve_strategy(&feedback(5_000)).unwrap().strategy_updated);

    let mut agent = intelligence();
    let low = agent.evolve_strategy(&feedback(5_999)).unwrap();
    assert_eq!(parameters(&low), vec![("update_interval_ms".to_string(), "50".to_string())]);
    assert_eq!(low.performance_improvement, 899);
    assert_eq!(low.confidence, 8_000);
    assert!(!agent.evolve_strategy(&feedback(6_000)).unwrap().strategy_updated);

    let mut agent = risk_manager();
    let low = agent.evolve_strategy(&feedback(3_999)).unwrap();
    assert_eq!(parameters(&low), vec![("max_portfolio_heat".to_string(), "0.6".to_string())]);
    assert_eq!(low.performance_improvement, 500);
    assert_eq!(low.confidence, 9_000);
    assert!(!agent.evolve_strategy(&feedback(4_000)).unwrap().strategy_updated);

    let mut agent = execution();
    let high = agent.evolve_strategy(&feedback(8_001)).unwrap();
    assert_eq!(parameters(&high), vec![("max_latency_ms".to_string(), "0.5".to_string())]);
    assert_eq!(high.performance_improvement, 800);
    assert_eq!(high.confidence, 8_500);
    assert!(!agent.evolve_strategy(&feedback(8_000)).unwrap().strategy_updated);

    let (mut agent, _) = learning();
    let low = agent.evolve_strategy(&feedback(4_000)).unwrap();
    assert_eq!(
        parameters(&low),
        vec![("model_update_interval_hours".to_string(), "2".to_string())]
    );
    assert_eq!(low.performance_improvement, 800);
    assert_eq!(low.confidence, 7_500);
    assert!(!agent.evolve_strategy(&feedback(5_000)).unwrap().strategy_updated);
}

#[test]
fn agents_write_code_named_after_the_functionality() {
    let wanted = requirements("Trend Scan");
    let made = coordinator().generate_code(&wanted).unwrap();
    assert_eq!(
        made.code,
        "// Generated code for: Trend Scan\n// TODO: Implement Trend Scan\npub fn generated_function() {\n    // Implementation here\n}"
    );
    assert_eq!(made.language, "rust");
    assert_eq!(made.tests, vec!["#[test] fn test_generated_function() { assert!(true); }"]);
    assert_eq!(made.documentation, "Generated function for Trend Scan");
    assert_eq!(made.performance_estimate, wanted.performance_targets);

    let made = intelligence().generate_code(&wanted).unwrap();
    assert_eq!(
        made.code,
        "// Market analysis code for: Trend Scan\nuse ta::indicators::*;\n\npub fn analyze_trend_scan() -> f64 {\n    // Technical analysis implementation\n    0.0\n}"
    );
    assert_eq!(made.tests, vec!["#[test] fn test_analysis() { assert!(analyze_test() >= 0.0); }"]);
    assert_eq!(made.documentation, "Market analysis function for Trend Scan");

    let made = risk_manager().generate_code(&wanted).unwrap();
    assert_eq!(
        made.code,
        "// Risk management code for: Trend Scan\nuse rust_decimal::Decimal;\n\npub fn calculate_trend_scan(portfolio_value: Decimal) -> Decimal {\n    // Risk calculation implementation\n    portfolio_value * Decimal::from_f64_retain(0.05).unwrap()\n}"
    );
    assert_eq!(made.documentation, "Risk calculation function for Trend Scan");

    let made = execution().generate_code(&wanted).unwrap();
    assert_eq!(
        made.code,
        "// Execution optimization code for: Trend Scan\nuse tokio::time::Instant;\n\npub async fn optimize_trend_scan() -> Result<f64, Box<dyn std::error::Error>> {\n    let start = Instant::now();\n    // Execution optimization implementation\n    Ok(start.elapsed().as_secs_f64())\n}"
    );
    assert_eq!(
        made.tests,
        vec!["#[tokio::test] async fn test_optimization() { assert!(optimize_test().await.is_ok()); }"]
    );

    let made = learning().0.generate_code(&wanted).unwrap();
    assert_eq!(
        made.code,
        "// AI/ML code for: Trend Scan\n\npub fn train_trend_scan(data: &[f64]) -> Result<f64, Box<dyn std::error::Error>> {\n    // Model training implementation\n    let accuracy = data.iter().sum::<f64>() / data.len() as f64;\n    Ok(accuracy)\n}"
    );
    assert_eq!(made.documentation, "AI training function for Trend Scan");
    assert_eq!(made.language, "rust");
}

#[test]
fn risk_figures_of_a_portfolio() {
    let agent = risk_manager();
    let mut situation = context();
    situation.portfolio.daily_pnl = Money { mantissa: -250, scale: 2 };
    let figures = agent.calculate_portfolio_risk(&situation).unwrap();
    assert_eq!(figures.portfolio_heat.to_text(), "0.0250");
    assert_eq!(figures.var_95.to_text(), "5.00");
    assert_eq!(figures.var_99.to_text(), "2.00");
    assert_eq!(figures.expected_shortfall.to_text(), "6.000");
    assert_eq!(figures.max_position_size, Money::from_units(20));
    assert_eq!(figures.daily_loss_limit, Money::from_units(2));
    assert_eq!(agent.calculate_risk(&situation).unwrap(), figures);

    situation.portfolio.daily_pnl = Money::from_units(250);
    assert_eq!(agent.calculate_portfolio_risk(&situation).unwrap().portfolio_heat, Money::from_units(1));
    situation.portfolio.total_value = Money::zero();
    assert_eq!(agent.calculate_portfolio_risk(&situation).unwrap().portfolio_heat, Money::zero());
    assert_eq!(
        RiskManagementAgent::portfolio_heat(Money::from_units(-1), Money::from_units(3)).to_text(),
        "0.3333333333333333333333333333"
    );
    assert_eq!(
        RiskManagementAgent::portfolio_heat(Money::from_units(1), Money::from_units(-3)),
        Money::zero()
    );
}

#[test]
fn risk_manager_alerts_and_stops() {
    let mut agent = risk_manager();
    agent.risk_config.max_portfolio_heat = 200;
    let mut bus = MessageBus::new();
    let mut situation = context();

    agent.monitor_risk(&situation, &mut bus).unwrap();
    assert!(bus.is_empty());

    // a loss of 2.50 on 100: heat 2.5% and beyond the loss limit of 2
    situation.portfolio.daily_pnl = Money { mantissa: -250, scale: 2 };
    agent.monitor_risk(&situation, &mut bus).unwrap();
    let sent = bus.drain();
    assert_eq!(sent.len(), 2);
    assert_eq!(sent[0].message_type, MessageType::RiskAlert);
    assert!(matches!(&sent[0].payload, Payload::Reason(text) if text == "High portfolio heat"));
    assert_eq!(sent[1].message_type, MessageType::EmergencyShutdown);
    assert!(matches!(&sent[1].payload, Payload::Reason(text)
        if text == "Daily loss limit exceeded"));
    assert_eq!(sent[1].from, agent.base.id);
    assert_eq!(sent[1].to, BROADCAST);

    // a gain of the same size runs hot but is no loss
    situation.portfolio.daily_pnl = Money { mantissa: 250, scale: 2 };
    agent.monitor_risk(&situation, &mut bus).unwrap();
    let sent = bus.drain();
    assert_eq!(sent.len(), 1);
    assert_eq!(sent[0].message_type, MessageType::RiskAlert);

    // exactly at the limit nothing is raised
    agent.risk_config.max_portfolio_heat = 8_000;
    situation.portfolio.daily_pnl = Money::from_units(-2);
    agent.monitor_risk(&situation, &mut bus).unwrap();
    assert!(bus.is_empty());
}

#[test]
fn risk_manager_with_given_figures() {
    let agent = risk_manager();
    let mut bus = MessageBus::new();
    let mut figures: RiskMetrics = context().risk_metrics;
    figures.portfolio_heat = Money { mantissa: 800_001, scale: 6 };
    agent.monitor_risk_with(&context(), &figures, &mut bus).unwrap();
    assert_eq!(bus.len(), 1);
    bus.close();
    assert!(agent.monitor_risk_with(&context(), &figures, &mut bus).is_err());
    figures.portfolio_heat = Money { mantissa: 80, scale: 2 };
    assert!(agent.monitor_risk_with(&context(), &figures, &mut bus).is_ok());
}

#[test]
fn risk_manager_announces_alerts_and_stops() {
    let agent = risk_manager();
    let mut bus = MessageBus::new();
    agent.trigger_risk_alert("too hot", &mut bus).unwrap();
    agent.trigger_emergency_stop("too much", &mut bus).unwrap();
    let sent = bus.drain();
    assert_eq!(sent[0].message_type, MessageType::RiskAlert);
    assert!(matches!(&sent[0].payload, Payload::Reason(text) if text == "too hot"));
    assert_eq!(sent[1].message_type, MessageType::EmergencyShutdown);
    assert!(matches!(&sent[1].payload, Payload::Reason(text) if text == "too much"));
    bus.close();
    assert!(agent.trigger_emergency_stop("lost", &mut bus).is_err());
}

#[test]
fn risk_manager_judges_trades_and_hedges() {
    let agent = risk_manager();
    let mut figures: RiskMetrics = context().risk_metrics;
    figures.portfolio_heat = Money { mantissa: 799_999, scale: 6 };
    let verdict = agent.validate_trade_with(&figures).unwrap();
    assert!(verdict.approved);
    assert_eq!(verdict.risk_score, Money { mantissa: 799_999, scale: 6 });
    assert_eq!(verdict.position_size_adjustment, 10_000);
    assert!(verdict.warnings.is_empty());
    assert!(verdict.required_hedges.is_empty());
    figures.portfolio_heat = Money { mantissa: 8, scale: 1 };
    let verdict = agent.validate_trade_with(&figures).unwrap();
    assert!(!verdict.approved);
    assert_eq!(verdict.position_size_adjustment, 5_000);
    assert_eq!(verdict.warnings, vec!["High portfolio heat - reducing position size"]);
    assert!(agent.validate_trade(&context()).unwrap().approved);

    let mut situation = context();
    situation.active_positions = 5;
    assert!(agent.generate_hedges(&situation).unwrap().is_empty());
    situation.active_positions = 6;
    let hedges = agent.generate_hedges(&situation).unwrap();
    assert_eq!(hedges.len(), 1);
    assert_eq!(hedges[0].instrument, "SPY");
    assert_eq!(hedges[0].action, "sell");
    assert_eq!(hedges[0].quantity, Money::from_units(10));
    assert_eq!(hedges[0].reasoning, "Hedge against market exposure");
    assert_eq!(hedges[0].urgency, 6_000);
}

#[test]
fn risk_manager_reports_its_figures() {
    let agent = risk_manager();
    let mut situation = context();
    situation.portfolio.daily_pnl = Money { mantissa: -1_234, scale: 2 };
    let outcome = agent.execute_mission(&situation).unwrap();
    assert!(outcome.success);
    assert_eq!(
        outcome.recommendations,
        vec!["Portfolio heat: 12.34%", "VaR (95%): $5.00"]
    );
    assert_eq!(agent.self_evaluate(&situation).unwrap(), situation.performance_metrics);
}

#[test]
fn intelligence_signals_follow_the_analysis() {
    let agent = intelligence();
    let now = Timestamp { secs: 9, nanos: 9 };
    assert!(agent.generate_trading_signals(&analysis(4_000, 7_000, 9_000), now).unwrap().is_empty());
    assert!(agent.generate_trading_signals(&analysis(0, 9_000, 3_000), now).unwrap().is_empty());
    let signals = agent.generate_trading_signals(&analysis(4_500, 7_001, 3_001), now).unwrap();
    assert_eq!(signals.len(), 2);
    assert_eq!(signals[0].symbol, "AAPL");
    assert_eq!(signals[0].signal_type, SignalType::Buy);
    assert_eq!(signals[0].strength, 7_001);
    assert_eq!(signals[0].confidence, 8_000);
    assert_eq!(signals[0].timestamp, now);
    assert_eq!(signals[0].reasoning, "Strong upward trend with positive sentiment");
    assert_eq!(signals[1].symbol, "TSLA");
    assert_eq!(signals[1].signal_type, SignalType::StrongBuy);
    assert_eq!(signals[1].strength, 4_500);
    assert_eq!(signals[1].confidence, 7_000);
    assert_eq!(signals[1].reasoning, "High volatility presents trading opportunities");
    let only = agent.generate_trading_signals(&analysis(4_001, 0, 0), now).unwrap();
    assert_eq!(only.len(), 1);
    assert_eq!(only[0].symbol, "TSLA");
}

#[test]
fn intelligence_classifies_the_regime() {
    assert_eq!(MarketIntelligenceAgent::classify_regime(4_001, 9_999), MarketRegime::HighVolatility);
    assert_eq!(MarketIntelligenceAgent::classify_regime(4_000, 7_001), MarketRegime::Bull);
    assert_eq!(MarketIntelligenceAgent::classify_regime(4_000, 7_000), MarketRegime::Sideways);
}

#[test]
fn intelligence_makes_up_market_data() {
    let agent = intelligence();
    let data = agent.fetch_market_data().unwrap();
    let symbols: Vec<&str> = data.iter().map(|quote| quote.symbol.as_str()).collect();
    assert_eq!(symbols, vec!["AAPL", "TSLA", "MSFT", "GOOGL"]);
    for quote in data.iter() {
        assert_eq!(quote.price.scale, 2);
        assert!(15_000 <= quote.price.mantissa && quote.price.mantissa < 20_000);
        assert!(1_000_000 <= quote.volume && quote.volume < 1_500_000);
        assert_eq!(quote.bid, Some(Money { mantissa: 14_995, scale: 2 }));
        assert_eq!(quote.ask, Some(Money { mantissa: 15_005, scale: 2 }));
        assert_eq!(quote.bid_size, Some(1000));
        assert_eq!(quote.ask_size, Some(1000));
    }
}

#[test]
fn intelligence_analyses_the_volume() {
    let agent = intelligence();
    let data = vec![quote(10), quote(20), quote(31)];
    assert_eq!(MarketIntelligenceAgent::sum_volumes(&data), Some(61));
    let found = agent.analyze_market_data(&data).unwrap();
    assert_eq!(found.volume_profile.total_volume, 61);
    assert_eq!(found.volume_profile.average_volume, 20);
    assert!(found.volume_profile.volume_trend == 10_000 || found.volume_profile.volume_trend == -10_000);
    assert!(2_000 <= found.volatility && found.volatility < 5_000);
    assert!(found.trend_strength < 10_000);
    assert!(-10_000 <= found.sentiment_score && found.sentiment_score < 10_000);
    assert_eq!(
        found.regime,
        MarketIntelligenceAgent::classify_regime(found.volatility, found.trend_strength)
    );
    assert_eq!(
        found.support_levels,
        vec![Money::from_units(145), Money::from_units(140), Money::from_units(135)]
    );
    assert_eq!(
        found.resistance_levels,
        vec![Money::from_units(155), Money::from_units(160), Money::from_units(165)]
    );
    assert_eq!(
        found.volume_profile.high_volume_nodes,
        vec![Money::from_units(150), Money::from_units(152), Money::from_units(148)]
    );
}

#[test]
fn intelligence_refuses_no_data_and_too_much_volume() {
    let agent = intelligence();
    match agent.analyze_market_data(&Vec::new()) {
        Err(TradingError::MarketData { message }) => assert_eq!(message, "No market data"),
        other => panic!("unexpected {:?}", other),
    }
    let heavy = vec![quote(u64::MAX), quote(1)];
    assert_eq!(MarketIntelligenceAgent::sum_volumes(&heavy), None);
    match agent.analyze_market_data(&heavy) {
        Err(TradingError::MarketData { message }) => assert_eq!(message, "Volume out of range"),
        other => panic!("unexpected {:?}", other),
    }
    assert_eq!(MarketIntelligenceAgent::sum_volumes(&vec![quote(u64::MAX)]), Some(u64::MAX));
}

#[test]
fn intelligence_works_a_whole_tick() {
    let agent = intelligence();
    for _ in 0..20 {
        let signals = agent.analyze_and_signal().unwrap();
        assert!(signals.len() <= 2);
        for signal in signals.iter() {
            assert!(signal.symbol == "AAPL" || signal.symbol == "TSLA");
        }
    }
    let outcome = agent.execute_mission(vec![signal(SignalType::Buy, 1)]).unwrap();
    assert!(outcome.success);
    assert_eq!(outcome.signals.len(), 1);
    assert_eq!(outcome.metrics, PerformanceMetrics::none_yet(100_000));
    assert_eq!(outcome.recommendations, vec!["Monitor high volatility periods"]);
    assert_eq!(agent.self_evaluate().unwrap(), PerformanceMetrics::none_yet(100_000));
    let found = agent.analyze_market().unwrap();
    assert!(4_000_000 <= found.volume_profile.total_volume);
    assert!(found.volume_profile.total_volume < 6_000_000);
    assert_eq!(found.volume_profile.average_volume, found.volume_profile.total_volume / 4);
    let now = Timestamp { secs: 3, nanos: 4 };
    let by_trait = agent.generate_signals(&analysis(4_500, 0, 0), now).unwrap();
    assert_eq!(by_trait.len(), 1);
    assert_eq!(by_trait[0].timestamp, now);
}

#[test]
fn execution_turns_signals_into_orders() {
    let agent = execution();
    assert_eq!(ExecutionEngineAgent::order_side(SignalType::Buy), Some(OrderSide::Buy));
    assert_eq!(ExecutionEngineAgent::order_side(SignalType::StrongBuy), Some(OrderSide::Buy));
    assert_eq!(ExecutionEngineAgent::order_side(SignalType::Sell), Some(OrderSide::Sell));
    assert_eq!(ExecutionEngineAgent::order_side(SignalType::StrongSell), Some(OrderSide::Sell));
    assert_eq!(ExecutionEngineAgent::order_side(SignalType::Hold), None);
    let made = agent.create_order_from_signal(&signal(SignalType::StrongSell, 7_500)).unwrap();
    assert_eq!(made.side, OrderSide::Sell);
    assert_eq!(made.symbol, "AAPL");
    assert_eq!(made.order_type, OrderType::Market);
    assert_eq!(made.quantity, Money { mantissa: 75_000, scale: 4 });
    assert_eq!(made.quantity.to_text(), "7.5000");
    assert_eq!(made.price, None);
    assert_eq!(made.status, OrderStatus::Pending);
    assert_ne!(made.id, 0);
    match agent.create_order_from_signal(&signal(SignalType::Hold, 7_500)) {
        Err(TradingError::Execution { message }) => assert_eq!(message, "Cannot execute hold signal"),
        other => panic!("unexpected {:?}", other),
    }
}

#[test]
fn execution_plans_by_the_size_of_the_order() {
    let agent = execution();
    let small = agent.create_execution_plan(&order(Money::from_units(100), OrderSide::Buy)).unwrap();
    assert_eq!(small.algorithm, "MARKET");
    assert_eq!(small.time_horizon_ms, 1);
    assert_eq!(small.slice_size, 1_000);
    assert_eq!(small.price_improvement_target, 10);
    assert_eq!(small.contingency_plans, vec!["CANCEL_ON_TIMEOUT"]);
    let large = agent
        .create_execution_plan(&order(Money { mantissa: 10_001, scale: 2 }, OrderSide::Buy))
        .unwrap();
    assert_eq!(large.algorithm, "TWAP");
}

#[test]
fn execution_simulates_a_fill() {
    let agent = execution();
    for side in [OrderSide::Buy, OrderSide::Sell] {
        let placed = order(Money::from_units(10), side);
        let filled = agent.simulate_order_execution(&placed).unwrap();
        assert_eq!(filled.order_id, 42);
        assert_eq!(filled.executed_quantity, Money::from_units(10));
        assert!(filled.success);
        assert_eq!(filled.error_message, None);
        assert_eq!(filled.commission.to_text(), "0.010");
        assert_eq!(filled.slippage.scale, 6);
        assert!(0 <= filled.slippage.mantissa && filled.slippage.mantissa < 1_000);
        assert_eq!(filled.executed_price.scale, 6);
        assert_eq!(filled.execution_time_ms, 0);
        let bare = match side {
            OrderSide::Buy => filled.executed_price.mantissa - filled.slippage.mantissa,
            OrderSide::Sell => filled.executed_price.mantissa + filled.slippage.mantissa,
        };
        assert_eq!(bare % 10_000, 0);
        assert!(150_000_000 <= bare && bare < 160_000_000);
    }
    let exact = ExecutionEngineAgent::fill(
        &order(Money::from_units(3), OrderSide::Sell),
        250,
        15_123,
        9,
        Money { mantissa: 3, scale: 3 },
    );
    assert_eq!(exact.executed_price, Money { mantissa: 151_229_750, scale: 6 });
    assert_eq!(exact.executed_price.to_text(), "151.229750");
    assert_eq!(exact.slippage, Money { mantissa: 250, scale: 6 });
    assert_eq!(exact.execution_time_ms, 9);
    assert_eq!(exact.commission, Money { mantissa: 3, scale: 3 });
}

#[test]
fn execution_executes_a_signal() {
    let agent = execution();
    let filled = agent.execute_signal(&signal(SignalType::Buy, 5_000)).unwrap();
    assert!(filled.success);
    assert_eq!(filled.executed_quantity, Money { mantissa: 50_000, scale: 4 });
    assert_eq!(filled.commission.to_text(), "0.0050000");
    assert!(filled.execution_time_ms < 60_000);
    assert!(matches!(
        agent.execute_signal(&signal(SignalType::Hold, 5_000)),
        Err(TradingError::Execution { .. })
    ));
}

#[test]
fn execution_reports_itself() {
    let agent = execution();
    let outcome = agent.execute_mission().unwrap();
    assert!(outcome.success);
    assert!(outcome.signals.is_empty());
    assert_eq!(outcome.recommendations, vec!["Ready for trade execution"]);
    assert_eq!(outcome.metrics, PerformanceMetrics::none_yet(1_000));
    assert_eq!(agent.self_evaluate().unwrap(), PerformanceMetrics::none_yet(1_000));
    let plan = agent.optimize_execution(&order(Money::from_units(500), OrderSide::Sell)).unwrap();
    assert_eq!(plan.algorithm, "TWAP");
    let traded = agent.execute_trade(&signal(SignalType::Sell, 10_000)).unwrap();
    assert_eq!(traded.executed_quantity, Money { mantissa: 100_000, scale: 4 });
    let orders = agent.monitor_orders().unwrap();
    assert_eq!(orders.len(), 1);
    assert_eq!(orders[0].status, OrderStatus::Filled);
    assert_eq!(orders[0].filled_quantity, Money::from_units(10));
    assert_eq!(orders[0].average_price, Money::from_units(150));
    assert_eq!(orders[0].remaining_quantity, Money::zero());
    assert!(orders[0].estimated_completion.is_some());
    assert_ne!(orders[0].order_id, 0);
}

#[test]
fn learning_scores_performance() {
    let mut metrics = PerformanceMetrics::none_yet(0);
    assert_eq!(LearningEngineAgent::score(&metrics), 5_000);
    metrics.total_trades = 10;
    assert_eq!(LearningEngineAgent::score(&metrics), 2_000);
    metrics.win_rate = 7_000;
    metrics.profit_factor = 24_000;
    metrics.average_execution_time_us = 2_000_000;
    // 70% * 0.4 + min(2.4 / 3, 1) * 0.4 + min(1 / 2, 1) * 0.2 = 0.28 + 0.32 + 0.1
    assert_eq!(LearningEngineAgent::score(&metrics), 7_000);
    metrics.profit_factor = 90_000;
    metrics.average_execution_time_us = 1_000_000;
    assert_eq!(LearningEngineAgent::score(&metrics), 2_800 + 4_000 + 2_000);
    assert_eq!(LearningEngineAgent::trend(7_001), Trend::Improving);
    assert_eq!(LearningEngineAgent::trend(7_000), Trend::Stable);
    assert_eq!(LearningEngineAgent::trend(3_000), Trend::Stable);
    assert_eq!(LearningEngineAgent::trend(2_999), Trend::Declining);
}

#[test]
fn learning_recommends_by_score() {
    let (agent, _) = learning();
    assert_eq!(
        agent.generate_performance_recommendations(3_999).unwrap(),
        vec![
            "Consider reducing position sizes",
            "Implement more conservative risk management",
            "Review and optimize trading strategies",
        ]
    );
    assert_eq!(
        agent.generate_performance_recommendations(8_001).unwrap(),
        vec![
            "Consider increasing position sizes gradually",
            "Explore more aggressive strategies",
            "Scale up successful patterns",
        ]
    );
    for score in [4_000, 8_000] {
        assert_eq!(
            agent.generate_performance_recommendations(score).unwrap(),
            vec!["Maintain current strategy mix", "Continue monitoring performance"]
        );
    }
    assert!(agent.should_update_model(3_999).unwrap());
    assert!(!agent.should_update_model(4_000).unwrap());
}

#[test]
fn learning_analyses_performance() {
    let (agent, _) = learning();
    let mut situation = context();
    situation.performance_metrics.total_trades = 4;
    situation.performance_metrics.win_rate = 6_255;
    situation.performance_metrics.profit_factor = 15_049;
    situation.performance_metrics.average_execution_time_us = 12_350;
    let found = agent.analyze_performance(&situation).unwrap();
    assert_eq!(found.score, 2_502 + 2_006 + 2_000);
    assert_eq!(found.trend, Trend::Stable);
    assert_eq!(
        found.key_metrics,
        vec!["Win Rate: 62.6%", "Profit Factor: 1.50", "Avg Execution: 12.4ms"]
    );
    assert_eq!(
        found.recommendations,
        vec!["Maintain current strategy mix", "Continue monitoring performance"]
    );
    let outcome = agent.execute_mission(&situation).unwrap();
    assert!(outcome.success);
    assert_eq!(outcome.recommendations, found.recommendations);
    assert_eq!(outcome.metrics, situation.performance_metrics);
    assert_eq!(agent.self_evaluate(&situation).unwrap(), situation.performance_metrics);
}

#[test]
fn learning_writes_the_strategy_for_the_regime() {
    let (agent, _) = learning();
    let mut situation = context();
    let expectations = [
        (MarketRegime::Bull, "momentum_bull", "moderate", 7_500u32, vec!["bull_market", "low_volatility"]),
        (MarketRegime::Bear, "defensive_bear", "conservative", 8_000, vec!["bear_market", "high_volatility"]),
        (MarketRegime::HighVolatility, "volatility_scalping", "aggressive", 6_500, vec!["high_volatility"]),
        (MarketRegime::Sideways, "balanced_sideways", "moderate", 7_000, vec!["sideways_market", "low_volatility"]),
        (MarketRegime::Crisis, "balanced_sideways", "moderate", 7_000, vec!["sideways_market", "low_volatility"]),
    ];
    for (regime, name, profile, accuracy, conditions) in expectations {
        situation.market_regime = regime;
        let strategies = agent.generate_adaptive_strategies(&situation).unwrap();
        assert_eq!(strategies.len(), 1);
        assert_eq!(strategies[0].name, name);
        assert_eq!(strategies[0].risk_profile, profile);
        assert_eq!(strategies[0].expected_performance.min_accuracy, accuracy);
        assert_eq!(strategies[0].market_conditions, conditions);
        assert_eq!(strategies[0].parameters.len(), 2);
    }
    situation.market_regime = MarketRegime::HighVolatility;
    assert_eq!(agent.generate_strategies(&situation).unwrap()[0].name, "volatility_scalping");
    situation.market_regime = MarketRegime::Bear;
    let bear = &agent.generate_adaptive_strategies(&situation).unwrap()[0];
    assert_eq!(bear.description, "Defensive strategy for bear markets");
    assert_eq!(bear.parameters[0].name, "stop_loss_threshold");
    assert_eq!(bear.parameters[0].value, "0.02");
    assert_eq!(bear.parameters[1].name, "position_size_multiplier");
    assert_eq!(bear.parameters[1].value, "0.8");
    assert_eq!(bear.expected_performance.max_latency_ms, 50);
    assert_eq!(bear.expected_performance.max_memory_mb, 40);
    assert_eq!(bear.expected_performance.min_throughput, 80);
}

#[test]
fn learning_versions_its_model() {
    assert_eq!(LearningEngineAgent::version_string(3, 42), "v1.3.42");
    assert_eq!(LearningEngineAgent::version_string(0, 0), "v1.0.0");
    let (mut agent, _) = learning();
    assert_eq!(agent.model_version, "v1.0.0");
    let update = agent.update_model_parameters().unwrap();
    assert!(update.success);
    assert!(update.rollback_available);
    assert_eq!(update.new_model_version, agent.model_version);
    assert!(-1_000 <= update.performance_change && update.performance_change < 1_000);
    let parts: Vec<&str> = agent.model_version.split('.').collect();
    assert_eq!(parts[0], "v1");
    assert!(parts[1].parse::<u32>().unwrap() < 10);
    assert!(parts[2].parse::<u32>().unwrap() < 100);

    let few = ModelUpdateData {
        market_data: Vec::new(),
        trade_outcomes: Vec::new(),
        performance_metrics: PerformanceMetrics::none_yet(0),
    };
    assert_eq!(agent.update_model(&few).unwrap().performance_change, 0);
    let outcome = TradeOutcome {
        signal_strength: 1,
        actual_return: 1,
        execution_time_ms: 1,
        slippage: 0,
        success: true,
    };
    let many = ModelUpdateData {
        market_data: Vec::new(),
        trade_outcomes: vec![outcome; 11],
        performance_metrics: PerformanceMetrics::none_yet(0),
    };
    let update = agent.update_model(&many).unwrap();
    assert!(-500 <= update.performance_change && update.performance_change < 1_000);
    assert_eq!(update.new_model_version, agent.model_version);
}

#[test]
fn learning_learns_from_outcomes() {
    let (mut agent, _) = learning();
    let won = TradeOutcome {
        signal_strength: 5_000,
        actual_return: 120,
        execution_time_ms: 3,
        slippage: 1,
        success: true,
    };
    let lost = TradeOutcome { success: false, actual_return: -80, ..won };
    let learnt = agent.learn_from_outcomes(&vec![won, lost, won, won]).unwrap();
    assert_eq!(learnt.accuracy_improvement, 750);
    assert!(1 <= learnt.new_patterns_discovered && learnt.new_patterns_discovered <= 5);
    assert!(7_000 <= learnt.model_confidence && learnt.model_confidence < 9_000);
    assert_eq!(
        learnt.recommended_actions,
        vec!["Continue monitoring trade outcomes", "Adjust position sizing based on success rate"]
    );
    assert_eq!(agent.training_data, vec![won, lost, won, won]);
    let nothing = agent.learn_from_outcomes(&Vec::new()).unwrap();
    assert_eq!(nothing.accuracy_improvement, 0);
    agent.learn_from_outcomes(&vec![lost]).unwrap();
    assert_eq!(agent.training_data.len(), 5);
    assert_eq!(agent.training_data[4], lost);
}

#[test]
fn learning_reports_for_duty() {
    let (agent, broadcaster) = learning();
    assert_eq!(agent.model_version, "v1.0.0");
    assert!(agent.training_data.is_empty());
    let told = broadcaster.get_recent_thoughts(5);
    assert_eq!(told.len(), 1);
    assert_eq!(told[0].confidence, 9_000);
    assert_eq!(
        told[0].reasoning,
        vec![
            "Neural networks loaded and calibrated",
            "Historical pattern database ready",
            "Strategy evolution algorithms active",
        ]
    );
    assert_eq!(told[0].tags, vec!["initialization", "ai"]);
    assert!(told[0].educational);
}

#[test]
fn heat_beyond_the_decimal_range_is_the_whole_and_alerts() {
    let agent = risk_manager();
    let mut situation = context();
    situation.portfolio.total_value = Money { mantissa: 1, scale: 28 };
    situation.portfolio.daily_pnl = Money { mantissa: -79_228_162_514_264_337_593_543_950_335, scale: 0 };
    let figures = agent.calculate_portfolio_risk(&situation).unwrap();
    assert_eq!(figures.portfolio_heat, Money::from_units(1));
    let mut bus = MessageBus::new();
    agent.monitor_risk(&situation, &mut bus).unwrap();
    let sent = bus.drain();
    assert_eq!(sent[0].message_type, MessageType::RiskAlert);
    assert!(!agent.validate_trade_with(&figures).unwrap().approved);
}

#[test]
fn heat_a_hair_above_the_limit_alerts() {
    let agent = risk_manager();
    let mut situation = context();
    situation.portfolio.total_value = Money::from_units(100_000);
    situation.portfolio.daily_pnl = Money { mantissa: 80_000_4, scale: 1 };
    let figures = agent.calculate_portfolio_risk(&situation).unwrap();
    assert_eq!(figures.portfolio_heat.to_text(), "0.800004");
    let mut bus = MessageBus::new();
    agent.monitor_risk_with(&situation, &figures, &mut bus).unwrap();
    assert_eq!(bus.len(), 1);
    assert!(!agent.validate_trade_with(&figures).unwrap().approved);
    situation.portfolio.daily_pnl = Money { mantissa: 79_999_6, scale: 1 };
    let figures = agent.calculate_portfolio_risk(&situation).unwrap();
    let mut quiet = MessageBus::new();
    agent.monitor_risk_with(&situation, &figures, &mut quiet).unwrap();
    assert!(quiet.is_empty());
    assert!(agent.validate_trade_with(&figures).unwrap().approved);
}

#[test]
fn coordinator_sees_heat_a_hair_above_eight_tenths() {
    let agent = coordinator();
    let mut situation = context();
    situation.risk_metrics.portfolio_heat = Money { mantissa: 800_004, scale: 6 };
    assert_eq!(
        agent.generate_strategic_recommendations(&situation).unwrap(),
        vec!["Implement defensive strategies due to high portfolio heat"]
    );
}
