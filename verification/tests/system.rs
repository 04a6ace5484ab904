use autonomous_trading_system::agents::traits::{WorkerAction, WorkerEvent};
use autonomous_trading_system::ai_thoughts::AIAgent;
use autonomous_trading_system::clock::Timestamp;
use autonomous_trading_system::config::SystemConfig;
use autonomous_trading_system::errors::TradingError;
use autonomous_trading_system::ids::BROADCAST;
use autonomous_trading_system::metrics::MetricsCollector;
use autonomous_trading_system::money::Money;
use autonomous_trading_system::system::{
    AgentRole, EndedTask, LifecycleEvent, LifecycleState, PumpOutcome, RunWatch, TradingSystem,
    WorkerExit, WorkerFate, THOUGHT_HISTORY,
};
use autonomous_trading_system::types::{
    AgentMessage, MarketRegime, MessageType, Payload, PerformanceMetrics, SystemContext,
};

const ALL_ROLES: [AgentRole; 5] = [
    AgentRole::Coordinator,
    AgentRole::Intelligence,
    AgentRole::RiskManagement,
    AgentRole::Execution,
    AgentRole::Learning,
];

fn local_config() -> SystemConfig {
    let mut config = SystemConfig::default();
    config.api.moomoo.base_url = "http://localhost:11111".to_string();
    config
}

fn started_system() -> TradingSystem {
    let mut system = TradingSystem::new(local_config()).unwrap();
    system.start().unwrap();
    system
}

fn message(message_type: MessageType, payload: Payload) -> AgentMessage {
    AgentMessage {
        from: 1,
        to: BROADCAST,
        message_type,
        payload,
        timestamp: Timestamp { secs: 1, nanos: 0 },
    }
}

fn metrics_with_trades(total_trades: u64) -> PerformanceMetrics {
    let mut metrics = PerformanceMetrics::none_yet(0);
    metrics.total_trades = total_trades;
    metrics
}

#[test]
fn new_system_starts_from_the_configuration() {
    let system = TradingSystem::new(local_config()).unwrap();
    let context = system.system_context.snapshot();
    assert_eq!(context.portfolio.total_value, Money::from_units(100));
    assert_eq!(context.portfolio.cash_balance, Money::from_units(100));
    assert_eq!(context.available_capital, Money::from_units(100));
    assert_eq!(context.risk_metrics.max_position_size, Money::from_units(20));
    assert_eq!(context.risk_metrics.daily_loss_limit, Money::from_units(2));
    assert_eq!(context.market_regime, MarketRegime::Sideways);
    assert!(context.portfolio.last_updated.secs > 0);
    assert!(system.message_bus.is_empty());
    assert!(!system.message_bus.closed());
    assert!(!system.shutdown_signal);
    assert_eq!(system.metrics, MetricsCollector::new());
    assert_eq!(system.thought_broadcaster().max_history(), THOUGHT_HISTORY);
    assert_eq!(system.thought_broadcaster().published_count(), 0);
    for role in ALL_ROLES {
        assert_eq!(system.agents.state(role), None);
    }
}

#[test]
fn new_system_refuses_a_configuration_that_breaks_a_rule() {
    match TradingSystem::new(SystemConfig::default()) {
        Err(TradingError::Config(text)) => {
            assert_eq!(text, "Moomoo API key is required for non-local connections")
        }
        Err(other) => panic!("unexpected error {:?}", other),
        Ok(_) => panic!("accepted"),
    }
    let mut config = local_config();
    config.trading.initial_capital = Money::zero();
    match TradingSystem::new(config) {
        Err(TradingError::Config(text)) => assert_eq!(text, "Initial capital must be positive"),
        Err(other) => panic!("unexpected error {:?}", other),
        Ok(_) => panic!("accepted"),
    }
}

#[test]
fn start_creates_the_enabled_agents() {
    let mut config = local_config();
    config.agents.market_intelligence.enabled = false;
    config.agents.execution_engine.enabled = false;
    let mut system = TradingSystem::new(config).unwrap();
    system.start().unwrap();
    assert_eq!(system.agents.state(AgentRole::Coordinator), Some(LifecycleState::Created));
    assert_eq!(system.agents.state(AgentRole::Intelligence), None);
    assert_eq!(system.agents.state(AgentRole::RiskManagement), Some(LifecycleState::Created));
    assert_eq!(system.agents.state(AgentRole::Execution), None);
    assert_eq!(system.agents.state(AgentRole::Learning), Some(LifecycleState::Created));
    let coordinator = system.agents.coordinator.as_ref().unwrap();
    assert_eq!(coordinator.agent.base.capabilities.len(), 3);
    assert_ne!(coordinator.agent.base.id, BROADCAST);
    let risk = system.agents.risk_management.as_ref().unwrap();
    assert_eq!(risk.agent.risk_config.max_daily_loss, Money::from_units(2));
    assert_eq!(risk.agent.risk_config.max_portfolio_heat, 8_000);
    // the learning engine reports for duty
    assert_eq!(system.thought_broadcaster().published_count(), 1);
    let first = system.thought_broadcaster().get_recent_thoughts(1);
    assert_eq!(first[0].agent, AIAgent::LearningEngine);
    assert_eq!(
        first[0].message,
        "Learning Engine initialized. Ready to evolve trading strategies based on market patterns."
    );
    assert!(first[0].educational);
    assert!(!system.shutdown_signal);
    assert!(system.message_bus.is_empty());
}

#[test]
fn start_without_learning_publishes_nothing() {
    let mut config = local_config();
    config.agents.learning_engine.enabled = false;
    let mut system = TradingSystem::new(config).unwrap();
    system.start().unwrap();
    assert_eq!(system.thought_broadcaster().published_count(), 0);
    assert_eq!(system.agents.state(AgentRole::Learning), None);
}

#[test]
fn run_launches_in_start_order_and_join_is_the_reverse() {
    let mut config = local_config();
    config.agents.risk_management.enabled = false;
    let mut system = TradingSystem::new(config).unwrap();
    system.start().unwrap();
    let workers = system.run();
    assert_eq!(
        workers,
        vec![
            AgentRole::Coordinator,
            AgentRole::Intelligence,
            AgentRole::Execution,
            AgentRole::Learning,
        ]
    );
    for role in workers.iter() {
        assert_eq!(system.agents.state(*role), Some(LifecycleState::Running));
    }
    assert_eq!(system.agents.state(AgentRole::RiskManagement), None);
    assert_eq!(
        system.join_order(),
        vec![
            AgentRole::Learning,
            AgentRole::Execution,
            AgentRole::Intelligence,
            AgentRole::Coordinator,
        ]
    );
}

#[test]
fn all_five_roles_join_in_reverse_start_order() {
    let mut system = started_system();
    assert_eq!(system.run(), ALL_ROLES.to_vec());
    let mut reversed = ALL_ROLES.to_vec();
    reversed.reverse();
    assert_eq!(system.join_order(), reversed);
    let empty = TradingSystem::new(local_config()).unwrap();
    assert!(empty.join_order().is_empty());
}

#[test]
fn shutdown_asks_every_agent_and_interrupts_nothing() {
    let mut system = started_system();
    system.run();
    assert_eq!(
        system.worker_event(AgentRole::RiskManagement, WorkerEvent::ShutdownPoll),
        WorkerAction::Wait
    );
    system.shutdown().unwrap();
    assert!(system.shutdown_signal);
    for role in ALL_ROLES {
        assert_eq!(system.agents.state(role), Some(LifecycleState::ShutdownRequested));
        assert!(system.agents.should_shutdown(role));
        // a tick that is due is still worked
        assert_eq!(system.worker_event(role, WorkerEvent::Tick), WorkerAction::Work);
        assert_eq!(system.worker_event(role, WorkerEvent::ShutdownPoll), WorkerAction::Stop);
    }
}

#[test]
fn global_request_stops_workers_at_their_next_poll() {
    let mut system = started_system();
    system.run();
    system.request_shutdown(None);
    assert!(system.shutdown_signal);
    for role in ALL_ROLES {
        assert_eq!(system.agents.state(role), Some(LifecycleState::Running));
        assert!(!system.agents.should_shutdown(role));
        assert_eq!(system.worker_event(role, WorkerEvent::Tick), WorkerAction::Work);
        assert_eq!(system.worker_event(role, WorkerEvent::ShutdownPoll), WorkerAction::Stop);
    }
}

#[test]
fn targeted_request_marks_only_that_role() {
    let mut system = started_system();
    system.run();
    system.request_shutdown(Some(AgentRole::Execution));
    assert_eq!(
        system.agents.state(AgentRole::Execution),
        Some(LifecycleState::ShutdownRequested)
    );
    assert!(system.agents.should_shutdown(AgentRole::Execution));
    assert_eq!(system.agents.state(AgentRole::Learning), Some(LifecycleState::Running));
    assert!(!system.agents.should_shutdown(AgentRole::Learning));
}

#[test]
fn role_without_agent_has_nothing_to_do() {
    let system = TradingSystem::new(local_config()).unwrap();
    assert_eq!(system.worker_event(AgentRole::Learning, WorkerEvent::Tick), WorkerAction::Stop);
    assert_eq!(
        system.worker_event(AgentRole::Learning, WorkerEvent::ShutdownPoll),
        WorkerAction::Stop
    );
}

#[test]
fn lifecycle_only_moves_forward() {
    let created = LifecycleState::Created;
    let running = LifecycleState::Running;
    let asked = LifecycleState::ShutdownRequested;
    let stopped = LifecycleState::Stopped;
    assert_eq!(created.advance(LifecycleEvent::Launched), running);
    assert_eq!(running.advance(LifecycleEvent::Launched), running);
    assert_eq!(created.advance(LifecycleEvent::ShutdownRequested), asked);
    assert_eq!(running.advance(LifecycleEvent::ShutdownRequested), asked);
    assert_eq!(asked.advance(LifecycleEvent::Launched), asked);
    assert_eq!(asked.advance(LifecycleEvent::ShutdownRequested), asked);
    assert_eq!(asked.advance(LifecycleEvent::WorkerReturned), stopped);
    assert_eq!(running.advance(LifecycleEvent::WorkerReturned), stopped);
    assert_eq!(created.advance(LifecycleEvent::WorkerReturned), stopped);
    assert_eq!(stopped.advance(LifecycleEvent::Launched), stopped);
    assert_eq!(stopped.advance(LifecycleEvent::ShutdownRequested), stopped);
    assert_eq!(stopped.advance(LifecycleEvent::WorkerReturned), stopped);
}

#[test]
fn roles_and_places() {
    for (place, role) in ALL_ROLES.iter().enumerate() {
        assert_eq!(AgentRole::from_place(place), *role);
    }
    assert_eq!(AgentRole::from_place(5), AgentRole::Learning);
    assert_eq!(AgentRole::from_place(usize::MAX), AgentRole::Learning);
}

#[test]
fn failed_worker_takes_no_other_agent_with_it() {
    let mut system = started_system();
    system.run();
    system.record_exit(AgentRole::Intelligence, WorkerExit::Failed);
    assert_eq!(system.agents.state(AgentRole::Intelligence), Some(LifecycleState::Stopped));
    assert!(system.agents.intelligence.as_ref().unwrap().failed);
    assert_eq!(system.metrics.system_errors, 1);
    for role in [
        AgentRole::Coordinator,
        AgentRole::RiskManagement,
        AgentRole::Execution,
        AgentRole::Learning,
    ] {
        assert_eq!(system.agents.state(role), Some(LifecycleState::Running));
        assert_eq!(system.worker_event(role, WorkerEvent::ShutdownPoll), WorkerAction::Wait);
    }
    assert!(!system.shutdown_signal);
    system.record_exit(AgentRole::Coordinator, WorkerExit::Returned);
    assert_eq!(system.agents.state(AgentRole::Coordinator), Some(LifecycleState::Stopped));
    assert!(!system.agents.coordinator.as_ref().unwrap().failed);
    assert_eq!(system.metrics.system_errors, 1);
}

#[test]
fn route_message_updates_performance() {
    let mut system = started_system();
    let metrics = metrics_with_trades(12);
    system
        .route_message(message(MessageType::PerformanceUpdate, Payload::Performance(metrics)))
        .unwrap();
    assert_eq!(system.system_context.snapshot().performance_metrics, metrics);
    assert_eq!(system.metrics.system_errors, 0);
}

#[test]
fn route_message_ignores_what_it_does_not_know() {
    let mut system = started_system();
    let before = system.system_context.snapshot();
    system
        .route_message(message(MessageType::PerformanceUpdate, Payload::Text("x".to_string())))
        .unwrap();
    system
        .route_message(message(
            MessageType::SystemCommand,
            Payload::Performance(metrics_with_trades(3)),
        ))
        .unwrap();
    system.route_message(message(MessageType::SystemCommand, Payload::Empty)).unwrap();
    assert_eq!(system.system_context.snapshot(), before);
    assert_eq!(system.metrics, MetricsCollector::new());
}

#[test]
fn route_message_counts_risk_alerts() {
    let mut system = started_system();
    let before = system.system_context.snapshot();
    system
        .route_message(message(MessageType::RiskAlert, Payload::Reason("hot".to_string())))
        .unwrap();
    assert_eq!(system.metrics.system_errors, 1);
    assert_eq!(system.system_context.snapshot(), before);
}

#[test]
fn pump_applies_messages_in_send_order() {
    let mut system = started_system();
    for trades in 1..=5 {
        system
            .message_bus
            .send(message(
                MessageType::PerformanceUpdate,
                Payload::Performance(metrics_with_trades(trades)),
            ))
            .unwrap();
    }
    system
        .message_bus
        .send(message(MessageType::RiskAlert, Payload::Reason("hot".to_string())))
        .unwrap();
    assert_eq!(system.process_messages(), PumpOutcome::Idle);
    assert_eq!(system.system_context.snapshot().performance_metrics.total_trades, 5);
    assert!(system.message_bus.is_empty());
    assert_eq!(system.metrics.agent_messages, 6);
    assert_eq!(system.metrics.system_errors, 1);
    assert!(!system.shutdown_signal);
    // an idle bus stays idle
    assert_eq!(system.process_messages(), PumpOutcome::Idle);
    assert_eq!(system.metrics.agent_messages, 6);
}

#[test]
fn emergency_shutdown_stops_the_pump_at_once() {
    let mut system = started_system();
    system
        .message_bus
        .send(message(
            MessageType::PerformanceUpdate,
            Payload::Performance(metrics_with_trades(1)),
        ))
        .unwrap();
    system
        .message_bus
        .send(message(MessageType::EmergencyShutdown, Payload::Reason("loss".to_string())))
        .unwrap();
    system
        .message_bus
        .send(message(
            MessageType::PerformanceUpdate,
            Payload::Performance(metrics_with_trades(99)),
        ))
        .unwrap();
    system
        .message_bus
        .send(message(MessageType::RiskAlert, Payload::Reason("late".to_string())))
        .unwrap();

    assert_eq!(system.process_messages(), PumpOutcome::Stopped);
    assert!(system.shutdown_signal);
    assert_eq!(system.system_context.snapshot().performance_metrics.total_trades, 1);
    assert_eq!(system.message_bus.len(), 2);
    assert_eq!(system.metrics.agent_messages, 2);
    assert_eq!(system.metrics.system_errors, 0);

    // the pump has ended: nothing sent after the emergency is ever processed
    system
        .message_bus
        .send(message(
            MessageType::PerformanceUpdate,
            Payload::Performance(metrics_with_trades(7)),
        ))
        .unwrap();
    assert_eq!(system.process_messages(), PumpOutcome::Stopped);
    assert_eq!(system.system_context.snapshot().performance_metrics.total_trades, 1);
    assert_eq!(system.message_bus.len(), 3);
    assert_eq!(system.metrics.agent_messages, 2);
    // workers see the flag at their next poll
    assert_eq!(
        system.worker_event(AgentRole::Coordinator, WorkerEvent::ShutdownPoll),
        WorkerAction::Stop
    );
}

#[test]
fn emergency_at_the_front_processes_nothing() {
    let mut system = started_system();
    system
        .message_bus
        .send(message(MessageType::EmergencyShutdown, Payload::Empty))
        .unwrap();
    system
        .message_bus
        .send(message(
            MessageType::PerformanceUpdate,
            Payload::Performance(metrics_with_trades(4)),
        ))
        .unwrap();
    let before = system.system_context.snapshot();
    assert_eq!(system.process_messages(), PumpOutcome::Stopped);
    assert_eq!(system.system_context.snapshot(), before);
    assert_eq!(system.message_bus.len(), 1);
    assert_eq!(system.metrics.agent_messages, 1);
}

#[test]
fn pump_of_a_stopping_system_touches_nothing() {
    let mut system = started_system();
    system
        .message_bus
        .send(message(
            MessageType::PerformanceUpdate,
            Payload::Performance(metrics_with_trades(4)),
        ))
        .unwrap();
    system.request_shutdown(None);
    assert_eq!(system.process_messages(), PumpOutcome::Stopped);
    assert_eq!(system.message_bus.len(), 1);
    assert_eq!(system.system_context.snapshot().performance_metrics.total_trades, 0);
    assert_eq!(system.metrics.agent_messages, 0);
}

#[test]
fn sampler_takes_the_readings_of_the_context() {
    let mut system = started_system();
    system.system_context.mutate(|mut context: SystemContext| {
        context.portfolio.total_value = Money { mantissa: 12_345, scale: 2 };
        context.portfolio.daily_pnl = Money::from_units(-3);
        context.active_positions = 4;
        context.risk_metrics.portfolio_heat = Money { mantissa: 12, scale: 2 };
        context.risk_metrics.var_95 = Money::from_units(5);
        context
    });
    assert!(system.monitor_system_health());
    assert_eq!(system.metrics.portfolio_value, Money { mantissa: 12_345, scale: 2 });
    assert_eq!(system.metrics.cash_balance, Money::from_units(100));
    assert_eq!(system.metrics.daily_pnl, Money::from_units(-3));
    assert_eq!(system.metrics.active_positions, 4);
    assert_eq!(system.metrics.portfolio_heat, Money { mantissa: 12, scale: 2 });
    assert_eq!(system.metrics.var_95, Money::from_units(5));
    system.request_shutdown(None);
    system.system_context.mutate(|mut context: SystemContext| {
        context.active_positions = 9;
        context
    });
    assert!(!system.monitor_system_health());
    assert_eq!(system.metrics.active_positions, 4);
}

#[test]
fn coordinator_tick_sends_its_recommendations() {
    let mut system = started_system();
    system.system_context.mutate(|mut context: SystemContext| {
        context.portfolio.daily_pnl = Money { mantissa: -150, scale: 2 };
        context.market_regime = MarketRegime::Crisis;
        context
    });
    system.tick_coordinator().unwrap();
    let sender = system.agents.coordinator.as_ref().unwrap().agent.base.id;
    let sent = system.message_bus.drain();
    assert_eq!(sent.len(), 2);
    for message in sent.iter() {
        assert_eq!(message.from, sender);
        assert_eq!(message.to, BROADCAST);
        assert_eq!(message.message_type, MessageType::SystemCommand);
    }
    assert!(matches!(&sent[0].payload, Payload::Text(text)
        if text == "Reduce position sizes due to negative daily P&L"));
    assert!(matches!(&sent[1].payload, Payload::Text(text)
        if text == "Activate emergency risk protocols"));
}

#[test]
fn failing_tick_leaves_everything_else_alone() {
    let mut system = started_system();
    system.run();
    system.system_context.mutate(|mut context: SystemContext| {
        context.market_regime = MarketRegime::HighVolatility;
        context
    });
    system.message_bus.close();
    let before = system.system_context.snapshot();
    assert!(matches!(
        system.tick_coordinator(),
        Err(TradingError::AgentCommunication { .. })
    ));
    assert_eq!(system.system_context.snapshot(), before);
    assert!(!system.shutdown_signal);
    for role in ALL_ROLES {
        assert_eq!(system.agents.state(role), Some(LifecycleState::Running));
        assert_eq!(system.worker_event(role, WorkerEvent::Tick), WorkerAction::Work);
    }
    // the next tick is tried again
    assert!(system.tick_coordinator().is_err());
}

#[test]
fn risk_tick_raises_the_emergency_that_stops_the_pump() {
    let mut system = started_system();
    system.system_context.mutate(|mut context: SystemContext| {
        context.portfolio.daily_pnl = Money { mantissa: -201, scale: 2 };
        context
    });
    system.tick_risk().unwrap();
    assert_eq!(system.message_bus.len(), 1);
    system
        .message_bus
        .send(message(
            MessageType::PerformanceUpdate,
            Payload::Performance(metrics_with_trades(8)),
        ))
        .unwrap();
    assert_eq!(system.process_messages(), PumpOutcome::Stopped);
    assert!(system.shutdown_signal);
    assert_eq!(system.system_context.snapshot().performance_metrics.total_trades, 0);
    assert_eq!(system.message_bus.len(), 1);
}

#[test]
fn risk_tick_at_the_limit_raises_nothing() {
    let mut system = started_system();
    system.system_context.mutate(|mut context: SystemContext| {
        context.portfolio.daily_pnl = Money { mantissa: -200, scale: 2 };
        context
    });
    system.tick_risk().unwrap();
    assert!(system.message_bus.is_empty());
}

#[test]
fn risk_tick_refuses_amounts_out_of_range() {
    let mut system = started_system();
    system.system_context.mutate(|mut context: SystemContext| {
        context.portfolio.daily_pnl = Money { mantissa: 1, scale: 99 };
        context
    });
    match system.tick_risk() {
        Err(TradingError::RiskManagement { message }) => assert_eq!(message, "Amount out of range"),
        other => panic!("unexpected {:?}", other),
    }
    assert!(system.message_bus.is_empty());
}

#[test]
fn learning_tick_tells_its_round_on_the_thought_stream() {
    let mut system = started_system();
    let receiver = system.thought_broadcaster.subscribe();
    system.tick_learning().unwrap();
    // no trades yet: the score is one half, and the model stays
    let told = system.thought_broadcaster().get_thoughts_by_agent(AIAgent::LearningEngine, 10);
    let messages: Vec<&str> = told.iter().map(|thought| thought.message.as_str()).collect();
    assert_eq!(
        messages,
        vec![
            "Evolution cycle complete! Generated 1 new strategies. Model accuracy: 50.0%",
            "Starting model evolution cycle. Analyzing recent market patterns and performance.",
            "Learning Engine initialized. Ready to evolve trading strategies based on market patterns.",
        ]
    );
    assert_eq!(system.agents.learning.as_ref().unwrap().agent.model_version, "v1.0.0");
    let mut streamed = 0;
    while let autonomous_trading_system::ai_thoughts::StreamEvent::Record(_) =
        system.thought_broadcaster.try_recv(&receiver)
    {
        streamed += 1;
    }
    assert_eq!(streamed, 2);
}

#[test]
fn learning_tick_updates_a_failing_model() {
    let mut system = started_system();
    let mut poor = metrics_with_trades(10);
    poor.win_rate = 1_000;
    poor.profit_factor = 3_000;
    poor.average_execution_time_us = 4_000_000;
    system.system_context.set_performance_metrics(poor);
    system.tick_learning().unwrap();
    let told = system.thought_broadcaster().get_recent_thoughts(3);
    assert_eq!(told.len(), 3);
    // 10% * 0.4 + 10% * 0.4 + 20% / 4 = 13%
    assert_eq!(
        told[0].message,
        "Evolution cycle complete! Generated 1 new strategies. Model accuracy: 13.0%"
    );
    assert_eq!(
        told[1].message,
        "Updated adaptive_strategy strategy. Trade result: 0.00%. New accuracy: 13.0%. Adjustment: Updated neural network weights based on recent performance"
    );
    let version = &system.agents.learning.as_ref().unwrap().agent.model_version;
    assert!(version.starts_with("v1."));
    assert_eq!(version.split('.').count(), 3);
}

#[test]
fn start_role_builds_one_agent() {
    let mut system = TradingSystem::new(local_config()).unwrap();
    assert!(system.enabled(AgentRole::Execution));
    system.start_role(AgentRole::Execution).unwrap();
    assert_eq!(system.agents.state(AgentRole::Execution), Some(LifecycleState::Created));
    for role in [
        AgentRole::Coordinator,
        AgentRole::Intelligence,
        AgentRole::RiskManagement,
        AgentRole::Learning,
    ] {
        assert_eq!(system.agents.state(role), None);
    }
    assert_eq!(system.thought_broadcaster().published_count(), 0);
    let engine = &system.agents.execution.as_ref().unwrap().agent;
    assert_eq!(engine.config.max_latency_ms, 1);
    assert_eq!(engine.config.execution_algorithms, vec!["twap", "vwap"]);
    assert_eq!(engine.api_config.moomoo.base_url, "http://localhost:11111");
    assert_eq!(engine.api_config.rate_limits.backoff_strategy, "exponential");
    system.start_role(AgentRole::Learning).unwrap();
    assert_eq!(system.thought_broadcaster().published_count(), 1);
}

#[test]
fn restarting_replaces_the_agent() {
    let mut system = started_system();
    system.run();
    system.request_shutdown(Some(AgentRole::Coordinator));
    let before = system.agents.coordinator.as_ref().unwrap().agent.base.id;
    system.start_role(AgentRole::Coordinator).unwrap();
    let slot = system.agents.coordinator.as_ref().unwrap();
    assert_ne!(slot.agent.base.id, before);
    assert_eq!(slot.state, LifecycleState::Created);
    assert!(!slot.agent.base.should_shutdown());
    assert_eq!(system.agents.state(AgentRole::Learning), Some(LifecycleState::Running));
}

#[test]
fn shutdown_report_sorts_the_workers_by_their_fate() {
    let mut system = started_system();
    system.run();
    system.shutdown().unwrap();
    let early = system.shutdown_report();
    assert!(early.stopped.is_empty());
    assert!(early.failed.is_empty());
    assert_eq!(early.unfinished, system.join_order());

    system.record_exit(AgentRole::Learning, WorkerExit::Returned);
    system.record_exit(AgentRole::Execution, WorkerExit::Failed);
    system.record_exit(AgentRole::Coordinator, WorkerExit::Returned);
    let report = system.shutdown_report();
    assert_eq!(report.stopped, vec![AgentRole::Learning, AgentRole::Coordinator]);
    assert_eq!(report.failed, vec![AgentRole::Execution]);
    assert_eq!(report.unfinished, vec![AgentRole::RiskManagement, AgentRole::Intelligence]);
    assert_eq!(system.fate(AgentRole::Learning), WorkerFate::Stopped);
    assert_eq!(system.fate(AgentRole::Execution), WorkerFate::Failed);
    assert_eq!(system.fate(AgentRole::Intelligence), WorkerFate::Unfinished);
}

#[test]
fn run_without_workers_is_over_at_once() {
    let watch = RunWatch::begin(0);
    assert!(watch.over);
    assert_eq!(watch.running, 0);
}

#[test]
fn run_is_over_when_the_last_worker_has_ended() {
    let watch = RunWatch::begin(2);
    assert!(!watch.over);
    let watch = watch.task_ended(EndedTask::Worker(AgentRole::Coordinator));
    assert_eq!(watch, RunWatch { running: 1, over: false });
    let watch = watch.task_ended(EndedTask::Worker(AgentRole::Learning));
    assert_eq!(watch, RunWatch { running: 0, over: true });
    let watch = watch.task_ended(EndedTask::Worker(AgentRole::Learning));
    assert_eq!(watch, RunWatch { running: 0, over: true });
}

#[test]
fn run_is_over_when_the_pump_or_the_sampler_has_ended() {
    let watch = RunWatch::begin(3);
    assert_eq!(watch.task_ended(EndedTask::Pump), RunWatch { running: 3, over: true });
    assert_eq!(watch.task_ended(EndedTask::Sampler), RunWatch { running: 3, over: true });
    let later = watch.task_ended(EndedTask::Pump).task_ended(EndedTask::Worker(AgentRole::Execution));
    assert_eq!(later, RunWatch { running: 2, over: true });
}
