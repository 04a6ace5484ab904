//! The master coordinator: strategic planning for the other agents.

use vstd::prelude::*;
use vstd::string::StringExecFns;

use crate::money::Money;
use crate::agents::traits::AgentResult;
use crate::agents::traits::AgentResultView;
use crate::agents::traits::are_notices_from;
use crate::agents::traits::evolution_by_rule;
use crate::agents::traits::share;
use crate::agents::traits::share_of;
use crate::agents::traits::AutonomousAgent;
use crate::agents::traits::WorkerAction;
use crate::agents::traits::WorkerEvent;
use crate::ids::AgentId;
use crate::agents::traits::rust_code;
use crate::agents::traits::hours_in_millis;
use crate::agents::traits::hours_to_millis;
use crate::agents::traits::BaseAgent;
use crate::agents::traits::WorkerSchedule;
use crate::agents::traits::CodeGeneration;
use crate::agents::traits::Requirements;
use crate::text::join;
use crate::text::joined;
use crate::text::slices;
use crate::agents::traits::EvolutionResult;
use crate::agents::traits::SystemFeedback;
use crate::types::PerformanceMetrics;
use crate::agents::traits::Notice;
use crate::agents::traits::NoticeView;
use crate::bus::MessageBus;
use crate::config::CoordinatorConfig;
use crate::errors::ErrorView;
use crate::errors::TradingError;
use crate::ids::BROADCAST;
use crate::types::AgentCapability;
use crate::types::MarketRegime;
use crate::types::MessageType;
use crate::types::MessageView;
use crate::types::Payload;
use crate::types::PayloadView;
use crate::types::SignalView;
use crate::types::SystemContext;

verus! {

/// Plans strategy and tells the other agents what to change.
#[derive(Debug)]
pub struct MasterCoordinatorAgent {
    pub base: BaseAgent,
    pub config: CoordinatorConfig,
}

/// The portfolio heat, in tenths of the whole, above which the coordinator
/// asks for defensive strategies.
pub const HIGH_HEAT: i128 = 8;

/// Whether a portfolio at `heat` runs hot: the heat is a decimal amount above
/// eight tenths.
pub open spec fn runs_hot(heat: Money) -> bool {
    heat.well_formed() && (Money { mantissa: HIGH_HEAT, scale: 1 }).less_than(heat)
}

/// Whether a portfolio at `heat` runs hot.
pub fn is_running_hot(heat: &Money) -> (hot: bool)
    ensures
        hot == runs_hot(*heat),
{
    heat.is_valid() && (Money { mantissa: HIGH_HEAT, scale: 1 }).is_less_than(heat)
}

/// What the coordinator recommends in `context`: smaller positions after a
/// losing day, defence when the portfolio runs hot, and a change of
/// strategy in a volatile market or a crisis; in this order.
pub open spec fn strategic_recommendations(context: SystemContext) -> Seq<Seq<char>> {
    let for_loss = if context.portfolio.daily_pnl.is_negative() {
        seq!["Reduce position sizes due to negative daily P&L"@]
    } else {
        Seq::empty()
    };
    let for_heat = if runs_hot(context.risk_metrics.portfolio_heat) {
        seq!["Implement defensive strategies due to high portfolio heat"@]
    } else {
        Seq::empty()
    };
    let for_regime = match context.market_regime {
        MarketRegime::HighVolatility => seq!["Switch to volatility-based strategies"@],
        MarketRegime::Crisis => seq!["Activate emergency risk protocols"@],
        _ => Seq::empty(),
    };
    for_loss + for_heat + for_regime
}

/// The commands that carry `recommendations`, one each.
pub open spec fn as_commands(recommendations: Seq<Seq<char>>) -> Seq<NoticeView> {
    recommendations.map_values(
        |text: Seq<char>|
            NoticeView { message_type: MessageType::SystemCommand, payload: PayloadView::Text(text) },
    )
}

/// The score, in basis points, that the coordinator gives the system: two
/// fifths for the win rate, two fifths for the profit factor counted up to
/// two, and a fifth for executions that take less than a second on average,
/// a tenth otherwise.
pub open spec fn coordination_score(context: SystemContext) -> int {
    let metrics = context.performance_metrics;
    let profit = if metrics.profit_factor / 2 >= 10_000 {
        10_000int
    } else {
        (metrics.profit_factor / 2) as int
    };
    let speed = if metrics.average_execution_time_us < 1_000_000 {
        2_000int
    } else {
        1_000int
    };
    metrics.win_rate * 4 / 10 + profit * 4 / 10 + speed
}

impl MasterCoordinatorAgent {
    /// Creates the coordinator with the capabilities that `config` names.
    pub fn new(config: CoordinatorConfig) -> (result: Result<MasterCoordinatorAgent, TradingError>)
        ensures
            result matches Ok(agent) && agent.base.id != BROADCAST
                && agent.base.capabilities@ == config.capabilities@ && !agent.base.shutdown_signal
                && agent.config == config,
    {
        let capabilities = config.capabilities.clone();
        let base = BaseAgent::new(capabilities);
        Ok(MasterCoordinatorAgent { base, config })
    }

    /// The score that the coordinator gives the system, in basis points.
    pub fn calculate_performance_score(&self, context: &SystemContext) -> (result: Result<
        u32,
        TradingError,
    >)
        ensures
            result matches Ok(score) && score == coordination_score(*context),
    {
        let metrics = &context.performance_metrics;
        let wins: u64 = (metrics.win_rate as u64) * 4 / 10;
        let half = metrics.profit_factor / 2;
        let profit: u64 = if half >= 10_000 {
            10_000
        } else {
            half
        };
        let speed: u64 = if metrics.average_execution_time_us < 1_000_000 {
            2_000
        } else {
            1_000
        };
        Ok((wins + profit * 4 / 10 + speed) as u32)
    }

    /// Adapts to feedback: below a score of 50% the coordinator asks for
    /// quicker decisions.
    pub fn evolve_strategy(&mut self, feedback: &SystemFeedback) -> (result: Result<
        EvolutionResult,
        TradingError,
    >)
        ensures
            *final(self) == *old(self),
            result matches Ok(outcome) && outcome@ == evolution_by_rule(
                feedback.performance_score < 5_000,
                "decision_timeout_ms"@,
                "50"@,
                share_of(feedback.performance_score, 10),
                7_000,
            ),
    {
        Ok(
            EvolutionResult::by_rule(
                feedback.performance_score < 5_000,
                "decision_timeout_ms",
                "50",
                share(feedback.performance_score, 10),
                7_000,
            ),
        )
    }

    /// The coordinator's own figures: those of the system.
    pub fn self_evaluate(&self, context: &SystemContext) -> (result: Result<
        PerformanceMetrics,
        TradingError,
    >)
        ensures
            result matches Ok(metrics) && metrics == context.performance_metrics,
    {
        Ok(context.performance_metrics)
    }

    /// What the coordinator recommends in `context`.
    pub fn generate_strategic_recommendations(&self, context: &SystemContext) -> (result: Result<
        Vec<String>,
        TradingError,
    >)
        ensures
            result matches Ok(recommendations) && recommendations.deep_view()
                == strategic_recommendations(*context),
    {
        let mut recommendations: Vec<String> = Vec::new();
        assert(recommendations.deep_view() =~= Seq::empty());
        if context.portfolio.daily_pnl.is_sign_negative() {
            recommendations.push(
                String::from_str("Reduce position sizes due to negative daily P&L"),
            );
        }
        let ghost for_loss = recommendations.deep_view();
        assert(for_loss =~= if context.portfolio.daily_pnl.is_negative() {
            seq!["Reduce position sizes due to negative daily P&L"@]
        } else {
            Seq::empty()
        });
        if is_running_hot(&context.risk_metrics.portfolio_heat) {
            recommendations.push(
                String::from_str("Implement defensive strategies due to high portfolio heat"),
            );
        }
        let ghost for_heat = recommendations.deep_view();
        assert(for_heat =~= for_loss + if runs_hot(context.risk_metrics.portfolio_heat) {
            seq!["Implement defensive strategies due to high portfolio heat"@]
        } else {
            Seq::empty()
        });
        match context.market_regime {
            MarketRegime::HighVolatility => {
                recommendations.push(String::from_str("Switch to volatility-based strategies"));
            },
            MarketRegime::Crisis => {
                recommendations.push(String::from_str("Activate emergency risk protocols"));
            },
            _ => {},
        }
        assert(recommendations.deep_view() =~= strategic_recommendations(*context));
        Ok(recommendations)
    }

    /// One round of planning: reads `context`, and sends each recommendation
    /// to all agents as a command. On a closed bus nothing is sent.
    pub fn strategic_planning(&self, context: &SystemContext, bus: &mut MessageBus) -> (result:
        Result<(), TradingError>)
        ensures
            final(bus).is_closed() == old(bus).is_closed(),
            result is Err <==> old(bus).is_closed() && strategic_recommendations(*context).len() > 0,
            match result {
                Ok(_) => exists|sent: Seq<MessageView>|
                    final(bus).pending() == old(bus).pending() + sent && are_notices_from(
                        sent,
                        self.base.id,
                        as_commands(strategic_recommendations(*context)),
                    ),
                Err(error) => final(bus).pending() == old(bus).pending() && error@
                    == (ErrorView::AgentCommunication { message: "Failed to send message"@ }),
            },
    {
        let recommendations = match self.generate_strategic_recommendations(context) {
            Ok(recommendations) => recommendations,
            Err(error) => {
                return Err(error);
            },
        };
        let mut notices: Vec<Notice> = Vec::new();
        let mut i: usize = 0;
        while i < recommendations.len()
            invariant
                i <= recommendations.len(),
                notices@.len() == i,
                forall|j: int|
                    0 <= j < i ==> (#[trigger] notices@[j])@ == (NoticeView {
                        message_type: MessageType::SystemCommand,
                        payload: PayloadView::Text(recommendations@[j]@),
                    }),
            decreases recommendations.len() - i,
        {
            notices.push(
                Notice {
                    message_type: MessageType::SystemCommand,
                    payload: Payload::Text(recommendations[i].clone()),
                },
            );
            i += 1;
        }
        assert(notices.deep_view() =~= as_commands(strategic_recommendations(*context)));
        self.base.announce(bus, &notices)
    }

    /// The coordinator's mission: it advises and gives no trading signals.
    pub fn execute_mission(&self, context: &SystemContext) -> (result: Result<
        AgentResult,
        TradingError,
    >)
        ensures
            result matches Ok(outcome) && outcome@ == (AgentResultView {
                success: true,
                signals: Seq::<SignalView>::empty(),
                metrics: context.performance_metrics,
                recommendations: strategic_recommendations(*context),
                errors: Seq::<Seq<char>>::empty(),
            }),
    {
        let recommendations = match self.generate_strategic_recommendations(context) {
            Ok(recommendations) => recommendations,
            Err(error) => {
                return Err(error);
            },
        };
        let outcome = AgentResult {
            success: true,
            signals: Vec::new(),
            metrics: context.performance_metrics,
            recommendations,
            errors: Vec::new(),
        };
        assert(outcome.signals.deep_view() =~= Seq::empty());
        assert(outcome.errors.deep_view() =~= Seq::empty());
        Ok(outcome)
    }
}

/// The code that the coordinator writes for a functionality.
pub open spec fn coordination_code(functionality: Seq<char>) -> Seq<char> {
    joined(
        seq![
            "// Generated code for: "@,
            functionality,
            "\n// TODO: Implement "@,
            functionality,
            "\npub fn generated_function() {\n    // Implementation here\n}"@,
        ],
    )
}

impl MasterCoordinatorAgent {
    /// Writes the frame of a function for a functionality, with one test
    /// and a line of documentation.
    pub fn generate_code(&self, requirements: &Requirements) -> (result: Result<
        CodeGeneration,
        TradingError,
    >)
        ensures
            result matches Ok(made) && made@ == rust_code(
                coordination_code(requirements.functionality@),
                "#[test] fn test_generated_function() { assert!(true); }"@,
                joined(seq!["Generated function for "@, requirements.functionality@]),
                requirements.performance_targets,
            ),
    {
        let parts = [
            "// Generated code for: ",
            requirements.functionality.as_str(),
            "\n// TODO: Implement ",
            requirements.functionality.as_str(),
            "\npub fn generated_function() {\n    // Implementation here\n}",
        ];
        let code = join(&parts);
        assert(slices(parts@) =~= seq![
            "// Generated code for: "@,
            requirements.functionality@,
            "\n// TODO: Implement "@,
            requirements.functionality@,
            "\npub fn generated_function() {\n    // Implementation here\n}"@,
        ]);
        let documented = ["Generated function for ", requirements.functionality.as_str()];
        let documentation = join(&documented);
        assert(slices(documented@) =~= seq![
            "Generated function for "@,
            requirements.functionality@,
        ]);
        Ok(
            CodeGeneration::rust(
                code,
                "#[test] fn test_generated_function() { assert!(true); }",
                documentation,
                requirements.performance_targets,
            ),
        )
    }
}

impl MasterCoordinatorAgent {
    /// When the coordinator is woken: to plan once in every planning
    /// interval, and to look at its flag every 100 milliseconds.
    pub fn schedule(&self) -> (schedule: WorkerSchedule)
        ensures
            schedule == (WorkerSchedule { tick_ms: hours_in_millis(self.config.strategic_planning_interval_hours), poll_ms: 100 }),
    {
        WorkerSchedule { tick_ms: hours_to_millis(self.config.strategic_planning_interval_hours), poll_ms: 100 }
    }
}

impl AutonomousAgent for MasterCoordinatorAgent {
    open spec fn common(&self) -> BaseAgent {
        self.base
    }

    fn capabilities(&self) -> (list: Vec<AgentCapability>) {
        self.base.capabilities.clone()
    }

    fn agent_id(&self) -> (id: AgentId) {
        self.base.id
    }

    fn on_event(&self, event: WorkerEvent) -> (action: WorkerAction) {
        self.base.on_event(event)
    }

    fn shutdown(&mut self) -> (result: Result<(), TradingError>) {
        self.base.request_shutdown();
        Ok(())
    }
}

} // verus!
