//! The risk manager: watches the portfolio and raises the alarm.

use vstd::prelude::*;
use vstd::string::StringExecFns;

use crate::agents::traits::are_notices_from;
use crate::agents::traits::evolution_by_rule;
use crate::agents::traits::AgentResult;
use crate::agents::traits::AgentResultView;
use crate::agents::traits::AutonomousAgent;
use crate::agents::traits::WorkerAction;
use crate::agents::traits::WorkerEvent;
use crate::ids::AgentId;
use crate::agents::traits::named_code;
use crate::agents::traits::rust_code;
use crate::agents::traits::CodeGeneration;
use crate::agents::traits::Requirements;
use crate::agents::traits::BaseAgent;
use crate::agents::traits::RiskManager;
use crate::agents::traits::WorkerSchedule;
use crate::agents::traits::EvolutionResult;
use crate::agents::traits::SystemFeedback;
use crate::text::join;
use crate::text::joined;
use crate::text::percent_two_places;
use crate::text::percent_two_places_string;
use crate::text::slices;
use crate::types::PerformanceMetrics;
use crate::types::SignalView;
use crate::agents::traits::HedgeRecommendation;
use crate::agents::traits::HedgeView;
use crate::agents::traits::Notice;
use crate::agents::traits::NoticeView;
use crate::agents::traits::RiskValidation;
use crate::agents::traits::RiskValidationView;
use crate::bus::MessageBus;
use crate::config::RiskAgentConfig;
use crate::config::RiskConfig;
use crate::errors::ErrorView;
use crate::errors::TradingError;
use crate::ids::BROADCAST;
use crate::money::Money;
use crate::types::AgentCapability;
use crate::types::MessageType;
use crate::types::MessageView;
use crate::types::Payload;
use crate::types::PayloadView;
use crate::types::RiskMetrics;
use crate::types::SystemContext;

verus! {

/// Watches the portfolio's risk.
#[derive(Debug)]
pub struct RiskManagementAgent {
    pub base: BaseAgent,
    pub config: RiskAgentConfig,
    pub risk_config: RiskConfig,
}

/// How many open positions the portfolio may have before it needs a hedge.
pub const UNHEDGED_POSITIONS: u32 = 5;

/// The alert that the portfolio runs too hot.
pub open spec fn heat_alert() -> NoticeView {
    NoticeView {
        message_type: MessageType::RiskAlert,
        payload: PayloadView::Reason("High portfolio heat"@),
    }
}

/// The call to stop everything after the day's loss went past its limit.
pub open spec fn loss_emergency() -> NoticeView {
    NoticeView {
        message_type: MessageType::EmergencyShutdown,
        payload: PayloadView::Reason("Daily loss limit exceeded"@),
    }
}

/// Whether the day's result lies below the negative of the loss limit.
pub open spec fn loss_limit_broken(daily_pnl: Money, max_daily_loss: Money) -> bool {
    daily_pnl.less_than(Money { mantissa: (-max_daily_loss.mantissa) as i128, ..max_daily_loss })
}

/// The whole of a portfolio as a share of it.
pub open spec fn whole() -> Money {
    Money { mantissa: 1, scale: 0 }
}

/// A limit given in basis points as a decimal share of the whole.
pub open spec fn limit_as_share(basis_points: u32) -> Money {
    Money { mantissa: basis_points as i128, scale: 4 }
}

/// Whether `heat` lies above a limit of `max_heat` basis points: the two are
/// compared as decimals, so the smallest excess counts.
pub open spec fn too_hot(heat: Money, max_heat: u32) -> bool {
    limit_as_share(max_heat).less_than(heat)
}

/// Whether `heat` lies below a limit of `max_heat` basis points.
pub open spec fn cool_enough(heat: Money, max_heat: u32) -> bool {
    heat.less_than(limit_as_share(max_heat))
}

/// What the risk manager has to announce: an alert if the heat is above its
/// limit, then an emergency shutdown if the day's loss is beyond its limit.
pub open spec fn risk_notices(
    heat: Money,
    max_heat: u32,
    daily_pnl: Money,
    max_daily_loss: Money,
) -> Seq<NoticeView> {
    let for_heat = if too_hot(heat, max_heat) {
        seq![heat_alert()]
    } else {
        Seq::empty()
    };
    let for_loss = if loss_limit_broken(daily_pnl, max_daily_loss) {
        seq![loss_emergency()]
    } else {
        Seq::empty()
    };
    for_heat + for_loss
}

/// The verdict on a trade at the given heat: approved below the limit, and
/// otherwise cut to half its size with a warning.
pub open spec fn trade_verdict(heat: Money, max_heat: u32) -> RiskValidationView {
    if cool_enough(heat, max_heat) {
        RiskValidationView {
            approved: true,
            risk_score: heat,
            position_size_adjustment: 10_000,
            warnings: Seq::empty(),
            required_hedges: Seq::empty(),
        }
    } else {
        RiskValidationView {
            approved: false,
            risk_score: heat,
            position_size_adjustment: 5_000,
            warnings: seq!["High portfolio heat - reducing position size"@],
            required_hedges: Seq::empty(),
        }
    }
}

/// The hedges for a portfolio with `active_positions` open positions: one
/// sale of the index fund once there are more than five.
pub open spec fn hedges_for(active_positions: u32) -> Seq<HedgeView> {
    if active_positions > UNHEDGED_POSITIONS {
        seq![
            HedgeView {
                instrument: "SPY"@,
                action: "sell"@,
                quantity: Money { mantissa: 10, scale: 0 },
                reasoning: "Hedge against market exposure"@,
                urgency: 6_000,
            },
        ]
    } else {
        Seq::empty()
    }
}

/// What the risk manager reports of the given risk figures: the heat as a
/// percentage and the value at risk as an amount.
pub open spec fn risk_report(risk_metrics: RiskMetrics) -> Seq<Seq<char>> {
    seq![
        joined(
            seq![
                "Portfolio heat: "@,
                percent_two_places(risk_metrics.portfolio_heat.capped_basis_points() as nat),
                "%"@,
            ],
        ),
        joined(seq!["VaR (95%): $"@, risk_metrics.var_95.text()]),
    ]
}

impl RiskManagementAgent {
    /// Creates the risk manager. It can optimise risk and reason about
    /// ethics.
    pub fn new(config: RiskAgentConfig, risk_config: RiskConfig) -> (result: Result<
        RiskManagementAgent,
        TradingError,
    >)
        ensures
            result matches Ok(agent) && agent.base.id != BROADCAST && agent.base.capabilities@
                == seq![AgentCapability::RiskOptimization, AgentCapability::EthicalReasoning]
                && !agent.base.shutdown_signal && agent.config == config && agent.risk_config
                == risk_config,
    {
        let mut capabilities: Vec<AgentCapability> = Vec::new();
        capabilities.push(AgentCapability::RiskOptimization);
        capabilities.push(AgentCapability::EthicalReasoning);
        assert(capabilities@ =~= seq![
            AgentCapability::RiskOptimization,
            AgentCapability::EthicalReasoning,
        ]);
        let base = BaseAgent::new(capabilities);
        Ok(RiskManagementAgent { base, config, risk_config })
    }

    /// The risk manager's mission: it reports the given risk figures and
    /// gives no trading signals.
    pub fn execute_mission_with(&self, context: &SystemContext, risk_metrics: &RiskMetrics) -> (result:
        Result<AgentResult, TradingError>)
        requires
            risk_metrics.var_95.well_formed(),
            risk_metrics.portfolio_heat.well_formed(),
        ensures
            result matches Ok(outcome) && outcome@ == (AgentResultView {
                success: true,
                signals: Seq::<SignalView>::empty(),
                metrics: context.performance_metrics,
                recommendations: risk_report(*risk_metrics),
                errors: Seq::<Seq<char>>::empty(),
            }),
    {
        let heat = percent_two_places_string(risk_metrics.portfolio_heat.to_capped_basis_points());
        let heat_parts = ["Portfolio heat: ", heat.as_str(), "%"];
        let first = join(&heat_parts);
        assert(slices(heat_parts@) =~= seq![
            "Portfolio heat: "@,
            percent_two_places(risk_metrics.portfolio_heat.capped_basis_points() as nat),
            "%"@,
        ]);
        let value_at_risk = risk_metrics.var_95.to_text();
        let value_parts = ["VaR (95%): $", value_at_risk.as_str()];
        let second = join(&value_parts);
        assert(slices(value_parts@) =~= seq!["VaR (95%): $"@, risk_metrics.var_95.text()]);
        let mut recommendations: Vec<String> = Vec::new();
        recommendations.push(first);
        recommendations.push(second);
        assert(recommendations.deep_view() =~= risk_report(*risk_metrics));
        let outcome = AgentResult {
            success: true,
            signals: Vec::new(),
            metrics: context.performance_metrics,
            recommendations,
            errors: Vec::new(),
        };
        assert(outcome.signals.deep_view() =~= Seq::empty());
        assert(outcome.errors.deep_view() =~= Seq::empty());
        Ok(outcome)
    }

    /// The risk manager's own figures: those of the system.
    pub fn self_evaluate(&self, context: &SystemContext) -> (result: Result<
        PerformanceMetrics,
        TradingError,
    >)
        ensures
            result matches Ok(metrics) && metrics == context.performance_metrics,
    {
        Ok(context.performance_metrics)
    }

    /// Adapts to feedback: below a score of 40% the risk manager asks for
    /// a tighter limit on the portfolio heat.
    pub fn evolve_strategy(&mut self, feedback: &SystemFeedback) -> (result: Result<
        EvolutionResult,
        TradingError,
    >)
        ensures
            *final(self) == *old(self),
            result matches Ok(outcome) && outcome@ == evolution_by_rule(
                feedback.performance_score < 4_000,
                "max_portfolio_heat"@,
                "0.6"@,
                500,
                9_000,
            ),
    {
        Ok(
            EvolutionResult::by_rule(
                feedback.performance_score < 4_000,
                "max_portfolio_heat",
                "0.6",
                500,
                9_000,
            ),
        )
    }

    /// Tells all agents that a risk limit was crossed.
    pub fn trigger_risk_alert(&self, reason: &str, bus: &mut MessageBus) -> (result: Result<
        (),
        TradingError,
    >)
        ensures
            final(bus).is_closed() == old(bus).is_closed(),
            result is Err <==> old(bus).is_closed(),
            match result {
                Ok(_) => exists|sent: Seq<MessageView>|
                    final(bus).pending() == old(bus).pending() + sent && are_notices_from(
                        sent,
                        self.base.id,
                        seq![
                            NoticeView {
                                message_type: MessageType::RiskAlert,
                                payload: PayloadView::Reason(reason@),
                            },
                        ],
                    ),
                Err(error) => final(bus).pending() == old(bus).pending() && error@
                    == (ErrorView::AgentCommunication { message: "Failed to send message"@ }),
            },
    {
        let mut notices: Vec<Notice> = Vec::new();
        notices.push(
            Notice {
                message_type: MessageType::RiskAlert,
                payload: Payload::Reason(String::from_str(reason)),
            },
        );
        assert(notices.deep_view() =~= seq![
            NoticeView {
                message_type: MessageType::RiskAlert,
                payload: PayloadView::Reason(reason@),
            },
        ]);
        self.base.announce(bus, &notices)
    }

    /// Tells all agents to stop at once.
    pub fn trigger_emergency_stop(&self, reason: &str, bus: &mut MessageBus) -> (result: Result<
        (),
        TradingError,
    >)
        ensures
            final(bus).is_closed() == old(bus).is_closed(),
            result is Err <==> old(bus).is_closed(),
            match result {
                Ok(_) => exists|sent: Seq<MessageView>|
                    final(bus).pending() == old(bus).pending() + sent && are_notices_from(
                        sent,
                        self.base.id,
                        seq![
                            NoticeView {
                                message_type: MessageType::EmergencyShutdown,
                                payload: PayloadView::Reason(reason@),
                            },
                        ],
                    ),
                Err(error) => final(bus).pending() == old(bus).pending() && error@
                    == (ErrorView::AgentCommunication { message: "Failed to send message"@ }),
            },
    {
        let mut notices: Vec<Notice> = Vec::new();
        notices.push(
            Notice {
                message_type: MessageType::EmergencyShutdown,
                payload: Payload::Reason(String::from_str(reason)),
            },
        );
        assert(notices.deep_view() =~= seq![
            NoticeView {
                message_type: MessageType::EmergencyShutdown,
                payload: PayloadView::Reason(reason@),
            },
        ]);
        self.base.announce(bus, &notices)
    }

    /// One look at the portfolio: announces what `risk_notices` asks for,
    /// given the risk figures computed for `context`. On a closed bus
    /// nothing is sent.
    pub fn monitor_risk_with(
        &self,
        context: &SystemContext,
        risk_metrics: &RiskMetrics,
        bus: &mut MessageBus,
    ) -> (result: Result<(), TradingError>)
        requires
            context.portfolio.daily_pnl.well_formed(),
            self.risk_config.max_daily_loss.well_formed(),
            risk_metrics.portfolio_heat.well_formed(),
        ensures
            final(bus).is_closed() == old(bus).is_closed(),
            result is Err <==> old(bus).is_closed() && risk_notices(
                risk_metrics.portfolio_heat,
                self.risk_config.max_portfolio_heat,
                context.portfolio.daily_pnl,
                self.risk_config.max_daily_loss,
            ).len() > 0,
            match result {
                Ok(_) => exists|sent: Seq<MessageView>|
                    final(bus).pending() == old(bus).pending() + sent && are_notices_from(
                        sent,
                        self.base.id,
                        risk_notices(
                            risk_metrics.portfolio_heat,
                            self.risk_config.max_portfolio_heat,
                            context.portfolio.daily_pnl,
                            self.risk_config.max_daily_loss,
                        ),
                    ),
                Err(error) => final(bus).pending() == old(bus).pending() && error@
                    == (ErrorView::AgentCommunication { message: "Failed to send message"@ }),
            },
    {
        let mut notices: Vec<Notice> = Vec::new();
        assert(notices.deep_view() =~= Seq::empty());
        let heat_limit = Money { mantissa: self.risk_config.max_portfolio_heat as i128, scale: 4 };
        if heat_limit.is_less_than(&risk_metrics.portfolio_heat) {
            notices.push(
                Notice {
                    message_type: MessageType::RiskAlert,
                    payload: Payload::Reason(String::from_str("High portfolio heat")),
                },
            );
        }
        let ghost for_heat = notices.deep_view();
        assert(for_heat =~= if too_hot(
            risk_metrics.portfolio_heat,
            self.risk_config.max_portfolio_heat,
        ) {
            seq![heat_alert()]
        } else {
            Seq::empty()
        });
        let limit = self.risk_config.max_daily_loss.negated();
        if context.portfolio.daily_pnl.is_less_than(&limit) {
            notices.push(
                Notice {
                    message_type: MessageType::EmergencyShutdown,
                    payload: Payload::Reason(String::from_str("Daily loss limit exceeded")),
                },
            );
        }
        assert(notices.deep_view() =~= risk_notices(
            risk_metrics.portfolio_heat,
            self.risk_config.max_portfolio_heat,
            context.portfolio.daily_pnl,
            self.risk_config.max_daily_loss,
        ));
        self.base.announce(bus, &notices)
    }

    /// Judges a trade by the portfolio heat in `risk_metrics`.
    pub fn validate_trade_with(&self, risk_metrics: &RiskMetrics) -> (result: Result<
        RiskValidation,
        TradingError,
    >)
        requires
            risk_metrics.portfolio_heat.well_formed(),
        ensures
            result matches Ok(verdict) && verdict@ == trade_verdict(
                risk_metrics.portfolio_heat,
                self.risk_config.max_portfolio_heat,
            ),
    {
        let heat_limit = Money { mantissa: self.risk_config.max_portfolio_heat as i128, scale: 4 };
        let approved = risk_metrics.portfolio_heat.is_less_than(&heat_limit);
        let mut warnings: Vec<String> = Vec::new();
        if !approved {
            warnings.push(String::from_str("High portfolio heat - reducing position size"));
        }
        let verdict = RiskValidation {
            approved,
            risk_score: risk_metrics.portfolio_heat,
            position_size_adjustment: if approved {
                10_000
            } else {
                5_000
            },
            warnings,
            required_hedges: Vec::new(),
        };
        assert(verdict.warnings.deep_view() =~= trade_verdict(
            risk_metrics.portfolio_heat,
            self.risk_config.max_portfolio_heat,
        ).warnings);
        assert(verdict.required_hedges.deep_view() =~= Seq::empty());
        Ok(verdict)
    }

    /// The hedges that `context` calls for.
    pub fn hedges(&self, context: &SystemContext) -> (result: Result<
        Vec<HedgeRecommendation>,
        TradingError,
    >)
        ensures
            result matches Ok(hedges) && hedges.deep_view() == hedges_for(context.active_positions),
    {
        let mut hedges: Vec<HedgeRecommendation> = Vec::new();
        if context.active_positions > UNHEDGED_POSITIONS {
            hedges.push(
                HedgeRecommendation {
                    instrument: String::from_str("SPY"),
                    action: String::from_str("sell"),
                    quantity: Money::from_units(10),
                    reasoning: String::from_str("Hedge against market exposure"),
                    urgency: 6_000,
                },
            );
        }
        assert(hedges.deep_view() =~= hedges_for(context.active_positions));
        Ok(hedges)
    }
}

/// The code that the risk manager writes for a functionality.
pub open spec fn risk_code(functionality: Seq<char>) -> Seq<char> {
    named_code(
        "// Risk management code for: "@,
        functionality,
        "\nuse rust_decimal::Decimal;\n\npub fn calculate_"@,
        "(portfolio_value: Decimal) -> Decimal {\n    // Risk calculation implementation\n    portfolio_value * Decimal::from_f64_retain(0.05).unwrap()\n}"@,
    )
}

impl RiskManagementAgent {
    /// Writes code for a risk calculation: a function named after the
    /// functionality, with one test and a line of documentation.
    pub fn generate_code(&self, requirements: &Requirements) -> (result: Result<
        CodeGeneration,
        TradingError,
    >)
        ensures
            result matches Ok(made) && made@ == rust_code(
                risk_code(requirements.functionality@),
                "#[test] fn test_risk_calc() { assert!(calculate_test(Decimal::from(100)) > Decimal::ZERO); }"@,
                joined(seq!["Risk calculation function for "@, requirements.functionality@]),
                requirements.performance_targets,
            ),
    {
        Ok(
            CodeGeneration::named(
                requirements,
                "// Risk management code for: ",
                "\nuse rust_decimal::Decimal;\n\npub fn calculate_",
                "(portfolio_value: Decimal) -> Decimal {\n    // Risk calculation implementation\n    portfolio_value * Decimal::from_f64_retain(0.05).unwrap()\n}",
                "#[test] fn test_risk_calc() { assert!(calculate_test(Decimal::from(100)) > Decimal::ZERO); }",
                "Risk calculation function for ",
            ),
        )
    }
}

/// The portfolio heat: the size of the day's result as a share of the
/// portfolio's value, at most the whole; zero for a portfolio without value.
/// A share too large for a decimal amount is the whole.
pub open spec fn heat_of(daily_pnl: Money, total_value: Money) -> Money {
    if total_value.is_positive() {
        let size = Money {
            mantissa: if daily_pnl.mantissa < 0 {
                (-daily_pnl.mantissa) as i128
            } else {
                daily_pnl.mantissa
            },
            scale: daily_pnl.scale,
        };
        match size.over(total_value) {
            Some(share) => if whole().less_than(share) {
                whole()
            } else {
                share
            },
            None => whole(),
        }
    } else {
        Money { mantissa: 0, scale: 0 }
    }
}

/// The risk figures of a portfolio: its heat, the value at risk as 5% and
/// 2% of its value, the expected shortfall as 1.2 times the first of them,
/// and the configured limits; nothing where one of them overflows.
pub open spec fn portfolio_risk(context: SystemContext, risk_config: RiskConfig) -> Option<
    RiskMetrics,
> {
    let value = context.portfolio.total_value;
    let portfolio_heat = heat_of(context.portfolio.daily_pnl, value);
    match value.times(Money { mantissa: 5, scale: 2 }) {
        Some(var_95) => match value.times(Money { mantissa: 2, scale: 2 }) {
            Some(var_99) => match var_95.times(Money { mantissa: 12, scale: 1 }) {
                Some(expected_shortfall) => Some(
                    RiskMetrics {
                        var_95,
                        var_99,
                        expected_shortfall,
                        max_position_size: risk_config.max_position_size,
                        daily_loss_limit: risk_config.max_daily_loss,
                        portfolio_heat,
                    },
                ),
                None => None,
            },
            None => None,
        },
        None => None,
    }
}

/// The error for a value at risk or an expected shortfall that overflows.
pub open spec fn figures_out_of_range() -> ErrorView {
    ErrorView::RiskManagement { message: "Risk figures out of range"@ }
}

impl RiskManagementAgent {
    /// The portfolio heat as a share of the whole.
    pub fn portfolio_heat(daily_pnl: Money, total_value: Money) -> (heat: Money)
        requires
            daily_pnl.well_formed(),
            total_value.well_formed(),
        ensures
            heat == heat_of(daily_pnl, total_value),
            heat.well_formed(),
    {
        let whole = Money { mantissa: 1, scale: 0 };
        if total_value.is_sign_positive() {
            match daily_pnl.abs().checked_div(&total_value) {
                Some(share) => if whole.is_less_than(&share) {
                    whole
                } else {
                    share
                },
                None => whole,
            }
        } else {
            Money::zero()
        }
    }

    /// Computes the risk figures of the portfolio in `context`. A heat too
    /// large for a decimal amount counts as the whole; a value at risk or an
    /// expected shortfall that overflows is a risk management error.
    pub fn calculate_portfolio_risk(&self, context: &SystemContext) -> (result: Result<
        RiskMetrics,
        TradingError,
    >)
        requires
            context.portfolio.daily_pnl.well_formed(),
            context.portfolio.total_value.well_formed(),
        ensures
            match portfolio_risk(*context, self.risk_config) {
                Some(figures) => result == Ok::<RiskMetrics, TradingError>(figures),
                None => result matches Err(error) && error@ == figures_out_of_range(),
            },
            result matches Ok(figures) ==> figures.var_95.well_formed()
                && figures.var_99.well_formed() && figures.expected_shortfall.well_formed()
                && figures.portfolio_heat.well_formed(),
    {
        let value = context.portfolio.total_value;
        let portfolio_heat = RiskManagementAgent::portfolio_heat(
            context.portfolio.daily_pnl,
            value,
        );
        let var_95 = match value.checked_mul(&Money { mantissa: 5, scale: 2 }) {
            Some(amount) => amount,
            None => {
                return Err(TradingError::risk_management("Risk figures out of range"));
            },
        };
        let var_99 = match value.checked_mul(&Money { mantissa: 2, scale: 2 }) {
            Some(amount) => amount,
            None => {
                return Err(TradingError::risk_management("Risk figures out of range"));
            },
        };
        let expected_shortfall = match var_95.checked_mul(&Money { mantissa: 12, scale: 1 }) {
            Some(amount) => amount,
            None => {
                return Err(TradingError::risk_management("Risk figures out of range"));
            },
        };
        Ok(
            RiskMetrics {
                var_95,
                var_99,
                expected_shortfall,
                max_position_size: self.risk_config.max_position_size,
                daily_loss_limit: self.risk_config.max_daily_loss,
                portfolio_heat,
            },
        )
    }

    /// One look at the portfolio: computes its risk figures and announces
    /// what `risk_notices` asks for. Figures that overflow are a risk
    /// management error, and on a closed bus nothing is sent.
    pub fn monitor_risk(&self, context: &SystemContext, bus: &mut MessageBus) -> (result: Result<
        (),
        TradingError,
    >)
        requires
            context.portfolio.daily_pnl.well_formed(),
            context.portfolio.total_value.well_formed(),
            self.risk_config.max_daily_loss.well_formed(),
        ensures
            final(bus).is_closed() == old(bus).is_closed(),
            match portfolio_risk(*context, self.risk_config) {
                Some(figures) => {
                    let wanted = risk_notices(
                        figures.portfolio_heat,
                        self.risk_config.max_portfolio_heat,
                        context.portfolio.daily_pnl,
                        self.risk_config.max_daily_loss,
                    );
                    &&& result is Err <==> old(bus).is_closed() && wanted.len() > 0
                    &&& result matches Err(error) ==> final(bus).pending() == old(bus).pending()
                        && error@ == (ErrorView::AgentCommunication {
                        message: "Failed to send message"@,
                    })
                    &&& result is Ok ==> exists|sent: Seq<MessageView>|
                        final(bus).pending() == old(bus).pending() + sent && are_notices_from(
                            sent,
                            self.base.id,
                            wanted,
                        )
                },
                None => result matches Err(error) && error@ == figures_out_of_range() && final(bus).pending() == old(bus).pending(),
            },
    {
        let figures = match self.calculate_portfolio_risk(context) {
            Ok(figures) => figures,
            Err(error) => {
                return Err(error);
            },
        };
        self.monitor_risk_with(context, &figures, bus)
    }

    /// The risk manager's mission: it computes the risk figures of the
    /// portfolio and reports them.
    pub fn execute_mission(&self, context: &SystemContext) -> (result: Result<
        AgentResult,
        TradingError,
    >)
        requires
            context.portfolio.daily_pnl.well_formed(),
            context.portfolio.total_value.well_formed(),
        ensures
            match portfolio_risk(*context, self.risk_config) {
                Some(figures) => result matches Ok(outcome) && outcome@ == (AgentResultView {
                    success: true,
                    signals: Seq::<SignalView>::empty(),
                    metrics: context.performance_metrics,
                    recommendations: risk_report(figures),
                    errors: Seq::<Seq<char>>::empty(),
                }),
                None => result matches Err(error) && error@ == figures_out_of_range(),
            },
    {
        let figures = match self.calculate_portfolio_risk(context) {
            Ok(figures) => figures,
            Err(error) => {
                return Err(error);
            },
        };
        self.execute_mission_with(context, &figures)
    }
}

impl RiskManagementAgent {
    /// When the risk manager is woken: to look at the portfolio once in
    /// every monitoring interval, and at its flag every 10 milliseconds.
    pub fn schedule(&self) -> (schedule: WorkerSchedule)
        ensures
            schedule == (WorkerSchedule { tick_ms: self.config.monitoring_interval_ms, poll_ms: 10 }),
    {
        WorkerSchedule { tick_ms: self.config.monitoring_interval_ms, poll_ms: 10 }
    }
}

impl AutonomousAgent for RiskManagementAgent {
    open spec fn common(&self) -> BaseAgent {
        self.base
    }

    fn capabilities(&self) -> (list: Vec<AgentCapability>) {
        self.base.capabilities.clone()
    }

    fn agent_id(&self) -> (id: AgentId) {
        self.base.id
    }

    fn on_event(&self, event: WorkerEvent) -> (action: WorkerAction) {
        self.base.on_event(event)
    }

    fn shutdown(&mut self) -> (result: Result<(), TradingError>) {
        self.base.request_shutdown();
        Ok(())
    }
}

impl RiskManager for RiskManagementAgent {
    fn calculate_risk(&self, context: &SystemContext) -> (result: Result<RiskMetrics, TradingError>)
        ensures
            match portfolio_risk(*context, self.risk_config) {
                Some(figures) => result == Ok::<RiskMetrics, TradingError>(figures),
                None => result matches Err(error) && error@ == figures_out_of_range(),
            },
    {
        self.calculate_portfolio_risk(context)
    }

    fn validate_trade(&self, context: &SystemContext) -> (result: Result<
        RiskValidation,
        TradingError,
    >)
        ensures
            match portfolio_risk(*context, self.risk_config) {
                Some(figures) => result matches Ok(verdict) && verdict@ == trade_verdict(
                    figures.portfolio_heat,
                    self.risk_config.max_portfolio_heat,
                ),
                None => result matches Err(error) && error@ == figures_out_of_range(),
            },
    {
        let figures = match self.calculate_portfolio_risk(context) {
            Ok(figures) => figures,
            Err(error) => {
                return Err(error);
            },
        };
        self.validate_trade_with(&figures)
    }

    fn generate_hedges(&self, context: &SystemContext) -> (result: Result<
        Vec<HedgeRecommendation>,
        TradingError,
    >)
        ensures
            result matches Ok(hedges) && hedges.deep_view() == hedges_for(context.active_positions),
    {
        self.hedges(context)
    }
}

} // verus!
