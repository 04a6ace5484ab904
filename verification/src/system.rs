//! The orchestrator: it owns the shared context, the bus, the agents and the
//! thought stream, routes messages, and drives the shutdown.

use vstd::prelude::*;

use crate::agents::coordinator::MasterCoordinatorAgent;
use crate::agents::execution::ExecutionEngineAgent;
use crate::agents::intelligence::MarketIntelligenceAgent;
use crate::agents::learning::LearningEngineAgent;
use crate::agents::risk::RiskManagementAgent;
use crate::agents::traits::worker_action;
use crate::agents::traits::WorkerAction;
use crate::agents::traits::WorkerEvent;
use crate::ai_thoughts::AIThoughtBroadcaster;
use crate::ai_thoughts::ThoughtView;
use crate::bus::MessageBus;
use crate::clock::current_time;
use crate::clock::Timestamp;
use crate::config::SystemConfig;
use crate::context::SharedContext;
use crate::errors::ErrorView;
use crate::errors::TradingError;
use crate::metrics::bumped;
use crate::metrics::MetricsCollector;
use crate::types::AgentCapability;
use crate::types::AgentMessage;
use crate::types::MessageType;
use crate::types::MessageView;
use crate::types::Payload;
use crate::types::PayloadView;
use crate::types::SystemContext;

verus! {

/// How many records the orchestrator's thought stream keeps.
pub const THOUGHT_HISTORY: usize = 1000;

/// The roles of the agents, in the order in which they are started.
#[derive(Debug, Clone, Copy, PartialEq, Eq, Structural)]
pub enum AgentRole {
    Coordinator,
    Intelligence,
    RiskManagement,
    Execution,
    Learning,
}

impl AgentRole {
    /// The role's place in the order of starting, from 0.
    pub open spec fn place(self) -> int {
        match self {
            AgentRole::Coordinator => 0,
            AgentRole::Intelligence => 1,
            AgentRole::RiskManagement => 2,
            AgentRole::Execution => 3,
            AgentRole::Learning => 4,
        }
    }

    /// The role at a place in the order of starting; the last role for
    /// every place behind it.
    pub open spec fn at(place: int) -> AgentRole {
        if place == 0 {
            AgentRole::Coordinator
        } else if place == 1 {
            AgentRole::Intelligence
        } else if place == 2 {
            AgentRole::RiskManagement
        } else if place == 3 {
            AgentRole::Execution
        } else {
            AgentRole::Learning
        }
    }

    /// The role at a place in the order of starting; the last role for
    /// every place behind it.
    pub fn from_place(place: usize) -> (role: AgentRole)
        ensures
            role == AgentRole::at(place as int),
            place < 5 ==> role.place() == place,
    {
        if place == 0 {
            AgentRole::Coordinator
        } else if place == 1 {
            AgentRole::Intelligence
        } else if place == 2 {
            AgentRole::RiskManagement
        } else if place == 3 {
            AgentRole::Execution
        } else {
            AgentRole::Learning
        }
    }
}

/// Where an agent stands in its life. It only ever moves forward.
#[derive(Debug, Clone, Copy, PartialEq, Eq, Structural)]
pub enum LifecycleState {
    /// Built, its worker not yet running.
    Created,
    /// Its worker runs.
    Running,
    /// Asked to stop, its worker not yet back.
    ShutdownRequested,
    /// Its worker has returned.
    Stopped,
}

/// What happens to an agent.
#[derive(Debug, Clone, Copy, PartialEq, Eq, Structural)]
pub enum LifecycleEvent {
    /// Its worker is started.
    Launched,
    /// It is asked to stop.
    ShutdownRequested,
    /// Its worker has returned.
    WorkerReturned,
}

impl LifecycleState {
    /// How far along the state is.
    pub open spec fn rank(self) -> int {
        match self {
            LifecycleState::Created => 0,
            LifecycleState::Running => 1,
            LifecycleState::ShutdownRequested => 2,
            LifecycleState::Stopped => 3,
        }
    }

    /// The state that follows on `event`. A launch takes a created agent to
    /// running; a request to stop takes an agent that has not stopped to
    /// shutdown-requested; the return of the worker takes any agent to
    /// stopped. Every other event leaves the state as it is.
    pub open spec fn after(self, event: LifecycleEvent) -> LifecycleState {
        match event {
            LifecycleEvent::Launched => if self == LifecycleState::Created {
                LifecycleState::Running
            } else {
                self
            },
            LifecycleEvent::ShutdownRequested => if self == LifecycleState::Stopped {
                self
            } else {
                LifecycleState::ShutdownRequested
            },
            LifecycleEvent::WorkerReturned => LifecycleState::Stopped,
        }
    }

    /// The state that follows on `event`.
    pub fn advance(self, event: LifecycleEvent) -> (next: LifecycleState)
        ensures
            next == self.after(event),
    {
        match event {
            LifecycleEvent::Launched => match self {
                LifecycleState::Created => LifecycleState::Running,
                _ => self,
            },
            LifecycleEvent::ShutdownRequested => match self {
                LifecycleState::Stopped => self,
                _ => LifecycleState::ShutdownRequested,
            },
            LifecycleEvent::WorkerReturned => LifecycleState::Stopped,
        }
    }
}

/// An agent never moves back in its life, once stopped it stays stopped,
/// and it stops only when its worker returns.
pub proof fn lemma_lifecycle_is_monotonic(state: LifecycleState, event: LifecycleEvent)
    ensures
        state.after(event).rank() >= state.rank(),
        state == LifecycleState::Stopped ==> state.after(event) == LifecycleState::Stopped,
        state != LifecycleState::Stopped && state.after(event) == LifecycleState::Stopped ==> event
            == LifecycleEvent::WorkerReturned,
{
}

/// An agent in the registry, with its place in its life.
#[derive(Debug)]
pub struct AgentSlot<A> {
    pub agent: A,
    pub state: LifecycleState,
    /// Whether its worker ended in a failure.
    pub failed: bool,
}

/// The agents of the system, at most one for each role.
#[derive(Debug)]
pub struct AgentRegistry {
    pub coordinator: Option<AgentSlot<MasterCoordinatorAgent>>,
    pub intelligence: Option<AgentSlot<MarketIntelligenceAgent>>,
    pub risk_management: Option<AgentSlot<RiskManagementAgent>>,
    pub execution: Option<AgentSlot<ExecutionEngineAgent>>,
    pub learning: Option<AgentSlot<LearningEngineAgent>>,
}

impl AgentRegistry {
    /// Where the agent of `role` stands in its life; nothing if there is no
    /// such agent.
    pub open spec fn state_of(&self, role: AgentRole) -> Option<LifecycleState> {
        match role {
            AgentRole::Coordinator => match self.coordinator {
                Some(slot) => Some(slot.state),
                None => None,
            },
            AgentRole::Intelligence => match self.intelligence {
                Some(slot) => Some(slot.state),
                None => None,
            },
            AgentRole::RiskManagement => match self.risk_management {
                Some(slot) => Some(slot.state),
                None => None,
            },
            AgentRole::Execution => match self.execution {
                Some(slot) => Some(slot.state),
                None => None,
            },
            AgentRole::Learning => match self.learning {
                Some(slot) => Some(slot.state),
                None => None,
            },
        }
    }

    /// Whether the agent of `role` was asked to stop; false if there is no
    /// such agent.
    pub open spec fn asked_to_stop(&self, role: AgentRole) -> bool {
        match role {
            AgentRole::Coordinator => self.coordinator matches Some(slot)
                && slot.agent.base.shutdown_signal,
            AgentRole::Intelligence => self.intelligence matches Some(slot)
                && slot.agent.base.shutdown_signal,
            AgentRole::RiskManagement => self.risk_management matches Some(slot)
                && slot.agent.base.shutdown_signal,
            AgentRole::Execution => self.execution matches Some(slot)
                && slot.agent.base.shutdown_signal,
            AgentRole::Learning => self.learning matches Some(slot)
                && slot.agent.base.shutdown_signal,
        }
    }

    /// Whether the worker of the agent of `role` ended in a failure.
    pub open spec fn has_failed(&self, role: AgentRole) -> bool {
        match role {
            AgentRole::Coordinator => self.coordinator matches Some(slot) && slot.failed,
            AgentRole::Intelligence => self.intelligence matches Some(slot) && slot.failed,
            AgentRole::RiskManagement => self.risk_management matches Some(slot) && slot.failed,
            AgentRole::Execution => self.execution matches Some(slot) && slot.failed,
            AgentRole::Learning => self.learning matches Some(slot) && slot.failed,
        }
    }

    /// A registry without agents.
    pub fn new() -> (registry: AgentRegistry)
        ensures
            forall|role: AgentRole| registry.state_of(role) is None,
    {
        AgentRegistry {
            coordinator: None,
            intelligence: None,
            risk_management: None,
            execution: None,
            learning: None,
        }
    }

    /// Where the agent of `role` stands in its life.
    pub fn state(&self, role: AgentRole) -> (state: Option<LifecycleState>)
        ensures
            state == self.state_of(role),
    {
        match role {
            AgentRole::Coordinator => match &self.coordinator {
                Some(slot) => Some(slot.state),
                None => None,
            },
            AgentRole::Intelligence => match &self.intelligence {
                Some(slot) => Some(slot.state),
                None => None,
            },
            AgentRole::RiskManagement => match &self.risk_management {
                Some(slot) => Some(slot.state),
                None => None,
            },
            AgentRole::Execution => match &self.execution {
                Some(slot) => Some(slot.state),
                None => None,
            },
            AgentRole::Learning => match &self.learning {
                Some(slot) => Some(slot.state),
                None => None,
            },
        }
    }

    /// Whether the agent of `role` was asked to stop.
    pub fn should_shutdown(&self, role: AgentRole) -> (asked: bool)
        ensures
            asked == self.asked_to_stop(role),
    {
        match role {
            AgentRole::Coordinator => match &self.coordinator {
                Some(slot) => slot.agent.base.should_shutdown(),
                None => false,
            },
            AgentRole::Intelligence => match &self.intelligence {
                Some(slot) => slot.agent.base.should_shutdown(),
                None => false,
            },
            AgentRole::RiskManagement => match &self.risk_management {
                Some(slot) => slot.agent.base.should_shutdown(),
                None => false,
            },
            AgentRole::Execution => match &self.execution {
                Some(slot) => slot.agent.base.should_shutdown(),
                None => false,
            },
            AgentRole::Learning => match &self.learning {
                Some(slot) => slot.agent.base.should_shutdown(),
                None => false,
            },
        }
    }

    /// Lets `event` happen to the agent of `role`. A request to stop also
    /// sets the agent's flag. Without such an agent nothing changes.
    pub fn apply(&mut self, role: AgentRole, event: LifecycleEvent)
        ensures
            forall|other: AgentRole|
                other != role ==> final(self).state_of(other) == old(self).state_of(other)
                    && final(self).asked_to_stop(other) == old(self).asked_to_stop(other)
                    && final(self).has_failed(other) == old(self).has_failed(other),
            final(self).state_of(role) == match old(self).state_of(role) {
                Some(state) => Some(state.after(event)),
                None => None,
            },
            final(self).asked_to_stop(role) == (old(self).state_of(role) is Some && (old(self).asked_to_stop(role) || event == LifecycleEvent::ShutdownRequested)),
            final(self).has_failed(role) == old(self).has_failed(role),
    {
        let stop = match event {
            LifecycleEvent::ShutdownRequested => true,
            _ => false,
        };
        match role {
            AgentRole::Coordinator => match &mut self.coordinator {
                Some(slot) => {
                    slot.state = slot.state.advance(event);
                    if stop {
                        slot.agent.base.request_shutdown();
                    }
                },
                None => {},
            },
            AgentRole::Intelligence => match &mut self.intelligence {
                Some(slot) => {
                    slot.state = slot.state.advance(event);
                    if stop {
                        slot.agent.base.request_shutdown();
                    }
                },
                None => {},
            },
            AgentRole::RiskManagement => match &mut self.risk_management {
                Some(slot) => {
                    slot.state = slot.state.advance(event);
                    if stop {
                        slot.agent.base.request_shutdown();
                    }
                },
                None => {},
            },
            AgentRole::Execution => match &mut self.execution {
                Some(slot) => {
                    slot.state = slot.state.advance(event);
                    if stop {
                        slot.agent.base.request_shutdown();
                    }
                },
                None => {},
            },
            AgentRole::Learning => match &mut self.learning {
                Some(slot) => {
                    slot.state = slot.state.advance(event);
                    if stop {
                        slot.agent.base.request_shutdown();
                    }
                },
                None => {},
            },
        }
    }
}

/// The trading system: configuration, agents, bus, shared context, thought
/// stream and metrics, and the flag that asks everything to stop.
pub struct TradingSystem {
    pub config: SystemConfig,
    pub agents: AgentRegistry,
    pub message_bus: MessageBus,
    pub system_context: SharedContext,
    pub shutdown_signal: bool,
    pub thought_broadcaster: AIThoughtBroadcaster,
    pub metrics: MetricsCollector,
}

/// Whether `config` asks for the agent of `role`.
pub open spec fn is_enabled(config: SystemConfig, role: AgentRole) -> bool {
    match role {
        AgentRole::Coordinator => config.agents.master_coordinator.enabled,
        AgentRole::Intelligence => config.agents.market_intelligence.enabled,
        AgentRole::RiskManagement => config.agents.risk_management.enabled,
        AgentRole::Execution => config.agents.execution_engine.enabled,
        AgentRole::Learning => config.agents.learning_engine.enabled,
    }
}

/// The roles that have an agent among the first `count` roles, in the order
/// of starting.
pub open spec fn present_roles(registry: AgentRegistry, count: nat) -> Seq<AgentRole>
    decreases count,
{
    if count == 0 {
        Seq::empty()
    } else {
        let role = AgentRole::at(count - 1);
        let earlier = present_roles(registry, (count - 1) as nat);
        if registry.state_of(role) is Some {
            earlier.push(role)
        } else {
            earlier
        }
    }
}

/// The roles whose workers are started, in the order of starting.
pub open spec fn start_order(registry: AgentRegistry) -> Seq<AgentRole> {
    present_roles(registry, 5)
}

/// The roles whose workers are waited for, in the order of waiting: the
/// one started last is waited for first.
pub open spec fn join_order(registry: AgentRegistry) -> Seq<AgentRole> {
    start_order(registry).reverse()
}

/// Whether the two registries hold the same under `role`.
pub open spec fn same_slot(before: AgentRegistry, after: AgentRegistry, role: AgentRole) -> bool {
    match role {
        AgentRole::Coordinator => after.coordinator == before.coordinator,
        AgentRole::Intelligence => after.intelligence == before.intelligence,
        AgentRole::RiskManagement => after.risk_management == before.risk_management,
        AgentRole::Execution => after.execution == before.execution,
        AgentRole::Learning => after.learning == before.learning,
    }
}

/// What the agent of `role` can do: the coordinator what its configuration
/// says, every other agent what its role brings.
pub open spec fn capabilities_for(config: SystemConfig, role: AgentRole) -> Seq<AgentCapability> {
    match role {
        AgentRole::Coordinator => config.agents.master_coordinator.capabilities@,
        AgentRole::Intelligence => seq![
            AgentCapability::MarketAnalysis,
            AgentCapability::StrategyGeneration,
        ],
        AgentRole::RiskManagement => seq![
            AgentCapability::RiskOptimization,
            AgentCapability::EthicalReasoning,
        ],
        AgentRole::Execution => seq![AgentCapability::ExecutionOptimization],
        AgentRole::Learning => seq![
            AgentCapability::StrategyGeneration,
            AgentCapability::SelfModification,
        ],
    }
}

/// Whether the registry holds under `role` an agent as `start` builds it
/// from `config`: created, not asked to stop, not failed, able to do what
/// its role asks, and with the settings of its role.
pub open spec fn started_as_configured(
    agents: AgentRegistry,
    config: SystemConfig,
    role: AgentRole,
) -> bool {
    &&& agents.state_of(role) == Some(LifecycleState::Created)
    &&& !agents.asked_to_stop(role)
    &&& !agents.has_failed(role)
    &&& match role {
        AgentRole::Coordinator => agents.coordinator matches Some(slot)
            && slot.agent.base.capabilities@ == capabilities_for(config, role)
            && slot.agent.base.id != crate::ids::BROADCAST && slot.agent.config.same_as(
            &config.agents.master_coordinator,
        ),
        AgentRole::Intelligence => agents.intelligence matches Some(slot)
            && slot.agent.base.capabilities@ == capabilities_for(config, role)
            && slot.agent.base.id != crate::ids::BROADCAST && slot.agent.config.same_as(
            &config.agents.market_intelligence,
        ) && slot.agent.api_config.same_as(&config.api),
        AgentRole::RiskManagement => agents.risk_management matches Some(slot)
            && slot.agent.base.capabilities@ == capabilities_for(config, role)
            && slot.agent.base.id != crate::ids::BROADCAST && slot.agent.config
            == config.agents.risk_management && slot.agent.risk_config == config.risk,
        AgentRole::Execution => agents.execution matches Some(slot)
            && slot.agent.base.capabilities@ == capabilities_for(config, role)
            && slot.agent.base.id != crate::ids::BROADCAST && slot.agent.config.same_as(
            &config.agents.execution_engine,
        ) && slot.agent.api_config.same_as(&config.api),
        AgentRole::Learning => agents.learning matches Some(slot) && slot.agent.base.capabilities@
            == capabilities_for(config, role) && slot.agent.base.id != crate::ids::BROADCAST
            && slot.agent.config == config.agents.learning_engine && slot.agent.model_version@
            == "v1.0.0"@ && slot.agent.training_data@.len() == 0,
    }
}

/// How the thought stream changes when the agents are started: if the
/// learning engine is among them and the stream has room, it gains the record
/// with which the learning engine reports for duty; otherwise it stays as it
/// is.
pub open spec fn told_on_start(
    before: Seq<ThoughtView>,
    after: Seq<ThoughtView>,
    learning: bool,
) -> bool {
    if learning {
        after.len() == before.len() + 1 && after == before.push(after.last()) && after.last()
            == crate::agents::learning::startup_record(after.last().id, after.last().timestamp)
    } else {
        after == before
    }
}

/// How far `start` has come with `role` once it has dealt with the roles in
/// front of `place`: an enabled role in front of it is started, every other
/// role holds what it held.
pub open spec fn start_progress(
    first: AgentRegistry,
    now: AgentRegistry,
    config: SystemConfig,
    place: int,
    role: AgentRole,
) -> bool {
    if role.place() < place && is_enabled(config, role) {
        started_as_configured(now, config, role)
    } else {
        same_slot(first, now, role)
    }
}

/// What holds of a slot still holds after another slot was replaced.
pub proof fn lemma_same_slot_keeps(
    before: AgentRegistry,
    after: AgentRegistry,
    first: AgentRegistry,
    config: SystemConfig,
    role: AgentRole,
)
    requires
        same_slot(before, after, role),
    ensures
        same_slot(first, before, role) ==> same_slot(first, after, role),
        started_as_configured(before, config, role) ==> started_as_configured(after, config, role),
{
}

impl TradingSystem {
    /// Whether the parts of the system are in order.
    pub open spec fn well_formed(&self) -> bool {
        self.thought_broadcaster.well_formed()
    }

    /// Builds the system from a configuration that breaks no rule: the
    /// starting context from the configured capital and limits, an empty bus,
    /// no agents, an empty thought stream that keeps 1000 records, blank
    /// metrics, and no request to stop. A configuration that breaks a rule is
    /// refused with that rule.
    pub fn new(config: SystemConfig) -> (result: Result<TradingSystem, TradingError>)
        requires
            config.well_formed(),
        ensures
            match config.violation() {
                Some(violation) => result matches Err(error) && error@ == ErrorView::Config(
                    violation.message(),
                ),
                None => result matches Ok(system) && {
                    &&& system.well_formed()
                    &&& system.config == config
                    &&& exists|now: Timestamp|
                        now.is_clock_reading() && system.system_context@ == SystemContext::starting(
                            config.trading.initial_capital,
                            config.risk.max_position_size,
                            config.risk.max_daily_loss,
                            now,
                        )
                    &&& system.message_bus.pending() == Seq::<MessageView>::empty()
                    &&& !system.message_bus.is_closed()
                    &&& forall|role: AgentRole| system.agents.state_of(role) is None
                    &&& !system.shutdown_signal
                    &&& system.thought_broadcaster.capacity() == THOUGHT_HISTORY
                    &&& system.thought_broadcaster.published() == Seq::<ThoughtView>::empty()
                    &&& system.metrics == MetricsCollector::blank()
                },
            },
    {
        match config.validate() {
            Ok(_) => {},
            Err(error) => {
                return Err(error);
            },
        }
        let context = SystemContext::initial(
            config.trading.initial_capital,
            config.risk.max_position_size,
            config.risk.max_daily_loss,
            current_time(),
        );
        Ok(
            TradingSystem {
                config,
                agents: AgentRegistry::new(),
                message_bus: MessageBus::new(),
                system_context: SharedContext::new(context),
                shutdown_signal: false,
                thought_broadcaster: AIThoughtBroadcaster::new(THOUGHT_HISTORY),
                metrics: MetricsCollector::new(),
            },
        )
    }

    /// Builds the agent of `role` from the configuration and puts it into
    /// the registry as created, in place of an agent that may have been
    /// there. The learning engine reports for duty on the thought stream.
    /// Nothing else changes.
    pub fn start_role(&mut self, role: AgentRole) -> (result: Result<(), TradingError>)
        requires
            old(self).well_formed(),
        ensures
            final(self).well_formed(),
            result is Ok,
            final(self).config == old(self).config,
            final(self).message_bus == old(self).message_bus,
            final(self).system_context == old(self).system_context,
            final(self).shutdown_signal == old(self).shutdown_signal,
            final(self).metrics == old(self).metrics,
            final(self).thought_broadcaster.capacity() == old(self).thought_broadcaster.capacity(),
            final(self).thought_broadcaster.same_receivers(old(self).thought_broadcaster),
            started_as_configured(final(self).agents, old(self).config, role),
            forall|other: AgentRole|
                other != role ==> same_slot(old(self).agents, final(self).agents, other),
            told_on_start(
                old(self).thought_broadcaster.published(),
                final(self).thought_broadcaster.published(),
                role == AgentRole::Learning,
            ),
    {
        match role {
            AgentRole::Coordinator => {
                let agent = match MasterCoordinatorAgent::new(
                    self.config.agents.master_coordinator.clone(),
                ) {
                    Ok(agent) => agent,
                    Err(error) => {
                        return Err(error);
                    },
                };
                self.agents.coordinator = Some(
                    AgentSlot { agent, state: LifecycleState::Created, failed: false },
                );
            },
            AgentRole::Intelligence => {
                let agent = match MarketIntelligenceAgent::new(
                    self.config.agents.market_intelligence.clone(),
                    self.config.api.clone(),
                ) {
                    Ok(agent) => agent,
                    Err(error) => {
                        return Err(error);
                    },
                };
                self.agents.intelligence = Some(
                    AgentSlot { agent, state: LifecycleState::Created, failed: false },
                );
            },
            AgentRole::RiskManagement => {
                let agent = match RiskManagementAgent::new(
                    self.config.agents.risk_management,
                    self.config.risk,
                ) {
                    Ok(agent) => agent,
                    Err(error) => {
                        return Err(error);
                    },
                };
                self.agents.risk_management = Some(
                    AgentSlot { agent, state: LifecycleState::Created, failed: false },
                );
            },
            AgentRole::Execution => {
                let agent = match ExecutionEngineAgent::new(
                    self.config.agents.execution_engine.clone(),
                    self.config.api.clone(),
                ) {
                    Ok(agent) => agent,
                    Err(error) => {
                        return Err(error);
                    },
                };
                self.agents.execution = Some(
                    AgentSlot { agent, state: LifecycleState::Created, failed: false },
                );
            },
            AgentRole::Learning => {
                let agent = match LearningEngineAgent::new(
                    self.config.agents.learning_engine,
                    &mut self.thought_broadcaster,
                ) {
                    Ok(agent) => agent,
                    Err(error) => {
                        return Err(error);
                    },
                };
                self.agents.learning = Some(
                    AgentSlot { agent, state: LifecycleState::Created, failed: false },
                );
            },
        }
        Ok(())
    }

    /// Whether the configuration asks for the agent of `role`.
    pub fn enabled(&self, role: AgentRole) -> (enabled: bool)
        ensures
            enabled == is_enabled(self.config, role),
    {
        match role {
            AgentRole::Coordinator => self.config.agents.master_coordinator.enabled,
            AgentRole::Intelligence => self.config.agents.market_intelligence.enabled,
            AgentRole::RiskManagement => self.config.agents.risk_management.enabled,
            AgentRole::Execution => self.config.agents.execution_engine.enabled,
            AgentRole::Learning => self.config.agents.learning_engine.enabled,
        }
    }

    /// Builds the agent of every role that the configuration enables, in
    /// the order of the roles, and puts it into the registry as created, in
    /// place of an agent that may have been there. The learning engine
    /// reports for duty on the thought stream. The other roles keep what
    /// they had.
    pub fn start(&mut self) -> (result: Result<(), TradingError>)
        requires
            old(self).well_formed(),
        ensures
            final(self).well_formed(),
            result is Ok,
            final(self).config == old(self).config,
            final(self).message_bus == old(self).message_bus,
            final(self).system_context == old(self).system_context,
            final(self).shutdown_signal == old(self).shutdown_signal,
            final(self).metrics == old(self).metrics,
            final(self).thought_broadcaster.capacity() == old(self).thought_broadcaster.capacity(),
            final(self).thought_broadcaster.same_receivers(old(self).thought_broadcaster),
            forall|role: AgentRole|
                if is_enabled(old(self).config, role) {
                    started_as_configured(final(self).agents, old(self).config, role)
                } else {
                    same_slot(old(self).agents, final(self).agents, role)
                },
            told_on_start(
                old(self).thought_broadcaster.published(),
                final(self).thought_broadcaster.published(),
                is_enabled(old(self).config, AgentRole::Learning),
            ),
    {
        let mut place: usize = 0;
        while place < 5
            invariant
                place <= 5,
                self.well_formed(),
                self.config == old(self).config,
                self.message_bus == old(self).message_bus,
                self.system_context == old(self).system_context,
                self.shutdown_signal == old(self).shutdown_signal,
                self.metrics == old(self).metrics,
                self.thought_broadcaster.capacity() == old(self).thought_broadcaster.capacity(),
                self.thought_broadcaster.same_receivers(old(self).thought_broadcaster),
                start_progress(
                    old(self).agents,
                    self.agents,
                    old(self).config,
                    place as int,
                    AgentRole::Coordinator,
                ),
                start_progress(
                    old(self).agents,
                    self.agents,
                    old(self).config,
                    place as int,
                    AgentRole::Intelligence,
                ),
                start_progress(
                    old(self).agents,
                    self.agents,
                    old(self).config,
                    place as int,
                    AgentRole::RiskManagement,
                ),
                start_progress(
                    old(self).agents,
                    self.agents,
                    old(self).config,
                    place as int,
                    AgentRole::Execution,
                ),
                start_progress(
                    old(self).agents,
                    self.agents,
                    old(self).config,
                    place as int,
                    AgentRole::Learning,
                ),
                told_on_start(
                    old(self).thought_broadcaster.published(),
                    self.thought_broadcaster.published(),
                    place == 5 && is_enabled(old(self).config, AgentRole::Learning),
                ),
            decreases 5 - place,
        {
            let role = AgentRole::from_place(place);
            let ghost before = self.agents;
            if self.enabled(role) {
                match self.start_role(role) {
                    Ok(_) => {},
                    Err(error) => {
                        return Err(error);
                    },
                }
            }
            proof {
                let started = is_enabled(old(self).config, role);
                assert forall|other: AgentRole|
                    start_progress(
                        old(self).agents,
                        before,
                        old(self).config,
                        place as int,
                        other,
                    ) implies start_progress(
                    old(self).agents,
                    self.agents,
                    old(self).config,
                    place + 1,
                    other,
                ) by {
                    if other == role {
                        if !started {
                            assert(self.agents == before);
                        }
                    } else {
                        if started {
                            assert(same_slot(before, self.agents, other));
                        } else {
                            assert(self.agents == before);
                        }
                        lemma_same_slot_keeps(
                            before,
                            self.agents,
                            old(self).agents,
                            old(self).config,
                            other,
                        );
                    }
                }
            }
            place += 1;
        }
        Ok(())
    }

    /// What the worker of `role` does when `event` wakes it: it works on a
    /// tick, and on a look at the flags it stops if the system or the agent
    /// was asked to stop. A role without an agent has nothing to do and
    /// stops.
    pub fn worker_event(&self, role: AgentRole, event: WorkerEvent) -> (action: WorkerAction)
        ensures
            action == match self.agents.state_of(role) {
                Some(_) => worker_action(
                    self.shutdown_signal || self.agents.asked_to_stop(role),
                    event,
                ),
                None => WorkerAction::Stop,
            },
    {
        match self.agents.state(role) {
            Some(_) => {
                let asked = self.shutdown_signal || self.agents.should_shutdown(role);
                match event {
                    WorkerEvent::Tick => WorkerAction::Work,
                    WorkerEvent::ShutdownPoll => if asked {
                        WorkerAction::Stop
                    } else {
                        WorkerAction::Wait
                    },
                }
            },
            None => WorkerAction::Stop,
        }
    }

    /// Asks the system to stop, and the agent of `role` as well if one is
    /// named. Nothing is interrupted: each worker sees the request at its
    /// next look at the flags.
    pub fn request_shutdown(&mut self, role: Option<AgentRole>)
        ensures
            final(self).shutdown_signal,
            final(self).config == old(self).config,
            final(self).message_bus == old(self).message_bus,
            final(self).system_context == old(self).system_context,
            final(self).thought_broadcaster == old(self).thought_broadcaster,
            final(self).metrics == old(self).metrics,
            forall|other: AgentRole|
                Some(other) != role ==> final(self).agents.state_of(other) == old(self).agents.state_of(other) && final(self).agents.asked_to_stop(other) == old(self).agents.asked_to_stop(other) && final(self).agents.has_failed(other) == old(self).agents.has_failed(other),
            role matches Some(named) ==> (final(self).agents.state_of(named) == (match old(self).agents.state_of(named) {
                Some(state) => Some(state.after(LifecycleEvent::ShutdownRequested)),
                None => None,
            }) && final(self).agents.asked_to_stop(named) == (old(self).agents.state_of(named)
                is Some)),
    {
        self.shutdown_signal = true;
        match role {
            Some(named) => {
                self.agents.apply(named, LifecycleEvent::ShutdownRequested);
            },
            None => {},
        }
    }
}

/// How the worker of an agent ended.
#[derive(Debug, Clone, Copy, PartialEq, Eq, Structural)]
pub enum WorkerExit {
    /// It left its loop and returned.
    Returned,
    /// It broke off with a failure.
    Failed,
}

/// A task that `run` waits for, once it has ended.
#[derive(Debug, Clone, Copy, PartialEq, Eq, Structural)]
pub enum EndedTask {
    /// The task that routes the queued messages.
    Pump,
    /// The task that samples the system's health.
    Sampler,
    /// The worker of the agent in this role.
    Worker(AgentRole),
}

/// Where `run` stands while it waits for its tasks: how many workers still
/// run, and whether `run` is to return.
#[derive(Debug, Clone, Copy, PartialEq, Eq, Structural)]
pub struct RunWatch {
    pub running: usize,
    pub over: bool,
}

impl RunWatch {
    /// Where `run` stands once it has started `workers` workers: with no
    /// worker to wait for it is over at once.
    pub open spec fn from_start(workers: usize) -> RunWatch {
        RunWatch { running: workers, over: workers == 0 }
    }

    /// Where `run` stands after one more task has ended. The end of the pump
    /// or of the sampler ends the run; the end of a worker ends it when that
    /// worker was the last. A run that is over stays over.
    pub open spec fn after(self, ended: EndedTask) -> RunWatch {
        match ended {
            EndedTask::Pump => RunWatch { running: self.running, over: true },
            EndedTask::Sampler => RunWatch { running: self.running, over: true },
            EndedTask::Worker(_) => {
                let left = if self.running > 0 {
                    (self.running - 1) as usize
                } else {
                    0usize
                };
                RunWatch { running: left, over: self.over || left == 0 }
            },
        }
    }

    /// Where `run` stands after the tasks in `ended` have ended one by one.
    pub open spec fn after_all(self, ended: Seq<EndedTask>) -> RunWatch
        decreases ended.len(),
    {
        if ended.len() == 0 {
            self
        } else {
            self.after_all(ended.drop_last()).after(ended.last())
        }
    }

    /// Begins to watch a run with `workers` workers.
    pub fn begin(workers: usize) -> (watch: RunWatch)
        ensures
            watch == RunWatch::from_start(workers),
    {
        RunWatch { running: workers, over: workers == 0 }
    }

    /// Takes note that one more task has ended.
    pub fn task_ended(self, ended: EndedTask) -> (watch: RunWatch)
        ensures
            watch == self.after(ended),
    {
        match ended {
            EndedTask::Pump => RunWatch { running: self.running, over: true },
            EndedTask::Sampler => RunWatch { running: self.running, over: true },
            EndedTask::Worker(_) => {
                let left: usize = if self.running > 0 {
                    self.running - 1
                } else {
                    0
                };
                RunWatch { running: left, over: self.over || left == 0 }
            },
        }
    }
}

/// How many of the tasks in `ended` are workers.
pub open spec fn workers_among(ended: Seq<EndedTask>) -> nat
    decreases ended.len(),
{
    if ended.len() == 0 {
        0
    } else {
        workers_among(ended.drop_last()) + if ended.last() is Worker {
            1nat
        } else {
            0nat
        }
    }
}

/// A run with `workers` workers is over exactly when it had no worker to
/// wait for, or the pump or the sampler is among the tasks that have ended,
/// or as many workers have ended as were started.
pub proof fn lemma_run_is_over(workers: usize, ended: Seq<EndedTask>)
    ensures
        RunWatch::from_start(workers).after_all(ended).over <==> workers == 0 || (exists|i: int|
            0 <= i < ended.len() && !(#[trigger] ended[i] is Worker)) || workers_among(ended)
            >= workers,
        RunWatch::from_start(workers).after_all(ended).running == if workers_among(ended)
            >= workers {
            0
        } else {
            workers - workers_among(ended)
        },
    decreases ended.len(),
{
    if ended.len() > 0 {
        let front = ended.drop_last();
        lemma_run_is_over(workers, front);
        if exists|i: int| 0 <= i < front.len() && !(#[trigger] front[i] is Worker) {
            let i = choose|i: int| 0 <= i < front.len() && !(#[trigger] front[i] is Worker);
            assert(ended[i] == front[i]);
        }
        if !(ended.last() is Worker) {
            assert(!(ended[ended.len() - 1] is Worker));
        }
        if exists|i: int| 0 <= i < ended.len() && !(#[trigger] ended[i] is Worker) {
            let i = choose|i: int| 0 <= i < ended.len() && !(#[trigger] ended[i] is Worker);
            if i < front.len() {
                assert(front[i] == ended[i]);
            }
        }
    }
}

/// Whether the registries agree on every role but `role`.
pub open spec fn same_but(before: AgentRegistry, after: AgentRegistry, role: AgentRole) -> bool {
    forall|other: AgentRole|
        other != role ==> after.state_of(other) == before.state_of(other) && after.asked_to_stop(
            other,
        ) == before.asked_to_stop(other) && after.has_failed(other) == before.has_failed(other)
}

impl TradingSystem {
    /// Starts the run: every created agent becomes running. Returns the
    /// roles whose workers are to be started, in the order of starting.
    pub fn run(&mut self) -> (workers: Vec<AgentRole>)
        ensures
            workers@ == start_order(old(self).agents),
            final(self).config == old(self).config,
            final(self).message_bus == old(self).message_bus,
            final(self).system_context == old(self).system_context,
            final(self).shutdown_signal == old(self).shutdown_signal,
            final(self).thought_broadcaster == old(self).thought_broadcaster,
            final(self).metrics == old(self).metrics,
            forall|role: AgentRole|
                final(self).agents.state_of(role) == (match old(self).agents.state_of(role) {
                    Some(state) => Some(state.after(LifecycleEvent::Launched)),
                    None => None,
                }) && final(self).agents.asked_to_stop(role) == old(self).agents.asked_to_stop(role)
                    && final(self).agents.has_failed(role) == old(self).agents.has_failed(role),
    {
        let mut workers: Vec<AgentRole> = Vec::new();
        let mut place: usize = 0;
        while place < 5
            invariant
                place <= 5,
                workers@ == present_roles(old(self).agents, place as nat),
                self.config == old(self).config,
                self.message_bus == old(self).message_bus,
                self.system_context == old(self).system_context,
                self.shutdown_signal == old(self).shutdown_signal,
                self.thought_broadcaster == old(self).thought_broadcaster,
                self.metrics == old(self).metrics,
                forall|role: AgentRole|
                    self.agents.state_of(role) == (if role.place() < place {
                        match old(self).agents.state_of(role) {
                            Some(state) => Some(state.after(LifecycleEvent::Launched)),
                            None => None,
                        }
                    } else {
                        old(self).agents.state_of(role)
                    }) && self.agents.asked_to_stop(role) == old(self).agents.asked_to_stop(role)
                        && self.agents.has_failed(role) == old(self).agents.has_failed(role),
            decreases 5 - place,
        {
            let role = AgentRole::from_place(place);
            if self.agents.state(role).is_some() {
                workers.push(role);
            }
            self.agents.apply(role, LifecycleEvent::Launched);
            place += 1;
        }
        workers
    }

    /// Asks everything to stop: sets the system's flag and asks each agent,
    /// the one started last first. Nothing is interrupted.
    pub fn shutdown(&mut self) -> (result: Result<(), TradingError>)
        ensures
            result is Ok,
            final(self).shutdown_signal,
            final(self).config == old(self).config,
            final(self).message_bus == old(self).message_bus,
            final(self).system_context == old(self).system_context,
            final(self).thought_broadcaster == old(self).thought_broadcaster,
            final(self).metrics == old(self).metrics,
            forall|role: AgentRole|
                final(self).agents.state_of(role) == (match old(self).agents.state_of(role) {
                    Some(state) => Some(state.after(LifecycleEvent::ShutdownRequested)),
                    None => None,
                }) && final(self).agents.asked_to_stop(role) == (old(self).agents.state_of(role)
                    is Some) && final(self).agents.has_failed(role) == old(self).agents.has_failed(
                    role,
                ),
    {
        self.shutdown_signal = true;
        let mut left: usize = 5;
        while left > 0
            invariant
                left <= 5,
                self.shutdown_signal,
                self.config == old(self).config,
                self.message_bus == old(self).message_bus,
                self.system_context == old(self).system_context,
                self.thought_broadcaster == old(self).thought_broadcaster,
                self.metrics == old(self).metrics,
                forall|role: AgentRole|
                    if role.place() >= left {
                        self.agents.state_of(role) == (match old(self).agents.state_of(role) {
                            Some(state) => Some(state.after(LifecycleEvent::ShutdownRequested)),
                            None => None,
                        }) && self.agents.asked_to_stop(role) == (old(self).agents.state_of(role)
                            is Some)
                    } else {
                        self.agents.state_of(role) == old(self).agents.state_of(role)
                            && self.agents.asked_to_stop(role) == old(self).agents.asked_to_stop(
                            role,
                        )
                    },
                forall|role: AgentRole|
                    self.agents.has_failed(role) == old(self).agents.has_failed(role),
            decreases left,
        {
            left -= 1;
            let role = AgentRole::from_place(left);
            self.agents.apply(role, LifecycleEvent::ShutdownRequested);
        }
        Ok(())
    }

    /// The roles whose workers are to be waited for, in the order of
    /// waiting: the reverse of the order of starting.
    pub fn join_order(&self) -> (workers: Vec<AgentRole>)
        ensures
            workers@ == join_order(self.agents),
    {
        let mut workers: Vec<AgentRole> = Vec::new();
        let mut left: usize = 5;
        proof {
            let all = present_roles(self.agents, 5);
            assert(all.skip(all.len() as int) =~= Seq::empty());
            assert(Seq::<AgentRole>::empty().reverse() =~= Seq::empty());
            assert(all.take(all.len() as int) =~= all);
        }
        while left > 0
            invariant
                left <= 5,
                present_roles(self.agents, left as nat).len() <= present_roles(self.agents, 5).len(),
                workers@ == present_roles(self.agents, 5).skip(
                    present_roles(self.agents, left as nat).len() as int,
                ).reverse(),
                present_roles(self.agents, left as nat) == present_roles(self.agents, 5).take(
                    present_roles(self.agents, left as nat).len() as int,
                ),
            decreases left,
        {
            let ghost all = present_roles(self.agents, 5);
            let ghost upper = present_roles(self.agents, left as nat);
            left -= 1;
            let ghost lower = present_roles(self.agents, left as nat);
            let role = AgentRole::from_place(left);
            if self.agents.state(role).is_some() {
                workers.push(role);
                proof {
                    assert(upper == lower.push(role));
                    assert(all[lower.len() as int] == upper[lower.len() as int]);
                    assert(all.skip(lower.len() as int) =~= seq![role] + all.skip(
                        upper.len() as int,
                    ));
                    assert((seq![role] + all.skip(upper.len() as int)).reverse() =~= all.skip(
                        upper.len() as int,
                    ).reverse().push(role));
                    assert(lower =~= all.take(lower.len() as int));
                }
            }
        }
        assert(present_roles(self.agents, 5).skip(0) =~= present_roles(self.agents, 5));
        workers
    }

    /// Takes note that the worker of `role` has ended: the agent is
    /// stopped, and a failure is kept on record and counted as an error of
    /// the system. Nothing else is touched: a failing worker takes no other
    /// agent with it.
    pub fn record_exit(&mut self, role: AgentRole, exit: WorkerExit)
        ensures
            final(self).config == old(self).config,
            final(self).message_bus == old(self).message_bus,
            final(self).system_context == old(self).system_context,
            final(self).shutdown_signal == old(self).shutdown_signal,
            final(self).thought_broadcaster == old(self).thought_broadcaster,
            same_but(old(self).agents, final(self).agents, role),
            final(self).agents.state_of(role) == (match old(self).agents.state_of(role) {
                Some(_) => Some(LifecycleState::Stopped),
                None => None,
            }),
            final(self).agents.asked_to_stop(role) == old(self).agents.asked_to_stop(role),
            final(self).agents.has_failed(role) == (old(self).agents.state_of(role) is Some && (old(self).agents.has_failed(role) || exit == WorkerExit::Failed)),
            final(self).metrics == if exit == WorkerExit::Failed && old(self).agents.state_of(role)
                is Some {
                MetricsCollector {
                    system_errors: bumped(old(self).metrics.system_errors),
                    ..old(self).metrics
                }
            } else {
                old(self).metrics
            },
    {
        let present = self.agents.state(role).is_some();
        self.agents.apply(role, LifecycleEvent::WorkerReturned);
        let failed = match exit {
            WorkerExit::Failed => true,
            WorkerExit::Returned => false,
        };
        if failed && present {
            match role {
                AgentRole::Coordinator => match &mut self.agents.coordinator {
                    Some(slot) => {
                        slot.failed = true;
                    },
                    None => {},
                },
                AgentRole::Intelligence => match &mut self.agents.intelligence {
                    Some(slot) => {
                        slot.failed = true;
                    },
                    None => {},
                },
                AgentRole::RiskManagement => match &mut self.agents.risk_management {
                    Some(slot) => {
                        slot.failed = true;
                    },
                    None => {},
                },
                AgentRole::Execution => match &mut self.agents.execution {
                    Some(slot) => {
                        slot.failed = true;
                    },
                    None => {},
                },
                AgentRole::Learning => match &mut self.agents.learning {
                    Some(slot) => {
                        slot.failed = true;
                    },
                    None => {},
                },
            }
            self.metrics.record_system_error();
        }
    }

    /// The thought stream.
    pub fn thought_broadcaster(&self) -> (broadcaster: &AIThoughtBroadcaster)
        ensures
            *broadcaster == self.thought_broadcaster,
    {
        &self.thought_broadcaster
    }
}

/// Workers are waited for in the reverse of the order in which they were
/// started: whoever was started later is waited for earlier.
pub proof fn lemma_join_reverses_start(registry: AgentRegistry, i: int)
    requires
        0 <= i < start_order(registry).len(),
    ensures
        join_order(registry).len() == start_order(registry).len(),
        join_order(registry)[i] == start_order(registry)[start_order(registry).len() - 1 - i],
{
}

/// What the pump found on the bus.
#[derive(Debug, Clone, Copy, PartialEq, Eq, Structural)]
pub enum PumpOutcome {
    /// The bus is empty: the pump waits for the next message or the next
    /// look at the flag.
    Idle,
    /// The pump has ended: the system was asked to stop, or an emergency
    /// shutdown came in.
    Stopped,
}

/// `count` raised by `by`, and held at its limit.
pub open spec fn raised(count: u64, by: nat) -> u64 {
    if count + by >= u64::MAX {
        u64::MAX
    } else {
        (count + by) as u64
    }
}

/// Whether `message` asks for an emergency shutdown.
pub open spec fn is_emergency(message: MessageView) -> bool {
    message.message_type == MessageType::EmergencyShutdown
}

/// Whether `message` is a risk alert.
pub open spec fn is_alert(message: MessageView) -> bool {
    message.message_type == MessageType::RiskAlert
}

/// The context after `message` was routed: a performance update that
/// carries performance figures replaces the figures of the context; every
/// other message leaves the context as it is.
pub open spec fn routed(context: SystemContext, message: MessageView) -> SystemContext {
    match message.payload {
        PayloadView::Performance(metrics) => if message.message_type
            == MessageType::PerformanceUpdate {
            SystemContext { performance_metrics: metrics, ..context }
        } else {
            context
        },
        _ => context,
    }
}

/// The context after `messages` were routed one after the other.
pub open spec fn routed_all(context: SystemContext, messages: Seq<MessageView>) -> SystemContext
    decreases messages.len(),
{
    if messages.len() == 0 {
        context
    } else {
        routed(routed_all(context, messages.drop_last()), messages.last())
    }
}

/// How many of `messages` are risk alerts.
pub open spec fn alerts_in(messages: Seq<MessageView>) -> nat
    decreases messages.len(),
{
    if messages.len() == 0 {
        0
    } else {
        alerts_in(messages.drop_last()) + if is_alert(messages.last()) {
            1nat
        } else {
            0nat
        }
    }
}

/// How many messages stand in front of the first emergency shutdown; all
/// of them if there is none.
pub open spec fn before_emergency(messages: Seq<MessageView>) -> nat
    decreases messages.len(),
{
    if messages.len() == 0 {
        0
    } else if is_emergency(messages.first()) {
        0
    } else {
        1 + before_emergency(messages.drop_first())
    }
}

/// The messages in front of the first emergency shutdown are no emergency
/// shutdowns, and what follows them, if anything, is one.
pub proof fn lemma_before_emergency(messages: Seq<MessageView>)
    ensures
        before_emergency(messages) <= messages.len(),
        forall|i: int| 0 <= i < before_emergency(messages) ==> !is_emergency(#[trigger] messages[i]),
        before_emergency(messages) < messages.len() ==> is_emergency(
            messages[before_emergency(messages) as int],
        ),
    decreases messages.len(),
{
    if messages.len() > 0 && !is_emergency(messages.first()) {
        let rest = messages.drop_first();
        lemma_before_emergency(rest);
        assert forall|i: int| 0 <= i < before_emergency(messages) implies !is_emergency(
            #[trigger] messages[i],
        ) by {
            if i > 0 {
                assert(messages[i] == rest[i - 1]);
            }
        }
        if before_emergency(messages) < messages.len() {
            assert(messages[before_emergency(messages) as int] == rest[before_emergency(rest) as int]);
        }
    }
}

impl TradingSystem {
    /// Routes one message: a performance update replaces the performance
    /// figures of the shared context, a risk alert is counted as an error of
    /// the system, and every other message is let pass.
    pub fn route_message(&mut self, message: AgentMessage) -> (result: Result<(), TradingError>)
        ensures
            result is Ok,
            final(self).system_context@ == routed(old(self).system_context@, message@),
            final(self).metrics == if is_alert(message@) {
                MetricsCollector {
                    system_errors: bumped(old(self).metrics.system_errors),
                    ..old(self).metrics
                }
            } else {
                old(self).metrics
            },
            final(self).config == old(self).config,
            final(self).agents == old(self).agents,
            final(self).message_bus == old(self).message_bus,
            final(self).shutdown_signal == old(self).shutdown_signal,
            final(self).thought_broadcaster == old(self).thought_broadcaster,
    {
        match message.message_type {
            MessageType::PerformanceUpdate => {
                match message.payload {
                    Payload::Performance(metrics) => {
                        self.system_context.set_performance_metrics(metrics);
                    },
                    _ => {},
                }
            },
            MessageType::RiskAlert => {
                self.metrics.record_system_error();
            },
            _ => {},
        }
        Ok(())
    }

    /// Pumps the bus. If the system was asked to stop, the pump ends and
    /// touches nothing. Otherwise it takes the messages off the bus in the
    /// order of their sending, counts each and routes it, until the bus is
    /// empty or an emergency shutdown comes up. The emergency shutdown sets
    /// the system's flag and ends the pump at once: what was sent after it
    /// stays on the bus and is not processed.
    pub fn process_messages(&mut self) -> (outcome: PumpOutcome)
        ensures
            final(self).config == old(self).config,
            final(self).agents == old(self).agents,
            final(self).thought_broadcaster == old(self).thought_broadcaster,
            final(self).message_bus.is_closed() == old(self).message_bus.is_closed(),
            old(self).shutdown_signal ==> outcome == PumpOutcome::Stopped && final(self).shutdown_signal
                && final(self).message_bus.pending() == old(self).message_bus.pending() && final(self).system_context@ == old(self).system_context@ && final(self).metrics == old(self).metrics,
            !old(self).shutdown_signal ==> {
                let waiting = old(self).message_bus.pending();
                let count = before_emergency(waiting);
                let taken = waiting.take(count as int);
                let emergency = count < waiting.len();
                &&& final(self).system_context@ == routed_all(old(self).system_context@, taken)
                &&& final(self).shutdown_signal == emergency
                &&& outcome == if emergency {
                    PumpOutcome::Stopped
                } else {
                    PumpOutcome::Idle
                }
                &&& final(self).message_bus.pending() == if emergency {
                    waiting.skip(count as int + 1)
                } else {
                    Seq::<MessageView>::empty()
                }
                &&& final(self).metrics == (MetricsCollector {
                    agent_messages: raised(
                        old(self).metrics.agent_messages,
                        if emergency {
                            count + 1
                        } else {
                            count
                        },
                    ),
                    system_errors: raised(old(self).metrics.system_errors, alerts_in(taken)),
                    ..old(self).metrics
                })
            },
    {
        if self.shutdown_signal {
            return PumpOutcome::Stopped;
        }
        let ghost waiting = self.message_bus.pending();
        let ghost mut done: nat = 0;
        proof {
            lemma_before_emergency(waiting);
            assert(waiting.take(0) =~= Seq::empty());
            assert(waiting.skip(0) =~= waiting);
        }
        loop
            invariant
                waiting == old(self).message_bus.pending(),
                !old(self).shutdown_signal,
                !self.shutdown_signal,
                done <= before_emergency(waiting) <= waiting.len(),
                forall|i: int|
                    0 <= i < before_emergency(waiting) ==> !is_emergency(#[trigger] waiting[i]),
                before_emergency(waiting) < waiting.len() ==> is_emergency(
                    waiting[before_emergency(waiting) as int],
                ),
                self.config == old(self).config,
                self.agents == old(self).agents,
                self.thought_broadcaster == old(self).thought_broadcaster,
                self.message_bus.is_closed() == old(self).message_bus.is_closed(),
                self.message_bus.pending() == waiting.skip(done as int),
                self.system_context@ == routed_all(
                    old(self).system_context@,
                    waiting.take(done as int),
                ),
                self.metrics == (MetricsCollector {
                    agent_messages: raised(old(self).metrics.agent_messages, done),
                    system_errors: raised(
                        old(self).metrics.system_errors,
                        alerts_in(waiting.take(done as int)),
                    ),
                    ..old(self).metrics
                }),
            decreases waiting.len() - done,
        {
            let message = match self.message_bus.try_recv() {
                Some(message) => message,
                None => {
                    assert(done == waiting.len());
                    assert(waiting.skip(done as int) =~= Seq::empty());
                    return PumpOutcome::Idle;
                },
            };
            assert(message@ == waiting[done as int]);
            assert(waiting.skip(done as int).drop_first() =~= waiting.skip(done as int + 1));
            self.metrics.record_agent_message();
            match message.message_type {
                MessageType::EmergencyShutdown => {
                    self.shutdown_signal = true;
                    assert(done == before_emergency(waiting));
                    return PumpOutcome::Stopped;
                },
                _ => {},
            }
            proof {
                assert(done < before_emergency(waiting));
                let longer = waiting.take(done as int + 1);
                assert(longer.drop_last() =~= waiting.take(done as int));
                assert(longer.last() == message@);
            }
            let _ = self.route_message(message);
            proof {
                done = done + 1;
            }
        }
    }

    /// Samples the system's health for the metrics: unless the system was
    /// asked to stop, the gauges take the readings of the shared context.
    /// Returns whether the sampler goes on.
    pub fn monitor_system_health(&mut self) -> (going: bool)
        ensures
            going == !old(self).shutdown_signal,
            final(self).config == old(self).config,
            final(self).agents == old(self).agents,
            final(self).message_bus == old(self).message_bus,
            final(self).system_context == old(self).system_context,
            final(self).shutdown_signal == old(self).shutdown_signal,
            final(self).thought_broadcaster == old(self).thought_broadcaster,
            final(self).metrics == if old(self).shutdown_signal {
                old(self).metrics
            } else {
                let context = old(self).system_context@;
                MetricsCollector {
                    portfolio_value: context.portfolio.total_value,
                    cash_balance: context.portfolio.cash_balance,
                    daily_pnl: context.portfolio.daily_pnl,
                    total_pnl: context.portfolio.total_pnl,
                    active_positions: context.active_positions,
                    portfolio_heat: context.risk_metrics.portfolio_heat,
                    max_drawdown: context.portfolio.max_drawdown,
                    var_95: context.risk_metrics.var_95,
                    ..old(self).metrics
                }
            },
    {
        if self.shutdown_signal {
            return false;
        }
        let context = self.system_context.snapshot();
        self.metrics.update_portfolio_metrics(
            context.portfolio.total_value,
            context.portfolio.cash_balance,
            context.portfolio.daily_pnl,
            context.portfolio.total_pnl,
            context.active_positions,
        );
        self.metrics.update_risk_metrics(
            context.risk_metrics.portfolio_heat,
            context.portfolio.max_drawdown,
            context.risk_metrics.var_95,
        );
        true
    }
}

/// An emergency shutdown ends the pump: of what stood on the bus, exactly
/// the messages in front of the first emergency shutdown are processed, in
/// the order of their sending, and nothing that was sent after it.
pub proof fn lemma_emergency_cuts_the_queue(
    earlier: Seq<MessageView>,
    emergency: MessageView,
    later: Seq<MessageView>,
)
    requires
        is_emergency(emergency),
        forall|i: int| 0 <= i < earlier.len() ==> !is_emergency(#[trigger] earlier[i]),
    ensures
        before_emergency(earlier + seq![emergency] + later) == earlier.len(),
        (earlier + seq![emergency] + later).take(earlier.len() as int) == earlier,
        (earlier + seq![emergency] + later).skip(earlier.len() as int + 1) == later,
    decreases earlier.len(),
{
    let all = earlier + seq![emergency] + later;
    assert(all.take(earlier.len() as int) =~= earlier);
    assert(all.skip(earlier.len() as int + 1) =~= later);
    if earlier.len() == 0 {
        assert(all.first() == emergency);
    } else {
        assert(all.first() == earlier[0]);
        let shorter = earlier.drop_first();
        assert forall|i: int| 0 <= i < shorter.len() implies !is_emergency(
            #[trigger] shorter[i],
        ) by {
            assert(shorter[i] == earlier[i + 1]);
        }
        lemma_emergency_cuts_the_queue(shorter, emergency, later);
        assert(all.drop_first() =~= shorter + seq![emergency] + later);
    }
}

impl TradingSystem {
    /// One unit of work of the coordinator: a round of strategic planning on
    /// a snapshot of the shared context. Without a coordinator nothing
    /// happens. A failure stays with this unit of work: whatever the
    /// outcome, no agent, no flag and nothing of the shared context changes.
    pub fn tick_coordinator(&mut self) -> (result: Result<(), TradingError>)
        ensures
            final(self).config == old(self).config,
            final(self).agents == old(self).agents,
            final(self).system_context == old(self).system_context,
            final(self).shutdown_signal == old(self).shutdown_signal,
            final(self).thought_broadcaster == old(self).thought_broadcaster,
            final(self).metrics == old(self).metrics,
            final(self).message_bus.is_closed() == old(self).message_bus.is_closed(),
            match old(self).agents.coordinator {
                Some(slot) => {
                    let wanted = crate::agents::coordinator::as_commands(
                        crate::agents::coordinator::strategic_recommendations(
                            old(self).system_context@,
                        ),
                    );
                    &&& result is Err <==> old(self).message_bus.is_closed() && wanted.len() > 0
                    &&& result is Err ==> final(self).message_bus.pending() == old(self).message_bus.pending()
                    &&& result is Ok ==> exists|sent: Seq<MessageView>|
                        final(self).message_bus.pending() == old(self).message_bus.pending() + sent
                            && crate::agents::traits::are_notices_from(
                            sent,
                            slot.agent.base.id,
                            wanted,
                        )
                },
                None => result is Ok && final(self).message_bus.pending() == old(self).message_bus.pending(),
            },
    {
        let context = self.system_context.snapshot();
        match &self.agents.coordinator {
            Some(slot) => slot.agent.strategic_planning(&context, &mut self.message_bus),
            None => Ok(()),
        }
    }

    /// One unit of work of the risk manager: a look at a snapshot of the
    /// shared context. Without a risk manager nothing happens. Amounts that
    /// do not fit the decimal format and risk figures that overflow are a
    /// risk management error. A failure stays with this unit of work.
    pub fn tick_risk(&mut self) -> (result: Result<(), TradingError>)
        ensures
            final(self).config == old(self).config,
            final(self).agents == old(self).agents,
            final(self).system_context == old(self).system_context,
            final(self).shutdown_signal == old(self).shutdown_signal,
            final(self).thought_broadcaster == old(self).thought_broadcaster,
            final(self).metrics == old(self).metrics,
            final(self).message_bus.is_closed() == old(self).message_bus.is_closed(),
            match old(self).agents.risk_management {
                Some(slot) => {
                    let context = old(self).system_context@;
                    let pnl = context.portfolio.daily_pnl;
                    let limit = slot.agent.risk_config.max_daily_loss;
                    if !(pnl.well_formed() && limit.well_formed()
                        && context.portfolio.total_value.well_formed()) {
                        &&& result matches Err(error)
                        &&& error@ == (ErrorView::RiskManagement {
                            message: "Amount out of range"@,
                        })
                        &&& final(self).message_bus.pending() == old(self).message_bus.pending()
                    } else {
                        match crate::agents::risk::portfolio_risk(context, slot.agent.risk_config) {
                            Some(figures) => {
                                let wanted = crate::agents::risk::risk_notices(
                                    figures.portfolio_heat,
                                    slot.agent.risk_config.max_portfolio_heat,
                                    pnl,
                                    limit,
                                );
                                &&& result is Err <==> old(self).message_bus.is_closed()
                                    && wanted.len() > 0
                                &&& result is Err ==> final(self).message_bus.pending() == old(self).message_bus.pending()
                                &&& result is Ok ==> exists|sent: Seq<MessageView>|
                                    final(self).message_bus.pending() == old(self).message_bus.pending() + sent
                                        && crate::agents::traits::are_notices_from(
                                        sent,
                                        slot.agent.base.id,
                                        wanted,
                                    )
                            },
                            None => result matches Err(error) && error@
                                == crate::agents::risk::figures_out_of_range() && final(self).message_bus.pending() == old(self).message_bus.pending(),
                        }
                    }
                },
                None => result is Ok && final(self).message_bus.pending() == old(self).message_bus.pending(),
            },
    {
        let context = self.system_context.snapshot();
        match &self.agents.risk_management {
            Some(slot) => {
                if !context.portfolio.daily_pnl.is_valid()
                    || !slot.agent.risk_config.max_daily_loss.is_valid()
                    || !context.portfolio.total_value.is_valid() {
                    return Err(TradingError::risk_management("Amount out of range"));
                }
                slot.agent.monitor_risk(&context, &mut self.message_bus)
            },
            None => Ok(()),
        }
    }

    /// One unit of work of the learning engine: a round of evolution on a
    /// snapshot of the shared context, told on the thought stream. Without a
    /// learning engine nothing happens. Only the learning engine's model
    /// version and the thought stream change.
    pub fn tick_learning(&mut self) -> (result: Result<(), TradingError>)
        requires
            old(self).well_formed(),
        ensures
            final(self).well_formed(),
            result is Ok,
            final(self).config == old(self).config,
            final(self).message_bus == old(self).message_bus,
            final(self).system_context == old(self).system_context,
            final(self).shutdown_signal == old(self).shutdown_signal,
            final(self).metrics == old(self).metrics,
            final(self).thought_broadcaster.capacity() == old(self).thought_broadcaster.capacity(),
            final(self).thought_broadcaster.same_receivers(old(self).thought_broadcaster),
            forall|role: AgentRole|
                final(self).agents.state_of(role) == old(self).agents.state_of(role) && final(self).agents.asked_to_stop(role) == old(self).agents.asked_to_stop(role) && final(self).agents.has_failed(role) == old(self).agents.has_failed(role),
            match old(self).agents.learning {
                Some(_) => exists|records: Seq<ThoughtView>|
                    final(self).thought_broadcaster.published() == old(self).thought_broadcaster.published() + records
                        && crate::agents::learning::is_evolution_round(
                        records,
                        crate::agents::learning::performance_score(
                            old(self).system_context@.performance_metrics,
                        ) as u32,
                    ),

                None => final(self).thought_broadcaster.published() == old(self).thought_broadcaster.published() && final(self).agents == old(self).agents,
            },
    {
        let context = self.system_context.snapshot();
        match &mut self.agents.learning {
            Some(slot) => slot.agent.evolve_models(&context, &mut self.thought_broadcaster),
            None => Ok(()),
        }
    }
}

/// What became of the workers at shutdown, each list in the order of
/// waiting.
#[derive(Debug)]
pub struct ShutdownReport {
    /// The workers that returned.
    pub stopped: Vec<AgentRole>,
    /// The workers that broke off with a failure.
    pub failed: Vec<AgentRole>,
    /// The workers that have not stopped.
    pub unfinished: Vec<AgentRole>,
}

/// What became of the worker of a role.
#[derive(Debug, Clone, Copy, PartialEq, Eq, Structural)]
pub enum WorkerFate {
    Stopped,
    Failed,
    Unfinished,
}

/// What became of the worker of `role`: it has failed if that is on record,
/// it has stopped if its agent is stopped, and it is unfinished otherwise.
pub open spec fn fate_of(registry: AgentRegistry, role: AgentRole) -> WorkerFate {
    if registry.has_failed(role) {
        WorkerFate::Failed
    } else if registry.state_of(role) == Some(LifecycleState::Stopped) {
        WorkerFate::Stopped
    } else {
        WorkerFate::Unfinished
    }
}

/// The roles among `roles` whose workers met `fate`, in the same order.
pub open spec fn with_fate(registry: AgentRegistry, roles: Seq<AgentRole>, fate: WorkerFate) -> Seq<
    AgentRole,
>
    decreases roles.len(),
{
    if roles.len() == 0 {
        Seq::empty()
    } else {
        let earlier = with_fate(registry, roles.drop_last(), fate);
        if fate_of(registry, roles.last()) == fate {
            earlier.push(roles.last())
        } else {
            earlier
        }
    }
}

impl TradingSystem {
    /// What became of the worker of `role`.
    pub fn fate(&self, role: AgentRole) -> (fate: WorkerFate)
        ensures
            fate == fate_of(self.agents, role),
    {
        let failed = match role {
            AgentRole::Coordinator => match &self.agents.coordinator {
                Some(slot) => slot.failed,
                None => false,
            },
            AgentRole::Intelligence => match &self.agents.intelligence {
                Some(slot) => slot.failed,
                None => false,
            },
            AgentRole::RiskManagement => match &self.agents.risk_management {
                Some(slot) => slot.failed,
                None => false,
            },
            AgentRole::Execution => match &self.agents.execution {
                Some(slot) => slot.failed,
                None => false,
            },
            AgentRole::Learning => match &self.agents.learning {
                Some(slot) => slot.failed,
                None => false,
            },
        };
        if failed {
            WorkerFate::Failed
        } else {
            match self.agents.state(role) {
                Some(LifecycleState::Stopped) => WorkerFate::Stopped,
                _ => WorkerFate::Unfinished,
            }
        }
    }

    /// Reports what became of the workers: every role that has an agent
    /// stands in exactly one of the three lists, each list in the order of
    /// waiting.
    pub fn shutdown_report(&self) -> (report: ShutdownReport)
        ensures
            report.stopped@ == with_fate(self.agents, join_order(self.agents), WorkerFate::Stopped),
            report.failed@ == with_fate(self.agents, join_order(self.agents), WorkerFate::Failed),
            report.unfinished@ == with_fate(
                self.agents,
                join_order(self.agents),
                WorkerFate::Unfinished,
            ),
    {
        let order = self.join_order();
        let mut stopped: Vec<AgentRole> = Vec::new();
        let mut failed: Vec<AgentRole> = Vec::new();
        let mut unfinished: Vec<AgentRole> = Vec::new();
        let mut i: usize = 0;
        assert(order@.take(0) =~= Seq::empty());
        while i < order.len()
            invariant
                i <= order.len(),
                order@ == join_order(self.agents),
                stopped@ == with_fate(self.agents, order@.take(i as int), WorkerFate::Stopped),
                failed@ == with_fate(self.agents, order@.take(i as int), WorkerFate::Failed),
                unfinished@ == with_fate(
                    self.agents,
                    order@.take(i as int),
                    WorkerFate::Unfinished,
                ),
            decreases order.len() - i,
        {
            let role = order[i];
            proof {
                let longer = order@.take(i + 1);
                assert(longer.drop_last() =~= order@.take(i as int));
                assert(longer.last() == role);
            }
            match self.fate(role) {
                WorkerFate::Stopped => {
                    stopped.push(role);
                },
                WorkerFate::Failed => {
                    failed.push(role);
                },
                WorkerFate::Unfinished => {
                    unfinished.push(role);
                },
            }
            i += 1;
        }
        assert(order@.take(i as int) =~= order@);
        ShutdownReport { stopped, failed, unfinished }
    }
}

} // verus!
