//! What can go wrong in the trading system.

use vstd::prelude::*;
use vstd::string::StringExecFns;

verus! {

/// An error of the trading system. The first five kinds carry the text of a
/// failure that arose outside the system.
#[derive(Debug)]
pub enum TradingError {
    Config(String),
    Api(String),
    Serialization(String),
    Io(String),
    WebSocket(String),
    RiskManagement { message: String },
    Execution { message: String },
    MarketData { message: String },
    AgentCommunication { message: String },
    Strategy { message: String },
    Shutdown,
    CircuitBreaker { reason: String },
    EmergencyStop { reason: String },
}

/// Result of an operation of the trading system.
pub type TradingResult<T> = Result<T, TradingError>;

/// A `TradingError` as mathematical values.
pub enum ErrorView {
    Config(Seq<char>),
    Api(Seq<char>),
    Serialization(Seq<char>),
    Io(Seq<char>),
    WebSocket(Seq<char>),
    RiskManagement { message: Seq<char> },
    Execution { message: Seq<char> },
    MarketData { message: Seq<char> },
    AgentCommunication { message: Seq<char> },
    Strategy { message: Seq<char> },
    Shutdown,
    CircuitBreaker { reason: Seq<char> },
    EmergencyStop { reason: Seq<char> },
}

impl View for TradingError {
    type V = ErrorView;

    open spec fn view(&self) -> ErrorView {
        match self {
            TradingError::Config(text) => ErrorView::Config(text@),
            TradingError::Api(text) => ErrorView::Api(text@),
            TradingError::Serialization(text) => ErrorView::Serialization(text@),
            TradingError::Io(text) => ErrorView::Io(text@),
            TradingError::WebSocket(text) => ErrorView::WebSocket(text@),
            TradingError::RiskManagement { message } => ErrorView::RiskManagement {
                message: message@,
            },
            TradingError::Execution { message } => ErrorView::Execution { message: message@ },
            TradingError::MarketData { message } => ErrorView::MarketData { message: message@ },
            TradingError::AgentCommunication { message } => ErrorView::AgentCommunication {
                message: message@,
            },
            TradingError::Strategy { message } => ErrorView::Strategy { message: message@ },
            TradingError::Shutdown => ErrorView::Shutdown,
            TradingError::CircuitBreaker { reason } => ErrorView::CircuitBreaker {
                reason: reason@,
            },
            TradingError::EmergencyStop { reason } => ErrorView::EmergencyStop { reason: reason@ },
        }
    }
}

impl ErrorView {
    /// Whether the system must stop at once on this error: a shutdown, an
    /// emergency stop or a tripped circuit breaker.
    pub open spec fn is_fatal(self) -> bool {
        self is Shutdown || self is EmergencyStop || self is CircuitBreaker
    }

    /// The text in front of the detail in the error's description.
    pub open spec fn heading(self) -> Seq<char> {
        match self {
            ErrorView::Config(_) => "Configuration error: "@,
            ErrorView::Api(_) => "API error: "@,
            ErrorView::Serialization(_) => "Serialization error: "@,
            ErrorView::Io(_) => "IO error: "@,
            ErrorView::WebSocket(_) => "WebSocket error: "@,
            ErrorView::RiskManagement { .. } => "Risk management error: "@,
            ErrorView::Execution { .. } => "Execution error: "@,
            ErrorView::MarketData { .. } => "Market data error: "@,
            ErrorView::AgentCommunication { .. } => "Agent communication error: "@,
            ErrorView::Strategy { .. } => "Strategy error: "@,
            ErrorView::Shutdown => "System shutdown requested"@,
            ErrorView::CircuitBreaker { .. } => "Circuit breaker triggered: "@,
            ErrorView::EmergencyStop { .. } => "Emergency stop: "@,
        }
    }

    /// The detail the error carries; nothing for a shutdown.
    pub open spec fn detail(self) -> Seq<char> {
        match self {
            ErrorView::Config(text) => text,
            ErrorView::Api(text) => text,
            ErrorView::Serialization(text) => text,
            ErrorView::Io(text) => text,
            ErrorView::WebSocket(text) => text,
            ErrorView::RiskManagement { message } => message,
            ErrorView::Execution { message } => message,
            ErrorView::MarketData { message } => message,
            ErrorView::AgentCommunication { message } => message,
            ErrorView::Strategy { message } => message,
            ErrorView::Shutdown => Seq::empty(),
            ErrorView::CircuitBreaker { reason } => reason,
            ErrorView::EmergencyStop { reason } => reason,
        }
    }

    /// The error's description: heading and detail.
    pub open spec fn description(self) -> Seq<char> {
        self.heading() + self.detail()
    }
}

impl TradingError {
    /// A risk management error.
    pub fn risk_management(message: &str) -> (error: TradingError)
        ensures
            error@ == (ErrorView::RiskManagement { message: message@ }),
    {
        TradingError::RiskManagement { message: String::from_str(message) }
    }

    /// An execution error.
    pub fn execution(message: &str) -> (error: TradingError)
        ensures
            error@ == (ErrorView::Execution { message: message@ }),
    {
        TradingError::Execution { message: String::from_str(message) }
    }

    /// A market data error.
    pub fn market_data(message: &str) -> (error: TradingError)
        ensures
            error@ == (ErrorView::MarketData { message: message@ }),
    {
        TradingError::MarketData { message: String::from_str(message) }
    }

    /// An error in the communication between agents.
    pub fn agent_communication(message: &str) -> (error: TradingError)
        ensures
            error@ == (ErrorView::AgentCommunication { message: message@ }),
    {
        TradingError::AgentCommunication { message: String::from_str(message) }
    }

    /// A strategy error.
    pub fn strategy(message: &str) -> (error: TradingError)
        ensures
            error@ == (ErrorView::Strategy { message: message@ }),
    {
        TradingError::Strategy { message: String::from_str(message) }
    }

    /// A tripped circuit breaker.
    pub fn circuit_breaker(reason: &str) -> (error: TradingError)
        ensures
            error@ == (ErrorView::CircuitBreaker { reason: reason@ }),
    {
        TradingError::CircuitBreaker { reason: String::from_str(reason) }
    }

    /// An emergency stop.
    pub fn emergency_stop(reason: &str) -> (error: TradingError)
        ensures
            error@ == (ErrorView::EmergencyStop { reason: reason@ }),
    {
        TradingError::EmergencyStop { reason: String::from_str(reason) }
    }

    /// Whether the system can go on after this error.
    pub fn is_recoverable(&self) -> (recoverable: bool)
        ensures
            recoverable == !self@.is_fatal(),
    {
        match self {
            TradingError::Shutdown | TradingError::EmergencyStop { .. } => false,
            TradingError::CircuitBreaker { .. } => false,
            _ => true,
        }
    }

    /// Whether the system must shut down at once on this error.
    pub fn requires_shutdown(&self) -> (fatal: bool)
        ensures
            fatal == self@.is_fatal(),
    {
        match self {
            TradingError::Shutdown | TradingError::EmergencyStop { .. } => true,
            TradingError::CircuitBreaker { .. } => true,
            _ => false,
        }
    }

    /// The text in front of the detail in the error's description.
    fn heading(&self) -> (text: &'static str)
        ensures
            text@ == self@.heading(),
    {
        match self {
            TradingError::Config(_) => "Configuration error: ",
            TradingError::Api(_) => "API error: ",
            TradingError::Serialization(_) => "Serialization error: ",
            TradingError::Io(_) => "IO error: ",
            TradingError::WebSocket(_) => "WebSocket error: ",
            TradingError::RiskManagement { .. } => "Risk management error: ",
            TradingError::Execution { .. } => "Execution error: ",
            TradingError::MarketData { .. } => "Market data error: ",
            TradingError::AgentCommunication { .. } => "Agent communication error: ",
            TradingError::Strategy { .. } => "Strategy error: ",
            TradingError::Shutdown => "System shutdown requested",
            TradingError::CircuitBreaker { .. } => "Circuit breaker triggered: ",
            TradingError::EmergencyStop { .. } => "Emergency stop: ",
        }
    }

    /// Describes the error in one line.
    pub fn describe(&self) -> (text: String)
        ensures
            text@ == self@.description(),
    {
        let mut text = String::from_str(self.heading());
        match self {
            TradingError::Config(detail) => text.append(detail.as_str()),
            TradingError::Api(detail) => text.append(detail.as_str()),
            TradingError::Serialization(detail) => text.append(detail.as_str()),
            TradingError::Io(detail) => text.append(detail.as_str()),
            TradingError::WebSocket(detail) => text.append(detail.as_str()),
            TradingError::RiskManagement { message } => text.append(message.as_str()),
            TradingError::Execution { message } => text.append(message.as_str()),
            TradingError::MarketData { message } => text.append(message.as_str()),
            TradingError::AgentCommunication { message } => text.append(message.as_str()),
            TradingError::Strategy { message } => text.append(message.as_str()),
            TradingError::Shutdown => {
                assert(text@ + Seq::<char>::empty() =~= text@);
            },
            TradingError::CircuitBreaker { reason } => text.append(reason.as_str()),
            TradingError::EmergencyStop { reason } => text.append(reason.as_str()),
        }
        text
    }
}

} // verus!
