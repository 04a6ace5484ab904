//! Ready-made decision records for the common occasions.

use vstd::prelude::*;
use vstd::string::StringExecFns;

use crate::ai_thoughts::initial_thought;
use crate::ai_thoughts::AIAgent;
use crate::ai_thoughts::AIThought;
use crate::ai_thoughts::ThoughtType;
use crate::ai_thoughts::ThoughtView;
use crate::clock::Timestamp;
use crate::ids::is_record_id;
use crate::text::decimal;
use crate::text::decimal_string;
use crate::text::join;
use crate::text::joined;
use crate::text::pair;
use crate::text::single;
use crate::text::percent_one_place;
use crate::text::percent_one_place_string;
use crate::text::percent_two_places;
use crate::text::percent_two_places_string;
use crate::text::signed_fixed_point;
use crate::text::signed_two_places_string;
use crate::text::slices;

verus! {

/// Makes decision records for the common occasions.
pub struct ThoughtTemplates;

/// What a record of a recognised pattern says, apart from its identifier
/// and its time.
pub open spec fn pattern_record(
    id: Seq<char>,
    timestamp: Timestamp,
    symbol: Seq<char>,
    pattern_name: Seq<char>,
    confidence: u32,
    historical_success: u32,
) -> ThoughtView {
    ThoughtView {
        symbols: seq![symbol],
        reasoning: seq![
            joined(
                seq![
                    "Pattern "@,
                    pattern_name,
                    " matches "@,
                    decimal((historical_success / 10) as nat),
                    " historical occurrences"@,
                ],
            ),
            "Current market conditions align with pattern requirements"@,
            "Risk-reward ratio favorable for this setup"@,
        ],
        tags: seq!["pattern"@, "technical_analysis"@],
        educational: true,
        ..initial_thought(
            id,
            timestamp,
            AIAgent::MarketIntelligence,
            ThoughtType::PatternFound,
            joined(
                seq![
                    "Detected "@,
                    pattern_name,
                    " pattern on "@,
                    symbol,
                    " with "@,
                    percent_one_place(confidence as nat),
                    "% confidence. Historical success rate: "@,
                    percent_one_place(historical_success as nat),
                    "%"@,
                ],
            ),
            confidence,
        )
    }
}

/// The confidence of a risk assessment: high while the risk is below half
/// its limit.
pub open spec fn assessment_confidence(current_risk: u32, max_risk: u32) -> u32 {
    if 2 * current_risk < max_risk {
        9_000
    } else {
        6_000
    }
}

/// The impact of a risk assessment: high once the risk is above four fifths
/// of its limit.
pub open spec fn assessment_impact(current_risk: u32, max_risk: u32) -> Seq<char> {
    if 5 * current_risk > 4 * max_risk {
        "High"@
    } else {
        "Medium"@
    }
}

/// What a risk assessment says, apart from its identifier and its time.
pub open spec fn risk_record(
    id: Seq<char>,
    timestamp: Timestamp,
    current_risk: u32,
    max_risk: u32,
    action: Seq<char>,
) -> ThoughtView {
    ThoughtView {
        reasoning: seq![
            joined(
                seq!["Current portfolio heat: "@, percent_two_places(current_risk as nat), "%"@],
            ),
            joined(seq!["Maximum allowed risk: "@, percent_two_places(max_risk as nat), "%"@]),
            joined(
                seq![
                    "Risk buffer remaining: "@,
                    signed_fixed_point(max_risk - current_risk, 2),
                    "%"@,
                ],
            ),
        ],
        tags: seq!["risk"@, "portfolio"@],
        impact_level: assessment_impact(current_risk, max_risk),
        ..initial_thought(
            id,
            timestamp,
            AIAgent::RiskManager,
            ThoughtType::RiskCheck,
            joined(
                seq![
                    "Portfolio risk at "@,
                    percent_one_place(current_risk as nat),
                    "% (limit: "@,
                    percent_one_place(max_risk as nat),
                    "%). Action: "@,
                    action,
                ],
            ),
            assessment_confidence(current_risk, max_risk),
        )
    }
}

/// What a record of something learnt says, apart from its identifier and
/// its time.
pub open spec fn learning_record(
    id: Seq<char>,
    timestamp: Timestamp,
    strategy_name: Seq<char>,
    trade_result: i64,
    new_accuracy: u32,
    adjustment: Seq<char>,
) -> ThoughtView {
    ThoughtView {
        reasoning: seq![
            joined(
                seq!["Trade outcome: "@, signed_fixed_point(trade_result as int, 2), "% return"@],
            ),
            joined(
                seq![
                    "Strategy accuracy improved to "@,
                    percent_one_place(new_accuracy as nat),
                    "%"@,
                ],
            ),
            joined(seq!["Applied learning: "@, adjustment]),
            "Updated neural network weights based on outcome"@,
        ],
        tags: seq!["learning"@, "strategy"@],
        educational: true,
        ..initial_thought(
            id,
            timestamp,
            AIAgent::LearningEngine,
            ThoughtType::Learning,
            joined(
                seq![
                    "Updated "@,
                    strategy_name,
                    " strategy. Trade result: "@,
                    signed_fixed_point(trade_result as int, 2),
                    "%. New accuracy: "@,
                    percent_one_place(new_accuracy as nat),
                    "%. Adjustment: "@,
                    adjustment,
                ],
            ),
            8_500,
        )
    }
}

/// What a record of a trading decision says, apart from its identifier and
/// its time.
pub open spec fn decision_record(
    id: Seq<char>,
    timestamp: Timestamp,
    action: Seq<char>,
    symbol: Seq<char>,
    reasoning: Seq<char>,
    confidence: u32,
) -> ThoughtView {
    ThoughtView {
        symbols: seq![symbol],
        reasoning: seq![
            joined(seq!["Market analysis supports "@, action, " action"@]),
            reasoning,
            "Risk-reward ratio favorable"@,
            "Execution timing optimal"@,
        ],
        tags: seq!["decision"@, "trading"@],
        planned_actions: seq![joined(seq!["Execute "@, action, " order for "@, symbol])],
        ..initial_thought(
            id,
            timestamp,
            AIAgent::MasterCoordinator,
            ThoughtType::Decision,
            joined(seq!["Decision: "@, action, " "@, symbol, " - "@, reasoning]),
            confidence,
        )
    }
}

impl ThoughtTemplates {
    /// The record of a pattern recognised on `symbol`. Confidence and
    /// historical success are in basis points.
    pub fn pattern_recognition(
        symbol: &str,
        pattern_name: &str,
        confidence: u32,
        historical_success: u32,
    ) -> (thought: AIThought)
        ensures
            thought@ == pattern_record(
                thought@.id,
                thought@.timestamp,
                symbol@,
                pattern_name@,
                confidence,
                historical_success,
            ),
            is_record_id(thought@.id),
            thought.well_formed(),
    {
        let sure = percent_one_place_string(confidence);
        let success = percent_one_place_string(historical_success);
        let occurrences = decimal_string((historical_success / 10) as u64);
        let parts = [
            "Detected ",
            pattern_name,
            " pattern on ",
            symbol,
            " with ",
            sure.as_str(),
            "% confidence. Historical success rate: ",
            success.as_str(),
            "%",
        ];
        let message = join(&parts);
        assert(slices(parts@) =~= seq![
            "Detected "@,
            pattern_name@,
            " pattern on "@,
            symbol@,
            " with "@,
            percent_one_place(confidence as nat),
            "% confidence. Historical success rate: "@,
            percent_one_place(historical_success as nat),
            "%"@,
        ]);
        let matched = ["Pattern ", pattern_name, " matches ", occurrences.as_str(), " historical occurrences"];
        let first = join(&matched);
        assert(slices(matched@) =~= seq![
            "Pattern "@,
            pattern_name@,
            " matches "@,
            decimal((historical_success / 10) as nat),
            " historical occurrences"@,
        ]);
        let mut reasoning: Vec<String> = Vec::new();
        reasoning.push(first);
        reasoning.push(String::from_str("Current market conditions align with pattern requirements"));
        reasoning.push(String::from_str("Risk-reward ratio favorable for this setup"));
        assert(reasoning.deep_view() =~= seq![
            first@,
            "Current market conditions align with pattern requirements"@,
            "Risk-reward ratio favorable for this setup"@,
        ]);
        AIThought::new(
            AIAgent::MarketIntelligence,
            ThoughtType::PatternFound,
            message,
            confidence,
        ).with_symbols(single(String::from_str(symbol))).with_reasoning(reasoning).with_tags(
            pair("pattern", "technical_analysis"),
        ).educational()
    }

    /// The record of a risk assessment. Both risks are in basis points.
    pub fn risk_assessment(current_risk: u32, max_risk: u32, action: &str) -> (thought: AIThought)
        ensures
            thought@ == risk_record(
                thought@.id,
                thought@.timestamp,
                current_risk,
                max_risk,
                action@,
            ),
            is_record_id(thought@.id),
            thought.well_formed(),
    {
        let confidence: u32 = if 2 * (current_risk as u64) < max_risk as u64 {
            9_000
        } else {
            6_000
        };
        let now = percent_one_place_string(current_risk);
        let limit = percent_one_place_string(max_risk);
        let parts = [
            "Portfolio risk at ",
            now.as_str(),
            "% (limit: ",
            limit.as_str(),
            "%). Action: ",
            action,
        ];
        let message = join(&parts);
        assert(slices(parts@) =~= seq![
            "Portfolio risk at "@,
            percent_one_place(current_risk as nat),
            "% (limit: "@,
            percent_one_place(max_risk as nat),
            "%). Action: "@,
            action@,
        ]);
        let heat = percent_two_places_string(current_risk);
        let allowed = percent_two_places_string(max_risk);
        let buffer = signed_two_places_string(max_risk as i64 - current_risk as i64);
        let heat_parts = ["Current portfolio heat: ", heat.as_str(), "%"];
        let first = join(&heat_parts);
        assert(slices(heat_parts@) =~= seq![
            "Current portfolio heat: "@,
            percent_two_places(current_risk as nat),
            "%"@,
        ]);
        let allowed_parts = ["Maximum allowed risk: ", allowed.as_str(), "%"];
        let second = join(&allowed_parts);
        assert(slices(allowed_parts@) =~= seq![
            "Maximum allowed risk: "@,
            percent_two_places(max_risk as nat),
            "%"@,
        ]);
        let buffer_parts = ["Risk buffer remaining: ", buffer.as_str(), "%"];
        let third = join(&buffer_parts);
        assert(slices(buffer_parts@) =~= seq![
            "Risk buffer remaining: "@,
            signed_fixed_point(max_risk - current_risk, 2),
            "%"@,
        ]);
        let mut reasoning: Vec<String> = Vec::new();
        reasoning.push(first);
        reasoning.push(second);
        reasoning.push(third);
        assert(reasoning.deep_view() =~= seq![first@, second@, third@]);
        let impact = if 5 * (current_risk as u64) > 4 * (max_risk as u64) {
            String::from_str("High")
        } else {
            String::from_str("Medium")
        };
        AIThought::new(AIAgent::RiskManager, ThoughtType::RiskCheck, message, confidence)
            .with_reasoning(reasoning).with_tags(pair("risk", "portfolio")).with_impact(impact)
    }

    /// The record of what a trade taught. The trade's result is in
    /// hundredths of a percent, the new accuracy in basis points.
    pub fn learning_update(
        strategy_name: &str,
        trade_result: i64,
        new_accuracy: u32,
        adjustment: &str,
    ) -> (thought: AIThought)
        ensures
            thought@ == learning_record(
                thought@.id,
                thought@.timestamp,
                strategy_name@,
                trade_result,
                new_accuracy,
                adjustment@,
            ),
            is_record_id(thought@.id),
            thought.well_formed(),
    {
        let outcome = signed_two_places_string(trade_result);
        let accuracy = percent_one_place_string(new_accuracy);
        let parts = [
            "Updated ",
            strategy_name,
            " strategy. Trade result: ",
            outcome.as_str(),
            "%. New accuracy: ",
            accuracy.as_str(),
            "%. Adjustment: ",
            adjustment,
        ];
        let message = join(&parts);
        assert(slices(parts@) =~= seq![
            "Updated "@,
            strategy_name@,
            " strategy. Trade result: "@,
            signed_fixed_point(trade_result as int, 2),
            "%. New accuracy: "@,
            percent_one_place(new_accuracy as nat),
            "%. Adjustment: "@,
            adjustment@,
        ]);
        let outcome_parts = ["Trade outcome: ", outcome.as_str(), "% return"];
        let first = join(&outcome_parts);
        assert(slices(outcome_parts@) =~= seq![
            "Trade outcome: "@,
            signed_fixed_point(trade_result as int, 2),
            "% return"@,
        ]);
        let accuracy_parts = ["Strategy accuracy improved to ", accuracy.as_str(), "%"];
        let second = join(&accuracy_parts);
        assert(slices(accuracy_parts@) =~= seq![
            "Strategy accuracy improved to "@,
            percent_one_place(new_accuracy as nat),
            "%"@,
        ]);
        let applied_parts = ["Applied learning: ", adjustment];
        let third = join(&applied_parts);
        assert(slices(applied_parts@) =~= seq!["Applied learning: "@, adjustment@]);
        let mut reasoning: Vec<String> = Vec::new();
        reasoning.push(first);
        reasoning.push(second);
        reasoning.push(third);
        reasoning.push(String::from_str("Updated neural network weights based on outcome"));
        assert(reasoning.deep_view() =~= seq![
            first@,
            second@,
            third@,
            "Updated neural network weights based on outcome"@,
        ]);
        AIThought::new(AIAgent::LearningEngine, ThoughtType::Learning, message, 8_500)
            .with_reasoning(reasoning).with_tags(pair("learning", "strategy")).educational()
    }

    /// The record of a trading decision. The confidence is in basis points.
    pub fn trading_decision(action: &str, symbol: &str, reasoning: &str, confidence: u32) -> (thought:
        AIThought)
        ensures
            thought@ == decision_record(
                thought@.id,
                thought@.timestamp,
                action@,
                symbol@,
                reasoning@,
                confidence,
            ),
            is_record_id(thought@.id),
            thought.well_formed(),
    {
        let parts = ["Decision: ", action, " ", symbol, " - ", reasoning];
        let message = join(&parts);
        assert(slices(parts@) =~= seq!["Decision: "@, action@, " "@, symbol@, " - "@, reasoning@]);
        let support_parts = ["Market analysis supports ", action, " action"];
        let first = join(&support_parts);
        assert(slices(support_parts@) =~= seq!["Market analysis supports "@, action@, " action"@]);
        let mut steps: Vec<String> = Vec::new();
        steps.push(first);
        steps.push(String::from_str(reasoning));
        steps.push(String::from_str("Risk-reward ratio favorable"));
        steps.push(String::from_str("Execution timing optimal"));
        assert(steps.deep_view() =~= seq![
            first@,
            reasoning@,
            "Risk-reward ratio favorable"@,
            "Execution timing optimal"@,
        ]);
        let order_parts = ["Execute ", action, " order for ", symbol];
        let order = join(&order_parts);
        assert(slices(order_parts@) =~= seq!["Execute "@, action@, " order for "@, symbol@]);
        AIThought::new(AIAgent::MasterCoordinator, ThoughtType::Decision, message, confidence)
            .with_symbols(single(String::from_str(symbol))).with_reasoning(steps).with_tags(
            pair("decision", "trading"),
        ).with_actions(single(order))
    }
}

} // verus!
