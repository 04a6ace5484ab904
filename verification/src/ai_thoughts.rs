//! Decision records: what an agent concluded, how sure it was, and why.

use std::collections::VecDeque;

use vstd::arithmetic::power2::lemma2_to64;
use vstd::arithmetic::power2::pow2;
use vstd::prelude::*;
use vstd::string::StringExecFns;

use crate::clock::Timestamp;
use crate::clock::current_time;
use crate::ids::fresh_record_id;
use crate::ids::is_record_id;
use crate::text::copy_strings;

verus! {

/// Category of a decision record.
#[derive(Debug, Clone, Copy, PartialEq, Eq, Structural)]
pub enum ThoughtType {
    /// Market pattern recognition and analysis
    Analysis,
    /// Trading decision making
    Decision,
    /// Learning from past trades
    Learning,
    /// Risk assessment and management
    RiskCheck,
    /// New pattern discovered
    PatternFound,
    /// Strategy adjustment
    StrategyUpdate,
    /// Execution reasoning
    Execution,
    /// Portfolio rebalancing
    Rebalancing,
    /// Market sentiment analysis
    Sentiment,
    /// Educational insight for the user
    Educational,
}

/// The agent a record is attributed to.
#[derive(Debug, Clone, Copy, PartialEq, Eq, Structural)]
pub enum AIAgent {
    MarketIntelligence,
    RiskManager,
    LearningEngine,
    MasterCoordinator,
    ExecutionEngine,
}

/// Five ordered buckets of confidence.
#[derive(Debug, Clone, Copy, PartialEq, Eq, Structural)]
pub enum ConfidenceLevel {
    /// below 20%
    VeryLow,
    /// 20% up to 40%
    Low,
    /// 40% up to 60%
    Medium,
    /// 60% up to 80%
    High,
    /// 80% and above
    VeryHigh,
}

/// The bucket of a confidence given in basis points.
pub open spec fn level_of(confidence: u32) -> ConfidenceLevel {
    if confidence < 2_000 {
        ConfidenceLevel::VeryLow
    } else if confidence < 4_000 {
        ConfidenceLevel::Low
    } else if confidence < 6_000 {
        ConfidenceLevel::Medium
    } else if confidence < 8_000 {
        ConfidenceLevel::High
    } else {
        ConfidenceLevel::VeryHigh
    }
}

impl ConfidenceLevel {
    /// Position of the bucket in the order, 0 for the lowest.
    pub open spec fn rank(self) -> int {
        match self {
            ConfidenceLevel::VeryLow => 0,
            ConfidenceLevel::Low => 1,
            ConfidenceLevel::Medium => 2,
            ConfidenceLevel::High => 3,
            ConfidenceLevel::VeryHigh => 4,
        }
    }

    /// Maps a confidence in basis points to its bucket.
    pub fn from_basis_points(confidence: u32) -> (level: ConfidenceLevel)
        ensures
            level == level_of(confidence),
    {
        if confidence < 2_000 {
            ConfidenceLevel::VeryLow
        } else if confidence < 4_000 {
            ConfidenceLevel::Low
        } else if confidence < 6_000 {
            ConfidenceLevel::Medium
        } else if confidence < 8_000 {
            ConfidenceLevel::High
        } else {
            ConfidenceLevel::VeryHigh
        }
    }
}

impl vstd::std_specs::convert::FromSpecImpl<u32> for ConfidenceLevel {
    open spec fn obeys_from_spec() -> bool {
        true
    }

    open spec fn from_spec(confidence: u32) -> ConfidenceLevel {
        level_of(confidence)
    }
}

impl From<u32> for ConfidenceLevel {
    fn from(confidence: u32) -> (level: ConfidenceLevel) {
        ConfidenceLevel::from_basis_points(confidence)
    }
}

/// The bucket never falls when the confidence rises.
pub proof fn lemma_level_monotonic(a: u32, b: u32)
    requires
        a <= b,
    ensures
        level_of(a).rank() <= level_of(b).rank(),
{
}

/// One supporting figure of a record: a name and its value as JSON text.
#[derive(Debug)]
pub struct DataEntry {
    pub key: String,
    pub value: String,
}

impl Clone for DataEntry {
    fn clone(&self) -> (copy: Self)
        ensures
            copy == *self,
    {
        DataEntry { key: self.key.clone(), value: self.value.clone() }
    }
}

/// The map that a list of entries stands for: a later entry replaces an
/// earlier one with the same key.
pub open spec fn entries_map(entries: Seq<DataEntry>) -> Map<Seq<char>, Seq<char>>
    decreases entries.len(),
{
    if entries.len() == 0 {
        Map::empty()
    } else {
        entries_map(entries.drop_last()).insert(entries.last().key@, entries.last().value@)
    }
}

/// Whether no key occurs twice in `entries`.
pub open spec fn keys_distinct(entries: Seq<DataEntry>) -> bool {
    forall|i: int, j: int|
        0 <= i < j < entries.len() ==> (#[trigger] entries[i]).key@ != (#[trigger] entries[j]).key@
}

/// A decision record: everything an agent concluded at one moment.
#[derive(Debug)]
pub struct AIThought {
    /// Unique identifier of the record
    pub id: String,
    /// When the record was made
    pub timestamp: Timestamp,
    /// Which agent made it
    pub agent: AIAgent,
    /// Category of the record
    pub thought_type: ThoughtType,
    /// The conclusion itself
    pub message: String,
    /// Confidence in basis points: 10 000 stands for 1.0
    pub confidence: u32,
    /// The bucket of `confidence`
    pub confidence_level: ConfidenceLevel,
    /// The steps that led to the conclusion, in order
    pub reasoning: Vec<String>,
    /// Supporting figures, each under its own key
    pub supporting_data: Vec<DataEntry>,
    /// Market symbols the record relates to
    pub symbols: Vec<String>,
    /// Free-form tags
    pub tags: Vec<String>,
    /// Expected impact on the portfolio: Low, Medium or High
    pub impact_level: String,
    /// Whether the record is meant to teach the user
    pub educational: bool,
    /// Follow-up actions the agent plans
    pub planned_actions: Vec<String>,
}

/// What a record says, as mathematical values.
pub struct ThoughtView {
    pub id: Seq<char>,
    pub timestamp: Timestamp,
    pub agent: AIAgent,
    pub thought_type: ThoughtType,
    pub message: Seq<char>,
    pub confidence: u32,
    pub confidence_level: ConfidenceLevel,
    pub reasoning: Seq<Seq<char>>,
    pub supporting_data: Map<Seq<char>, Seq<char>>,
    pub symbols: Seq<Seq<char>>,
    pub tags: Seq<Seq<char>>,
    pub impact_level: Seq<char>,
    pub educational: bool,
    pub planned_actions: Seq<Seq<char>>,
}

impl View for AIThought {
    type V = ThoughtView;

    open spec fn view(&self) -> ThoughtView {
        ThoughtView {
            id: self.id@,
            timestamp: self.timestamp,
            agent: self.agent,
            thought_type: self.thought_type,
            message: self.message@,
            confidence: self.confidence,
            confidence_level: self.confidence_level,
            reasoning: self.reasoning.deep_view(),
            supporting_data: entries_map(self.supporting_data@),
            symbols: self.symbols.deep_view(),
            tags: self.tags.deep_view(),
            impact_level: self.impact_level@,
            educational: self.educational,
            planned_actions: self.planned_actions.deep_view(),
        }
    }
}

impl DeepView for AIThought {
    type V = ThoughtView;

    open spec fn deep_view(&self) -> ThoughtView {
        self.view()
    }
}

/// A record as `AIThought::with_identity` makes it.
pub open spec fn initial_thought(
    id: Seq<char>,
    timestamp: Timestamp,
    agent: AIAgent,
    thought_type: ThoughtType,
    message: Seq<char>,
    confidence: u32,
) -> ThoughtView {
    ThoughtView {
        id,
        timestamp,
        agent,
        thought_type,
        message,
        confidence,
        confidence_level: level_of(confidence),
        reasoning: Seq::empty(),
        supporting_data: Map::empty(),
        symbols: Seq::empty(),
        tags: Seq::empty(),
        impact_level: "Medium"@,
        educational: false,
        planned_actions: Seq::empty(),
    }
}

impl Clone for AIThought {
    fn clone(&self) -> (copy: Self)
        ensures
            copy@ == self@,
            copy.supporting_data@ == self.supporting_data@,
    {
        let mut supporting_data: Vec<DataEntry> = Vec::new();
        let mut i: usize = 0;
        while i < self.supporting_data.len()
            invariant
                i <= self.supporting_data.len(),
                supporting_data@ == self.supporting_data@.subrange(0, i as int),
            decreases self.supporting_data.len() - i,
        {
            supporting_data.push(self.supporting_data[i].clone());
            i += 1;
        }
        assert(supporting_data@ == self.supporting_data@);
        AIThought {
            id: self.id.clone(),
            timestamp: self.timestamp,
            agent: self.agent,
            thought_type: self.thought_type,
            message: self.message.clone(),
            confidence: self.confidence,
            confidence_level: self.confidence_level,
            reasoning: copy_strings(&self.reasoning),
            supporting_data,
            symbols: copy_strings(&self.symbols),
            tags: copy_strings(&self.tags),
            impact_level: self.impact_level.clone(),
            educational: self.educational,
            planned_actions: copy_strings(&self.planned_actions),
        }
    }
}

impl AIThought {
    /// Whether the record's bucket is that of its confidence and no
    /// supporting figure is listed twice.
    pub open spec fn well_formed(&self) -> bool {
        &&& self.confidence_level == level_of(self.confidence)
        &&& keys_distinct(self.supporting_data@)
    }

    /// Makes a record with the given identifier and time. It starts without
    /// reasoning, figures, symbols, tags or planned actions, with impact
    /// "Medium", and is not educational.
    pub fn with_identity(
        id: String,
        timestamp: Timestamp,
        agent: AIAgent,
        thought_type: ThoughtType,
        message: String,
        confidence: u32,
    ) -> (thought: AIThought)
        ensures
            thought@ == initial_thought(id@, timestamp, agent, thought_type, message@, confidence),
            thought.well_formed(),
    {
        let thought = AIThought {
            id,
            timestamp,
            agent,
            thought_type,
            message,
            confidence,
            confidence_level: ConfidenceLevel::from_basis_points(confidence),
            reasoning: Vec::new(),
            supporting_data: Vec::new(),
            symbols: Vec::new(),
            tags: Vec::new(),
            impact_level: String::from_str("Medium"),
            educational: false,
            planned_actions: Vec::new(),
        };
        assert(thought.reasoning.deep_view() =~= Seq::empty());
        assert(thought.symbols.deep_view() =~= Seq::empty());
        assert(thought.tags.deep_view() =~= Seq::empty());
        assert(thought.planned_actions.deep_view() =~= Seq::empty());
        thought
    }

    /// Makes a record under a fresh identifier, stamped with the current
    /// time. The confidence is given in basis points.
    pub fn new(agent: AIAgent, thought_type: ThoughtType, message: String, confidence: u32) -> (thought:
        AIThought)
        ensures
            thought@ == initial_thought(
                thought@.id,
                thought@.timestamp,
                agent,
                thought_type,
                message@,
                confidence,
            ),
            is_record_id(thought@.id),
            thought@.timestamp.is_clock_reading(),
            thought.well_formed(),
    {
        let id = fresh_record_id();
        let timestamp = current_time();
        AIThought::with_identity(id, timestamp, agent, thought_type, message, confidence)
    }

    /// Replaces the reasoning steps.
    pub fn with_reasoning(self, reasoning: Vec<String>) -> (thought: AIThought)
        ensures
            thought@ == (ThoughtView { reasoning: reasoning.deep_view(), ..self@ }),
            thought.well_formed() == self.well_formed(),
    {
        let mut thought = self;
        thought.reasoning = reasoning;
        thought
    }

    /// Replaces the symbols the record relates to.
    pub fn with_symbols(self, symbols: Vec<String>) -> (thought: AIThought)
        ensures
            thought@ == (ThoughtView { symbols: symbols.deep_view(), ..self@ }),
            thought.well_formed() == self.well_formed(),
    {
        let mut thought = self;
        thought.symbols = symbols;
        thought
    }

    /// Replaces the tags.
    pub fn with_tags(self, tags: Vec<String>) -> (thought: AIThought)
        ensures
            thought@ == (ThoughtView { tags: tags.deep_view(), ..self@ }),
            thought.well_formed() == self.well_formed(),
    {
        let mut thought = self;
        thought.tags = tags;
        thought
    }

    /// Sets the impact level.
    pub fn with_impact(self, impact: String) -> (thought: AIThought)
        ensures
            thought@ == (ThoughtView { impact_level: impact@, ..self@ }),
            thought.well_formed() == self.well_formed(),
    {
        let mut thought = self;
        thought.impact_level = impact;
        thought
    }

    /// Marks the record as educational.
    pub fn educational(self) -> (thought: AIThought)
        ensures
            thought@ == (ThoughtView { educational: true, ..self@ }),
            thought.well_formed() == self.well_formed(),
    {
        let mut thought = self;
        thought.educational = true;
        thought
    }

    /// Replaces the planned actions.
    pub fn with_actions(self, actions: Vec<String>) -> (thought: AIThought)
        ensures
            thought@ == (ThoughtView { planned_actions: actions.deep_view(), ..self@ }),
            thought.well_formed() == self.well_formed(),
    {
        let mut thought = self;
        thought.planned_actions = actions;
        thought
    }
}

/// Appending an entry puts its value under its key.
pub proof fn lemma_entries_map_push(entries: Seq<DataEntry>, entry: DataEntry)
    ensures
        entries_map(entries.push(entry)) == entries_map(entries).insert(entry.key@, entry.value@),
{
    assert(entries.push(entry).drop_last() =~= entries);
}

/// Taking out an entry whose key is about to be set again changes nothing.
pub proof fn lemma_entries_map_remove(
    entries: Seq<DataEntry>,
    at: int,
    key: Seq<char>,
    value: Seq<char>,
)
    requires
        0 <= at < entries.len(),
        entries[at].key@ == key,
    ensures
        entries_map(entries.remove(at)).insert(key, value) == entries_map(entries).insert(
            key,
            value,
        ),
    decreases entries.len(),
{
    let last = entries.last();
    if at == entries.len() - 1 {
        assert(entries.remove(at) =~= entries.drop_last());
        assert(entries_map(entries.drop_last()).insert(key, value) =~= entries_map(
            entries,
        ).insert(key, value));
    } else {
        let shorter = entries.drop_last();
        lemma_entries_map_remove(shorter, at, key, value);
        assert(entries.remove(at).drop_last() =~= shorter.remove(at));
        assert(entries.remove(at).last() == last);
        let left = entries_map(shorter.remove(at));
        let right = entries_map(shorter);
        assert(left.insert(key, value) == right.insert(key, value));
        let with_key_left = left.insert(key, value);
        let with_key_right = right.insert(key, value);
        let both_left = left.insert(last.key@, last.value@).insert(key, value);
        let both_right = right.insert(last.key@, last.value@).insert(key, value);
        assert forall|k: Seq<char>| both_left.dom().contains(k) == both_right.dom().contains(
            k,
        ) by {
            if k != key && k != last.key@ {
                assert(with_key_left.dom().contains(k) == left.dom().contains(k));
                assert(with_key_right.dom().contains(k) == right.dom().contains(k));
            }
        }
        assert forall|k: Seq<char>| both_left.dom().contains(k) implies both_left[k]
            == both_right[k] by {
            if k != key && k != last.key@ {
                assert(left.dom().contains(k));
                assert(with_key_left.dom().contains(k));
                assert(with_key_left[k] == left[k]);
                assert(with_key_right[k] == right[k]);
            }
        }
        assert(both_left =~= both_right);
    }
}

/// The position of the entry under `key`, if there is one.
pub fn find_entry(entries: &Vec<DataEntry>, key: &String) -> (found: Option<usize>)
    ensures
        match found {
            Some(at) => at < entries.len() && entries@[at as int].key@ == key@ && forall|j: int|
                0 <= j < at ==> entries@[j].key@ != key@,
            None => forall|j: int| 0 <= j < entries.len() ==> entries@[j].key@ != key@,
        },
{
    let mut i: usize = 0;
    while i < entries.len()
        invariant
            i <= entries.len(),
            forall|j: int| 0 <= j < i ==> entries@[j].key@ != key@,
        decreases entries.len() - i,
    {
        if entries[i].key == *key {
            return Some(i);
        }
        i += 1;
    }
    None
}

impl AIThought {
    /// Puts `value` under `key` among the supporting figures, in place of
    /// what stood under that key before.
    pub fn with_data(self, key: String, value: String) -> (thought: AIThought)
        ensures
            thought@ == (ThoughtView {
                supporting_data: self@.supporting_data.insert(key@, value@),
                ..self@
            }),
            self.well_formed() ==> thought.well_formed(),
    {
        let mut thought = self;
        let ghost before = thought.supporting_data@;
        let found = find_entry(&thought.supporting_data, &key);
        match found {
            Some(at) => {
                thought.supporting_data.remove(at);
                proof {
                    lemma_entries_map_remove(before, at as int, key@, value@);
                }
            },
            None => {},
        }
        let ghost kept = thought.supporting_data@;
        let entry = DataEntry { key, value };
        thought.supporting_data.push(entry);
        proof {
            lemma_entries_map_push(kept, entry);
            if keys_distinct(before) {
                assert forall|j: int| 0 <= j < kept.len() implies kept[j].key@ != entry.key@ by {
                    match found {
                        Some(at) => {
                            if j < at {
                                assert(kept[j] == before[j]);
                            } else {
                                assert(kept[j] == before[j + 1]);
                                assert(before[at as int].key@ != before[j + 1].key@);
                            }
                        },
                        None => {},
                    }
                }
                assert forall|i: int, j: int| 0 <= i < j < kept.len() implies kept[i].key@
                    != kept[j].key@ by {
                    match found {
                        Some(at) => {
                            let a = if i < at { i } else { i + 1 };
                            let b = if j < at { j } else { j + 1 };
                            assert(kept[i] == before[a]);
                            assert(kept[j] == before[b]);
                        },
                        None => {},
                    }
                }
                assert(keys_distinct(thought.supporting_data@));
            }
        }
        thought
    }
}

impl AIAgent {
    /// The agent's name as it is shown to the user.
    pub open spec fn name(self) -> Seq<char> {
        match self {
            AIAgent::MarketIntelligence => "MarketIntelligence"@,
            AIAgent::RiskManager => "RiskManager"@,
            AIAgent::LearningEngine => "LearningEngine"@,
            AIAgent::MasterCoordinator => "MasterCoordinator"@,
            AIAgent::ExecutionEngine => "ExecutionEngine"@,
        }
    }

    /// The symbol shown in front of the agent's records.
    pub open spec fn emoji(self) -> Seq<char> {
        match self {
            AIAgent::MarketIntelligence => "🔍"@,
            AIAgent::RiskManager => "🛡️"@,
            AIAgent::LearningEngine => "🧠"@,
            AIAgent::MasterCoordinator => "🎯"@,
            AIAgent::ExecutionEngine => "⚡"@,
        }
    }

    /// The agent's name as it is shown to the user.
    pub fn display_name(&self) -> (name: &'static str)
        ensures
            name@ == self.name(),
    {
        match self {
            AIAgent::MarketIntelligence => "MarketIntelligence",
            AIAgent::RiskManager => "RiskManager",
            AIAgent::LearningEngine => "LearningEngine",
            AIAgent::MasterCoordinator => "MasterCoordinator",
            AIAgent::ExecutionEngine => "ExecutionEngine",
        }
    }

    /// The symbol shown in front of the agent's records.
    pub fn display_emoji(&self) -> (emoji: &'static str)
        ensures
            emoji@ == self.emoji(),
    {
        match self {
            AIAgent::MarketIntelligence => "🔍",
            AIAgent::RiskManager => "🛡️",
            AIAgent::LearningEngine => "🧠",
            AIAgent::MasterCoordinator => "🎯",
            AIAgent::ExecutionEngine => "⚡",
        }
    }
}

impl ConfidenceLevel {
    /// The coloured mark that stands for the bucket.
    pub open spec fn emoji(self) -> Seq<char> {
        match self {
            ConfidenceLevel::VeryHigh => "🟢"@,
            ConfidenceLevel::High => "🟡"@,
            ConfidenceLevel::Medium => "🟠"@,
            ConfidenceLevel::Low => "🔴"@,
            ConfidenceLevel::VeryLow => "⚫"@,
        }
    }

    /// The coloured mark that stands for the bucket.
    pub fn display_emoji(&self) -> (emoji: &'static str)
        ensures
            emoji@ == self.emoji(),
    {
        match self {
            ConfidenceLevel::VeryHigh => "🟢",
            ConfidenceLevel::High => "🟡",
            ConfidenceLevel::Medium => "🟠",
            ConfidenceLevel::Low => "🔴",
            ConfidenceLevel::VeryLow => "⚫",
        }
    }
}

/// The line that explains a record to the user: the agent's symbol, the mark
/// of the confidence bucket, the agent's name, a colon and the message.
pub open spec fn user_explanation(thought: ThoughtView) -> Seq<char> {
    thought.agent.emoji() + " "@ + thought.confidence_level.emoji() + " "@ + thought.agent.name()
        + ": "@ + thought.message
}

impl AIThought {
    /// Explains the record to the user in one line.
    pub fn to_user_explanation(&self) -> (line: String)
        ensures
            line@ == user_explanation(self@),
    {
        let mut line = String::from_str(self.agent.display_emoji());
        line.append(" ");
        line.append(self.confidence_level.display_emoji());
        line.append(" ");
        line.append(self.agent.display_name());
        line.append(": ");
        line.append(self.message.as_str());
        line
    }
}

/// How many records the live stream keeps for receivers that fall behind:
/// the power of two that holds a thousand.
pub const STREAM_CAPACITY: usize = 1024;

/// The records that the live stream has taken up, oldest first: everything
/// published as far as a 64-bit count reaches.
pub open spec fn taken_up(published: Seq<ThoughtView>) -> Seq<ThoughtView> {
    if published.len() <= u64::MAX {
        published
    } else {
        published.take(u64::MAX as int)
    }
}

/// The `count` newest of `records`, oldest first; all of them if there are
/// fewer.
pub open spec fn newest<T>(records: Seq<T>, count: nat) -> Seq<T> {
    if count >= records.len() {
        records
    } else {
        records.skip(records.len() - count)
    }
}

/// The records that satisfy `wanted`, newest first, cut off after `limit`.
pub open spec fn newest_first<T>(records: Seq<T>, wanted: spec_fn(T) -> bool, limit: nat) -> Seq<
    T,
> {
    let matching = records.filter(wanted).reverse();
    if limit >= matching.len() {
        matching
    } else {
        matching.take(limit as int)
    }
}

/// What a receiver at `position` has yet to be handed.
pub open spec fn stream_after<T>(published: Seq<T>, position: nat) -> Seq<T> {
    if position >= published.len() {
        Seq::empty()
    } else {
        published.skip(position as int)
    }
}

/// Keeping the newest `count` records after one more was published means
/// dropping the oldest kept one if the store was full.
pub proof fn lemma_newest_push<T>(records: Seq<T>, record: T, count: nat)
    ensures
        newest(records.push(record), count) == if count == 0 {
            Seq::empty()
        } else if records.len() >= count {
            newest(records, count).drop_first().push(record)
        } else {
            newest(records, count).push(record)
        },
        newest(records, count).len() == if count >= records.len() {
            records.len()
        } else {
            count
        },
{
    if count == 0 {
        assert(newest(records.push(record), count) =~= Seq::empty());
    } else if records.len() >= count {
        assert(newest(records.push(record), count) =~= newest(records, count).drop_first().push(
            record,
        ));
    } else {
        assert(newest(records.push(record), count) =~= newest(records, count).push(record));
    }
}

/// A subscription to the live stream of a broadcaster: the place that the
/// broadcaster keeps for the subscriber. It means something only to the
/// broadcaster that handed it out.
#[derive(Debug)]
pub struct ThoughtReceiver {
    place: usize,
}

/// What a receiver finds when it asks the stream for its next record.
#[derive(Debug)]
pub enum StreamEvent {
    /// The next record.
    Record(AIThought),
    /// The receiver fell behind and this many records were dropped before it
    /// could read them.
    Lagged(u64),
    /// Nothing new has been published.
    Empty,
}

/// The sending half of a broadcast channel.
#[verifier::external_type_specification]
#[verifier::external_body]
#[verifier::reject_recursive_types(T)]
pub struct ExBroadcastSender<T>(tokio::sync::broadcast::Sender<T>);

/// A receiving half of a broadcast channel.
#[verifier::external_type_specification]
#[verifier::external_body]
#[verifier::reject_recursive_types(T)]
pub struct ExBroadcastReceiver<T>(tokio::sync::broadcast::Receiver<T>);

/// The records that were sent on the channel of `sender`, oldest first. The
/// channel holds the newest of them, as many as it has slots.
pub uninterp spec fn sent_on(sender: tokio::sync::broadcast::Sender<AIThought>) -> Seq<
    ThoughtView,
>;

/// How many slots the channel of `sender` was made with.
pub uninterp spec fn slots_of(sender: tokio::sync::broadcast::Sender<AIThought>) -> nat;

/// How many of the records sent on its channel lie behind `receiver`: the
/// index of the record that it is handed next.
pub uninterp spec fn read_up_to(receiver: tokio::sync::broadcast::Receiver<AIThought>) -> nat;

/// Whether `count` is a power of two.
pub open spec fn is_power_of_two(count: nat) -> bool {
    exists|exponent: nat| count == #[trigger] pow2(exponent)
}

/// The live stream: the sending half of one broadcast channel, the receiving
/// half that came with it, and one receiving half for each subscriber.
///
/// The stream hands none of them out. So every receiving half in it belongs
/// to the channel of its sender, the channel always has a receiver, and
/// nothing else sends or receives on it.
struct LiveStream {
    sender: tokio::sync::broadcast::Sender<AIThought>,
    first: tokio::sync::broadcast::Receiver<AIThought>,
    receivers: Vec<tokio::sync::broadcast::Receiver<AIThought>>,
}

/// `tokio::sync::broadcast::channel`, which rounds the capacity asked for up
/// to a power of two. Believed, of a capacity that is a power of two: the
/// channel has that many slots, nothing was sent on it, and its first
/// receiver stands at the start.
#[verifier::external_body]
fn open_stream(capacity: usize) -> (halves: (
    tokio::sync::broadcast::Sender<AIThought>,
    tokio::sync::broadcast::Receiver<AIThought>,
))
    requires
        0 < capacity <= usize::MAX / 2,
        is_power_of_two(capacity as nat),
    ensures
        sent_on(halves.0) == Seq::<ThoughtView>::empty(),
        slots_of(halves.0) == capacity,
        read_up_to(halves.1) == 0,
{
    tokio::sync::broadcast::channel(capacity)
}

/// `Sender::send` on the stream's channel, which has a receiver. Believed:
/// the record is sent, the channel keeps its slots, and no receiving half
/// moves. The channel counts what was sent in 64 bits, so the call is made
/// only while that count has room.
#[verifier::external_body]
fn stream_send(stream: &mut LiveStream, thought: AIThought)
    requires
        sent_on(old(stream).sender).len() < u64::MAX,
    ensures
        sent_on(final(stream).sender) == sent_on(old(stream).sender).push(thought@),
        slots_of(final(stream).sender) == slots_of(old(stream).sender),
        final(stream).receivers == old(stream).receivers,
{
    let _ = stream.sender.send(thought);
}

/// `Sender::subscribe` on the stream's channel. Believed: the new receiving
/// half stands behind everything that was sent so far. The channel gives up
/// at a quarter of the receivers that a machine word can count; the stream
/// holds its receivers in a vector, which no memory lets grow that long.
#[verifier::external_body]
fn stream_subscribe(stream: &LiveStream) -> (receiver: tokio::sync::broadcast::Receiver<AIThought>)
    ensures
        read_up_to(receiver) == sent_on(stream.sender).len(),
{
    stream.sender.subscribe()
}

/// `Receiver::try_recv` on the receiving half in place `place` of the
/// stream. Believed: the half is handed a copy of the record that it stands
/// at and moves on by one; if it has read everything it finds nothing and
/// stays; if the record that it stands at has been overwritten, because more
/// records were sent since than the channel has slots, it is told how many
/// records it missed and moves to the oldest record that the channel still
/// holds. Nothing is sent, and no other receiving half moves.
#[verifier::external_body]
fn stream_try_recv(stream: &mut LiveStream, place: usize) -> (event: StreamEvent)
    requires
        place < old(stream).receivers@.len(),
    ensures
        sent_on(final(stream).sender) == sent_on(old(stream).sender),
        slots_of(final(stream).sender) == slots_of(old(stream).sender),
        final(stream).receivers@.len() == old(stream).receivers@.len(),
        forall|other: int|
            0 <= other < old(stream).receivers@.len() && other != place
                ==> final(stream).receivers@[other] == old(stream).receivers@[other],
        (event@, read_up_to(final(stream).receivers@[place as int])) == delivery_from(
            sent_on(old(stream).sender),
            slots_of(old(stream).sender),
            read_up_to(old(stream).receivers@[place as int]),
        ),
{
    match stream.receivers[place].try_recv() {
        Ok(thought) => StreamEvent::Record(thought),
        Err(tokio::sync::broadcast::error::TryRecvError::Lagged(missed)) => StreamEvent::Lagged(
            missed,
        ),
        Err(tokio::sync::broadcast::error::TryRecvError::Empty) => StreamEvent::Empty,
        Err(tokio::sync::broadcast::error::TryRecvError::Closed) => StreamEvent::Empty,
    }
}

/// Publishes decision records: keeps a bounded history and a live stream.
pub struct AIThoughtBroadcaster {
    history: VecDeque<AIThought>,
    stream: LiveStream,
    max_history: usize,
    total: u64,
    published: Ghost<Seq<ThoughtView>>,
}

/// Adds `thought` to a store that keeps the newest `capacity` records.
fn retain(
    store: &mut VecDeque<AIThought>,
    thought: AIThought,
    capacity: usize,
    Ghost(published): Ghost<Seq<ThoughtView>>,
)
    requires
        old(store).deep_view() == newest(published, capacity as nat),
    ensures
        final(store).deep_view() == newest(published.push(thought@), capacity as nat),
{
    proof {
        lemma_newest_push(published, thought@, capacity as nat);
    }
    if capacity == 0 {
        return ;
    }
    if store.len() >= capacity {
        let ghost full = store.deep_view();
        store.pop_front();
        assert(store.deep_view() =~= full.drop_first());
    }
    let ghost kept = store.deep_view();
    store.push_back(thought);
    assert(store.deep_view() =~= kept.push(thought@));
}

impl AIThoughtBroadcaster {
    /// Everything published so far, oldest first.
    pub closed spec fn published(&self) -> Seq<ThoughtView> {
        self.published@
    }

    /// How many records the history keeps.
    pub closed spec fn capacity(&self) -> nat {
        self.max_history as nat
    }

    /// The records the history holds, oldest first: the newest `capacity`
    /// of those published.
    pub open spec fn history(&self) -> Seq<ThoughtView> {
        newest(self.published(), self.capacity())
    }

    /// The records the live stream has taken up, oldest first.
    pub open spec fn stream(&self) -> Seq<ThoughtView> {
        taken_up(self.published())
    }

    /// The records the live stream still holds, oldest first.
    pub open spec fn streamed(&self) -> Seq<ThoughtView> {
        newest(self.stream(), STREAM_CAPACITY as nat)
    }

    /// Whether the broadcaster has handed out `receiver`.
    pub closed spec fn knows(&self, receiver: ThoughtReceiver) -> bool {
        receiver.place < self.stream.receivers@.len()
    }

    /// How many records of the live stream lie behind `receiver`: the index
    /// of the record that it is handed next; zero for a receiver that this
    /// broadcaster did not hand out.
    pub closed spec fn position_of(&self, receiver: ThoughtReceiver) -> nat {
        if receiver.place < self.stream.receivers@.len() {
            read_up_to(self.stream.receivers@[receiver.place as int])
        } else {
            0
        }
    }

    /// Whether the receivers of `self` are those of `before`, each where it
    /// was.
    pub open spec fn same_receivers(&self, before: AIThoughtBroadcaster) -> bool {
        forall|receiver: ThoughtReceiver|
            self.knows(receiver) == before.knows(receiver) && self.position_of(receiver)
                == before.position_of(receiver)
    }

    /// Whether the stores hold what the model says.
    pub closed spec fn well_formed(&self) -> bool {
        &&& self.history.deep_view() == newest(self.published@, self.max_history as nat)
        &&& sent_on(self.stream.sender) == taken_up(self.published@)
        &&& slots_of(self.stream.sender) == STREAM_CAPACITY
        &&& self.total as nat == taken_up(self.published@).len()
    }

    /// Creates a broadcaster whose history keeps `max_history` records.
    pub fn new(max_history: usize) -> (broadcaster: AIThoughtBroadcaster)
        ensures
            broadcaster.well_formed(),
            broadcaster.capacity() == max_history,
            broadcaster.published() == Seq::<ThoughtView>::empty(),
    {
        proof {
            lemma2_to64();
            assert(STREAM_CAPACITY as nat == pow2(10));
        }
        let (sender, first) = open_stream(STREAM_CAPACITY);
        let broadcaster = AIThoughtBroadcaster {
            history: VecDeque::new(),
            stream: LiveStream { sender, first, receivers: Vec::new() },
            max_history,
            total: 0,
            published: Ghost(Seq::empty()),
        };
        assert(broadcaster.history.deep_view() =~= Seq::empty());
        broadcaster
    }

    /// How many records the live stream has taken up: as many as were
    /// published, as far as a 64-bit count reaches.
    pub fn published_count(&self) -> (count: u64)
        requires
            self.well_formed(),
        ensures
            count == self.stream().len(),
            self.published().len() <= u64::MAX ==> count == self.published().len(),
    {
        self.total
    }

    /// How many records the history keeps at most.
    pub fn max_history(&self) -> (limit: usize)
        ensures
            limit == self.capacity(),
    {
        self.max_history
    }

    /// Publishes `thought`: it enters the history, where the oldest record
    /// makes room once the capacity is reached, and the live stream. With no
    /// receiver this is all that happens. The live stream takes up records
    /// as far as a 64-bit count reaches; the history takes up every record.
    pub fn broadcast_thought(&mut self, thought: AIThought)
        requires
            old(self).well_formed(),
        ensures
            final(self).well_formed(),
            final(self).capacity() == old(self).capacity(),
            final(self).published() == old(self).published().push(thought@),
            final(self).same_receivers(*old(self)),
    {
        let ghost before = self.published@;
        let ghost after = before.push(thought@);
        let copy = thought.clone();
        retain(&mut self.history, copy, self.max_history, Ghost(before));
        if self.total < u64::MAX {
            proof {
                assert(taken_up(before) == before);
                assert(taken_up(after) == after);
            }
            stream_send(&mut self.stream, thought);
            self.total = self.total + 1;
        } else {
            proof {
                assert(before.len() >= u64::MAX);
                assert(taken_up(after) =~= taken_up(before));
            }
        }
        self.published = Ghost(after);
    }

    /// Opens a receiver on the live stream. It is handed the records
    /// published from now on, and none of the earlier ones. The receivers
    /// handed out before stay where they are.
    pub fn subscribe(&mut self) -> (receiver: ThoughtReceiver)
        requires
            old(self).well_formed(),
        ensures
            final(self).well_formed(),
            final(self).capacity() == old(self).capacity(),
            final(self).published() == old(self).published(),
            !old(self).knows(receiver),
            final(self).knows(receiver),
            final(self).position_of(receiver) == final(self).stream().len(),
            stream_after(final(self).stream(), final(self).position_of(receiver)) == Seq::<
                ThoughtView,
            >::empty(),
            forall|other: ThoughtReceiver|
                old(self).knows(other) ==> final(self).knows(other) && final(self).position_of(
                    other,
                ) == old(self).position_of(other),
    {
        let place = self.stream.receivers.len();
        let half = stream_subscribe(&self.stream);
        self.stream.receivers.push(half);
        ThoughtReceiver { place }
    }
}

/// What a receiving half at `position` is handed on a channel with `slots`
/// slots on which `stream` was sent, and where that leaves it. A half that
/// has read everything finds nothing. One that is more than `slots` records
/// behind is told how many records it missed and is moved to the oldest
/// record still held. Every other half gets its next record.
pub open spec fn delivery_from(stream: Seq<ThoughtView>, slots: nat, position: nat) -> (
    StreamStep,
    nat,
) {
    let oldest = (stream.len() - newest(stream, slots).len()) as nat;
    if position >= stream.len() {
        (StreamStep::Empty, position)
    } else if position < oldest {
        (StreamStep::Lagged((oldest - position) as nat), oldest)
    } else {
        (StreamStep::Record(stream[position as int]), position + 1)
    }
}

/// What `try_recv` hands a receiver at `position` of a stream that has taken
/// up `stream`, and where it leaves the receiver. A receiver that has seen
/// everything finds nothing. One that is more than the stream's capacity
/// behind is told how many records it missed and is moved to the oldest
/// record still held. Every other receiver gets its next record.
pub open spec fn delivery(stream: Seq<ThoughtView>, position: nat) -> (StreamStep, nat) {
    delivery_from(stream, STREAM_CAPACITY as nat, position)
}

/// A `StreamEvent` as mathematical values.
pub enum StreamStep {
    Record(ThoughtView),
    Lagged(nat),
    Empty,
}

impl View for StreamEvent {
    type V = StreamStep;

    open spec fn view(&self) -> StreamStep {
        match self {
            StreamEvent::Record(thought) => StreamStep::Record(thought@),
            StreamEvent::Lagged(missed) => StreamStep::Lagged(*missed as nat),
            StreamEvent::Empty => StreamStep::Empty,
        }
    }
}

impl AIThoughtBroadcaster {
    /// Hands `receiver` its next record, if one has been published since it
    /// last asked. A receiver that fell more than the stream's capacity behind
    /// is told how many records it missed and continues with the oldest one
    /// still held. A receiver that this broadcaster did not hand out finds
    /// nothing. No other receiver moves.
    pub fn try_recv(&mut self, receiver: &ThoughtReceiver) -> (event: StreamEvent)
        requires
            old(self).well_formed(),
        ensures
            final(self).well_formed(),
            final(self).capacity() == old(self).capacity(),
            final(self).published() == old(self).published(),
            final(self).knows(*receiver) == old(self).knows(*receiver),
            old(self).knows(*receiver) ==> (event@, final(self).position_of(*receiver))
                == delivery(old(self).stream(), old(self).position_of(*receiver)),
            !old(self).knows(*receiver) ==> event@ == StreamStep::Empty,
            forall|other: ThoughtReceiver|
                other != *receiver ==> final(self).knows(other) == old(self).knows(
                    other,
                ) && final(self).position_of(other) == old(self).position_of(other),
    {
        if receiver.place >= self.stream.receivers.len() {
            return StreamEvent::Empty;
        }
        stream_try_recv(&mut self.stream, receiver.place)
    }
}

/// Which records of the history a query asks for.
#[derive(Debug, Clone, Copy, PartialEq, Eq, Structural)]
pub enum ThoughtFilter {
    /// Every record.
    Any,
    /// The records of one agent.
    ByAgent(AIAgent),
    /// The educational records.
    Educational,
}

impl ThoughtFilter {
    /// Whether the filter lets `thought` through.
    pub open spec fn accepts(self, thought: ThoughtView) -> bool {
        match self {
            ThoughtFilter::Any => true,
            ThoughtFilter::ByAgent(agent) => thought.agent == agent,
            ThoughtFilter::Educational => thought.educational,
        }
    }

    /// Whether the filter lets `thought` through.
    pub fn admits(&self, thought: &AIThought) -> (admitted: bool)
        ensures
            admitted == self.accepts(thought@),
    {
        match self {
            ThoughtFilter::Any => true,
            ThoughtFilter::ByAgent(agent) => thought.agent == *agent,
            ThoughtFilter::Educational => thought.educational,
        }
    }
}

/// Reversing a concatenation reverses the parts and swaps them.
pub proof fn lemma_reverse_add<T>(a: Seq<T>, b: Seq<T>)
    ensures
        (a + b).reverse() == b.reverse() + a.reverse(),
{
    assert((a + b).reverse() =~= b.reverse() + a.reverse());
}

/// Scanning one record further into the past: the matches among the records
/// from `from - 1` on, newest first, are those from `from` on, followed by the
/// record at `from - 1` if it matches.
pub proof fn lemma_scan_back<T>(records: Seq<T>, wanted: spec_fn(T) -> bool, from: int)
    requires
        0 < from <= records.len(),
    ensures
        records.skip(from - 1).filter(wanted).reverse() == if wanted(records[from - 1]) {
            records.skip(from).filter(wanted).reverse().push(records[from - 1])
        } else {
            records.skip(from).filter(wanted).reverse()
        },
{
    let head = seq![records[from - 1]];
    let rest = records.skip(from);
    assert(records.skip(from - 1) =~= head + rest);
    Seq::filter_distributes_over_add(head, rest, wanted);
    assert(head.filter(wanted) =~= if wanted(records[from - 1]) {
        head
    } else {
        Seq::empty()
    }) by {
        reveal_with_fuel(Seq::filter, 2);
        assert(head.drop_last() =~= Seq::<T>::empty());
    }
    lemma_reverse_add(head.filter(wanted), rest.filter(wanted));
    if wanted(records[from - 1]) {
        assert(head.reverse() =~= head);
        assert(rest.filter(wanted).reverse() + head =~= rest.filter(wanted).reverse().push(
            records[from - 1],
        ));
    } else {
        assert(Seq::<T>::empty().reverse() =~= Seq::<T>::empty());
        assert(rest.filter(wanted).reverse() + Seq::<T>::empty() =~= rest.filter(wanted).reverse());
    }
}

/// Once the scan has found `limit` matches among the records from `from` on,
/// they are the answer: older records cannot displace them.
pub proof fn lemma_scan_full<T>(
    records: Seq<T>,
    wanted: spec_fn(T) -> bool,
    from: int,
    limit: nat,
)
    requires
        0 <= from <= records.len(),
        records.skip(from).filter(wanted).len() >= limit,
    ensures
        newest_first(records, wanted, limit) == records.skip(from).filter(wanted).reverse().take(
            limit as int,
        ),
{
    let older = records.take(from);
    let newer = records.skip(from);
    assert(records =~= older + newer);
    Seq::filter_distributes_over_add(older, newer, wanted);
    lemma_reverse_add(older.filter(wanted), newer.filter(wanted));
    let all = records.filter(wanted).reverse();
    assert(all == newer.filter(wanted).reverse() + older.filter(wanted).reverse());
    assert(all.take(limit as int) =~= newer.filter(wanted).reverse().take(limit as int));
    if limit >= all.len() {
        assert(all =~= all.take(limit as int));
    }
}

impl AIThoughtBroadcaster {
    /// The records of the history that pass `filter`, newest first, at most
    /// `limit` of them.
    pub fn select(&self, filter: ThoughtFilter, limit: usize) -> (found: Vec<AIThought>)
        requires
            self.well_formed(),
        ensures
            found.deep_view() == newest_first(
                self.history(),
                |thought: ThoughtView| filter.accepts(thought),
                limit as nat,
            ),
    {
        let ghost wanted = |thought: ThoughtView| filter.accepts(thought);
        let ghost records = self.history.deep_view();
        let mut found: Vec<AIThought> = Vec::new();
        let mut from: usize = self.history.len();
        assert(records.skip(from as int) =~= Seq::empty());
        assert(Seq::<ThoughtView>::empty().filter(wanted) =~= Seq::empty()) by {
            reveal_with_fuel(Seq::filter, 1);
        }
        assert(Seq::<ThoughtView>::empty().reverse() =~= Seq::empty());
        assert(found.deep_view() =~= Seq::empty());
        while from > 0 && found.len() < limit
            invariant
                self.well_formed(),
                records == self.history.deep_view(),
                records.len() == self.history@.len(),
                wanted == (|thought: ThoughtView| filter.accepts(thought)),
                from <= records.len(),
                found.len() <= limit,
                found.deep_view() == records.skip(from as int).filter(wanted).reverse(),
            decreases from,
        {
            proof {
                lemma_scan_back(records, wanted, from as int);
            }
            from -= 1;
            let thought = &self.history[from];
            assert(records[from as int] == thought@);
            if filter.admits(thought) {
                let ghost before = found.deep_view();
                found.push(thought.clone());
                assert(found.deep_view() =~= before.push(thought@));
            }
        }
        proof {
            let matches = records.skip(from as int).filter(wanted);
            assert(matches.reverse().len() == matches.len());
            if found.len() >= limit {
                lemma_scan_full(records, wanted, from as int, limit as nat);
                assert(found.deep_view().take(limit as int) =~= found.deep_view());
            } else {
                assert(records.skip(0) =~= records);
                let all = records.filter(wanted).reverse();
                assert(all.len() == records.filter(wanted).len());
            }
        }
        found
    }

    /// The newest records of the history, newest first, at most `limit`.
    pub fn get_recent_thoughts(&self, limit: usize) -> (found: Vec<AIThought>)
        requires
            self.well_formed(),
        ensures
            found.deep_view() == newest(self.history(), limit as nat).reverse(),
    {
        let found = self.select(ThoughtFilter::Any, limit);
        proof {
            assert((|thought: ThoughtView| ThoughtFilter::Any.accepts(thought)) =~= (|
                record: ThoughtView,
            | true));
            lemma_unfiltered(self.history(), limit as nat);
        }
        found
    }

    /// The newest records of `agent` in the history, newest first, at most
    /// `limit`.
    pub fn get_thoughts_by_agent(&self, agent: AIAgent, limit: usize) -> (found: Vec<AIThought>)
        requires
            self.well_formed(),
        ensures
            found.deep_view() == newest_first(
                self.history(),
                |thought: ThoughtView| thought.agent == agent,
                limit as nat,
            ),
    {
        let found = self.select(ThoughtFilter::ByAgent(agent), limit);
        assert((|thought: ThoughtView| ThoughtFilter::ByAgent(agent).accepts(thought)) =~= (|
            thought: ThoughtView,
        | thought.agent == agent));
        found
    }

    /// The newest educational records of the history, newest first, at most
    /// `limit`.
    pub fn get_educational_thoughts(&self, limit: usize) -> (found: Vec<AIThought>)
        requires
            self.well_formed(),
        ensures
            found.deep_view() == newest_first(
                self.history(),
                |thought: ThoughtView| thought.educational,
                limit as nat,
            ),
    {
        let found = self.select(ThoughtFilter::Educational, limit);
        assert((|thought: ThoughtView| ThoughtFilter::Educational.accepts(thought)) =~= (|
            thought: ThoughtView,
        | thought.educational));
        found
    }
}

/// With a filter that lets everything through, the answer is the newest
/// `limit` records, newest first.
pub proof fn lemma_unfiltered<T>(records: Seq<T>, limit: nat)
    ensures
        newest_first(records, |record: T| true, limit) == newest(records, limit).reverse(),
{
    let all = |record: T| true;
    lemma_filter_all(records);
    let turned = records.reverse();
    assert(turned.len() == records.len());
    if limit >= records.len() {
    } else {
        assert(turned.take(limit as int) =~= newest(records, limit).reverse());
    }
}

/// A filter that lets everything through changes nothing.
pub proof fn lemma_filter_all<T>(records: Seq<T>)
    ensures
        records.filter(|record: T| true) == records,
    decreases records.len(),
{
    reveal_with_fuel(Seq::filter, 1);
    if records.len() > 0 {
        lemma_filter_all(records.drop_last());
        assert(records.drop_last().push(records.last()) =~= records);
    }
}

/// Once at least as many records were published as the history keeps, asking
/// for that many returns exactly the last published ones, newest first: the
/// oldest were given up first.
pub proof fn lemma_history_holds_latest(broadcaster: AIThoughtBroadcaster)
    requires
        broadcaster.published().len() >= broadcaster.capacity(),
    ensures
        newest(broadcaster.history(), broadcaster.capacity()).len() == broadcaster.capacity(),
        forall|i: int|
            0 <= i < broadcaster.capacity() ==> #[trigger] newest(
                broadcaster.history(),
                broadcaster.capacity(),
            ).reverse()[i] == broadcaster.published()[broadcaster.published().len() - 1 - i],
{
}

/// The history never holds more than its capacity, and before the capacity
/// is reached it holds everything published.
pub proof fn lemma_history_bounded(broadcaster: AIThoughtBroadcaster)
    ensures
        broadcaster.history().len() <= broadcaster.capacity(),
        broadcaster.published().len() <= broadcaster.capacity() ==> broadcaster.history()
            == broadcaster.published(),
{
}

/// A receiver that subscribed after `earlier` had been published is owed
/// exactly what is published `later`.
pub proof fn lemma_subscription_starts_empty<T>(earlier: Seq<T>, later: Seq<T>)
    ensures
        stream_after(earlier, earlier.len()) == Seq::<T>::empty(),
        stream_after(earlier + later, earlier.len()) == later,
{
    assert(stream_after(earlier + later, earlier.len()) =~= later);
}

/// A receiver that subscribed after `earlier` had been published is never
/// handed one of those records, however often it asks: each record it gets
/// is one published `later`, and its position never moves back.
pub proof fn lemma_receiver_never_sees_the_past(
    earlier: Seq<ThoughtView>,
    later: Seq<ThoughtView>,
    position: nat,
)
    requires
        position >= earlier.len(),
    ensures
        delivery(earlier + later, position).1 >= position,
        delivery(earlier + later, position).0 matches StreamStep::Record(record) ==> position
            < earlier.len() + later.len() && record == later[position - earlier.len()],
{
}

/// A receiver is told of a lag exactly when more records are in front of it
/// than the stream has slots: it then hears how many it missed, and goes on
/// with the oldest record that the stream still holds. A receiver that is at
/// most that many records behind is handed its next record.
pub proof fn lemma_lag_is_measured_from_capacity(stream: Seq<ThoughtView>, position: nat)
    requires
        position < stream.len(),
    ensures
        position + STREAM_CAPACITY < stream.len() ==> delivery(stream, position) == (
            StreamStep::Lagged((stream.len() - STREAM_CAPACITY - position) as nat),
            (stream.len() - STREAM_CAPACITY) as nat,
        ) && delivery(stream, (stream.len() - STREAM_CAPACITY) as nat).0 == StreamStep::Record(
            stream[stream.len() - STREAM_CAPACITY],
        ),
        position + STREAM_CAPACITY >= stream.len() ==> delivery(stream, position) == (
            StreamStep::Record(stream[position as int]),
            position + 1,
        ),
{
}

} // verus!
