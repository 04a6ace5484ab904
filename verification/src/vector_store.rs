//! Where patterns and strategies are kept as vectors: the names of the
//! collections and the store's figures.

use vstd::prelude::*;
use vstd::string::StringExecFns;

use crate::text::join;
use crate::text::joined;
use crate::text::slices;

verus! {

/// How many numbers an embedding has.
pub const EMBEDDING_DIMENSION: usize = 384;

/// The kinds of market patterns.
#[derive(Debug, Clone, Copy, PartialEq, Eq, Structural)]
pub enum PatternType {
    TechnicalBreakout,
    MeanReversion,
    MomentumContinuation,
    VolumeSpike,
    SentimentShift,
    EarningsPlay,
    NewsReaction,
    IntermarketSignal,
}

/// The figures of a vector store.
#[derive(Debug)]
pub struct VectorStoreStats {
    pub total_patterns: u64,
    pub total_strategies: u64,
    pub embedding_dimension: usize,
    pub collection_name: String,
}

/// The name of the collection that holds the patterns of a store.
pub open spec fn patterns_collection(collection_name: Seq<char>) -> Seq<char> {
    joined(seq![collection_name, "_patterns"@])
}

/// The name of the collection that holds the strategies of a store.
pub open spec fn strategies_collection(collection_name: Seq<char>) -> Seq<char> {
    joined(seq![collection_name, "_strategies"@])
}

/// A store of vectors, known by the name of its collections and the
/// dimension of its embeddings.
#[derive(Debug)]
pub struct VectorStore {
    pub collection_name: String,
    pub embedding_dim: usize,
}

impl VectorStore {
    /// Names a store.
    pub fn new(collection_name: &str, embedding_dim: usize) -> (store: VectorStore)
        ensures
            store.collection_name@ == collection_name@,
            store.embedding_dim == embedding_dim,
    {
        VectorStore { collection_name: String::from_str(collection_name), embedding_dim }
    }

    /// The name of the collection that holds the store's patterns.
    pub fn patterns_collection_name(&self) -> (name: String)
        ensures
            name@ == patterns_collection(self.collection_name@),
    {
        let parts = [self.collection_name.as_str(), "_patterns"];
        let name = join(&parts);
        assert(slices(parts@) =~= seq![self.collection_name@, "_patterns"@]);
        name
    }

    /// The name of the collection that holds the store's strategies.
    pub fn strategies_collection_name(&self) -> (name: String)
        ensures
            name@ == strategies_collection(self.collection_name@),
    {
        let parts = [self.collection_name.as_str(), "_strategies"];
        let name = join(&parts);
        assert(slices(parts@) =~= seq![self.collection_name@, "_strategies"@]);
        name
    }

    /// The store's figures, given how many points each of its two
    /// collections reports; a collection that reports nothing counts as
    /// empty.
    pub fn get_stats(&self, patterns: Option<u64>, strategies: Option<u64>) -> (stats:
        VectorStoreStats)
        ensures
            stats.total_patterns == (match patterns {
                Some(count) => count,
                None => 0,
            }),
            stats.total_strategies == (match strategies {
                Some(count) => count,
                None => 0,
            }),
            stats.embedding_dimension == self.embedding_dim,
            stats.collection_name@ == self.collection_name@,
    {
        VectorStoreStats {
            total_patterns: match patterns {
                Some(count) => count,
                None => 0,
            },
            total_strategies: match strategies {
                Some(count) => count,
                None => 0,
            },
            embedding_dimension: self.embedding_dim,
            collection_name: self.collection_name.clone(),
        }
    }
}

/// Whether a collection of the given name is among `existing`.
pub open spec fn is_listed(existing: Seq<String>, name: Seq<char>) -> bool {
    exists|i: int| 0 <= i < existing.len() && (#[trigger] existing[i])@ == name
}

impl VectorStore {
    /// Whether the collection `name` has yet to be created: it is not among
    /// the collections that exist.
    pub fn needs_creation(existing: &Vec<String>, name: &str) -> (missing: bool)
        ensures
            missing == !is_listed(existing@, name@),
    {
        let mut i: usize = 0;
        while i < existing.len()
            invariant
                i <= existing.len(),
                forall|j: int| 0 <= j < i ==> existing@[j]@ != name@,
            decreases existing.len() - i,
        {
            if crate::text::same_text(existing[i].as_str(), name) {
                return false;
            }
            i += 1;
        }
        true
    }
}

/// Turns market conditions and strategies into embeddings.
#[derive(Debug)]
pub struct EmbeddingGenerator {
    pub model_name: String,
}

impl EmbeddingGenerator {
    /// Creates a generator for the model of the given name.
    pub fn new(model_name: &str) -> (generator: EmbeddingGenerator)
        ensures
            generator.model_name@ == model_name@,
    {
        EmbeddingGenerator { model_name: String::from_str(model_name) }
    }
}

} // verus!
