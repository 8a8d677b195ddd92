//! The result of an embedding call: one embedding per batch position, in a
//! map keyed by the position.

use nohash_hasher::{BuildNoHashHasher, NoHashHasher};
use std::collections::HashMap;
use std::hash::BuildHasherDefault;
use vstd::prelude::*;

verus! {

/// The hasher of `nohash_hasher` that hands an integer key on as its own
/// hash. Its inside is of no concern here.
#[verifier::external_type_specification]
#[verifier::external_body]
#[verifier::reject_recursive_types(T)]
pub struct ExNoHashHasher<T>(NoHashHasher<T>);

/// std's builder of hashers that start from their default state.
#[verifier::external_type_specification]
#[verifier::external_body]
#[verifier::reject_recursive_types(H)]
pub struct ExBuildHasherDefault<H>(BuildHasherDefault<H>);

/// What the model gave for one sequence. `T` is the number type of the
/// vectors, which the adapter carries and never reads.
#[derive(Debug, Clone, PartialEq)]
pub enum Embedding<T> {
    /// One vector for the whole sequence.
    Pooled(Vec<T>),
    /// One vector for each token of the sequence.
    Raw(Vec<Vec<T>>),
}

/// The mathematical value of an [`Embedding`].
pub enum EmbeddingView<T> {
    Pooled(Seq<T>),
    Raw(Seq<Seq<T>>),
}

impl<T> View for Embedding<T> {
    type V = EmbeddingView<T>;

    open spec fn view(&self) -> EmbeddingView<T> {
        match self {
            Embedding::Pooled(vector) => EmbeddingView::Pooled(vector@),
            Embedding::Raw(rows) => EmbeddingView::Raw(rows@.map_values(|row: Vec<T>| row@)),
        }
    }
}

/// The embeddings of a batch, each under its position in the batch.
pub type Embeddings<T> = HashMap<usize, Embedding<T>, BuildNoHashHasher<usize>>;

/// The class scores of a batch, each under its position in the batch.
pub type Predictions<T> = HashMap<usize, Vec<T>, BuildNoHashHasher<usize>>;

/// `BuildHasherDefault::default` of std, which `nohash_hasher` offers under
/// the name `BuildNoHashHasher::default`. Nothing is claimed of the builder
/// that comes back.
pub assume_specification<H>[ <BuildHasherDefault<H> as Default>::default ]() -> (builder:
    BuildHasherDefault<H>)
;

/// `HashMap::with_capacity_and_hasher` of std. Believed, as std documents
/// it: the map that comes back is empty, whatever the capacity and the
/// builder of hashers are.
pub assume_specification<K, V, S>[ HashMap::<K, V, S>::with_capacity_and_hasher ](
    capacity: usize,
    hash_builder: S,
) -> (created: HashMap<K, V, S>)
    ensures
        (created@ == Map::<K, V>::empty()),
;

/// Puts `embedding` under `position` with `HashMap::insert`. Believed: the
/// map then holds `embedding` under `position`, in place of what stood there,
/// and every other key as before. vstd says so of a map whose hasher it
/// knows; here the hasher is that of `nohash_hasher`, which hashes a `usize`
/// key to the key itself, the same on every call.
#[verifier::external_body]
fn insert<T>(embeddings: &mut Embeddings<T>, position: usize, embedding: Embedding<T>)
    ensures
        final(embeddings)@ == old(embeddings)@.insert(position, embedding),
{
    embeddings.insert(position, embedding);
}

/// The map that holds `vectors[i]`, as a pooled embedding, under each
/// position `i`, and nothing else.
pub open spec fn keyed_by_position<T>(
    map: Map<usize, Embedding<T>>,
    vectors: Seq<Vec<T>>,
) -> bool {
    &&& forall|position: usize| map.contains_key(position) <==> position < vectors.len()
    &&& forall|position: usize|
        position < vectors.len() ==> (#[trigger] map[position])@ == EmbeddingView::Pooled(
            vectors[position as int]@,
        )
}

/// Keys the vectors by their position: the vector at index `i` becomes the
/// pooled embedding of batch position `i`.
pub fn key_by_position<T>(vectors: Vec<Vec<T>>) -> (map: Embeddings<T>)
    ensures
        keyed_by_position(map@, vectors@),
{
    let mut map: Embeddings<T> = HashMap::with_capacity_and_hasher(
        vectors.len(),
        BuildNoHashHasher::default(),
    );
    let mut position: usize = 0;
    for vector in iter: vectors.into_iter()
        invariant
            iter.seq() == vectors@,
            vectors@.len() <= usize::MAX,
            position == iter.index(),
            keyed_by_position(map@, vectors@.take(position as int)),
    {
        assert(position < vectors@.len());
        insert(&mut map, position, Embedding::Pooled(vector));
        position = position + 1;
    }
    assert(vectors@.take(position as int) == vectors@);
    map
}

} // verus!
