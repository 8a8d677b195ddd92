//! What kind of model the child serves, and which kinds the adapter accepts.

use crate::error::{BackendError, BackendErrorView};
use vstd::prelude::*;
use vstd::string::*;

verus! {

/// How the token embeddings of a sequence are reduced to one vector.
#[derive(Debug, Clone, Copy, PartialEq, Eq, Structural)]
pub enum Pool {
    /// Take the embedding of the first token.
    Cls,
    /// Average the embeddings of all tokens.
    Mean,
    /// Sparse lexical pooling.
    Splade,
    /// Take the embedding of the last token.
    LastToken,
}

/// What a model produces.
#[derive(Debug, Clone, Copy, PartialEq, Eq, Structural)]
pub enum ModelType {
    /// Class scores for a sequence.
    Classifier,
    /// Embeddings, pooled by the given strategy.
    Embedding(Pool),
}

/// The text that rejects a classifier.
pub open spec fn classifier_rejection() -> Seq<char> {
    "`classifier` model type is not supported"@
}

/// The words that follow a strategy's name where it is rejected.
pub open spec fn rejection_suffix() -> Seq<char> {
    " is not supported"@
}

impl Pool {
    /// The name of the strategy, as it is written in error texts.
    pub open spec fn spec_name(self) -> Seq<char> {
        match self {
            Pool::Cls => "Cls"@,
            Pool::Mean => "Mean"@,
            Pool::Splade => "Splade"@,
            Pool::LastToken => "LastToken"@,
        }
    }

    /// The name of the strategy, as it is written in error texts.
    pub fn name(&self) -> (text: String)
        ensures
            text@ == self.spec_name(),
    {
        match self {
            Pool::Cls => String::from_str("Cls"),
            Pool::Mean => String::from_str("Mean"),
            Pool::Splade => String::from_str("Splade"),
            Pool::LastToken => String::from_str("LastToken"),
        }
    }

    /// Whether the adapter can serve a model pooled by this strategy: only
    /// first-token pooling is.
    pub open spec fn spec_is_supported(self) -> bool {
        self == Pool::Cls
    }

    /// Whether the adapter can serve a model pooled by this strategy.
    pub fn is_supported(&self) -> (yes: bool)
        ensures
            yes == self.spec_is_supported(),
    {
        match self {
            Pool::Cls => true,
            _ => false,
        }
    }
}

impl ModelType {
    /// Why the adapter rejects this model type, if it does: a classifier is
    /// never served, and an embedding model only with first-token pooling.
    pub open spec fn rejection(self) -> Option<Seq<char>> {
        match self {
            ModelType::Classifier => Some(classifier_rejection()),
            ModelType::Embedding(pool) => if pool.spec_is_supported() {
                None
            } else {
                Some(pool.spec_name() + rejection_suffix())
            },
        }
    }

    /// The pooling strategy of a model that the adapter accepts, or the
    /// configuration error that rejects the model.
    pub fn supported_pool(&self) -> (outcome: Result<Pool, BackendError>)
        ensures
            match self.rejection() {
                None => outcome == Ok::<Pool, BackendError>(Pool::Cls),
                Some(text) => outcome matches Err(e) && e@ == BackendErrorView::Config(text),
            },
    {
        match self {
            ModelType::Classifier => Err(
                BackendError::Config(String::from_str("`classifier` model type is not supported")),
            ),
            ModelType::Embedding(pool) => {
                if pool.is_supported() {
                    Ok(*pool)
                } else {
                    Err(BackendError::Config(pool.name().concat(" is not supported")))
                }
            },
        }
    }
}

} // verus!
