//! The shape of an embedding request as the child process expects it.

use crate::batch::Batch;
use vstd::prelude::*;

verus! {

/// One embedding request: the token arrays of a batch, its offsets and the
/// length of its longest sequence.
#[derive(Debug, Clone, PartialEq, Eq)]
pub struct EmbedRequest {
    /// The token ids of all sequences.
    pub input_ids: Vec<u32>,
    /// The token type of each token.
    pub token_type_ids: Vec<u32>,
    /// The position of each token within its sequence.
    pub position_ids: Vec<u32>,
    /// Where each sequence starts, and at the end where the last one stops.
    pub cu_seq_lengths: Vec<u32>,
    /// The length of the longest sequence.
    pub max_length: u32,
}

/// The mathematical value of an [`EmbedRequest`].
pub struct EmbedRequestView {
    pub input_ids: Seq<u32>,
    pub token_type_ids: Seq<u32>,
    pub position_ids: Seq<u32>,
    pub cu_seq_lengths: Seq<u32>,
    pub max_length: u32,
}

impl View for EmbedRequest {
    type V = EmbedRequestView;

    open spec fn view(&self) -> EmbedRequestView {
        EmbedRequestView {
            input_ids: self.input_ids@,
            token_type_ids: self.token_type_ids@,
            position_ids: self.position_ids@,
            cu_seq_lengths: self.cu_seq_lengths@,
            max_length: self.max_length,
        }
    }
}

/// The number of sequences that a list of offsets delimits: one less than
/// the number of offsets, and none where there is no offset.
pub open spec fn implied_sequences(offsets: Seq<u32>) -> nat {
    if offsets.len() == 0 {
        0
    } else {
        (offsets.len() - 1) as nat
    }
}

impl EmbedRequestView {
    /// The number of sequences that the request asks embeddings for.
    pub open spec fn sequence_count(self) -> nat {
        implied_sequences(self.cu_seq_lengths)
    }
}

/// The request that carries the arrays of `batch` as they are.
pub open spec fn request_of(batch: Batch) -> EmbedRequestView {
    EmbedRequestView {
        input_ids: batch.input_ids@,
        token_type_ids: batch.token_type_ids@,
        position_ids: batch.position_ids@,
        cu_seq_lengths: batch.cumulative_seq_lengths@,
        max_length: batch.max_length,
    }
}

impl EmbedRequest {
    /// Puts the arrays of a batch into the shape of a request, unchanged.
    pub fn from_batch(batch: Batch) -> (request: EmbedRequest)
        ensures
            request@ == request_of(batch),
    {
        EmbedRequest {
            input_ids: batch.input_ids,
            token_type_ids: batch.token_type_ids,
            position_ids: batch.position_ids,
            cu_seq_lengths: batch.cumulative_seq_lengths,
            max_length: batch.max_length,
        }
    }

    /// The number of sequences that the request asks embeddings for, which
    /// is the number of vectors that its answer must hold.
    pub fn sequence_count(&self) -> (count: usize)
        ensures
            count == self@.sequence_count(),
    {
        let offsets: usize = self.cu_seq_lengths.len();
        if offsets == 0 {
            0
        } else {
            offsets - 1
        }
    }
}

} // verus!
