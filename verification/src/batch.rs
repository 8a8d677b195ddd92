//! The batch that the host hands to the adapter: one or more token
//! sequences, laid end to end in parallel arrays.

use vstd::prelude::*;

verus! {

/// A batch of token sequences, flattened.
///
/// Sequence `i` owns the positions from `cumulative_seq_lengths[i]` up to,
/// and without, `cumulative_seq_lengths[i + 1]` of the three token arrays.
#[derive(Debug, Clone, PartialEq, Eq)]
pub struct Batch {
    /// The token ids of all sequences.
    pub input_ids: Vec<u32>,
    /// The token type of each token.
    pub token_type_ids: Vec<u32>,
    /// The position of each token within its sequence.
    pub position_ids: Vec<u32>,
    /// Where each sequence starts, and at the end where the last one stops.
    pub cumulative_seq_lengths: Vec<u32>,
    /// The length of the longest sequence.
    pub max_length: u32,
    /// The batch positions for which one vector per token is asked.
    pub raw_indices: Vec<u32>,
}

/// The number of tokens of sequence `i` under the given offsets.
pub open spec fn sequence_length(offsets: Seq<u32>, i: int) -> int {
    offsets[i + 1] - offsets[i]
}

/// The offsets never step back.
pub open spec fn offsets_ordered(offsets: Seq<u32>) -> bool {
    forall|i: int, j: int| 0 <= i <= j < offsets.len() ==> offsets[i] <= offsets[j]
}

/// The offsets cut `tokens` tokens into one or more sequences: they start
/// at zero, never step back and end at `tokens`.
pub open spec fn offsets_delimit(offsets: Seq<u32>, tokens: nat) -> bool {
    &&& offsets.len() >= 2
    &&& offsets[0] == 0
    &&& offsets_ordered(offsets)
    &&& offsets[offsets.len() - 1] == tokens
}

/// No sequence under the offsets is longer than `longest`, and one is as
/// long.
pub open spec fn is_longest(offsets: Seq<u32>, longest: int) -> bool {
    &&& forall|i: int| 0 <= i < offsets.len() - 1 ==> sequence_length(offsets, i) <= longest
    &&& exists|i: int| 0 <= i < offsets.len() - 1 && sequence_length(offsets, i) == longest
}

impl Batch {
    /// The number of sequences that the offsets imply.
    pub open spec fn spec_len(self) -> int {
        self.cumulative_seq_lengths@.len() - 1
    }

    /// The batch is valid: the three token arrays are aligned, the offsets
    /// cut them into one or more sequences, and `max_length` is the length of
    /// the longest of these.
    pub open spec fn wf(self) -> bool {
        &&& self.token_type_ids@.len() == self.input_ids@.len()
        &&& self.position_ids@.len() == self.input_ids@.len()
        &&& offsets_delimit(self.cumulative_seq_lengths@, self.input_ids@.len())
        &&& is_longest(self.cumulative_seq_lengths@, self.max_length as int)
    }

    /// The number of sequences in the batch.
    pub fn len(&self) -> (n: usize)
        requires
            self.cumulative_seq_lengths@.len() >= 1,
        ensures
            n == self.spec_len(),
    {
        self.cumulative_seq_lengths.len() - 1
    }

    /// Whether the batch holds no sequence.
    pub fn is_empty(&self) -> (yes: bool)
        requires
            self.cumulative_seq_lengths@.len() >= 1,
        ensures
            yes == (self.spec_len() == 0),
    {
        self.len() == 0
    }

    /// Whether the batch asks for token-level output at any position.
    pub fn wants_raw(&self) -> (yes: bool)
        ensures
            yes == (self.raw_indices@.len() > 0),
    {
        self.raw_indices.len() > 0
    }

    /// Decides whether the batch is valid.
    pub fn is_valid(&self) -> (ok: bool)
        ensures
            ok == self.wf(),
    {
        let tokens: usize = self.input_ids.len();
        if self.token_type_ids.len() != tokens || self.position_ids.len() != tokens {
            return false;
        }
        let count: usize = self.cumulative_seq_lengths.len();
        if count < 2 {
            return false;
        }
        if self.cumulative_seq_lengths[0] != 0 {
            return false;
        }
        let ghost offsets = self.cumulative_seq_lengths@;
        let mut longest: u32 = 0;
        let mut k: usize = 1;
        while k < count
            invariant
                offsets == self.cumulative_seq_lengths@,
                count == offsets.len(),
                1 <= k <= count,
                forall|i: int, j: int| 0 <= i <= j < k ==> offsets[i] <= offsets[j],
                forall|i: int| 0 <= i < k - 1 ==> sequence_length(offsets, i) <= longest,
                k == 1 ==> longest == 0,
                k > 1 ==> exists|i: int| 0 <= i < k - 1 && sequence_length(offsets, i) == longest,
            decreases count - k,
        {
            let start: u32 = self.cumulative_seq_lengths[k - 1];
            let stop: u32 = self.cumulative_seq_lengths[k];
            if stop < start {
                return false;
            }
            let length: u32 = stop - start;
            assert(sequence_length(offsets, k - 1) == length);
            if k == 1 || length > longest {
                longest = length;
            }
            k = k + 1;
        }
        assert(offsets_ordered(offsets));
        if self.cumulative_seq_lengths[count - 1] as usize != tokens {
            return false;
        }
        assert(offsets_delimit(offsets, tokens as nat));
        if longest != self.max_length {
            proof {
                if is_longest(offsets, self.max_length as int) {
                    let held = choose|i: int|
                        0 <= i < offsets.len() - 1 && sequence_length(offsets, i) == longest;
                    let claimed = choose|i: int|
                        0 <= i < offsets.len() - 1 && sequence_length(offsets, i)
                            == self.max_length as int;
                    assert(sequence_length(offsets, held) <= self.max_length);
                    assert(sequence_length(offsets, claimed) <= longest);
                }
            }
            return false;
        }
        true
    }
}

} // verus!
