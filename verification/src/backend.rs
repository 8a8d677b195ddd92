//! The adapter that the host talks to.
//!
//! The adapter decides and its owner acts. A call that needs the child is
//! therefore made in two steps: the adapter first says what is to be sent, if
//! anything, and then says what the host gets for the answer that came.

use crate::batch::Batch;
use crate::client::{check_reply, checked_reply, count_mismatch};
use crate::embeddings::{
    key_by_position,
    keyed_by_position,
    Embedding,
    EmbeddingView,
    Embeddings,
    Predictions,
};
use crate::error::{BackendError, BackendErrorView, TransportError, TransportErrorView};
use crate::launch::{optional_text, LaunchConfig, LaunchConfigView};
use crate::model::{classifier_rejection, rejection_suffix, ModelType, Pool};
use crate::supervisor::{
    ProcessSupervisor,
    SupervisorAction,
    SupervisorEvent,
    SupervisorView,
    READY_PROBES,
};
use crate::wire::{request_of, EmbedRequest, EmbedRequestView};
use vstd::prelude::*;
use vstd::string::*;

verus! {

/// The text that rejects a batch which asks for token-level output.
pub open spec fn raw_unsupported() -> Seq<char> {
    "raw embeddings are not supported for the Python backend."@
}

/// The text that rejects every prediction.
pub open spec fn predict_unsupported() -> Seq<char> {
    "`predict` is not implemented"@
}

/// Why an adapter for such a model, started with such parameters, is
/// refused: for the model type where that is not supported, whatever the
/// parameters are, and else for the first flaw of the parameters.
pub open spec fn refusal(model_type: ModelType, config: LaunchConfigView) -> Option<Seq<char>> {
    match model_type.rejection() {
        Some(text) => Some(text),
        None => config.flaw(),
    }
}

/// What the host gets for the channel's answer to `request`: the vectors,
/// where the client takes the answer, and else an inference error with the
/// cause that the client names.
pub open spec fn embed_outcome<T>(
    request: EmbedRequestView,
    reply: Result<Vec<Vec<T>>, TransportError>,
) -> Result<Seq<Vec<T>>, BackendErrorView> {
    match checked_reply(request.sequence_count(), reply) {
        Ok(vectors) => Ok(vectors),
        Err(failure) => Err(BackendErrorView::Inference(failure.message())),
    }
}

/// An embedding backend whose model runs in a child process.
#[derive(Debug, Clone, PartialEq, Eq)]
pub struct PythonBackend {
    supervisor: ProcessSupervisor,
}

impl View for PythonBackend {
    type V = SupervisorView;

    closed spec fn view(&self) -> SupervisorView {
        self.supervisor@
    }
}

impl PythonBackend {
    /// An adapter for a model of the given type, whose child process is
    /// started with the given parameters.
    ///
    /// A classifier, and an embedding model pooled otherwise than by its
    /// first token, is refused with a configuration error, whatever the other
    /// parameters are; so are parameters with a flaw. The adapter that comes
    /// back has asked for nothing yet: its supervisor is fresh, and starts
    /// the child once [`advance`](Self::advance) is told to.
    pub fn new(
        model_path: String,
        dtype: String,
        model_type: ModelType,
        uds_path: String,
        otlp_endpoint: Option<String>,
    ) -> (outcome: Result<PythonBackend, BackendError>)
        ensures
            match refusal(
                model_type,
                LaunchConfigView::of(model_path@, dtype@, uds_path@, optional_text(otlp_endpoint)),
            ) {
                Some(text) => outcome matches Err(e) && e@ == BackendErrorView::Config(text),
                None => outcome matches Ok(backend) && backend@ == SupervisorView::fresh(
                    LaunchConfigView::of(
                        model_path@,
                        dtype@,
                        uds_path@,
                        optional_text(otlp_endpoint),
                    ),
                    READY_PROBES as nat,
                ),
            },
    {
        match model_type.supported_pool() {
            Err(rejected) => {
                return Err(rejected);
            },
            Ok(_) => {},
        }
        let config = LaunchConfig { model_path, dtype, uds_path, otlp_endpoint };
        match config.flaw() {
            Some(text) => {
                return Err(BackendError::Config(text));
            },
            None => {},
        }
        match ProcessSupervisor::new(config, READY_PROBES) {
            Ok(supervisor) => Ok(PythonBackend { supervisor }),
            Err(refused) => Err(refused),
        }
    }

    /// The supervisor of the adapter's child process.
    pub fn supervisor(&self) -> (supervisor: &ProcessSupervisor)
        ensures
            supervisor@ == self@,
    {
        &self.supervisor
    }

    /// Tells the supervisor what happened to the child, and says what is to
    /// be done.
    pub fn advance(&mut self, event: SupervisorEvent) -> (action: SupervisorAction)
        ensures
            (final(self)@, action) == old(self)@.next(event@),
            old(self)@.wf() ==> final(self)@.wf(),
    {
        self.supervisor.step(event)
    }

    /// What the host gets for a health round trip: the adapter is healthy
    /// exactly if the round trip succeeded, and unhealthy whatever the cause
    /// was where it failed.
    pub fn health(&self, round_trip: Result<(), TransportError>) -> (outcome: Result<
        (),
        BackendError,
    >)
        ensures
            outcome is Ok <==> round_trip is Ok,
            outcome matches Err(e) ==> e@ == BackendErrorView::Unhealthy,
    {
        match round_trip {
            Ok(_) => Ok(()),
            Err(_) => Err(BackendError::Unhealthy),
        }
    }

    /// Whether the child wants its batches padded: it does not.
    pub fn is_padded(&self) -> (padded: bool)
        ensures
            !padded,
    {
        false
    }

    /// The request to send for `batch`.
    ///
    /// A batch that asks for token-level output at any position is rejected
    /// with an inference error, and nothing is to be sent. For any other
    /// batch the request carries the arrays of the batch as they are.
    pub fn embed_request(&self, batch: Batch) -> (outcome: Result<EmbedRequest, BackendError>)
        ensures
            batch.raw_indices@.len() > 0 ==> (outcome matches Err(e) && e@
                == BackendErrorView::Inference(raw_unsupported())),
            batch.raw_indices@.len() == 0 ==> (outcome matches Ok(request) && request@
                == request_of(batch)),
    {
        if batch.wants_raw() {
            return Err(
                BackendError::Inference(
                    String::from_str("raw embeddings are not supported for the Python backend."),
                ),
            );
        }
        Ok(EmbedRequest::from_batch(batch))
    }

    /// What the host gets for the channel's answer to `request`.
    ///
    /// Where the channel failed, or the answer does not hold one vector for
    /// each sequence of the request, the host gets an inference error with
    /// the cause, and no embedding. Else it gets every vector, as a pooled
    /// embedding, under the position that its sequence has in the batch.
    pub fn embed<T>(&self, request: &EmbedRequest, reply: Result<Vec<Vec<T>>, TransportError>) -> (outcome:
        Result<Embeddings<T>, BackendError>)
        ensures
            match embed_outcome(request@, reply) {
                Ok(vectors) => outcome matches Ok(embeddings) && keyed_by_position(
                    embeddings@,
                    vectors,
                ),
                Err(failure) => outcome matches Err(e) && e@ == failure,
            },
    {
        match check_reply(request, reply) {
            Ok(vectors) => Ok(key_by_position(vectors)),
            Err(failure) => Err(BackendError::Inference(failure.message())),
        }
    }

    /// Class scores are not to be had from this backend: the call fails
    /// with an inference error for every batch, and nothing is to be sent.
    pub fn predict<T>(&self, batch: Batch) -> (outcome: Result<Predictions<T>, BackendError>)
        ensures
            outcome matches Err(e) && e@ == BackendErrorView::Inference(predict_unsupported()),
    {
        Err(BackendError::Inference(String::from_str("`predict` is not implemented")))
    }
}

/// A classifier is refused whatever the launch parameters are.
pub proof fn lemma_classifier_is_refused(config: LaunchConfigView)
    ensures
        refusal(ModelType::Classifier, config) == Some(classifier_rejection()),
{
}

/// An embedding model pooled otherwise than by its first token is refused
/// whatever the launch parameters are, and the refusal names the strategy.
pub proof fn lemma_other_pooling_is_refused(pool: Pool, config: LaunchConfigView)
    requires
        pool != Pool::Cls,
    ensures
        refusal(ModelType::Embedding(pool), config) == Some(pool.spec_name() + rejection_suffix()),
{
}

/// An answer that holds another number of vectors than the request has
/// sequences is a protocol violation to the client, and an inference error
/// with the same text to the host.
pub proof fn lemma_wrong_count_is_refused<T>(request: EmbedRequestView, vectors: Vec<Vec<T>>)
    requires
        vectors@.len() != request.sequence_count(),
    ensures
        checked_reply(request.sequence_count(), Ok::<Vec<Vec<T>>, TransportError>(vectors)) == Err::<
            Seq<Vec<T>>,
            TransportErrorView,
        >(TransportErrorView::Protocol(count_mismatch())),
        embed_outcome(request, Ok::<Vec<Vec<T>>, TransportError>(vectors)) == Err::<
            Seq<Vec<T>>,
            BackendErrorView,
        >(BackendErrorView::Inference(count_mismatch())),
{
}

/// For a valid batch that asks for no token-level output, the adapter
/// gives embeddings exactly if the channel's answer holds as many vectors as
/// the batch has sequences; the embeddings then stand under the positions of
/// the batch, each of them and no other key. In every other case it gives an
/// error, and so never a part of the embeddings.
pub proof fn lemma_embed_is_all_or_nothing<T>(
    batch: Batch,
    reply: Result<Vec<Vec<T>>, TransportError>,
    embeddings: Map<usize, Embedding<T>>,
)
    requires
        batch.wf(),
    ensures
        embed_outcome(request_of(batch), reply) is Ok <==> (reply matches Ok(vectors)
            && vectors@.len() == batch.spec_len()),
        (embed_outcome(request_of(batch), reply) matches Ok(vectors) && keyed_by_position(
            embeddings,
            vectors,
        )) ==> embeddings.dom() =~= Set::new(|position: usize| position < batch.spec_len()),
{
}

/// Where the channel's answer holds one vector for each sequence of the
/// request, and all the vectors have one length, the adapter gives
/// embeddings, and each of them is a pooled vector of that length.
pub proof fn lemma_embed_keeps_dimension<T>(
    request: EmbedRequestView,
    vectors: Vec<Vec<T>>,
    dimension: nat,
    embeddings: Map<usize, Embedding<T>>,
)
    requires
        vectors@.len() == request.sequence_count(),
        forall|i: int| 0 <= i < vectors@.len() ==> (#[trigger] vectors@[i])@.len() == dimension,
        keyed_by_position(embeddings, vectors@),
    ensures
        embed_outcome(request, Ok::<Vec<Vec<T>>, TransportError>(vectors)) == Ok::<
            Seq<Vec<T>>,
            BackendErrorView,
        >(vectors@),
        forall|position: usize| #[trigger]
            embeddings.contains_key(position) ==> (embeddings[position]@ matches EmbeddingView::Pooled(
                vector,
            ) && vector.len() == dimension),
{
}

} // verus!
