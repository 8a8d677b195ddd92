use text_embeddings_backend_python::batch::Batch;
use text_embeddings_backend_python::client::check_reply;
use text_embeddings_backend_python::embeddings::{key_by_position, Embedding, Embeddings, Predictions};
use text_embeddings_backend_python::error::{BackendError, TransportError};
use text_embeddings_backend_python::model::{ModelType, Pool};
use text_embeddings_backend_python::supervisor::{ChildStatus, SupervisorState, READY_PROBES};
use text_embeddings_backend_python::wire::EmbedRequest;
use text_embeddings_backend_python::PythonBackend;

fn text(s: &str) -> String {
    s.to_string()
}

fn backend() -> PythonBackend {
    PythonBackend::new(
        text("/models/bge"),
        text("float16"),
        ModelType::Embedding(Pool::Cls),
        text("/tmp/backend.sock"),
        None,
    )
    .unwrap()
}

fn two_sequences() -> Batch {
    Batch {
        input_ids: vec![101, 7, 102, 101, 8, 9, 102],
        token_type_ids: vec![0, 0, 0, 0, 0, 0, 0],
        position_ids: vec![0, 1, 2, 0, 1, 2, 3],
        cumulative_seq_lengths: vec![0, 3, 7],
        max_length: 4,
        raw_indices: vec![],
    }
}

#[test]
fn new_accepts_first_token_pooling() {
    let backend = PythonBackend::new(
        text("/models/bge"),
        text("float16"),
        ModelType::Embedding(Pool::Cls),
        text("/tmp/backend.sock"),
        Some(text("http://localhost:4317")),
    )
    .unwrap();
    let supervisor = backend.supervisor();
    assert_eq!(supervisor.state(), SupervisorState::NotStarted);
    assert_eq!(supervisor.child(), ChildStatus::Absent);
    assert_eq!(supervisor.probes(), 0);
    assert_eq!(supervisor.start_error(), None);
    assert_eq!(supervisor.config().model_path, "/models/bge");
    assert_eq!(supervisor.config().dtype, "float16");
    assert_eq!(supervisor.config().uds_path, "/tmp/backend.sock");
    assert_eq!(supervisor.config().otlp_endpoint, Some(text("http://localhost:4317")));
    assert_eq!(READY_PROBES, 6000);
}

#[test]
fn new_rejects_classifier() {
    let outcome = PythonBackend::new(
        text("/models/bge"),
        text("float16"),
        ModelType::Classifier,
        text("/tmp/backend.sock"),
        None,
    );
    assert_eq!(
        outcome,
        Err(BackendError::Config(text("`classifier` model type is not supported")))
    );
}

#[test]
fn new_rejects_classifier_whatever_the_parameters() {
    let outcome = PythonBackend::new(text(""), text(""), ModelType::Classifier, text(""), Some(text("")));
    assert_eq!(
        outcome,
        Err(BackendError::Config(text("`classifier` model type is not supported")))
    );
}

#[test]
fn new_rejects_mean_pooling() {
    let outcome = PythonBackend::new(
        text("/models/bge"),
        text("float16"),
        ModelType::Embedding(Pool::Mean),
        text("/tmp/backend.sock"),
        None,
    );
    assert_eq!(outcome, Err(BackendError::Config(text("Mean is not supported"))));
}

#[test]
fn new_rejects_splade_pooling() {
    let outcome = PythonBackend::new(
        text("/models/bge"),
        text("float16"),
        ModelType::Embedding(Pool::Splade),
        text("/tmp/backend.sock"),
        None,
    );
    assert_eq!(outcome, Err(BackendError::Config(text("Splade is not supported"))));
}

#[test]
fn new_rejects_last_token_pooling_before_it_looks_at_paths() {
    let outcome = PythonBackend::new(
        text(""),
        text("float16"),
        ModelType::Embedding(Pool::LastToken),
        text(""),
        None,
    );
    assert_eq!(outcome, Err(BackendError::Config(text("LastToken is not supported"))));
}

#[test]
fn new_rejects_empty_model_path() {
    let outcome = PythonBackend::new(
        text(""),
        text("float16"),
        ModelType::Embedding(Pool::Cls),
        text("/tmp/backend.sock"),
        None,
    );
    assert_eq!(outcome, Err(BackendError::Config(text("the model path is empty"))));
}

#[test]
fn new_rejects_empty_dtype() {
    let outcome = PythonBackend::new(
        text("/models/bge"),
        text(""),
        ModelType::Embedding(Pool::Cls),
        text("/tmp/backend.sock"),
        None,
    );
    assert_eq!(outcome, Err(BackendError::Config(text("the dtype is empty"))));
}

#[test]
fn new_rejects_empty_socket_path() {
    let outcome = PythonBackend::new(
        text("/models/bge"),
        text("float16"),
        ModelType::Embedding(Pool::Cls),
        text(""),
        None,
    );
    assert_eq!(outcome, Err(BackendError::Config(text("the socket path is empty"))));
}

#[test]
fn new_rejects_empty_telemetry_endpoint() {
    let outcome = PythonBackend::new(
        text("/models/bge"),
        text("float16"),
        ModelType::Embedding(Pool::Cls),
        text("/tmp/backend.sock"),
        Some(text("")),
    );
    assert_eq!(outcome, Err(BackendError::Config(text("the telemetry endpoint is empty"))));
}

#[test]
fn pool_names() {
    assert_eq!(Pool::Cls.name(), "Cls");
    assert_eq!(Pool::Mean.name(), "Mean");
    assert_eq!(Pool::Splade.name(), "Splade");
    assert_eq!(Pool::LastToken.name(), "LastToken");
    assert!(Pool::Cls.is_supported());
    assert!(!Pool::Mean.is_supported());
    assert!(!Pool::Splade.is_supported());
    assert!(!Pool::LastToken.is_supported());
}

#[test]
fn pool_names_are_their_debug_form() {
    for pool in [Pool::Cls, Pool::Mean, Pool::Splade, Pool::LastToken] {
        assert_eq!(pool.name(), format!("{:?}", pool));
    }
}

#[test]
fn supported_pool_of_each_model_type() {
    assert_eq!(ModelType::Embedding(Pool::Cls).supported_pool(), Ok(Pool::Cls));
    assert_eq!(
        ModelType::Embedding(Pool::Mean).supported_pool(),
        Err(BackendError::Config(text("Mean is not supported")))
    );
    assert_eq!(
        ModelType::Classifier.supported_pool(),
        Err(BackendError::Config(text("`classifier` model type is not supported")))
    );
}

#[test]
fn is_padded_is_false() {
    assert!(!backend().is_padded());
}

#[test]
fn health_follows_the_round_trip() {
    let backend = backend();
    assert_eq!(backend.health(Ok(())), Ok(()));
    assert_eq!(
        backend.health(Err(TransportError::Channel(text("connection refused")))),
        Err(BackendError::Unhealthy)
    );
    assert_eq!(
        backend.health(Err(TransportError::Protocol(text("malformed response")))),
        Err(BackendError::Unhealthy)
    );
}

#[test]
fn embed_request_rejects_raw_indices() {
    let mut batch = two_sequences();
    batch.raw_indices = vec![1];
    assert_eq!(
        backend().embed_request(batch),
        Err(BackendError::Inference(text(
            "raw embeddings are not supported for the Python backend."
        )))
    );
}

#[test]
fn embed_request_forwards_the_arrays() {
    let request = backend().embed_request(two_sequences()).unwrap();
    assert_eq!(
        request,
        EmbedRequest {
            input_ids: vec![101, 7, 102, 101, 8, 9, 102],
            token_type_ids: vec![0, 0, 0, 0, 0, 0, 0],
            position_ids: vec![0, 1, 2, 0, 1, 2, 3],
            cu_seq_lengths: vec![0, 3, 7],
            max_length: 4,
        }
    );
}

#[test]
fn two_offsets_intervals_expect_two_vectors() {
    let request = backend().embed_request(two_sequences()).unwrap();
    assert_eq!(request.cu_seq_lengths, vec![0, 3, 7]);
    assert_eq!(request.sequence_count(), 2);
    let taken = check_reply(&request, Ok(vec![vec![0.5f32, 1.5], vec![2.5, 3.5]]));
    assert_eq!(taken, Ok(vec![vec![0.5f32, 1.5], vec![2.5, 3.5]]));
    let one: Result<Vec<Vec<f32>>, TransportError> = check_reply(&request, Ok(vec![vec![0.5f32, 1.5]]));
    assert!(one.is_err());
    let three: Result<Vec<Vec<f32>>, TransportError> =
        check_reply(&request, Ok(vec![vec![0.5f32], vec![1.5], vec![2.5]]));
    assert!(three.is_err());
}

#[test]
fn sequence_count_of_short_offsets() {
    let mut request = EmbedRequest::from_batch(two_sequences());
    request.cu_seq_lengths = vec![0];
    assert_eq!(request.sequence_count(), 0);
    request.cu_seq_lengths = vec![];
    assert_eq!(request.sequence_count(), 0);
    request.cu_seq_lengths = vec![0, 1, 2, 3, 4];
    assert_eq!(request.sequence_count(), 4);
}

#[test]
fn embed_keys_vectors_by_position() {
    let backend = backend();
    let request = backend.embed_request(two_sequences()).unwrap();
    let embeddings: Embeddings<f32> = backend
        .embed(&request, Ok(vec![vec![0.25f32, -1.0, 3.0], vec![4.0, 5.5, -6.0]]))
        .unwrap();
    assert_eq!(embeddings.len(), 2);
    assert_eq!(embeddings.get(&0), Some(&Embedding::Pooled(vec![0.25f32, -1.0, 3.0])));
    assert_eq!(embeddings.get(&1), Some(&Embedding::Pooled(vec![4.0f32, 5.5, -6.0])));
    assert_eq!(embeddings.get(&2), None);
    let mut keys: Vec<usize> = embeddings.keys().copied().collect();
    keys.sort();
    assert_eq!(keys, vec![0, 1]);
}

#[test]
fn embed_keeps_the_dimension() {
    let backend = backend();
    let mut batch = two_sequences();
    batch.cumulative_seq_lengths = vec![0, 2, 3, 7];
    let request = backend.embed_request(batch).unwrap();
    let embeddings: Embeddings<f32> = backend
        .embed(&request, Ok(vec![vec![1.0f32; 8], vec![2.0; 8], vec![3.0; 8]]))
        .unwrap();
    assert_eq!(embeddings.len(), 3);
    for position in 0..3usize {
        match embeddings.get(&position) {
            Some(Embedding::Pooled(vector)) => assert_eq!(vector.len(), 8),
            other => panic!("no pooled embedding at {}: {:?}", position, other),
        }
    }
}

#[test]
fn embed_rejects_a_wrong_count() {
    let backend = backend();
    let request = backend.embed_request(two_sequences()).unwrap();
    let outcome: Result<Embeddings<f32>, BackendError> =
        backend.embed(&request, Ok(vec![vec![0.25f32, -1.0, 3.0]]));
    assert_eq!(
        outcome,
        Err(BackendError::Inference(text(
            "the response does not hold one vector for each sequence of the request"
        )))
    );
    let outcome: Result<Embeddings<f32>, BackendError> = backend.embed(&request, Ok(vec![]));
    assert!(matches!(outcome, Err(BackendError::Inference(_))));
}

#[test]
fn embed_wraps_a_channel_failure() {
    let backend = backend();
    let request = backend.embed_request(two_sequences()).unwrap();
    let outcome: Result<Embeddings<f32>, BackendError> =
        backend.embed(&request, Err(TransportError::Channel(text("connection reset by peer"))));
    assert_eq!(outcome, Err(BackendError::Inference(text("connection reset by peer"))));
}

#[test]
fn check_reply_names_the_protocol_violation() {
    let request = EmbedRequest::from_batch(two_sequences());
    let outcome: Result<Vec<Vec<f32>>, TransportError> = check_reply(&request, Ok(vec![vec![1.0f32]]));
    let failure = outcome.unwrap_err();
    assert!(failure.is_protocol_violation());
    assert_eq!(
        failure,
        TransportError::Protocol(text(
            "the response does not hold one vector for each sequence of the request"
        ))
    );
    assert_eq!(
        failure.message(),
        "the response does not hold one vector for each sequence of the request"
    );
}

#[test]
fn check_reply_hands_a_channel_failure_on() {
    let request = EmbedRequest::from_batch(two_sequences());
    let outcome: Result<Vec<Vec<f32>>, TransportError> =
        check_reply(&request, Err(TransportError::Channel(text("timed out"))));
    let failure = outcome.unwrap_err();
    assert!(!failure.is_protocol_violation());
    assert_eq!(failure.message(), "timed out");
}

#[test]
fn key_by_position_fills_every_position() {
    let embeddings = key_by_position(vec![vec![7u64], vec![8, 9], vec![]]);
    assert_eq!(embeddings.len(), 3);
    assert_eq!(embeddings.get(&0), Some(&Embedding::Pooled(vec![7u64])));
    assert_eq!(embeddings.get(&1), Some(&Embedding::Pooled(vec![8u64, 9])));
    assert_eq!(embeddings.get(&2), Some(&Embedding::Pooled(vec![])));
    let none: Embeddings<u64> = key_by_position(vec![]);
    assert!(none.is_empty());
}

#[test]
fn predict_is_not_implemented() {
    let outcome: Result<Predictions<f32>, BackendError> = backend().predict(two_sequences());
    assert_eq!(outcome, Err(BackendError::Inference(text("`predict` is not implemented"))));
    let mut raw = two_sequences();
    raw.raw_indices = vec![0];
    let outcome: Result<Predictions<f32>, BackendError> = backend().predict(raw);
    assert_eq!(outcome, Err(BackendError::Inference(text("`predict` is not implemented"))));
}

#[test]
fn error_messages() {
    assert_eq!(BackendError::Config(text("a")).message(), "a");
    assert_eq!(BackendError::Start(text("b")).message(), "b");
    assert_eq!(BackendError::Inference(text("c")).message(), "c");
    assert_eq!(BackendError::Unhealthy.message(), "backend is unhealthy");
    assert_eq!(TransportError::Channel(text("d")).message(), "d");
    assert_eq!(TransportError::Protocol(text("e")).message(), "e");
}
