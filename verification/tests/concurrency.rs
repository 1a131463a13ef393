use classified::classified_data::ClassifiedData;
use classified::concurrency::actor_channel::ActorChannel;
use classified::concurrency::actors::ActorEvent;
use classified::concurrency::actors::EncryptionActor;
use classified::concurrency::actors::create_actor;
use classified::concurrency::csp::CSPChannel;
use classified::concurrency::futures::FutureHandler;
use classified::concurrency::streams::StreamHandler;
use classified::config::StageConfig;
use classified::config::StageType;
use classified::crypto::crypto_algorithm::CryptoAlgorithm;
use classified::crypto::crypto_primitive::CryptoPrimitive;
use classified::crypto_fallback::crypto_op_with_fallback;
use classified::errors::SecureError;

fn test_stage_config() -> StageConfig {
    StageConfig {
        name: "encryption".to_string(),
        stage_type: StageType::Actor,
        algorithm: Some("AES".to_string()),
        enabled: true,
        concurrency_limit: Some(4),
        max_retries: Some(3),
        buffer_size: Some(16),
        key_material: Some(vec![0x00; 32]),
        zeroize: Some(true),
    }
}

#[test]
fn test_actor_channel_send_recv_success() {
    let mut channel = ActorChannel::new(10);

    let send_result = channel.send("hello");
    assert!(send_result.is_ok());

    let recv_result = channel.recv();
    assert_eq!(recv_result.unwrap(), "hello");
}

/// Once the sending half is gone, a receive fails with the
/// channel-closed error instead of hanging.
#[test]
fn test_actor_channel_recv_error_when_closed() {
    let mut channel: ActorChannel<i32> = ActorChannel::new(1);

    channel.close_sender();

    let result = channel.recv();
    assert!(result.is_err());
    assert_eq!(result.unwrap_err().message(), "RecvError: channel closed");
}

#[test]
fn test_actor_channel_clone_sender_multiple_sends() {
    let mut channel = ActorChannel::new(10);

    channel.send(1).unwrap();
    channel.send(2).unwrap();

    let mut received = vec![];
    received.push(channel.recv().unwrap());
    received.push(channel.recv().unwrap());

    received.sort();
    assert_eq!(received, vec![1, 2]);
}

/// A receive on an empty channel whose sender is still attached does
/// not hang: the bounded wait expires.
#[test]
fn test_actor_channel_timeout_on_recv() {
    let mut channel: ActorChannel<i32> = ActorChannel::new(1);

    let result = channel.recv();

    assert!(result.is_err());
    let err = result.unwrap_err();
    assert_eq!(err.0, "deadline has elapsed");
}

/// A full mailbox refuses new items rather than accepting past its
/// capacity; a detached consumer fails sends permanently.
#[test]
fn mailbox_backpressure_and_closure() {
    let mut channel: ActorChannel<u8> = ActorChannel::new(2);
    channel.send(1).unwrap();
    channel.send(2).unwrap();
    let full = channel.send(3).unwrap_err();
    assert_eq!(full.0, "channel full");
    assert_eq!(channel.len(), 2);

    channel.close_receiver();
    let closed = channel.send(4).unwrap_err();
    assert_eq!(closed.message(), "SendError: channel closed");
}

#[test]
fn test_create_actor_success() {
    let cfg = test_stage_config();
    let result = create_actor(&cfg);
    assert!(result.is_ok());
}

#[test]
fn test_create_actor_missing_algorithm() {
    let mut cfg = test_stage_config();
    cfg.algorithm = None;
    let result = create_actor(&cfg);
    assert!(result.is_err());
}

#[test]
fn test_create_actor_invalid_key() {
    let mut cfg = test_stage_config();
    cfg.key_material = Some(vec![1, 2, 3]);
    let result = create_actor(&cfg);
    assert!(result.is_err());
}

#[test]
fn test_encryption_actor_handle() {
    let cfg = test_stage_config();
    let actor = create_actor(&cfg).unwrap();
    let data = ClassifiedData::new(b"secret".to_vec());
    let result = actor.process(data);
    assert!(result.is_ok());
}

#[test]
fn test_encryption_actor_forwarding() {
    let cfg = test_stage_config();

    let primitive =
        CryptoPrimitive::new(&CryptoAlgorithm::AES, cfg.key_material.clone().unwrap(), true)
            .unwrap();

    let downstream = ActorChannel::new(1);
    let mut actor = EncryptionActor::new(primitive, Some(downstream));

    let data = ClassifiedData::new(b"hello".to_vec());
    let keep_running = actor.step(ActorEvent::Message(data));
    assert!(keep_running);
}

/// A send followed by a shutdown completes even when the downstream
/// consumer has been dropped: the refused forward is ignored and the
/// raised signal stops the loop.
#[test]
fn send_then_shutdown_with_dropped_downstream() {
    let key = vec![0u8; 32];
    let primitive = CryptoPrimitive::new(&CryptoAlgorithm::AES, key, true).unwrap();
    let mut downstream: ActorChannel<ClassifiedData> = ActorChannel::new(1);
    downstream.close_receiver();
    let mut actor = EncryptionActor::new(primitive, Some(downstream));

    let keep_running = actor.step(ActorEvent::Message(ClassifiedData::new(b"data".to_vec())));
    assert!(keep_running);

    let keep_running = actor.step(ActorEvent::ShutdownChanged(true));
    assert!(!keep_running);
}

/// A lowered shutdown signal and a closed inbox take their own paths.
#[test]
fn shutdown_signal_and_closed_inbox_decide_the_loop() {
    let key = vec![0u8; 32];
    let primitive = CryptoPrimitive::new(&CryptoAlgorithm::AES, key, true).unwrap();
    let mut actor = EncryptionActor::new(primitive, None);

    assert!(actor.step(ActorEvent::ShutdownChanged(false)));
    assert!(!actor.step(ActorEvent::InboxClosed));
}

/// With no paired receiver draining it, a rendezvous channel that is
/// already full times out on the next process call instead of blocking
/// forever.
#[test]
fn csp_process_times_out_when_full() {
    let mut channel = CSPChannel::new(1);
    channel.send(ClassifiedData::new(b"stuck".to_vec())).unwrap();

    let result = channel.process(ClassifiedData::new(b"new".to_vec()));
    match result {
        Err(SecureError::PipelineError(m)) => assert_eq!(m, "Send timeout"),
        _ => panic!("expected a send timeout"),
    }
}

/// The rendezvous: process returns the oldest queued payload, or the
/// input itself when nothing was queued.
#[test]
fn csp_process_rendezvous_order() {
    let mut channel = CSPChannel::new(2);
    let first = channel.process(ClassifiedData::new(b"alone".to_vec())).unwrap();
    assert_eq!(first.expose().as_slice(), b"alone");

    channel.send(ClassifiedData::new(b"queued".to_vec())).unwrap();
    let second = channel.process(ClassifiedData::new(b"incoming".to_vec())).unwrap();
    assert_eq!(second.expose().as_slice(), b"queued");
}

#[test]
fn test_stream_handler_ok() {
    let mut handler = StreamHandler::new(4, 2);

    let mut items: Vec<Result<ClassifiedData, SecureError>> = Vec::new();
    for i in 0..3u8 {
        items.push(Ok(ClassifiedData::new(vec![i; 4])));
    }

    let result = handler.run_stream(items);
    assert!(result.is_ok());
    assert_eq!(handler.success_count(), 3);
    assert_eq!(handler.failure_count(), 0);
    assert_eq!(handler.attempts_total(), 3);
}

/// A failing item is attempted exactly once plus the configured
/// retries — three attempts in all for two retries — before it is
/// counted as a failure.
#[test]
fn failing_item_is_retried_exactly_max_retries_times() {
    let mut handler = StreamHandler::new(4, 2);

    let failing = ClassifiedData::new(vec![]);
    handler.handle_data_with_retries(&failing);

    assert_eq!(handler.attempts_total(), 3);
    assert_eq!(handler.failure_count(), 1);
    assert_eq!(handler.success_count(), 0);
}

/// Stream-level failures are counted and skipped without any retry.
#[test]
fn stream_level_failures_are_not_retried() {
    let mut handler = StreamHandler::new(2, 5);
    let items: Vec<Result<ClassifiedData, SecureError>> = vec![
        Err(SecureError::PipelineError("upstream broke".to_string())),
        Ok(ClassifiedData::new(b"fine".to_vec())),
        Ok(ClassifiedData::new(vec![])),
    ];
    handler.run_stream(items).unwrap();
    assert_eq!(handler.stream_failure_count(), 1);
    assert_eq!(handler.success_count(), 1);
    assert_eq!(handler.failure_count(), 1);
    assert_eq!(handler.attempts_total(), 1 + 6);
}

#[test]
fn future_handler_rejects_empty_data() {
    let handler = FutureHandler::new(10);
    match handler.execute_future(ClassifiedData::new(vec![])) {
        Err(SecureError::PipelineError(m)) => assert_eq!(m, "Empty data provided"),
        _ => panic!("expected the empty-data error"),
    }

    let ok = handler.execute_future(ClassifiedData::new(b"payload".to_vec())).unwrap();
    assert_eq!(ok.expose().as_slice(), b"payload");
}

#[test]
fn test_crypto_fallback() {
    let strong = Err(SecureError::PipelineError("Failing intentionally".into()));

    let fallback = ClassifiedData::new(vec![42; 16]);

    let result = crypto_op_with_fallback(strong, fallback);
    assert_eq!(result.unwrap().expose(), &vec![42u8; 16]);
}

#[test]
fn crypto_fallback_prefers_strong_result() {
    let strong = Ok(ClassifiedData::new(b"strong".to_vec()));
    let fallback = ClassifiedData::new(b"weak".to_vec());
    let result = crypto_op_with_fallback(strong, fallback);
    assert_eq!(result.unwrap().expose().as_slice(), b"strong");
}
