use classified::classified_data::ClassifiedData;
use classified::config::Config;
use classified::config::ConcurrencyConfig;
use classified::config::ConcurrencyPattern;
use classified::config::PipelineConfig;
use classified::config::SecurityConfig;
use classified::config::StageConfig;
use classified::config::StageType;
use classified::errors::SecureError;
use classified::key_manager::KeyManager;
use classified::layer_stack::Layer;
use classified::layer_stack::LayerStack;
use classified::pipelines::Pipeline;
use classified::pipelines::Stage;
use classified::pipelines::create_actor;
use classified::pipelines::create_csp;
use classified::secure_service::SecureService;
use classified::traits::Frame;

fn stage_config(stage_type: StageType) -> StageConfig {
    StageConfig {
        name: "stage".to_string(),
        stage_type,
        algorithm: Some("AES".to_string()),
        enabled: true,
        concurrency_limit: Some(4),
        max_retries: Some(3),
        buffer_size: Some(16),
        key_material: Some(vec![0u8; 32]),
        zeroize: Some(true),
    }
}

fn frame_with(data: &[u8]) -> Frame {
    Frame { data: ClassifiedData::new(data.to_vec()), metadata: None }
}

#[test]
fn test_layer_stack_single_layer() {
    let mut stack = LayerStack::new();
    stack.push(Layer::Append(b"123".to_vec()));

    let input = frame_with(b"abc");
    let result = stack.run(input).unwrap();

    assert_eq!(result.data.expose().as_slice(), b"abc123");
}

#[test]
fn test_layer_stack_multiple_layers() {
    let mut stack = LayerStack::new();
    stack.push(Layer::Append(b"1".to_vec()));
    stack.push(Layer::Append(b"2".to_vec()));
    stack.push(Layer::Append(b"3".to_vec()));

    let input = frame_with(b"start");
    let result = stack.run(input).unwrap();

    assert_eq!(result.data.expose().as_slice(), b"start123");
}

/// A failing layer aborts the run and the layer after it never runs:
/// its suffix does not appear in any output, and the result is the
/// failing layer's error.
#[test]
fn test_layer_stack_with_failure() {
    let mut stack = LayerStack::new();
    stack.push(Layer::Append(b"good".to_vec()));
    stack.push(Layer::Fail("intentional failure".to_string()));
    stack.push(Layer::Append(b"should_not_run".to_vec()));

    let input = frame_with(b"data");
    let result = stack.run(input);

    assert!(matches!(result, Err(SecureError::PipelineError(_))));
}

#[test]
fn pipeline_initialize_builds_enabled_stages() {
    let mut disabled = stage_config(StageType::Actor);
    disabled.enabled = false;
    disabled.algorithm = None;

    let config = PipelineConfig {
        stages: vec![
            stage_config(StageType::Actor),
            disabled,
            stage_config(StageType::Stream),
            stage_config(StageType::Future),
            stage_config(StageType::CSP),
        ],
    };

    let pipeline = Pipeline::initialize(&config);
    assert!(pipeline.is_ok());
}

/// Construction fails with a configuration error when the algorithm is
/// absent.
#[test]
fn pipeline_initialize_fails_without_algorithm() {
    let mut bad = stage_config(StageType::Actor);
    bad.algorithm = None;
    let config = PipelineConfig { stages: vec![bad] };

    match Pipeline::initialize(&config) {
        Err(SecureError::PipelineError(m)) => assert_eq!(m, "algorithm"),
        _ => panic!("construction without an algorithm must fail"),
    }
}

/// Construction fails with the key-length failure when the material
/// does not match the algorithm's required length: AES takes 32 bytes,
/// so a 3-byte key must fail.
#[test]
fn pipeline_initialize_fails_on_short_key() {
    let mut bad = stage_config(StageType::Actor);
    bad.key_material = Some(vec![1, 2, 3]);
    let config = PipelineConfig { stages: vec![bad] };

    match Pipeline::initialize(&config) {
        Err(SecureError::PipelineError(m)) => assert_eq!(m, "Crypto error"),
        _ => panic!("a 3-byte key must fail construction"),
    }
}

#[test]
fn pipeline_create_actor_rejects_unknown_algorithm() {
    let mut bad = stage_config(StageType::Actor);
    bad.algorithm = Some("ROT13".to_string());
    match create_actor(&bad) {
        Err(SecureError::PipelineError(m)) => assert_eq!(m, "Unsupported algorithm: ROT13"),
        _ => panic!("an unknown algorithm must fail"),
    }
}

#[test]
fn pipeline_runs_data_through_stages() {
    let config = PipelineConfig {
        stages: vec![stage_config(StageType::Actor), stage_config(StageType::Stream)],
    };
    let mut pipeline = Pipeline::initialize(&config).unwrap();
    let result = pipeline.run(ClassifiedData::new(b"payload".to_vec()));
    assert!(result.is_ok());
}

#[test]
fn pipeline_run_stops_on_failing_stage() {
    let config = PipelineConfig { stages: vec![stage_config(StageType::Stream)] };
    let mut pipeline = Pipeline::initialize(&config).unwrap();
    // The stream stage rejects an empty payload.
    let result = pipeline.run(ClassifiedData::new(vec![]));
    assert!(result.is_err());
}

#[test]
fn pipeline_add_stage_extends_the_run() {
    let config = PipelineConfig { stages: vec![] };
    let mut pipeline = Pipeline::initialize(&config).unwrap();
    let csp = create_csp(&stage_config(StageType::CSP)).unwrap();
    pipeline.add_stage(Stage::Csp(csp));
    assert!(pipeline.run(ClassifiedData::new(b"x".to_vec())).is_ok());
}

#[test]
fn config_validation_accepts_every_pattern() {
    let config = Config {
        security: SecurityConfig { enable_zeroize: true },
        concurrency: ConcurrencyConfig { pattern: ConcurrencyPattern::Actors },
        pipeline: PipelineConfig { stages: vec![] },
        protocols: None,
    };
    assert!(config.validate().is_ok());
    assert!(config.concurrency.is_valid());
}

#[test]
fn secure_service_handles_data_and_keys() {
    let pipeline =
        Pipeline::initialize(&PipelineConfig { stages: vec![stage_config(StageType::Actor)] })
            .unwrap();
    let manager = KeyManager::without_rotation();
    let mut service = SecureService::new(pipeline, manager);

    assert!(service.handle_data(b"to protect".to_vec()).is_ok());

    service.add_key("primary".to_string(), vec![5u8; 16]).unwrap();
    assert_eq!(service.get_key("primary").unwrap().expose().as_slice(), &[5u8; 16]);
    service.delete_key("primary").unwrap();
    assert!(service.get_key("primary").is_none());

    assert!(matches!(
        service.add_key("empty".to_string(), vec![]),
        Err(SecureError::InvalidKeyLength)
    ));
}
