//! Configuration records consumed by the pipeline.
//!
//! These are plain data: loading them from a file and deserializing them
//! is the caller's concern. Validation of the loaded values is done here,
//! with exact contracts.

use vstd::prelude::*;
use crate::errors::SecureError;

verus! {

/// Protocol settings; currently empty.
pub struct ProtocolsConfig {}

/// Security settings.
pub struct SecurityConfig {
    pub enable_zeroize: bool,
}

/// The kind of stage a configuration record describes.
#[derive(Debug, Clone, Copy, PartialEq, Eq, Structural)]
pub enum StageType {
    Actor,
    Stream,
    Future,
    CSP,
}

/// The configuration of one pipeline stage.
pub struct StageConfig {
    pub name: String,
    pub stage_type: StageType,
    pub algorithm: Option<String>,
    pub enabled: bool,
    pub concurrency_limit: Option<usize>,
    pub max_retries: Option<usize>,
    pub buffer_size: Option<usize>,
    pub key_material: Option<Vec<u8>>,
    pub zeroize: Option<bool>,
}

/// The ordered stage configurations of one pipeline.
pub struct PipelineConfig {
    pub stages: Vec<StageConfig>,
}

/// The concurrency pattern the workers follow.
#[derive(Debug, Clone, Copy, PartialEq, Eq, Structural)]
pub enum ConcurrencyPattern {
    Actors,
    Streams,
    Futures,
    CSP,
}

/// Concurrency settings.
pub struct ConcurrencyConfig {
    pub pattern: ConcurrencyPattern,
}

impl ConcurrencyConfig {
    /// Whether the configured pattern is one of the supported ones.
    /// Every representable pattern is supported, so this always holds;
    /// it is kept as the explicit gate that validation goes through.
    pub fn is_valid(&self) -> (r: bool)
        ensures
            r,
    {
        match self.pattern {
            ConcurrencyPattern::Actors => true,
            ConcurrencyPattern::Streams => true,
            ConcurrencyPattern::Futures => true,
            ConcurrencyPattern::CSP => true,
        }
    }
}

/// The whole configuration.
pub struct Config {
    pub security: SecurityConfig,
    pub concurrency: ConcurrencyConfig,
    pub pipeline: PipelineConfig,
    pub protocols: Option<ProtocolsConfig>,
}

impl Config {
    /// Validate a loaded configuration: the concurrency pattern must be
    /// supported. Since every representable pattern is, validation never
    /// fails on well-typed input.
    pub fn validate(&self) -> (r: Result<(), SecureError>)
        ensures
            r is Ok,
    {
        if !self.concurrency.is_valid() {
            return Err(SecureError::PipelineError(String::from_str("Invalid concurrency pattern")));
        }
        Ok(())
    }
}

} // verus!
