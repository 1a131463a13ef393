//! The pipeline: an ordered list of stages, built from configuration
//! and run over one classified value at a time.
//!
//! Stages are a closed set of variants — the encrypting actor, the
//! stream handler, the future handler and the rendezvous channel —
//! dispatched uniformly. Construction validates each enabled stage's
//! configuration; running feeds each stage's output to the next and
//! stops at the first failure.

use vstd::prelude::*;
use crate::classified_data::ClassifiedData;
use crate::concurrency::actors::EncryptionActor;
use crate::concurrency::actors::queue_views;
use crate::concurrency::csp::CSPChannel;
use crate::concurrency::futures::FutureHandler;
use crate::concurrency::streams::StreamHandler;
use crate::config::PipelineConfig;
use crate::config::StageConfig;
use crate::config::StageType;
use crate::crypto::crypto_algorithm::CryptoAlgorithm;
use crate::crypto::crypto_primitive::CryptoPrimitive;
use crate::crypto::crypto_primitive::spec_required_key_length;
use crate::crypto::helpers::string_is;
use crate::errors::SecureError;

verus! {

/// One pipeline stage.
pub enum Stage {
    Actor(EncryptionActor),
    Stream(StreamHandler),
    Future(FutureHandler),
    Csp(CSPChannel),
}

/// Whether a stage, in its current state, accepts the given payload:
/// the actor accepts whatever its algorithm can encrypt, the stream and
/// future handlers accept any non-empty payload, and the rendezvous
/// channel accepts while its queue has room.
pub open spec fn spec_stage_accepts(s: Stage, d: Seq<u8>) -> bool {
    match s {
        Stage::Actor(a) => !(a.spec_crypto().algorithm is ECDSA),
        Stage::Stream(_) => d.len() != 0,
        Stage::Future(_) => d.len() != 0,
        Stage::Csp(c) => c.spec_queue().len() < c.spec_bound(),
    }
}

/// The payload an accepting stage hands on: the rendezvous channel
/// answers with the oldest queued payload (or the input itself when
/// nothing is queued); every other stage passes the payload through.
pub open spec fn spec_stage_output(s: Stage, d: Seq<u8>) -> Seq<u8> {
    match s {
        Stage::Csp(c) => if c.spec_queue().len() == 0 {
            d
        } else {
            c.spec_queue()[0]@
        },
        _ => d,
    }
}

/// How one processing call changes a stage: only the rendezvous channel
/// carries state across calls.
pub open spec fn spec_stage_after(pre: Stage, post: Stage, data: ClassifiedData) -> bool {
    match pre {
        Stage::Csp(c0) => post matches Stage::Csp(c1) && c1.spec_bound() == c0.spec_bound() && (
        if c0.spec_queue().len() < c0.spec_bound() {
            c1.spec_queue() == c0.spec_queue().push(data).drop_first()
        } else {
            c1 == c0
        }),
        _ => post == pre,
    }
}

/// The error a refusing stage reports.
pub open spec fn spec_stage_error(s: Stage, e: SecureError) -> bool {
    match s {
        Stage::Actor(_) => e is InvalidKeyLength,
        Stage::Stream(_) => e matches SecureError::PipelineError(m) && m@ == "Empty data provided"@,
        Stage::Future(_) => e matches SecureError::PipelineError(m) && m@ == "Empty data provided"@,
        Stage::Csp(_) => e matches SecureError::PipelineError(m) && m@ == "Send timeout"@,
    }
}

impl Stage {
    /// Process one classified buffer with this stage.
    pub fn process(&mut self, data: ClassifiedData) -> (r: Result<ClassifiedData, SecureError>)
        ensures
            spec_stage_accepts(*old(self), data@) ==> (r matches Ok(out) && out@
                == spec_stage_output(*old(self), data@)),
            !spec_stage_accepts(*old(self), data@) ==> (r matches Err(e) && spec_stage_error(
                *old(self),
                e,
            )),
            spec_stage_after(*old(self), *final(self), data),
    {
        let mut taken = Stage::Future(FutureHandler::new(0));
        core::mem::swap(&mut taken, self);
        let (result, next_state) = match taken {
            Stage::Actor(a) => {
                let r = a.process(data);
                (r, Stage::Actor(a))
            },
            Stage::Stream(h) => {
                let r = h.process(data);
                (r, Stage::Stream(h))
            },
            Stage::Future(f) => {
                let r = f.execute_future(data);
                (r, Stage::Future(f))
            },
            Stage::Csp(mut c) => {
                let r = c.process(data);
                (r, Stage::Csp(c))
            },
        };
        *self = next_state;
        result
    }
}

/// What is left of a pipeline run after the stages so far: the payload
/// that would enter the next stage, or nothing once a stage refused.
pub open spec fn spec_run(stages: Seq<Stage>, d: Seq<u8>) -> Option<Seq<u8>>
    decreases stages.len(),
{
    if stages.len() == 0 {
        Some(d)
    } else if !spec_stage_accepts(stages[0], d) {
        None
    } else {
        spec_run(stages.drop_first(), spec_stage_output(stages[0], d))
    }
}

/// Dropping the oldest queued value drops its payload view.
proof fn lemma_queue_views_drop_first(s: Seq<ClassifiedData>)
    requires
        s.len() > 0,
    ensures
        queue_views(s.drop_first()) == queue_views(s).drop_first(),
{
    assert(queue_views(s.drop_first()) =~= queue_views(s).drop_first());
}

/// Appending one value appends its payload view.
proof fn lemma_queue_views_push(s: Seq<ClassifiedData>, d: ClassifiedData)
    ensures
        queue_views(s.push(d)) == queue_views(s).push(d@),
{
    assert forall|i: int| 0 <= i < s.len() + 1 implies queue_views(s.push(d))[i] == queue_views(
        s,
    ).push(d@)[i] by {
        if i < s.len() {
            assert(s.push(d)[i] == s[i]);
        } else {
            assert(s.push(d)[i] == d);
        }
    }
    assert(queue_views(s.push(d)) =~= queue_views(s).push(d@));
}

/// Running a concatenation of stage lists runs the first list, then
/// feeds what it produced to the second.
pub proof fn lemma_run_append(p: Seq<Stage>, q: Seq<Stage>, d: Seq<u8>)
    ensures
        spec_run(p + q, d) == (match spec_run(p, d) {
            Some(v) => spec_run(q, v),
            None => None,
        }),
    decreases p.len(),
{
    if p.len() == 0 {
        assert(p + q =~= q);
    } else {
        assert((p + q)[0] == p[0]);
        assert((p + q).drop_first() =~= p.drop_first() + q);
        if spec_stage_accepts(p[0], d) {
            lemma_run_append(p.drop_first(), q, spec_stage_output(p[0], d));
        }
    }
}

/// Extending the processed prefix by one stage applies that stage to
/// whatever the prefix produced.
proof fn lemma_run_take_step(stages: Seq<Stage>, d: Seq<u8>, i: int)
    requires
        0 <= i < stages.len(),
    ensures
        spec_run(stages.take(i + 1), d) == (match spec_run(stages.take(i), d) {
            Some(v) => if spec_stage_accepts(stages[i], v) {
                Some(spec_stage_output(stages[i], v))
            } else {
                None
            },
            None => None,
        }),
{
    let one = seq![stages[i]];
    assert(stages.take(i + 1) =~= stages.take(i) + one);
    lemma_run_append(stages.take(i), one, d);
    match spec_run(stages.take(i), d) {
        Some(v) => {
            assert(one[0] == stages[i]);
            if spec_stage_accepts(stages[i], v) {
                let out = spec_stage_output(stages[i], v);
                assert(one.drop_first() =~= Seq::<Stage>::empty());
                assert(spec_run(one.drop_first(), out) == Some(out));
                assert(spec_run(one, v) == Some(out));
            } else {
                assert(spec_run(one, v) is None);
            }
            assert(spec_run(stages.take(i + 1), d) == spec_run(stages.take(i) + one, d));
        },
        None => {
            assert(spec_run(stages.take(i + 1), d) == spec_run(stages.take(i) + one, d));
        },
    }
}

/// How one processed stage's state relates to its pre-state, seen
/// through payload views: only the rendezvous channel changes.
pub open spec fn spec_stage_after_views(pre: Stage, post: Stage, d: Seq<u8>) -> bool {
    match pre {
        Stage::Csp(c0) => post matches Stage::Csp(c1) && c1.spec_bound() == c0.spec_bound()
            && queue_views(c1.spec_queue()) == queue_views(c0.spec_queue()).push(d).drop_first(),
        _ => post == pre,
    }
}

/// What one run did to stage `j`: a stage the payload reached and that
/// accepted it carries its processing effect; a stage the payload
/// never reached, and the stage that refused it, are unchanged.
pub open spec fn spec_stage_evolved(stages0: Seq<Stage>, post: Stage, j: int, d: Seq<u8>) -> bool {
    match spec_run(stages0.take(j), d) {
        Some(v) => if spec_stage_accepts(stages0[j], v) {
            spec_stage_after_views(stages0[j], post, v)
        } else {
            post == stages0[j]
        },
        None => post == stages0[j],
    }
}

/// The algorithm a pipeline-actor configuration names: "AES", "RSA" or
/// "ECDSA".
pub open spec fn spec_pipeline_algorithm(a: Seq<char>) -> Option<CryptoAlgorithm> {
    if a == "AES"@ {
        Some(CryptoAlgorithm::AES)
    } else if a == "RSA"@ {
        Some(CryptoAlgorithm::RSA)
    } else if a == "ECDSA"@ {
        Some(CryptoAlgorithm::ECDSA)
    } else {
        None
    }
}

/// Whether one stage configuration can be built into a stage: stream,
/// future and rendezvous stages always can; an actor stage needs a
/// recognized algorithm and key material of that algorithm's length.
pub open spec fn spec_stage_builds(cfg: StageConfig) -> bool {
    match cfg.stage_type {
        StageType::Actor => cfg.algorithm matches Some(a) && spec_pipeline_algorithm(
            a@,
        ) matches Some(alg) && cfg.key_material matches Some(k) && k@.len()
            == spec_required_key_length(alg).spec_as_bytes(),
        StageType::Stream => true,
        StageType::Future => true,
        StageType::CSP => true,
    }
}

/// Build the encrypting actor stage one configuration describes.
///
/// Fails with a configuration error naming the missing or unsupported
/// field when the algorithm is absent or unrecognized or the key
/// material is absent, and with the generic crypto failure when the
/// material's length does not match the algorithm.
pub fn create_actor(config: &StageConfig) -> (r: Result<EncryptionActor, SecureError>)
    ensures
        r is Ok <==> (config.algorithm matches Some(a) && spec_pipeline_algorithm(
            a@,
        ) matches Some(alg) && config.key_material matches Some(k) && k@.len()
            == spec_required_key_length(alg).spec_as_bytes()),
        r matches Err(e) ==> e matches SecureError::PipelineError(_),
        config.algorithm is None ==> (r matches Err(SecureError::PipelineError(m)) && m@
            == "algorithm"@),
        config.algorithm matches Some(a) ==> (match spec_pipeline_algorithm(a@) {
            None => r matches Err(SecureError::PipelineError(m)) && m@
                == "Unsupported algorithm: "@ + a@,
            Some(alg) => match config.key_material {
                None => r matches Err(SecureError::PipelineError(m)) && m@
                    == "Missing key material"@,
                Some(k) => {
                    if k@.len() != spec_required_key_length(alg).spec_as_bytes() {
                        r matches Err(SecureError::PipelineError(m)) && m@ == "Crypto error"@
                    } else {
                        r matches Ok(actor) && actor.spec_crypto().algorithm == alg
                            && actor.spec_crypto().key_material@ == k@
                            && actor.spec_crypto().zeroize && !actor.spec_has_next()
                    }
                },
            },
        }),
{
    let algorithm_str = match &config.algorithm {
        Some(a) => a,
        None => {
            return Err(SecureError::PipelineError(String::from_str("algorithm")));
        },
    };

    let algorithm = if string_is(algorithm_str, "AES") {
        CryptoAlgorithm::AES
    } else if string_is(algorithm_str, "RSA") {
        CryptoAlgorithm::RSA
    } else if string_is(algorithm_str, "ECDSA") {
        CryptoAlgorithm::ECDSA
    } else {
        return Err(
            SecureError::PipelineError(
                String::from_str("Unsupported algorithm: ").concat(algorithm_str.as_str()),
            ),
        );
    };

    let key_material = match &config.key_material {
        Some(k) => k.clone(),
        None => {
            return Err(SecureError::PipelineError(String::from_str("Missing key material")));
        },
    };

    let crypto = match CryptoPrimitive::new(&algorithm, key_material, true) {
        Ok(c) => c,
        Err(_) => {
            return Err(SecureError::PipelineError(String::from_str("Crypto error")));
        },
    };

    Ok(EncryptionActor::new(crypto, None))
}

/// Build the stream stage one configuration describes: concurrency
/// limit and retry limit default to 4 and 3.
pub fn create_stream(config: &StageConfig) -> (r: Result<StreamHandler, SecureError>)
    ensures
        r matches Ok(h) && h.spec_concurrency_limit() == (match config.concurrency_limit {
            Some(c) => c,
            None => 4usize,
        }) && h.spec_max_retries() == (match config.max_retries {
            Some(m) => m,
            None => 3usize,
        }) && h.spec_success_count() == 0 && h.spec_failure_count() == 0
            && h.spec_stream_failure_count() == 0 && h.spec_attempts_total() == 0,
{
    let concurrency = match config.concurrency_limit {
        Some(c) => c,
        None => 4,
    };
    let retries = match config.max_retries {
        Some(m) => m,
        None => 3,
    };
    Ok(StreamHandler::new(concurrency, retries))
}

/// Build the future stage one configuration describes: the concurrency
/// limit defaults to 10.
pub fn create_future(config: &StageConfig) -> (r: Result<FutureHandler, SecureError>)
    ensures
        r matches Ok(f) && f.spec_concurrency_limit() == (match config.concurrency_limit {
            Some(c) => c,
            None => 10usize,
        }) && f.spec_timeout_secs() == crate::concurrency::futures::spec_default_timeout_secs(),
{
    let concurrency = match config.concurrency_limit {
        Some(c) => c,
        None => 10,
    };
    Ok(FutureHandler::new(concurrency))
}

/// Build the rendezvous stage one configuration describes: the buffer
/// size defaults to 32. A configured buffer of zero could never hold
/// the item the stage sends before it receives, so it is excluded.
pub fn create_csp(config: &StageConfig) -> (r: Result<CSPChannel, SecureError>)
    requires
        !(config.buffer_size matches Some(b) && b == 0),
    ensures
        r matches Ok(c) && c.spec_queue() == Seq::<ClassifiedData>::empty() && c.spec_bound() == (
        match config.buffer_size {
            Some(b) => b,
            None => 32usize,
        }),
{
    let buffer = match config.buffer_size {
        Some(b) => b,
        None => 32,
    };
    Ok(CSPChannel::new(buffer))
}

/// The enabled stage configurations, in order.
pub open spec fn spec_enabled_stages(cfgs: Seq<StageConfig>) -> Seq<StageConfig> {
    cfgs.filter(|c: StageConfig| c.enabled)
}

/// Whether a built stage is the one its configuration describes.
pub open spec fn spec_stage_matches(cfg: StageConfig, st: Stage) -> bool {
    match cfg.stage_type {
        StageType::Actor => st matches Stage::Actor(a) && (match (cfg.algorithm, cfg.key_material) {
            (Some(name), Some(k)) => (spec_pipeline_algorithm(name@) matches Some(alg)
                && a.spec_crypto().algorithm == alg && a.spec_crypto().key_material@ == k@
                && a.spec_crypto().zeroize && !a.spec_has_next()),
            _ => false,
        }),
        StageType::Stream => st matches Stage::Stream(h) && h.spec_concurrency_limit() == (
        match cfg.concurrency_limit {
            Some(c) => c,
            None => 4usize,
        }) && h.spec_max_retries() == (match cfg.max_retries {
            Some(m) => m,
            None => 3usize,
        }) && h.spec_success_count() == 0 && h.spec_failure_count() == 0
            && h.spec_stream_failure_count() == 0 && h.spec_attempts_total() == 0,
        StageType::Future => st matches Stage::Future(f) && f.spec_concurrency_limit() == (
        match cfg.concurrency_limit {
            Some(c) => c,
            None => 10usize,
        }) && f.spec_timeout_secs() == crate::concurrency::futures::spec_default_timeout_secs(),
        StageType::CSP => st matches Stage::Csp(c) && c.spec_queue()
            == Seq::<ClassifiedData>::empty() && c.spec_bound() == (match cfg.buffer_size {
            Some(b) => b,
            None => 32usize,
        }),
    }
}

/// An ordered list of stages fed one classified value at a time.
pub struct Pipeline {
    stages: Vec<Stage>,
}

impl Pipeline {
    /// The stages, in processing order.
    pub closed spec fn spec_stages(&self) -> Seq<Stage> {
        self.stages@
    }

    /// Build a pipeline from configuration: disabled stages are
    /// skipped, each enabled stage is built by its kind, and the first
    /// stage that cannot be built fails the whole construction with a
    /// configuration error.
    pub fn initialize(config: &PipelineConfig) -> (r: Result<Pipeline, SecureError>)
        requires
            forall|j: int|
                0 <= j < config.stages@.len() ==> !((#[trigger] config.stages@[j]).enabled
                    && config.stages@[j].stage_type is CSP && config.stages@[j].buffer_size
                    == Some(0usize)),
        ensures
            r is Ok <==> (forall|j: int|
                0 <= j < config.stages@.len() && (#[trigger] config.stages@[j]).enabled
                    ==> spec_stage_builds(config.stages@[j])),
            r matches Err(e) ==> e matches SecureError::PipelineError(_),
            r matches Ok(p) ==> p.spec_stages().len() == spec_enabled_stages(
                config.stages@,
            ).len() && (forall|j: int|
                0 <= j < p.spec_stages().len() ==> spec_stage_matches(
                    spec_enabled_stages(config.stages@)[j],
                    #[trigger] p.spec_stages()[j],
                )),
    {
        let mut stages: Vec<Stage> = Vec::new();

        let n = config.stages.len();
        let mut i: usize = 0;
        while i < n
            invariant
                i <= n,
                n == config.stages@.len(),
                forall|j: int|
                    0 <= j < config.stages@.len() ==> !((#[trigger] config.stages@[j]).enabled
                        && config.stages@[j].stage_type is CSP && config.stages@[j].buffer_size
                        == Some(0usize)),
                forall|j: int|
                    0 <= j < i && (#[trigger] config.stages@[j]).enabled ==> spec_stage_builds(
                        config.stages@[j],
                    ),
                stages@.len() == spec_enabled_stages(config.stages@.take(i as int)).len(),
                forall|j: int|
                    0 <= j < stages@.len() ==> spec_stage_matches(
                        spec_enabled_stages(config.stages@.take(i as int))[j],
                        #[trigger] stages@[j],
                    ),
            decreases n - i,
        {
            proof {
                reveal(Seq::filter);
                assert(config.stages@.take(i as int + 1).drop_last() =~= config.stages@.take(
                    i as int,
                ));
                assert(config.stages@.take(i as int + 1).last() == config.stages@[i as int]);
            }
            let stage_config = &config.stages[i];
            if stage_config.enabled {
                let stage: Stage = match stage_config.stage_type {
                    StageType::Actor => {
                        match create_actor(stage_config) {
                            Ok(a) => Stage::Actor(a),
                            Err(e) => {
                                return Err(e);
                            },
                        }
                    },
                    StageType::Stream => {
                        match create_stream(stage_config) {
                            Ok(h) => Stage::Stream(h),
                            Err(e) => {
                                return Err(e);
                            },
                        }
                    },
                    StageType::Future => {
                        match create_future(stage_config) {
                            Ok(f) => Stage::Future(f),
                            Err(e) => {
                                return Err(e);
                            },
                        }
                    },
                    StageType::CSP => {
                        match create_csp(stage_config) {
                            Ok(c) => Stage::Csp(c),
                            Err(e) => {
                                return Err(e);
                            },
                        }
                    },
                };
                stages.push(stage);
            }
            i = i + 1;
        }

        proof {
            assert(config.stages@.take(n as int) =~= config.stages@);
        }
        Ok(Pipeline { stages })
    }

    /// Feed one classified value through all stages in order, handing
    /// each stage's output to the next; the first refusing stage aborts
    /// the run with its error, and the stages after it never process
    /// the value.
    pub fn run(&mut self, data: ClassifiedData) -> (r: Result<(), SecureError>)
        ensures
            r is Ok <==> spec_run(old(self).spec_stages(), data@) is Some,
            final(self).spec_stages().len() == old(self).spec_stages().len(),
            forall|j: int|
                0 <= j < old(self).spec_stages().len() ==> spec_stage_evolved(
                    old(self).spec_stages(),
                    #[trigger] final(self).spec_stages()[j],
                    j,
                    data@,
                ),
    {
        let ghost stages0 = self.stages@;
        let mut cur = data;
        let mut i: usize = 0;
        proof {
            assert(stages0.skip(0) =~= stages0);
            assert(stages0.take(0) =~= Seq::<Stage>::empty());
        }
        while i < self.stages.len()
            invariant
                i <= self.stages@.len(),
                stages0 == old(self).spec_stages(),
                self.stages@.len() == stages0.len(),
                spec_run(stages0, data@) == spec_run(stages0.skip(i as int), cur@),
                spec_run(stages0.take(i as int), data@) == Some(cur@),
                forall|j: int| i <= j < stages0.len() ==> self.stages@[j] == stages0[j],
                forall|j: int|
                    0 <= j < i ==> spec_stage_evolved(
                        stages0,
                        #[trigger] self.stages@[j],
                        j,
                        data@,
                    ),
            decreases self.stages@.len() - i,
        {
            let ghost pre = self.stages@[i as int];
            let ghost cur0 = cur@;
            proof {
                assert(stages0.skip(i as int)[0] == pre);
                assert(stages0.skip(i as int).drop_first() =~= stages0.skip(i as int + 1));
                lemma_run_take_step(stages0, data@, i as int);
            }
            let st = &mut self.stages[i];
            match st.process(cur) {
                Ok(next) => {
                    proof {
                        assert(spec_stage_accepts(pre, cur0));
                        match pre {
                            Stage::Csp(c0) => {
                                lemma_queue_views_push(c0.spec_queue(), cur);
                                lemma_queue_views_drop_first(c0.spec_queue().push(cur));
                            },
                            _ => {},
                        }
                        assert(spec_stage_evolved(stages0, self.stages@[i as int], i as int, data@));
                    }
                    cur = next;
                },
                Err(e) => {
                    proof {
                        assert(!spec_stage_accepts(pre, cur0));
                        assert(spec_run(stages0.skip(i as int), cur0) is None);
                        assert(spec_run(stages0, data@) is None);
                        assert(self.stages@.len() == stages0.len());
                        assert(self.stages@[i as int] == pre);
                        assert(spec_run(stages0.take(i as int + 1), data@) is None);
                        assert forall|j: int|
                            0 <= j < stages0.len() implies spec_stage_evolved(
                            stages0,
                            #[trigger] self.stages@[j],
                            j,
                            data@,
                        ) by {
                            if j > i {
                                assert(stages0.take(j) =~= stages0.take(i as int + 1)
                                    + stages0.take(j).skip(i as int + 1));
                                lemma_run_append(
                                    stages0.take(i as int + 1),
                                    stages0.take(j).skip(i as int + 1),
                                    data@,
                                );
                                assert(spec_run(stages0.take(j), data@) is None);
                                assert(self.stages@[j] == stages0[j]);
                            }
                        }
                    }
                    return Err(e);
                },
            }
            i = i + 1;
        }
        proof {
            assert(stages0.skip(i as int) =~= Seq::<Stage>::empty());
        }
        Ok(())
    }

    /// Append one stage to the end of the pipeline.
    pub fn add_stage(&mut self, stage: Stage)
        ensures
            final(self).spec_stages() == old(self).spec_stages().push(stage),
    {
        self.stages.push(stage);
    }
}

} // verus!
