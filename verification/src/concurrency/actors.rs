//! The actor: a worker that owns one crypto stage, reads from an
//! inbound mailbox and forwards results downstream.
//!
//! A host runtime gives the actor a dedicated task that waits on the
//! inbound mailbox and the shutdown signal; every decision that wait
//! can lead to — stop, process, forward, ignore a forwarding failure —
//! is taken by [`EncryptionActor::step`], one observed event at a time.

use vstd::prelude::*;
use crate::classified_data::ClassifiedData;
use crate::concurrency::actor_channel::ActorChannel;
use crate::config::StageConfig;
use crate::crypto::crypto_algorithm::CryptoAlgorithm;
use crate::crypto::crypto_primitive::CryptoPrimitive;
use crate::crypto::crypto_primitive::spec_required_key_length;
use crate::crypto::helpers::string_is;
use crate::errors::SecureError;

verus! {

/// The payload views of a queue of classified values, oldest first.
pub open spec fn queue_views(s: Seq<ClassifiedData>) -> Seq<Seq<u8>> {
    s.map_values(|d: ClassifiedData| d@)
}

/// Appending one value appends its payload view.
proof fn lemma_queue_views_push(s: Seq<ClassifiedData>, d: ClassifiedData)
    ensures
        queue_views(s.push(d)) == queue_views(s).push(d@),
{
    assert forall|i: int| 0 <= i < s.len() + 1 implies queue_views(s.push(d))[i] == queue_views(
        s,
    ).push(d@)[i] by {
        if i < s.len() {
            assert(s.push(d)[i] == s[i]);
        } else {
            assert(s.push(d)[i] == d);
        }
    }
    assert(queue_views(s.push(d)) =~= queue_views(s).push(d@));
}

/// One event an actor's run loop can observe.
pub enum ActorEvent {
    /// The shared shutdown signal changed to the given value.
    ShutdownChanged(bool),
    /// One item arrived from the inbound mailbox.
    Message(ClassifiedData),
    /// The inbound mailbox is permanently closed and drained.
    InboxClosed,
}

/// A worker that encrypts incoming classified buffers and forwards the
/// results to an optional downstream mailbox.
pub struct EncryptionActor {
    crypto: CryptoPrimitive,
    next: Option<ActorChannel<ClassifiedData>>,
}

impl EncryptionActor {
    /// The primitive this actor encrypts with.
    pub closed spec fn spec_crypto(&self) -> CryptoPrimitive {
        self.crypto
    }

    /// Whether a downstream mailbox is attached.
    pub closed spec fn spec_has_next(&self) -> bool {
        self.next is Some
    }

    /// The downstream mailbox's queue (meaningful when one is attached).
    pub closed spec fn spec_next_queue(&self) -> Seq<ClassifiedData> {
        self.next->Some_0.spec_queue()
    }

    /// Whether the downstream mailbox would accept one more item.
    pub closed spec fn spec_next_accepts(&self) -> bool {
        &&& self.next->Some_0.spec_receiver_open()
        &&& self.next->Some_0.spec_queue().len() < self.next->Some_0.spec_bound()
    }

    /// An actor over the given primitive, forwarding to `next` if given.
    pub fn new(crypto: CryptoPrimitive, next: Option<ActorChannel<ClassifiedData>>) -> (r: Self)
        ensures
            r.spec_crypto() == crypto,
            r.spec_has_next() == (next is Some),
            next matches Some(ch) ==> r.spec_next_queue() == ch.spec_queue(),
    {
        EncryptionActor { crypto, next }
    }

    /// Encrypt one classified buffer.
    ///
    /// Succeeds with the (placeholder) ciphertext for every algorithm
    /// that can encrypt; an ECDSA primitive cannot, and that failure is
    /// reported as the key error.
    pub fn handle(&self, msg: ClassifiedData) -> (r: Result<ClassifiedData, SecureError>)
        ensures
            !(self.spec_crypto().algorithm is ECDSA) ==> (r matches Ok(d) && d@ == msg@),
            self.spec_crypto().algorithm is ECDSA ==> (r matches Err(SecureError::InvalidKeyLength)),
    {
        match self.crypto.encrypt(msg.expose().as_slice()) {
            Ok(encrypted) => Ok(ClassifiedData::new(encrypted)),
            Err(e) => Err(SecureError::from(e)),
        }
    }

    /// The stage view of the actor: process one buffer.
    pub fn process(&self, data: ClassifiedData) -> (r: Result<ClassifiedData, SecureError>)
        ensures
            !(self.spec_crypto().algorithm is ECDSA) ==> (r matches Ok(d) && d@ == data@),
            self.spec_crypto().algorithm is ECDSA ==> (r matches Err(SecureError::InvalidKeyLength)),
    {
        self.handle(data)
    }

    /// Take one run-loop step for an observed event; the result says
    /// whether the loop keeps running.
    ///
    /// A raised shutdown signal and a closed inbox stop the loop; a
    /// lowered signal is noted and the loop goes on. A message is
    /// encrypted and, when a downstream mailbox is attached and
    /// accepts, forwarded into it; a processing failure and a refused
    /// forward are logged by the host and never stop the loop — so a
    /// send followed by a shutdown completes even if the downstream
    /// consumer is gone.
    pub fn step(&mut self, event: ActorEvent) -> (keep_running: bool)
        ensures
            final(self).spec_crypto() == old(self).spec_crypto(),
            final(self).spec_has_next() == old(self).spec_has_next(),
            (match event {
                ActorEvent::ShutdownChanged(flag) => keep_running == !flag && *final(self) == *old(self),
                ActorEvent::InboxClosed => !keep_running && *final(self) == *old(self),
                ActorEvent::Message(msg) => {
                    &&& keep_running
                    &&& (old(self).spec_has_next() && !(old(self).spec_crypto().algorithm is ECDSA)
                        && old(self).spec_next_accepts()) ==> queue_views(
                        final(self).spec_next_queue(),
                    ) == queue_views(old(self).spec_next_queue()).push(msg@)
                    &&& !(old(self).spec_has_next() && !(
                    old(self).spec_crypto().algorithm is ECDSA) && old(self).spec_next_accepts()) ==> *final(self) == *old(self)
                },
            }),
    {
        match event {
            ActorEvent::ShutdownChanged(flag) => !flag,
            ActorEvent::InboxClosed => false,
            ActorEvent::Message(msg) => {
                let encrypted = match self.handle(msg) {
                    Ok(d) => d,
                    Err(_) => {
                        // The processing error is reported by the host's
                        // logging; the loop itself goes on.
                        return true;
                    },
                };
                let mut next: Option<ActorChannel<ClassifiedData>> = None;
                core::mem::swap(&mut next, &mut self.next);
                match next {
                    Some(mut ch) => {
                        // A refused forward (full or closed downstream)
                        // is ignored: delivery is best-effort.
                        let ghost q0 = ch.spec_queue();
                        let _ = ch.send(encrypted);
                        proof {
                            if ch.spec_queue() != q0 {
                                lemma_queue_views_push(q0, encrypted);
                            }
                        }
                        self.next = Some(ch);
                    },
                    None => {
                        self.next = None;
                    },
                }
                true
            },
        }
    }
}

/// The algorithm an actor stage configuration names, under the actor's
/// own spelling: "AES", "RSA" or "ECDSA".
pub open spec fn spec_actor_algorithm(a: Seq<char>) -> Option<CryptoAlgorithm> {
    if a == "AES"@ {
        Some(CryptoAlgorithm::AES)
    } else if a == "RSA"@ {
        Some(CryptoAlgorithm::RSA)
    } else if a == "ECDSA"@ {
        Some(CryptoAlgorithm::ECDSA)
    } else {
        None
    }
}

/// Build an actor from one stage configuration.
///
/// Construction fails with a configuration error when the algorithm is
/// absent or not one of the actor's algorithms, or when the key
/// material is absent; and with the rendered key-length error when the
/// material's length does not match the algorithm's required length.
pub fn create_actor(cfg: &StageConfig) -> (r: Result<EncryptionActor, SecureError>)
    ensures
        cfg.algorithm is None ==> (r matches Err(SecureError::PipelineError(m)) && m@
            == "Missing algorithm"@),
        cfg.algorithm matches Some(a) ==> (match spec_actor_algorithm(a@) {
            None => r matches Err(SecureError::PipelineError(m)) && m@
                == "Unsupported algorithm: "@ + a@,
            Some(alg) => match cfg.key_material {
                None => r matches Err(SecureError::PipelineError(m)) && m@
                    == "Missing key material"@,
                Some(k) => {
                    if k@.len() != spec_required_key_length(alg).spec_as_bytes() {
                        r matches Err(SecureError::PipelineError(m)) && m@
                            == "Init failed: Cryptographic error: Key length mismatch"@
                    } else {
                        r matches Ok(actor) && actor.spec_crypto().algorithm == alg
                            && actor.spec_crypto().key_material@ == k@
                            && actor.spec_crypto().zeroize == (match cfg.zeroize {
                            Some(z) => z,
                            None => true,
                        }) && !actor.spec_has_next()
                    }
                },
            },
        }),
{
    let algo_str = match &cfg.algorithm {
        Some(a) => a,
        None => {
            return Err(SecureError::PipelineError(String::from_str("Missing algorithm")));
        },
    };

    let algo = if string_is(algo_str, "AES") {
        CryptoAlgorithm::AES
    } else if string_is(algo_str, "RSA") {
        CryptoAlgorithm::RSA
    } else if string_is(algo_str, "ECDSA") {
        CryptoAlgorithm::ECDSA
    } else {
        return Err(
            SecureError::PipelineError(
                String::from_str("Unsupported algorithm: ").concat(algo_str.as_str()),
            ),
        );
    };

    let key_material = match &cfg.key_material {
        Some(k) => k.clone(),
        None => {
            return Err(SecureError::PipelineError(String::from_str("Missing key material")));
        },
    };

    let zeroize = match cfg.zeroize {
        Some(z) => z,
        None => true,
    };

    let crypto = match CryptoPrimitive::new(&algo, key_material, zeroize) {
        Ok(c) => c,
        Err(e) => {
            proof {
                reveal_strlit("Init failed: ");
                reveal_strlit("Cryptographic error: ");
                reveal_strlit("Key length mismatch");
                reveal_strlit("Init failed: Cryptographic error: Key length mismatch");
                assert("Init failed: "@ + ("Cryptographic error: "@ + "Key length mismatch"@)
                    =~= "Init failed: Cryptographic error: Key length mismatch"@);
            }
            return Err(
                SecureError::PipelineError(
                    String::from_str("Init failed: ").concat(e.message().as_str()),
                ),
            );
        },
    };

    Ok(EncryptionActor::new(crypto, None))
}

} // verus!
