//! An ordered stack of frame-processing layers.
//!
//! A layer transforms one [`Frame`]; the stack runs a frame through all
//! its layers in order, feeding each layer's output to the next and
//! stopping at the first failure — the layers after a failing one never
//! see the frame.

use vstd::prelude::*;
use crate::classified_data::ClassifiedData;
use crate::crypto::crypto_primitive::CryptoPrimitive;
use crate::errors::SecureError;
use crate::traits::Frame;

verus! {

/// One frame-processing layer.
pub enum Layer {
    /// Appends fixed bytes to the frame's payload.
    Append(Vec<u8>),
    /// Always fails with the given message.
    Fail(String),
    /// Encrypts the payload with a crypto primitive.
    Crypto(CryptoPrimitive),
}

/// Whether a layer accepts the given payload: appending always
/// succeeds, a failing layer never does, and a crypto layer succeeds
/// whenever its algorithm can encrypt.
pub open spec fn spec_layer_accepts(l: Layer, d: Seq<u8>) -> bool {
    match l {
        Layer::Append(_) => true,
        Layer::Fail(_) => false,
        Layer::Crypto(c) => !(c.algorithm is ECDSA),
    }
}

/// The payload an accepting layer hands on.
pub open spec fn spec_layer_output(l: Layer, d: Seq<u8>) -> Seq<u8> {
    match l {
        Layer::Append(b) => d + b@,
        Layer::Fail(_) => d,
        Layer::Crypto(_) => d,
    }
}

impl Layer {
    /// Apply this layer to one frame; the metadata rides along
    /// untouched.
    pub fn handle(&self, frame: Frame) -> (r: Result<Frame, SecureError>)
        ensures
            spec_layer_accepts(*self, frame@) ==> (r matches Ok(f) && f@ == spec_layer_output(
                *self,
                frame@,
            ) && f.metadata == frame.metadata),
            !spec_layer_accepts(*self, frame@) ==> r is Err,
            self matches Layer::Fail(m) ==> (r matches Err(SecureError::PipelineError(e)) && e@
                == m@),
    {
        match self {
            Layer::Append(suffix) => {
                let mut data = frame.data.expose().clone();
                let mut k: usize = 0;
                while k < suffix.len()
                    invariant
                        k <= suffix@.len(),
                        data@ == frame@ + suffix@.take(k as int),
                    decreases suffix@.len() - k,
                {
                    data.push(suffix[k]);
                    proof {
                        assert(suffix@.take(k as int).push(suffix@[k as int]) =~= suffix@.take(
                            k as int + 1,
                        ));
                    }
                    k = k + 1;
                }
                proof {
                    assert(suffix@.take(suffix@.len() as int) =~= suffix@);
                }
                Ok(Frame { data: ClassifiedData::new(data), metadata: frame.metadata })
            },
            Layer::Fail(message) => Err(SecureError::PipelineError(message.clone())),
            Layer::Crypto(crypto) => {
                match crypto.encrypt(frame.data.expose().as_slice()) {
                    Ok(encrypted) => Ok(
                        Frame { data: ClassifiedData::new(encrypted), metadata: frame.metadata },
                    ),
                    Err(e) => Err(SecureError::from(e)),
                }
            },
        }
    }
}

/// What is left of a stack run after the layers so far: the payload
/// that would enter the next layer, or nothing once a layer failed.
pub open spec fn spec_stack_run(layers: Seq<Layer>, d: Seq<u8>) -> Option<Seq<u8>>
    decreases layers.len(),
{
    if layers.len() == 0 {
        Some(d)
    } else if !spec_layer_accepts(layers[0], d) {
        None
    } else {
        spec_stack_run(layers.drop_first(), spec_layer_output(layers[0], d))
    }
}

/// Running a concatenation of layer lists runs the first list, then
/// feeds what it produced to the second.
pub proof fn lemma_stack_run_append(p: Seq<Layer>, q: Seq<Layer>, d: Seq<u8>)
    ensures
        spec_stack_run(p + q, d) == (match spec_stack_run(p, d) {
            Some(v) => spec_stack_run(q, v),
            None => None,
        }),
    decreases p.len(),
{
    if p.len() == 0 {
        assert(p + q =~= q);
    } else {
        assert((p + q)[0] == p[0]);
        assert((p + q).drop_first() =~= p.drop_first() + q);
        if spec_layer_accepts(p[0], d) {
            lemma_stack_run_append(p.drop_first(), q, spec_layer_output(p[0], d));
        }
    }
}

/// A failing layer aborts the whole run: once the payload reaches a
/// layer that refuses it, the run's result is failure, no matter what
/// layers stand after the refusing one — they never execute.
pub proof fn lemma_failure_stops_stack(layers: Seq<Layer>, d: Seq<u8>, i: int)
    requires
        0 <= i < layers.len(),
        spec_stack_run(layers.take(i), d) matches Some(v) && !spec_layer_accepts(layers[i], v),
    ensures
        spec_stack_run(layers, d) is None,
        forall|rest: Seq<Layer>| #[trigger] spec_stack_run(layers.take(i + 1) + rest, d) is None,
    decreases layers.len(),
{
    let front = layers.take(i + 1);
    let v = spec_stack_run(layers.take(i), d)->Some_0;
    assert(front =~= layers.take(i) + seq![layers[i]]);
    lemma_stack_run_append(layers.take(i), seq![layers[i]], d);
    assert(spec_stack_run(seq![layers[i]], v) is None) by {
        assert(seq![layers[i]][0] == layers[i]);
    }
    assert(spec_stack_run(front, d) is None);
    assert forall|rest: Seq<Layer>| #[trigger] spec_stack_run(front + rest, d) is None by {
        lemma_stack_run_append(front, rest, d);
    }
    assert(layers =~= front + layers.skip(i + 1));
}

/// An ordered stack of layers.
pub struct LayerStack {
    layers: Vec<Layer>,
}

impl LayerStack {
    /// The layers, in processing order.
    pub closed spec fn spec_layers(&self) -> Seq<Layer> {
        self.layers@
    }

    /// An empty stack.
    pub fn new() -> (r: Self)
        ensures
            r.spec_layers() == Seq::<Layer>::empty(),
    {
        LayerStack { layers: vec![] }
    }

    /// Append one layer to the stack.
    pub fn push(&mut self, layer: Layer)
        ensures
            final(self).spec_layers() == old(self).spec_layers().push(layer),
    {
        self.layers.push(layer);
    }

    /// Run a frame through all layers in order; the first failing
    /// layer aborts the run with its error, and the layers after it
    /// never execute.
    pub fn run(&self, frame: Frame) -> (r: Result<Frame, SecureError>)
        ensures
            r is Ok <==> spec_stack_run(self.spec_layers(), frame@) is Some,
            r matches Ok(f) ==> Some(f@) == spec_stack_run(self.spec_layers(), frame@)
                && f.metadata == frame.metadata,
    {
        let ghost layers0 = self.layers@;
        let mut current = frame;
        let mut i: usize = 0;
        proof {
            assert(layers0.skip(0) =~= layers0);
        }
        while i < self.layers.len()
            invariant
                i <= layers0.len(),
                layers0 == self.spec_layers(),
                spec_stack_run(layers0, frame@) == spec_stack_run(
                    layers0.skip(i as int),
                    current@,
                ),
                current.metadata == frame.metadata,
            decreases layers0.len() - i,
        {
            proof {
                assert(layers0.skip(i as int)[0] == layers0[i as int]);
                assert(layers0.skip(i as int).drop_first() =~= layers0.skip(i as int + 1));
            }
            let ghost cur0 = current@;
            match self.layers[i].handle(current) {
                Ok(next) => {
                    current = next;
                },
                Err(e) => {
                    proof {
                        assert(!spec_layer_accepts(layers0[i as int], cur0));
                    }
                    return Err(e);
                },
            }
            i = i + 1;
        }
        proof {
            assert(layers0.skip(layers0.len() as int) =~= Seq::<Layer>::empty());
        }
        Ok(current)
    }
}

} // verus!
