use vstd::prelude::*;

verus! {

use crate::device::Device;

/// One type-erased uniform value, held as raw IEEE-754 bit patterns (and raw
/// integers) so that what reaches the device is pinned down bit for bit.
pub enum UniformValue {
    /// A column-major 4x4 float matrix: 16 32-bit words.
    Matrix4(Vec<u32>),
    /// A 2-component float vector.
    Vector2(u32, u32),
    /// A 3-component float vector.
    Vector3(u32, u32, u32),
    /// A 4-component float vector.
    Vector4(u32, u32, u32, u32),
    /// A single signed integer.
    Int(i32),
    /// A single float, as its bit pattern.
    Float(u32),
    /// A single double, as its bit pattern.
    Double(u64),
}

impl UniformValue {
    /// Returns the raw words this value uploads.
    pub fn words(&self) -> (r: Vec<u32>)
        ensures
            r@ == self.spec_words(),
    {
        match self {
            UniformValue::Matrix4(m) => {
                let mut r: Vec<u32> = Vec::new();
                let n = m.len();
                for i in 0..n
                    invariant
                        n == m@.len(),
                        r@ == m@.take(i as int),
                {
                    r.push(m[i]);
                    proof {
                        assert(r@ =~= m@.take(i + 1 as int));
                    }
                }
                proof {
                    assert(r@ =~= m@);
                }
                r
            },
            UniformValue::Vector2(a, b) => {
                let mut r: Vec<u32> = Vec::new();
                r.push(*a);
                r.push(*b);
                proof {
                    assert(r@ =~= seq![*a, *b]);
                }
                r
            },
            UniformValue::Vector3(a, b, c) => {
                let mut r: Vec<u32> = Vec::new();
                r.push(*a);
                r.push(*b);
                r.push(*c);
                proof {
                    assert(r@ =~= seq![*a, *b, *c]);
                }
                r
            },
            UniformValue::Vector4(a, b, c, d) => {
                let mut r: Vec<u32> = Vec::new();
                r.push(*a);
                r.push(*b);
                r.push(*c);
                r.push(*d);
                proof {
                    assert(r@ =~= seq![*a, *b, *c, *d]);
                }
                r
            },
            UniformValue::Int(x) => {
                let mut r: Vec<u32> = Vec::new();
                r.push(*x as u32);
                proof {
                    assert(r@ =~= seq![*x as u32]);
                }
                r
            },
            UniformValue::Float(f) => {
                let mut r: Vec<u32> = Vec::new();
                r.push(*f);
                proof {
                    assert(r@ =~= seq![*f]);
                }
                r
            },
            UniformValue::Double(d) => {
                let mut r: Vec<u32> = Vec::new();
                r.push(*d as u32);
                r.push((*d >> 32) as u32);
                proof {
                    assert(r@ =~= seq![*d as u32, (*d >> 32) as u32]);
                }
                r
            },
        }
    }
}

/// The device's uniform-write log, abstracted to locations and word
/// sequences.
pub open spec fn spec_writes_view(ws: Seq<(i32, Vec<u32>)>) -> Seq<(i32, Seq<u32>)> {
    ws.map_values(|p: (i32, Vec<u32>)| (p.0, p.1@))
}

/// Whether every value of a uniform set has its declared shape.
pub open spec fn spec_uniforms_wf(ds: Seq<(i32, UniformValue)>) -> bool {
    forall|i: int| 0 <= i < ds.len() ==> (#[trigger] ds[i]).1.wf()
}

/// A uniform set, abstracted to locations and word sequences.
pub open spec fn spec_uniforms_view(ds: Seq<(i32, UniformValue)>) -> Seq<(i32, Seq<u32>)> {
    ds.map_values(|p: (i32, UniformValue)| (p.0, p.1.spec_words()))
}

/// A trait for types that can be used as device uniform values
pub trait Uniform {
    /// The raw 32-bit words this value uploads.
    spec fn spec_words(&self) -> Seq<u32>;

    /// Whether the value has its declared shape (a matrix holds exactly its
    /// sixteen words); only such values may be uploaded.
    spec fn wf(&self) -> bool;

    /// Pushes this value to the device at the given binding location.
    fn upload(&self, dev: &mut Device, location: i32)
        requires
            self.wf(),
        ensures
            crate::device::debug_settings_post(*old(dev), *final(dev)),
            crate::device::settings_unchanged(*old(dev), *final(dev)),
            spec_writes_view(final(dev).uniform_writes@) == spec_writes_view(
                old(dev).uniform_writes@,
            ).push((location, self.spec_words())),
            final(dev).draw_calls@ == old(dev).draw_calls@,
            final(dev).error_count == old(dev).error_count,
    ;
}

impl Uniform for UniformValue {
    /// The raw words, least-significant first for the double.
    open spec fn spec_words(&self) -> Seq<u32> {
        match *self {
            UniformValue::Matrix4(m) => m@,
            UniformValue::Vector2(a, b) => seq![a, b],
            UniformValue::Vector3(a, b, c) => seq![a, b, c],
            UniformValue::Vector4(a, b, c, d) => seq![a, b, c, d],
            UniformValue::Int(x) => seq![x as u32],
            UniformValue::Float(f) => seq![f],
            UniformValue::Double(d) => seq![d as u32, (d >> 32) as u32],
        }
    }

    /// A 4x4 matrix holds exactly 16 words; every other shape is fixed by
    /// its variant.
    open spec fn wf(&self) -> bool {
        match *self {
            UniformValue::Matrix4(m) => m@.len() == 16,
            _ => true,
        }
    }

    fn upload(&self, dev: &mut Device, location: i32) {
        let words = self.words();
        let ghost pre = dev.uniform_writes@;
        dev.upload_uniform(location, words);
        proof {
            assert(spec_writes_view(dev.uniform_writes@) =~= spec_writes_view(pre).push(
                (location, self.spec_words()),
            ));
        }
    }
}

/// An ordered set of (binding location, type-erased value) pairs; insertion
/// order is upload order.
pub struct Uniforms {
    /// The pairs, in upload order.
    pub data: Vec<(i32, UniformValue)>,
}

impl Uniforms {
    /// An empty uniform set.
    pub fn new() -> (r: Uniforms)
        ensures
            r.data@ == Seq::<(i32, UniformValue)>::empty(),
    {
        Uniforms { data: Vec::new() }
    }

    /// Appends one (location, value) pair.
    pub fn push(&mut self, location: i32, value: UniformValue)
        ensures
            final(self).data@ == old(self).data@.push((location, value)),
    {
        self.data.push((location, value));
    }

    /// Pushes every (location, value) pair to the device, in sequence order.
    pub fn upload_all(&self, dev: &mut Device)
        requires
            spec_uniforms_wf(self.data@),
        ensures
            spec_writes_view(final(dev).uniform_writes@) == spec_writes_view(
                old(dev).uniform_writes@,
            ) + spec_uniforms_view(self.data@),
            crate::device::debug_settings_post(*old(dev), *final(dev)),
            crate::device::settings_unchanged(*old(dev), *final(dev)),
            final(dev).draw_calls@ == old(dev).draw_calls@,
            final(dev).error_count == old(dev).error_count,
    {
        let n = self.data.len();
        for i in 0..n
            invariant
                n == self.data@.len(),
                spec_uniforms_wf(self.data@),
                spec_writes_view(dev.uniform_writes@) == spec_writes_view(
                    old(dev).uniform_writes@,
                ) + spec_uniforms_view(self.data@.take(i as int)),
                crate::device::debug_settings_post(*old(dev), *dev),
                crate::device::settings_unchanged(*old(dev), *dev),
                dev.draw_calls@ == old(dev).draw_calls@,
                dev.error_count == old(dev).error_count,
        {
            let p = &self.data[i];
            p.1.upload(dev, p.0);
            proof {
                assert(self.data@.take(i + 1 as int) =~= self.data@.take(i as int).push(
                    self.data@[i as int],
                ));
                assert(spec_uniforms_view(self.data@.take(i + 1 as int)) =~= spec_uniforms_view(
                    self.data@.take(i as int),
                ).push((self.data@[i as int].0, self.data@[i as int].1.spec_words())));
                assert(spec_writes_view(dev.uniform_writes@) =~= spec_writes_view(
                    old(dev).uniform_writes@,
                ) + spec_uniforms_view(self.data@.take(i + 1 as int)));
            }
        }
        proof {
            assert(self.data@.take(n as int) =~= self.data@);
        }
    }
}

} // verus!
