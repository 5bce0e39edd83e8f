use vstd::prelude::*;

verus! {

use crate::buffer::{
    derive_vertex_layout, spec_element_size, FieldSpec, VertexBuffer, VertexData,
};
use crate::device::Device;
use crate::renderer::{
    spec_attribs_clear, spec_draw_call_of, spec_indices_in_range, DrawMode, Renderer,
};
use crate::shader::{Program, Vertex, VertexAttributeSpec};
use crate::types::{Vec3Bits, Vec4Bits, GL_FLOAT};
use crate::uniforms::{spec_uniforms_view, spec_writes_view, Uniforms};
use vstd::bytes::{spec_u32_to_le_bytes, u32_to_le_bytes};

/// A trait representing any primitive graphical object
pub trait Primitive: Sized {
    type Vertex: Vertex;

    /// Turns `self` into a mesh by creating a vertex buffer and specifying a
    /// [`DrawMode`].
    fn into_mesh(self, dev: &mut Device) -> Mesh<Self::Vertex>;

    /// The primitive's vertex buffer.
    fn buffer(&self) -> &VertexBuffer<Self::Vertex>;

    /// The primitive's vertex buffer, mutably.
    fn buffer_mut(&mut self) -> &mut VertexBuffer<Self::Vertex>;

    /// The topology the primitive draws with.
    fn draw_mode(&self) -> DrawMode;
}

/// A vertex buffer paired with the topology it draws with.
pub struct Mesh<V> {
    buffer: VertexBuffer<V>,
    draw_mode: DrawMode,
}

impl<V: Vertex> Mesh<V> {
    /// The held buffer.
    pub closed spec fn spec_buffer(self) -> VertexBuffer<V> {
        self.buffer
    }

    /// The held topology.
    pub closed spec fn spec_draw_mode(self) -> DrawMode {
        self.draw_mode
    }

    /// Pairs a buffer with a topology.
    pub fn new(buffer: VertexBuffer<V>, draw_mode: DrawMode) -> (r: Mesh<V>)
        ensures
            r.spec_buffer() == buffer,
            r.spec_draw_mode() == draw_mode,
    {
        Mesh { buffer, draw_mode }
    }

    /// Returns the held buffer.
    pub fn buffer(&self) -> (r: &VertexBuffer<V>)
        ensures
            *r == self.spec_buffer(),
    {
        &self.buffer
    }

    /// Returns the held topology.
    pub fn draw_mode(&self) -> (r: DrawMode)
        ensures
            r == self.spec_draw_mode(),
    {
        self.draw_mode
    }

    /// Draws the mesh with its own topology.
    pub fn draw(
        &self,
        renderer: &Renderer,
        dev: &mut Device,
        shader_program: &Program,
        uniforms: &Uniforms,
    )
        requires
            self.spec_buffer().wf(*old(dev)),
            shader_program.wf(*old(dev)),
            crate::uniforms::spec_uniforms_wf(uniforms.data@),
            spec_attribs_clear(*old(dev)),
            old(dev).error_count < u64::MAX,
        ensures
            final(dev).draw_calls@ == old(dev).draw_calls@.push(
                spec_draw_call_of(self.spec_buffer(), self.spec_draw_mode()),
            ),
            spec_writes_view(final(dev).uniform_writes@) == spec_writes_view(
                old(dev).uniform_writes@,
            ) + spec_uniforms_view(uniforms.data@),
            self.spec_buffer().spec_ibo() is None ==> final(dev).error_count == old(
                dev,
            ).error_count,
            (self.spec_buffer().spec_ibo() is Some && spec_indices_in_range(
                self.spec_buffer(),
                *old(dev),
            )) ==> final(dev).error_count == old(dev).error_count,
            old(dev).error_count <= final(dev).error_count <= old(dev).error_count + 1,
            spec_attribs_clear(*final(dev)),
            self.spec_buffer().wf(*final(dev)),
            shader_program.wf(*final(dev)),
            final(dev).buffers@ == old(dev).buffers@,
    {
        renderer.draw(dev, &self.buffer, shader_program, self.draw_mode, uniforms)
    }
}

/// A vertex holding a position and a color, both as IEEE-754 bit patterns.
#[derive(Debug, Copy, Clone, PartialEq, Eq, Structural)]
pub struct ColorVertex {
    /// The position: three float bit patterns.
    pub position: Vec3Bits,
    /// The color: four float bit patterns.
    pub color: Vec4Bits,
}

impl Vertex for ColorVertex {
    /// Three position floats and four color floats: 28 bytes.
    open spec fn spec_size() -> nat {
        28
    }

    /// Position first, then color, each component as four little-endian
    /// bytes.
    open spec fn spec_data(self) -> Seq<u8> {
        spec_u32_to_le_bytes(self.position.x) + spec_u32_to_le_bytes(self.position.y)
            + spec_u32_to_le_bytes(self.position.z) + spec_u32_to_le_bytes(self.color.x)
            + spec_u32_to_le_bytes(self.color.y) + spec_u32_to_le_bytes(self.color.z)
            + spec_u32_to_le_bytes(self.color.w)
    }

    /// Two slots: three unnormalized float components at offset 0, four at
    /// offset 12, both with the 28-byte record as their stride.
    open spec fn spec_layouts() -> Seq<crate::device::AttribPointer> {
        seq![
            crate::device::AttribPointer {
                components: 3,
                type_tag: GL_FLOAT,
                normalized: false,
                stride: 28,
                offset: 0,
            },
            crate::device::AttribPointer {
                components: 4,
                type_tag: GL_FLOAT,
                normalized: false,
                stride: 28,
                offset: 12,
            },
        ]
    }

    proof fn lemma_data_size(self) {
        vstd::bytes::lemma_auto_spec_u32_to_from_le_bytes();
    }

    proof fn lemma_layouts_wf() {
        assert forall|i: int|
            0 <= i < Self::spec_layouts().len() implies #[trigger] crate::shader::slot_fits(
            Self::spec_layouts()[i],
            Self::spec_size(),
        ) by {
            if i == 0 {
                assert(crate::shader::slot_fits(Self::spec_layouts()[0], 28));
            } else {
                assert(crate::shader::slot_fits(Self::spec_layouts()[1], 28));
            }
        }
    }

    fn to_data(&self) -> (r: VertexData) {
        let mut data: Vec<u8> = Vec::new();
        let mut w = u32_to_le_bytes(self.position.x);
        data.append(&mut w);
        let mut w = u32_to_le_bytes(self.position.y);
        data.append(&mut w);
        let mut w = u32_to_le_bytes(self.position.z);
        data.append(&mut w);
        let mut w = u32_to_le_bytes(self.color.x);
        data.append(&mut w);
        let mut w = u32_to_le_bytes(self.color.y);
        data.append(&mut w);
        let mut w = u32_to_le_bytes(self.color.z);
        data.append(&mut w);
        let mut w = u32_to_le_bytes(self.color.w);
        data.append(&mut w);
        VertexData { data }
    }

    fn get_vertex_spec() -> (r: VertexAttributeSpec) {
        let mut fields: Vec<FieldSpec> = Vec::new();
        fields.push(FieldSpec { components: 3, type_tag: GL_FLOAT, normalized: false });
        fields.push(FieldSpec { components: 4, type_tag: GL_FLOAT, normalized: false });
        proof {
            lemma_color_vertex_fields(fields@);
        }
        let r = derive_vertex_layout(&fields);
        proof {
            assert(fields@.take(0) =~= Seq::<FieldSpec>::empty());
            assert(spec_element_size(Seq::<FieldSpec>::empty()) == 0);
            assert(crate::buffer::spec_offset_of(fields@, 0) == 0);
            assert(fields@.take(1) =~= seq![fields@[0]]);
            assert(seq![fields@[0]].skip(1) =~= Seq::<FieldSpec>::empty());
            assert(spec_element_size(fields@.take(1)) == crate::buffer::spec_field_size(
                fields@[0],
            ));
            assert(crate::buffer::spec_offset_of(fields@, 1) == 12);
            assert(r.layouts@ =~= Self::spec_layouts());
        }
        r
    }
}

/// The two-field layout of a [`ColorVertex`] occupies 28 bytes.
proof fn lemma_color_vertex_fields(fields: Seq<FieldSpec>)
    requires
        fields.len() == 2,
        fields[0] == (FieldSpec { components: 3, type_tag: GL_FLOAT, normalized: false }),
        fields[1] == (FieldSpec { components: 4, type_tag: GL_FLOAT, normalized: false }),
    ensures
        spec_element_size(fields) == 28,
{
    let tail = fields.skip(1);
    assert(tail.len() == 1);
    assert(tail[0] == fields[1]);
    assert(tail.skip(1) =~= Seq::<FieldSpec>::empty());
    assert(spec_element_size(Seq::<FieldSpec>::empty()) == 0);
    assert(spec_element_size(tail) == crate::buffer::spec_field_size(fields[1]));
    assert(crate::buffer::spec_field_size(fields[1]) == 16);
    assert(crate::buffer::spec_field_size(fields[0]) == 12);
}

} // verus!
