use vstd::prelude::*;

verus! {

use crate::buffer::VertexBuffer;
use crate::device::{
    attribs_ok_for_vertex, buffer_live, slot_ok, spec_index_at, AttribSlot, CullState, Device,
    DrawCall,
};
use crate::shader::{slot_fits, Program, Vertex, VertexAttributeSpec};
use crate::types::{
    GL_DEBUG_TYPE_ERROR, GL_TRIANGLES, GL_TRIANGLE_FAN, GL_TRIANGLE_STRIP, GL_UNSIGNED_INT,
    Vec4Bits,
};
use crate::uniforms::{spec_uniforms_view, spec_writes_view, Uniforms};

/// The draw primitive assembly mode.
#[derive(Debug, Copy, Clone, PartialEq, Eq, Structural)]
pub enum DrawMode {
    Triangles,
    TriangleStrip,
    TriangleFan,
}

impl DrawMode {
    /// The device topology tag for this mode.
    pub open spec fn spec_gl(self) -> u32 {
        match self {
            DrawMode::Triangles => GL_TRIANGLES,
            DrawMode::TriangleStrip => GL_TRIANGLE_STRIP,
            DrawMode::TriangleFan => GL_TRIANGLE_FAN,
        }
    }

    /// Returns the device topology tag for this mode.
    pub fn gl_mode(self) -> (r: u32)
        ensures
            r == self.spec_gl(),
    {
        match self {
            DrawMode::Triangles => GL_TRIANGLES,
            DrawMode::TriangleStrip => GL_TRIANGLE_STRIP,
            DrawMode::TriangleFan => GL_TRIANGLE_FAN,
        }
    }
}

impl From<DrawMode> for u32 {
    fn from(mode: DrawMode) -> (r: u32)
        ensures
            r == mode.spec_gl(),
    {
        mode.gl_mode()
    }
}

impl vstd::std_specs::convert::FromSpecImpl<DrawMode> for u32 {
    open spec fn obeys_from_spec() -> bool {
        true
    }

    open spec fn from_spec(mode: DrawMode) -> u32 {
        mode.spec_gl()
    }
}

/// The face-culling mode requested of the orchestrator.
#[derive(Debug, Copy, Clone, PartialEq, Eq, Structural)]
pub enum CullingMode {
    Clockwise,
    CounterClockwise,
    Disabled,
}

/// How one device diagnostic message is classified for the host log.
#[derive(Debug, Copy, Clone, PartialEq, Eq, Structural)]
pub enum DebugClass {
    /// A device-reported error.
    Error,
    /// Any other diagnostic: logged, never surfaced.
    Info,
}

/// Classifies a device diagnostic message by its type tag: error messages
/// are errors, everything else is informational.
pub fn classify_debug_message(message_type: u32) -> (c: DebugClass)
    ensures
        c == (if message_type == GL_DEBUG_TYPE_ERROR {
            DebugClass::Error
        } else {
            DebugClass::Info
        }),
{
    if message_type == GL_DEBUG_TYPE_ERROR {
        DebugClass::Error
    } else {
        DebugClass::Info
    }
}

/// Whether every index held in the buffer's index bytes names a vertex that
/// exists: each decoded index is below the vertex count.
pub open spec fn spec_indices_in_range<V: Vertex>(b: VertexBuffer<V>, dev: Device) -> bool {
    forall|j: int|
        0 <= j < b.spec_index_count() ==> (#[trigger] spec_index_at(
            b.spec_index_bytes(dev),
            j,
        )) < b.spec_vertex_count()
}

/// Whether no vertex attribute slot of the device is enabled. The draw
/// orchestrator enables slots only for the span of one draw call, so this
/// holds between calls.
pub open spec fn spec_attribs_clear(dev: Device) -> bool {
    forall|i: int| 0 <= i < dev.attribs.len() ==> !(#[trigger] dev.attribs[i]).enabled
}

/// The draw call one buffer and mode produce: indexed when the buffer has an
/// index buffer, non-indexed otherwise.
pub open spec fn spec_draw_call_of<V: Vertex>(b: VertexBuffer<V>, mode: DrawMode) -> DrawCall {
    if b.spec_ibo() is Some {
        DrawCall::Elements {
            mode: mode.spec_gl(),
            count: b.spec_index_count(),
            index_type: GL_UNSIGNED_INT,
        }
    } else {
        DrawCall::Arrays { mode: mode.spec_gl(), count: b.spec_vertex_count() }
    }
}

/// The draw orchestrator: holds the global draw settings and executes one
/// draw call against a buffer, a program, and a uniform set.
pub struct Renderer {
    clear_color: Vec4Bits,
    clear_depth: u64,
}

impl Renderer {
    /// The stored clear color, as four raw words.
    pub closed spec fn spec_clear_color(self) -> Vec4Bits {
        self.clear_color
    }

    /// The stored clear depth, as one raw word.
    pub closed spec fn spec_clear_depth(self) -> u64 {
        self.clear_depth
    }

    /// Constructs a new renderer: enables the device's debug output so that
    /// diagnostics reach the host log. The device function table must have
    /// been loaded before the device exists at all; the model device makes
    /// that a given.
    pub fn new(dev: &mut Device) -> (r: Renderer)
        ensures
            final(dev).debug_output,
            crate::device::debug_settings_post(*old(dev), *final(dev)),
            final(dev).cull == old(dev).cull,
            final(dev).clear_color == old(dev).clear_color,
            final(dev).clear_depth == old(dev).clear_depth,
            final(dev).clears == old(dev).clears,
            final(dev).draw_calls@ == old(dev).draw_calls@,
            final(dev).uniform_writes@ == old(dev).uniform_writes@,
            final(dev).error_count == old(dev).error_count,
            r.spec_clear_color() == (Vec4Bits { x: 0, y: 0, z: 0, w: 0 }),
            r.spec_clear_depth() == 0,
    {
        dev.enable_debug_output();
        Renderer { clear_color: Vec4Bits { x: 0, y: 0, z: 0, w: 0 }, clear_depth: 0 }
    }

    /// Sets the clear color for the renderer.
    pub fn clear_color(&mut self, color: Vec4Bits)
        ensures
            final(self).spec_clear_color() == color,
            final(self).spec_clear_depth() == old(self).spec_clear_depth(),
    {
        self.clear_color = color;
    }

    /// Sets the clear depth for the renderer.
    pub fn clear_depth(&mut self, depth: u64)
        ensures
            final(self).spec_clear_depth() == depth,
            final(self).spec_clear_color() == old(self).spec_clear_color(),
    {
        self.clear_depth = depth;
    }

    /// Sets the device's face-culling state: either winding enables culling
    /// with that winding as the front face, `Disabled` turns culling off.
    pub fn cull_faces(&mut self, dev: &mut Device, culling_mode: CullingMode)
        ensures
            final(dev).cull == (match culling_mode {
                CullingMode::Clockwise => (CullState::Enabled { front_ccw: false }),
                CullingMode::CounterClockwise => (CullState::Enabled { front_ccw: true }),
                CullingMode::Disabled => CullState::Disabled,
            }),
            crate::device::debug_settings_post(*old(dev), *final(dev)),
            final(dev).debug_output == old(dev).debug_output,
            final(dev).clear_color == old(dev).clear_color,
            final(dev).clear_depth == old(dev).clear_depth,
            final(dev).clears == old(dev).clears,
            final(dev).draw_calls@ == old(dev).draw_calls@,
            final(dev).uniform_writes@ == old(dev).uniform_writes@,
            final(dev).error_count == old(dev).error_count,
            *final(self) == *old(self),
    {
        match culling_mode {
            CullingMode::Clockwise => {
                dev.set_cull(CullState::Enabled { front_ccw: false });
            },
            CullingMode::CounterClockwise => {
                dev.set_cull(CullState::Enabled { front_ccw: true });
            },
            CullingMode::Disabled => {
                dev.set_cull(CullState::Disabled);
            },
        }
    }

    /// Clears the color and depth buffers using the stored clear state.
    pub fn clear(&self, dev: &mut Device)
        requires
            old(dev).clears < u64::MAX,
        ensures
            final(dev).clear_color == (
                self.spec_clear_color().x,
                self.spec_clear_color().y,
                self.spec_clear_color().z,
                self.spec_clear_color().w,
            ),
            final(dev).clear_depth == self.spec_clear_depth(),
            final(dev).clears == old(dev).clears + 1,
            crate::device::debug_settings_post(*old(dev), *final(dev)),
            final(dev).debug_output == old(dev).debug_output,
            final(dev).cull == old(dev).cull,
            final(dev).draw_calls@ == old(dev).draw_calls@,
            final(dev).uniform_writes@ == old(dev).uniform_writes@,
            final(dev).error_count == old(dev).error_count,
    {
        dev.set_clear_state(
            (self.clear_color.x, self.clear_color.y, self.clear_color.z, self.clear_color.w),
            self.clear_depth,
        );
        dev.clear_buffers();
    }

    /// Draws a buffer to the screen: binds the buffer and the program,
    /// uploads all uniforms, enables and configures one attribute slot per
    /// descriptor entry (slot index = position in the descriptor), issues an
    /// indexed draw when the buffer has indices and a non-indexed draw
    /// otherwise, and disables the slots it enabled.
    ///
    /// Because the descriptor is consistent with the vertex encoding and the
    /// buffer holds whole vertices, the draw never reads out of bounds: no
    /// device error is reported, except by an indexed draw whose index
    /// buffer names a vertex that does not exist.
    #[verifier::loop_isolation(false)]
    pub fn draw<V: Vertex>(
        &self,
        dev: &mut Device,
        buffer: &VertexBuffer<V>,
        shader_program: &Program,
        mode: DrawMode,
        uniforms: &Uniforms,
    )
        requires
            buffer.wf(*old(dev)),
            shader_program.wf(*old(dev)),
            crate::uniforms::spec_uniforms_wf(uniforms.data@),
            spec_attribs_clear(*old(dev)),
            old(dev).error_count < u64::MAX,
        ensures
            final(dev).draw_calls@ == old(dev).draw_calls@.push(
                spec_draw_call_of(*buffer, mode),
            ),
            spec_writes_view(final(dev).uniform_writes@) == spec_writes_view(
                old(dev).uniform_writes@,
            ) + spec_uniforms_view(uniforms.data@),
            buffer.spec_ibo() is None ==> final(dev).error_count == old(dev).error_count,
            (buffer.spec_ibo() is Some && spec_indices_in_range(*buffer, *old(dev)))
                ==> final(dev).error_count == old(dev).error_count,
            old(dev).error_count <= final(dev).error_count <= old(dev).error_count + 1,
            spec_attribs_clear(*final(dev)),
            final(dev).attribs.len() >= V::spec_layouts().len(),
            forall|i: int|
                0 <= i < V::spec_layouts().len() ==> (#[trigger] final(dev).attribs[i]).pointer
                    == Some(V::spec_layouts()[i]),
            buffer.wf(*final(dev)),
            shader_program.wf(*final(dev)),
            final(dev).buffers@ == old(dev).buffers@,
            final(dev).vertex_arrays@ == old(dev).vertex_arrays@,
            final(dev).shaders@ == old(dev).shaders@,
            final(dev).programs@ == old(dev).programs@,
            final(dev).bound_program == shader_program.spec_id(),
            final(dev).bound_vertex_array == buffer.spec_vao(),
            final(dev).bound_array_buffer == buffer.spec_vbo(),
            final(dev).debug_output == old(dev).debug_output,
            final(dev).cull == old(dev).cull,
            final(dev).clear_color == old(dev).clear_color,
            final(dev).clear_depth == old(dev).clear_depth,
            final(dev).clears == old(dev).clears,
    {
        buffer.bind(dev);
        shader_program.bind(dev);
        uniforms.upload_all(dev);
        let vertex_spec = V::get_vertex_spec();
        let n = vertex_spec.layouts.len();
        let ghost dev_bound = *dev;
        for i in 0..n
            invariant
                dev.attribs.len() >= i,
                forall|j: int| 0 <= j < i ==> (#[trigger] dev.attribs[j]).enabled,
                forall|j: int|
                    i <= j < dev.attribs.len() ==> !(#[trigger] dev.attribs[j]).enabled,
                crate::device::same_except_attribs(dev_bound, *dev),
        {
            dev.enable_vertex_attrib(i);
        }
        for i in 0..n
            invariant
                dev.attribs.len() >= n,
                forall|j: int| 0 <= j < n ==> (#[trigger] dev.attribs[j]).enabled,
                forall|j: int|
                    n <= j < dev.attribs.len() ==> !(#[trigger] dev.attribs[j]).enabled,
                forall|j: int|
                    0 <= j < i ==> (#[trigger] dev.attribs[j]).pointer == Some(
                        vertex_spec.layouts@[j],
                    ),
                crate::device::same_except_attribs(dev_bound, *dev),
        {
            dev.vertex_attrib_pointer(i, vertex_spec.layouts[i]);
        }
        let ghost dev_ready = *dev;
        proof {
            assert forall|j: int|
                0 <= j < dev.attribs.len() && (#[trigger] dev.attribs[j]).enabled implies {
                &&& dev.attribs[j].pointer is Some
                &&& slot_fits(dev.attribs[j].pointer.unwrap(), V::spec_size())
            } by {
                assert(slot_fits(vertex_spec.layouts@[j], V::spec_size()));
            }
        }
        if buffer.has_indices() {
            proof {
                if spec_indices_in_range(*buffer, *old(dev)) {
                    assert(buffer.spec_index_bytes(*dev) == buffer.spec_index_bytes(*old(dev)));
                    assert forall|j: int|
                        0 <= j < buffer.spec_index_count() implies (#[trigger] spec_index_at(
                        buffer.spec_index_bytes(*dev),
                        j,
                    )) < buffer.spec_vertex_count() by {
                        assert(spec_index_at(buffer.spec_index_bytes(*old(dev)), j)
                            < buffer.spec_vertex_count());
                    }
                    lemma_configured_draw_ok::<V>(
                        *dev,
                        *buffer,
                        buffer.spec_index_count() as int,
                        true,
                    );
                }
            }
            dev.draw_elements(mode.gl_mode(), buffer.index_count(), GL_UNSIGNED_INT);
        } else {
            proof {
                lemma_configured_draw_ok::<V>(
                    *dev,
                    *buffer,
                    buffer.spec_vertex_count() as int,
                    false,
                );
            }
            dev.draw_arrays(mode.gl_mode(), buffer.vertex_count());
        }
        let ghost dev_drawn = *dev;
        for i in 0..n
            invariant
                dev.attribs.len() >= n,
                forall|j: int| 0 <= j < i ==> !(#[trigger] dev.attribs[j]).enabled,
                forall|j: int|
                    n <= j < dev.attribs.len() ==> !(#[trigger] dev.attribs[j]).enabled,
                forall|j: int|
                    0 <= j < n ==> (#[trigger] dev.attribs[j]).pointer == Some(
                        vertex_spec.layouts@[j],
                    ),
                crate::device::same_except_attribs(dev_drawn, *dev),
        {
            dev.disable_vertex_attrib(i);
        }
    }
}

/// With the device's enabled slots all carrying descriptors that fit one
/// vertex of `V`, and the bound buffers holding whole vertices and whole
/// indices of this buffer, the pending draw is valid: every read stays in
/// bounds.
proof fn lemma_configured_draw_ok<V: Vertex>(
    dev: Device,
    buffer: VertexBuffer<V>,
    count: int,
    indexed: bool,
)
    requires
        buffer.wf(dev),
        program_live_now(dev),
        dev.bound_array_buffer == buffer.spec_vbo(),
        forall|j: int|
            0 <= j < dev.attribs.len() && (#[trigger] dev.attribs[j]).enabled ==> {
                &&& dev.attribs[j].pointer is Some
                &&& slot_fits(dev.attribs[j].pointer.unwrap(), V::spec_size())
            },
        indexed ==> {
            &&& buffer.spec_ibo() is Some
            &&& dev.bound_element_buffer == buffer.spec_ibo().unwrap()
            &&& count == buffer.spec_index_count()
            &&& forall|j: int|
                0 <= j < count ==> (#[trigger] spec_index_at(
                    buffer.spec_index_bytes(dev),
                    j,
                )) < buffer.spec_vertex_count()
        },
        !indexed ==> count == buffer.spec_vertex_count(),
    ensures
        !indexed ==> crate::device::arrays_draw_ok(dev, count),
        indexed ==> crate::device::elements_draw_ok(dev, count),
{
    let size = V::spec_size();
    let vcount = buffer.spec_vertex_count() as int;
    let len = dev.buffers[buffer.spec_vbo() - 1].data@.len() as int;
    assert(len == vcount * size);
    assert forall|v: int| 0 <= v < vcount implies attribs_ok_for_vertex(dev, v, len) by {
        assert forall|j: int| 0 <= j < dev.attribs.len() implies #[trigger] slot_ok(
            dev.attribs[j],
            v,
            len,
        ) by {
            if dev.attribs[j].enabled {
                let p = dev.attribs[j].pointer.unwrap();
                assert(p.offset + p.components * crate::types::spec_component_size(p.type_tag)
                    <= size);
                assert(v * (size as int) + size <= vcount * (size as int)) by (nonlinear_arith)
                    requires
                        v + 1 <= vcount,
                        size >= 0,
                ;
                assert(p.offset + v * p.stride + p.components
                    * crate::types::spec_component_size(p.type_tag) <= len);
            }
        }
    }
    if !indexed {
        if count > 0 {
            assert(attribs_ok_for_vertex(dev, count - 1, len));
        }
    } else {
        let h = buffer.spec_ibo().unwrap();
        assert(buffer_live(dev, h));
        assert(4 * count <= dev.buffers[h - 1].data@.len());
        assert forall|j: int| 0 <= j < count implies attribs_ok_for_vertex(
            dev,
            (#[trigger] spec_index_at(dev.buffers[dev.bound_element_buffer - 1].data@, j)) as int,
            dev.buffers[dev.bound_array_buffer - 1].data@.len() as int,
        ) by {
            assert(spec_index_at(buffer.spec_index_bytes(dev), j) < vcount);
        }
    }
}

/// A buffer whose index bytes encode a given index list has every read
/// index in range exactly when every given index is below the vertex count:
/// the bridge from the index encoder to error-free indexed draws.
pub proof fn lemma_encoded_indices_in_range<V: Vertex>(
    b: VertexBuffer<V>,
    dev: Device,
    indices: Seq<u32>,
)
    requires
        b.spec_index_bytes(dev) == crate::buffer::spec_encode_indices(indices),
        b.spec_index_count() == indices.len(),
        forall|j: int| 0 <= j < indices.len() ==> #[trigger] indices[j] < b.spec_vertex_count(),
    ensures
        spec_indices_in_range(b, dev),
{
    assert forall|j: int|
        0 <= j < b.spec_index_count() implies (#[trigger] spec_index_at(
        b.spec_index_bytes(dev),
        j,
    )) < b.spec_vertex_count() by {
        crate::buffer::lemma_index_round_trip(indices, j);
    }
}

/// Whether the program currently in use is a live program object.
pub open spec fn program_live_now(dev: Device) -> bool {
    crate::device::program_live(dev, dev.bound_program)
}

} // verus!
