use vstd::prelude::*;

verus! {

use crate::types::{component_size, spec_component_size, GL_UNSIGNED_INT};
use vstd::bytes::{spec_u32_from_le_bytes, u32_from_le_bytes};

/// One device-side buffer object: raw byte storage plus an allocation
/// generation counter. `allocations` counts how many times the storage was
/// (re)allocated, so that "no reallocation happened" is observable.
pub struct BufferObject {
    /// Whether the handle is still live (not yet deleted).
    pub alive: bool,
    /// The bytes currently held in device storage.
    pub data: Vec<u8>,
    /// How many times storage was allocated for this handle.
    pub allocations: u64,
}

/// One device-side shader object.
pub struct ShaderObject {
    /// Whether the handle is still live.
    pub alive: bool,
    /// How many times source was submitted to the device compiler.
    pub compile_submissions: u64,
}

/// One device-side program object.
pub struct ProgramObject {
    /// Whether the handle is still live.
    pub alive: bool,
    /// How many link operations were issued for this program.
    pub link_attempts: u64,
    /// The shader handles attached so far, in attachment order.
    pub attached: Vec<u32>,
}

/// The device compiler's verdict on one submitted shader source: the compile
/// status read back, together with the diagnostic log on failure.
pub enum CompileOutcome {
    /// The device compiler accepted the source.
    Accepted,
    /// The device compiler rejected the source with this diagnostic log.
    Rejected(String),
}

impl Clone for CompileOutcome {
    fn clone(&self) -> (r: Self)
        ensures
            r == *self,
    {
        match self {
            CompileOutcome::Accepted => CompileOutcome::Accepted,
            CompileOutcome::Rejected(log) => CompileOutcome::Rejected(log.clone()),
        }
    }
}

/// The device linker's verdict on one link operation: the link status read
/// back, together with the diagnostic log on failure.
pub enum LinkOutcome {
    /// The device linker produced a usable program.
    Accepted,
    /// The device linker failed with this diagnostic log.
    Rejected(String),
}

/// One draw call as issued to the device.
#[derive(Debug, PartialEq, Eq, Structural)]
pub enum DrawCall {
    /// A non-indexed draw of `count` consecutive vertices.
    Arrays { mode: u32, count: usize },
    /// An indexed draw of `count` indices of the given index type.
    Elements { mode: u32, count: usize, index_type: u32 },
}

/// The geometry of one vertex attribute slot as configured on the device:
/// (component count, component type tag, normalize flag, element stride in
/// bytes, byte offset of the first element).
#[derive(Clone, Copy, PartialEq, Eq, Structural)]
pub struct AttribPointer {
    pub components: usize,
    pub type_tag: u32,
    pub normalized: bool,
    pub stride: usize,
    pub offset: usize,
}

/// One attribute slot's device-side state.
#[derive(Clone, Copy)]
pub struct AttribSlot {
    /// Whether reads from this slot are enabled for draws.
    pub enabled: bool,
    /// The configured read geometry, if any was ever set.
    pub pointer: Option<AttribPointer>,
}

/// Face-culling state as held by the device.
#[derive(Debug, PartialEq, Eq, Structural)]
pub enum CullState {
    /// Culling disabled.
    Disabled,
    /// Culling enabled; `true` means counter-clockwise front faces.
    Enabled { front_ccw: bool },
}

/// An explicit model of the graphics device's state.
///
/// Handles are positive integers; handle `h` names slot `h - 1` of the
/// matching object table. Deleted objects keep their slot (dead), so a handle
/// is never reused and handle identity is meaningful.
pub struct Device {
    /// All buffer objects ever generated.
    pub buffers: Vec<BufferObject>,
    /// Liveness of every vertex-array object ever generated.
    pub vertex_arrays: Vec<bool>,
    /// All shader objects ever created.
    pub shaders: Vec<ShaderObject>,
    /// All program objects ever created.
    pub programs: Vec<ProgramObject>,
    /// The handle bound to the array-buffer target (0 = none).
    pub bound_array_buffer: u32,
    /// The handle bound to the element-array-buffer target (0 = none).
    pub bound_element_buffer: u32,
    /// The bound vertex-array object (0 = none).
    pub bound_vertex_array: u32,
    /// The program in use (0 = none).
    pub bound_program: u32,
    /// Per-slot vertex attribute state.
    pub attribs: Vec<AttribSlot>,
    /// Every draw call issued, in order.
    pub draw_calls: Vec<DrawCall>,
    /// Every uniform write issued, as (location, raw words), in order.
    pub uniform_writes: Vec<(i32, Vec<u32>)>,
    /// How many diagnostic-channel errors the device has reported.
    pub error_count: u64,
    /// Whether debug output was enabled and a callback installed.
    pub debug_output: bool,
    /// Current face-culling state.
    pub cull: CullState,
    /// The clear color currently set, as four raw 32-bit words.
    pub clear_color: (u32, u32, u32, u32),
    /// The clear depth currently set, as one raw 64-bit word.
    pub clear_depth: u64,
    /// How many clear operations were issued.
    pub clears: u64,
}

/// Whether `h` names a live buffer object of `dev`.
pub open spec fn buffer_live(dev: Device, h: u32) -> bool {
    1 <= h && h <= dev.buffers.len() && dev.buffers[h - 1].alive
}

/// Whether `h` names a live vertex-array object of `dev`.
pub open spec fn vertex_array_live(dev: Device, h: u32) -> bool {
    1 <= h && h <= dev.vertex_arrays.len() && dev.vertex_arrays[h - 1]
}

/// Whether `h` names a live shader object of `dev`.
pub open spec fn shader_live(dev: Device, h: u32) -> bool {
    1 <= h && h <= dev.shaders.len() && dev.shaders[h - 1].alive
}

/// Whether `h` names a live program object of `dev`.
pub open spec fn program_live(dev: Device, h: u32) -> bool {
    1 <= h && h <= dev.programs.len() && dev.programs[h - 1].alive
}

impl Device {
    /// A fresh device: no objects, nothing bound, no diagnostics.
    pub fn new() -> (dev: Device)
        ensures
            dev.buffers.len() == 0,
            dev.vertex_arrays.len() == 0,
            dev.shaders.len() == 0,
            dev.programs.len() == 0,
            dev.bound_array_buffer == 0,
            dev.bound_element_buffer == 0,
            dev.bound_vertex_array == 0,
            dev.bound_program == 0,
            dev.attribs.len() == 0,
            dev.draw_calls.len() == 0,
            dev.uniform_writes.len() == 0,
            dev.error_count == 0,
            !dev.debug_output,
            dev.cull == CullState::Disabled,
            dev.clears == 0,
    {
        Device {
            buffers: Vec::new(),
            vertex_arrays: Vec::new(),
            shaders: Vec::new(),
            programs: Vec::new(),
            bound_array_buffer: 0,
            bound_element_buffer: 0,
            bound_vertex_array: 0,
            bound_program: 0,
            attribs: Vec::new(),
            draw_calls: Vec::new(),
            uniform_writes: Vec::new(),
            error_count: 0,
            debug_output: false,
            cull: CullState::Disabled,
            clear_color: (0, 0, 0, 0),
            clear_depth: 0,
            clears: 0,
        }
    }

    /// Generates a fresh buffer object handle with empty storage.
    pub fn gen_buffer(&mut self) -> (h: u32)
        requires
            old(self).buffers.len() < u32::MAX,
        ensures
            h == old(self).buffers.len() + 1,
            buffer_live(*final(self), h),
            final(self).buffers.len() == old(self).buffers.len() + 1,
            final(self).buffers[h - 1].alive,
            final(self).buffers[h - 1].data@ == Seq::<u8>::empty(),
            final(self).buffers[h - 1].allocations == 0,
            forall|i: int|
                0 <= i < old(self).buffers.len() ==> final(self).buffers[i]
                    == old(self).buffers[i],
            same_except_buffers(*old(self), *final(self)),
    {
        self.buffers.push(BufferObject { alive: true, data: Vec::new(), allocations: 0 });
        self.buffers.len() as u32
    }

    /// Generates a fresh vertex-array object handle.
    pub fn gen_vertex_array(&mut self) -> (h: u32)
        requires
            old(self).vertex_arrays.len() < u32::MAX,
        ensures
            h == old(self).vertex_arrays.len() + 1,
            vertex_array_live(*final(self), h),
            final(self).vertex_arrays@ == old(self).vertex_arrays@.push(true),
            same_except_vertex_arrays(*old(self), *final(self)),
    {
        self.vertex_arrays.push(true);
        self.vertex_arrays.len() as u32
    }

    /// Binds a live buffer to the array-buffer target.
    pub fn bind_array_buffer(&mut self, h: u32)
        requires
            buffer_live(*old(self), h),
        ensures
            final(self).bound_array_buffer == h,
            final(self).bound_element_buffer == old(self).bound_element_buffer,
            final(self).bound_vertex_array == old(self).bound_vertex_array,
            final(self).bound_program == old(self).bound_program,
            same_except_bindings(*old(self), *final(self)),
    {
        self.bound_array_buffer = h;
    }

    /// Binds a live buffer to the element-array-buffer target.
    pub fn bind_element_buffer(&mut self, h: u32)
        requires
            buffer_live(*old(self), h),
        ensures
            final(self).bound_element_buffer == h,
            final(self).bound_array_buffer == old(self).bound_array_buffer,
            final(self).bound_vertex_array == old(self).bound_vertex_array,
            final(self).bound_program == old(self).bound_program,
            same_except_bindings(*old(self), *final(self)),
    {
        self.bound_element_buffer = h;
    }

    /// Binds a live vertex-array object.
    pub fn bind_vertex_array(&mut self, h: u32)
        requires
            vertex_array_live(*old(self), h),
        ensures
            final(self).bound_vertex_array == h,
            final(self).bound_array_buffer == old(self).bound_array_buffer,
            final(self).bound_element_buffer == old(self).bound_element_buffer,
            final(self).bound_program == old(self).bound_program,
            same_except_bindings(*old(self), *final(self)),
    {
        self.bound_vertex_array = h;
    }

    /// (Re)allocates the storage of the buffer bound to the array-buffer
    /// target and fills it with `bytes`.
    pub fn buffer_data_array(&mut self, bytes: Vec<u8>)
        requires
            buffer_live(*old(self), old(self).bound_array_buffer),
            old(self).buffers[old(self).bound_array_buffer - 1].allocations < u64::MAX,
        ensures
            buffer_data_post(*old(self), *final(self), old(self).bound_array_buffer, bytes@),
    {
        let idx: usize = (self.bound_array_buffer - 1) as usize;
        let allocs = self.buffers[idx].allocations;
        self.buffers[idx] = BufferObject { alive: true, data: bytes, allocations: allocs + 1 };
    }

    /// (Re)allocates the storage of the buffer bound to the
    /// element-array-buffer target and fills it with `bytes`.
    pub fn buffer_data_element(&mut self, bytes: Vec<u8>)
        requires
            buffer_live(*old(self), old(self).bound_element_buffer),
            old(self).buffers[old(self).bound_element_buffer - 1].allocations < u64::MAX,
        ensures
            buffer_data_post(*old(self), *final(self), old(self).bound_element_buffer, bytes@),
    {
        let idx: usize = (self.bound_element_buffer - 1) as usize;
        let allocs = self.buffers[idx].allocations;
        self.buffers[idx] = BufferObject { alive: true, data: bytes, allocations: allocs + 1 };
    }

    /// Overwrites the leading `bytes.len()` bytes of the buffer bound to the
    /// array-buffer target, in place: no reallocation happens.
    pub fn buffer_sub_data_array(&mut self, bytes: &Vec<u8>)
        requires
            buffer_live(*old(self), old(self).bound_array_buffer),
            bytes@.len() <= old(self).buffers[old(self).bound_array_buffer - 1].data@.len(),
        ensures
            buffer_sub_data_post(*old(self), *final(self), old(self).bound_array_buffer, bytes@),
    {
        let idx: usize = (self.bound_array_buffer - 1) as usize;
        overwrite_prefix(&mut self.buffers[idx].data, bytes);
    }

    /// Overwrites the leading `bytes.len()` bytes of the buffer bound to the
    /// element-array-buffer target, in place: no reallocation happens.
    pub fn buffer_sub_data_element(&mut self, bytes: &Vec<u8>)
        requires
            buffer_live(*old(self), old(self).bound_element_buffer),
            bytes@.len() <= old(self).buffers[old(self).bound_element_buffer - 1].data@.len(),
        ensures
            buffer_sub_data_post(*old(self), *final(self), old(self).bound_element_buffer, bytes@),
    {
        let idx: usize = (self.bound_element_buffer - 1) as usize;
        overwrite_prefix(&mut self.buffers[idx].data, bytes);
    }

    /// Reads back the full contents of the live buffer `h`.
    pub fn read_buffer_bytes(&self, h: u32) -> (r: Vec<u8>)
        requires
            buffer_live(*self, h),
        ensures
            r@ == self.buffers[h - 1].data@,
    {
        let idx: usize = (h - 1) as usize;
        let src = &self.buffers[idx].data;
        let mut r: Vec<u8> = Vec::new();
        let n = src.len();
        for i in 0..n
            invariant
                n == src.len(),
                r@ == src@.subrange(0, i as int),
        {
            r.push(src[i]);
            proof {
                assert(r@ =~= src@.subrange(0, i + 1 as int));
            }
        }
        proof {
            assert(r@ =~= src@);
        }
        r
    }

    /// Deletes the live buffer `h`: the handle goes dead, its storage is
    /// released, and any binding of it is undone.
    pub fn delete_buffer(&mut self, h: u32)
        requires
            buffer_live(*old(self), h),
        ensures
            final(self).buffers.len() == old(self).buffers.len(),
            !final(self).buffers[h - 1].alive,
            final(self).buffers[h - 1].allocations == old(self).buffers[h - 1].allocations,
            forall|i: int|
                0 <= i < old(self).buffers.len() && i != h - 1 ==> final(self).buffers[i]
                    == old(self).buffers[i],
            final(self).bound_array_buffer == (if old(self).bound_array_buffer == h {
                0u32
            } else {
                old(self).bound_array_buffer
            }),
            final(self).bound_element_buffer == (if old(self).bound_element_buffer == h {
                0u32
            } else {
                old(self).bound_element_buffer
            }),
            final(self).bound_vertex_array == old(self).bound_vertex_array,
            final(self).bound_program == old(self).bound_program,
            same_except_buffers_and_bindings(*old(self), *final(self)),
    {
        let idx: usize = (h - 1) as usize;
        let allocs = self.buffers[idx].allocations;
        self.buffers[idx] = BufferObject { alive: false, data: Vec::new(), allocations: allocs };
        if self.bound_array_buffer == h {
            self.bound_array_buffer = 0;
        }
        if self.bound_element_buffer == h {
            self.bound_element_buffer = 0;
        }
    }

    /// Creates a fresh shader object.
    pub fn create_shader(&mut self) -> (h: u32)
        requires
            old(self).shaders.len() < u32::MAX,
        ensures
            h == old(self).shaders.len() + 1,
            shader_live(*final(self), h),
            final(self).shaders.len() == old(self).shaders.len() + 1,
            final(self).shaders[h - 1].alive,
            final(self).shaders[h - 1].compile_submissions == 0,
            forall|i: int|
                0 <= i < old(self).shaders.len() ==> final(self).shaders[i]
                    == old(self).shaders[i],
            same_except_shaders(*old(self), *final(self)),
    {
        self.shaders.push(ShaderObject { alive: true, compile_submissions: 0 });
        self.shaders.len() as u32
    }

    /// Submits source to the device compiler for shader `h`: one compile
    /// submission is recorded.
    pub fn compile_shader(&mut self, h: u32)
        requires
            shader_live(*old(self), h),
            old(self).shaders[h - 1].compile_submissions < u64::MAX,
        ensures
            final(self).shaders.len() == old(self).shaders.len(),
            final(self).shaders[h - 1].alive,
            final(self).shaders[h - 1].compile_submissions == old(self).shaders[h
                - 1].compile_submissions + 1,
            forall|i: int|
                0 <= i < old(self).shaders.len() && i != h - 1 ==> final(self).shaders[i]
                    == old(self).shaders[i],
            same_except_shaders(*old(self), *final(self)),
    {
        let idx: usize = (h - 1) as usize;
        let n = self.shaders[idx].compile_submissions;
        self.shaders[idx] = ShaderObject { alive: true, compile_submissions: n + 1 };
    }

    /// Deletes the live shader `h`.
    pub fn delete_shader(&mut self, h: u32)
        requires
            shader_live(*old(self), h),
        ensures
            final(self).shaders.len() == old(self).shaders.len(),
            !final(self).shaders[h - 1].alive,
            final(self).shaders[h - 1].compile_submissions == old(self).shaders[h
                - 1].compile_submissions,
            forall|i: int|
                0 <= i < old(self).shaders.len() && i != h - 1 ==> final(self).shaders[i]
                    == old(self).shaders[i],
            same_except_shaders(*old(self), *final(self)),
    {
        let idx: usize = (h - 1) as usize;
        let n = self.shaders[idx].compile_submissions;
        self.shaders[idx] = ShaderObject { alive: false, compile_submissions: n };
    }

    /// Creates a fresh program object.
    pub fn create_program(&mut self) -> (h: u32)
        requires
            old(self).programs.len() < u32::MAX,
        ensures
            h == old(self).programs.len() + 1,
            program_live(*final(self), h),
            final(self).programs.len() == old(self).programs.len() + 1,
            final(self).programs[h - 1].alive,
            final(self).programs[h - 1].link_attempts == 0,
            final(self).programs[h - 1].attached@ == Seq::<u32>::empty(),
            forall|i: int|
                0 <= i < old(self).programs.len() ==> final(self).programs[i]
                    == old(self).programs[i],
            same_except_programs(*old(self), *final(self)),
    {
        self.programs.push(ProgramObject { alive: true, link_attempts: 0, attached: Vec::new() });
        self.programs.len() as u32
    }

    /// Attaches shader `s` to program `p`.
    pub fn attach_shader(&mut self, p: u32, s: u32)
        requires
            program_live(*old(self), p),
            shader_live(*old(self), s),
        ensures
            final(self).programs.len() == old(self).programs.len(),
            final(self).programs[p - 1].alive,
            final(self).programs[p - 1].link_attempts == old(self).programs[p - 1].link_attempts,
            final(self).programs[p - 1].attached@ == old(self).programs[p - 1].attached@.push(s),
            forall|i: int|
                0 <= i < old(self).programs.len() && i != p - 1 ==> final(self).programs[i]
                    == old(self).programs[i],
            same_except_programs(*old(self), *final(self)),
    {
        let idx: usize = (p - 1) as usize;
        self.programs[idx].attached.push(s);
    }

    /// Issues a link operation for program `p`: one link attempt is recorded.
    pub fn link_program(&mut self, p: u32)
        requires
            program_live(*old(self), p),
            old(self).programs[p - 1].link_attempts < u64::MAX,
        ensures
            final(self).programs.len() == old(self).programs.len(),
            final(self).programs[p - 1].alive,
            final(self).programs[p - 1].link_attempts == old(self).programs[p - 1].link_attempts
                + 1,
            final(self).programs[p - 1].attached@ == old(self).programs[p - 1].attached@,
            forall|i: int|
                0 <= i < old(self).programs.len() && i != p - 1 ==> final(self).programs[i]
                    == old(self).programs[i],
            same_except_programs(*old(self), *final(self)),
    {
        let idx: usize = (p - 1) as usize;
        let n = self.programs[idx].link_attempts;
        self.programs[idx].link_attempts = n + 1;
    }

    /// Makes program `p` the one in use for draws.
    pub fn use_program(&mut self, p: u32)
        requires
            program_live(*old(self), p),
        ensures
            final(self).bound_program == p,
            final(self).bound_array_buffer == old(self).bound_array_buffer,
            final(self).bound_element_buffer == old(self).bound_element_buffer,
            final(self).bound_vertex_array == old(self).bound_vertex_array,
            same_except_bindings(*old(self), *final(self)),
    {
        self.bound_program = p;
    }

    /// Deletes the live program `p`; if it was in use, nothing is in use
    /// afterwards.
    pub fn delete_program(&mut self, p: u32)
        requires
            program_live(*old(self), p),
        ensures
            final(self).programs.len() == old(self).programs.len(),
            !final(self).programs[p - 1].alive,
            forall|i: int|
                0 <= i < old(self).programs.len() && i != p - 1 ==> final(self).programs[i]
                    == old(self).programs[i],
            final(self).bound_program == (if old(self).bound_program == p {
                0u32
            } else {
                old(self).bound_program
            }),
            final(self).bound_array_buffer == old(self).bound_array_buffer,
            final(self).bound_element_buffer == old(self).bound_element_buffer,
            final(self).bound_vertex_array == old(self).bound_vertex_array,
            same_except_programs_and_bindings(*old(self), *final(self)),
    {
        let idx: usize = (p - 1) as usize;
        let n = self.programs[idx].link_attempts;
        self.programs[idx] = ProgramObject { alive: false, link_attempts: n, attached: Vec::new() };
        if self.bound_program == p {
            self.bound_program = 0;
        }
    }

    /// Grows the attribute table so that slot `i` exists; new slots are
    /// disabled and unconfigured.
    fn ensure_attrib_slot(&mut self, i: usize)
        requires
            i < usize::MAX,
        ensures
            final(self).attribs.len() == (if old(self).attribs.len() >= i + 1 {
                old(self).attribs.len() as int
            } else {
                i + 1
            }),
            forall|j: int|
                0 <= j < old(self).attribs.len() ==> final(self).attribs[j]
                    == old(self).attribs[j],
            forall|j: int|
                old(self).attribs.len() <= j < final(self).attribs.len()
                    ==> final(self).attribs[j] == (AttribSlot { enabled: false, pointer: None }),
            same_except_attribs(*old(self), *final(self)),
    {
        while self.attribs.len() < i + 1
            invariant
                i < usize::MAX,
                old(self).attribs.len() <= self.attribs.len(),
                self.attribs.len() <= i + 1 || self.attribs.len() == old(self).attribs.len(),
                forall|j: int|
                    0 <= j < old(self).attribs.len() ==> self.attribs[j] == old(self).attribs[j],
                forall|j: int|
                    old(self).attribs.len() <= j < self.attribs.len() ==> self.attribs[j]
                        == (AttribSlot { enabled: false, pointer: None }),
                same_except_attribs(*old(self), *self),
            decreases i + 1 - self.attribs.len(),
        {
            self.attribs.push(AttribSlot { enabled: false, pointer: None });
        }
    }

    /// Enables vertex attribute slot `i` for draws.
    pub fn enable_vertex_attrib(&mut self, i: usize)
        requires
            i < usize::MAX,
        ensures
            final(self).attribs.len() == (if old(self).attribs.len() >= i + 1 {
                old(self).attribs.len() as int
            } else {
                i + 1
            }),
            final(self).attribs[i as int].enabled,
            final(self).attribs[i as int].pointer == (if i < old(self).attribs.len() {
                old(self).attribs[i as int].pointer
            } else {
                Option::<AttribPointer>::None
            }),
            forall|j: int|
                0 <= j < old(self).attribs.len() && j != i ==> final(self).attribs[j]
                    == old(self).attribs[j],
            forall|j: int|
                old(self).attribs.len() <= j < final(self).attribs.len() && j != i
                    ==> final(self).attribs[j] == (AttribSlot { enabled: false, pointer: None }),
            same_except_attribs(*old(self), *final(self)),
    {
        self.ensure_attrib_slot(i);
        self.attribs[i].enabled = true;
    }

    /// Disables vertex attribute slot `i`.
    pub fn disable_vertex_attrib(&mut self, i: usize)
        requires
            i < old(self).attribs.len(),
        ensures
            final(self).attribs.len() == old(self).attribs.len(),
            !final(self).attribs[i as int].enabled,
            final(self).attribs[i as int].pointer == old(self).attribs[i as int].pointer,
            forall|j: int|
                0 <= j < old(self).attribs.len() && j != i ==> final(self).attribs[j]
                    == old(self).attribs[j],
            same_except_attribs(*old(self), *final(self)),
    {
        self.attribs[i].enabled = false;
    }

    /// Configures the read geometry of vertex attribute slot `i`.
    pub fn vertex_attrib_pointer(&mut self, i: usize, p: AttribPointer)
        requires
            i < usize::MAX,
        ensures
            final(self).attribs.len() == (if old(self).attribs.len() >= i + 1 {
                old(self).attribs.len() as int
            } else {
                i + 1
            }),
            final(self).attribs[i as int].pointer == Some(p),
            final(self).attribs[i as int].enabled == (i < old(self).attribs.len()
                && old(self).attribs[i as int].enabled),
            forall|j: int|
                0 <= j < old(self).attribs.len() && j != i ==> final(self).attribs[j]
                    == old(self).attribs[j],
            forall|j: int|
                old(self).attribs.len() <= j < final(self).attribs.len() && j != i
                    ==> final(self).attribs[j] == (AttribSlot { enabled: false, pointer: None }),
            same_except_attribs(*old(self), *final(self)),
    {
        self.ensure_attrib_slot(i);
        self.attribs[i].pointer = Some(p);
    }

    /// Enables debug output: the diagnostic callback is installed.
    pub fn enable_debug_output(&mut self)
        ensures
            final(self).debug_output,
            debug_settings_post(*old(self), *final(self)),
            final(self).cull == old(self).cull,
            final(self).clear_color == old(self).clear_color,
            final(self).clear_depth == old(self).clear_depth,
            final(self).clears == old(self).clears,
            final(self).draw_calls@ == old(self).draw_calls@,
            final(self).uniform_writes@ == old(self).uniform_writes@,
            final(self).error_count == old(self).error_count,
    {
        self.debug_output = true;
    }

    /// Sets the face-culling state.
    pub fn set_cull(&mut self, cull: CullState)
        ensures
            final(self).cull == cull,
            debug_settings_post(*old(self), *final(self)),
            final(self).debug_output == old(self).debug_output,
            final(self).clear_color == old(self).clear_color,
            final(self).clear_depth == old(self).clear_depth,
            final(self).clears == old(self).clears,
            final(self).draw_calls@ == old(self).draw_calls@,
            final(self).uniform_writes@ == old(self).uniform_writes@,
            final(self).error_count == old(self).error_count,
    {
        self.cull = cull;
    }

    /// Sets the clear color and depth that the next clear will use.
    pub fn set_clear_state(&mut self, color: (u32, u32, u32, u32), depth: u64)
        ensures
            final(self).clear_color == color,
            final(self).clear_depth == depth,
            debug_settings_post(*old(self), *final(self)),
            final(self).debug_output == old(self).debug_output,
            final(self).cull == old(self).cull,
            final(self).clears == old(self).clears,
            final(self).draw_calls@ == old(self).draw_calls@,
            final(self).uniform_writes@ == old(self).uniform_writes@,
            final(self).error_count == old(self).error_count,
    {
        self.clear_color = color;
        self.clear_depth = depth;
    }

    /// Clears the color and depth buffers.
    pub fn clear_buffers(&mut self)
        requires
            old(self).clears < u64::MAX,
        ensures
            final(self).clears == old(self).clears + 1,
            debug_settings_post(*old(self), *final(self)),
            final(self).debug_output == old(self).debug_output,
            final(self).cull == old(self).cull,
            final(self).clear_color == old(self).clear_color,
            final(self).clear_depth == old(self).clear_depth,
            final(self).draw_calls@ == old(self).draw_calls@,
            final(self).uniform_writes@ == old(self).uniform_writes@,
            final(self).error_count == old(self).error_count,
    {
        self.clears = self.clears + 1;
    }

    /// Writes one uniform value, given as raw 32-bit words, to the given
    /// binding location.
    pub fn upload_uniform(&mut self, location: i32, words: Vec<u32>)
        ensures
            final(self).uniform_writes@ == old(self).uniform_writes@.push((location, words)),
            debug_settings_post(*old(self), *final(self)),
            final(self).debug_output == old(self).debug_output,
            final(self).cull == old(self).cull,
            final(self).clear_color == old(self).clear_color,
            final(self).clear_depth == old(self).clear_depth,
            final(self).clears == old(self).clears,
            final(self).draw_calls@ == old(self).draw_calls@,
            final(self).error_count == old(self).error_count,
    {
        self.uniform_writes.push((location, words));
    }

    /// Returns whether all enabled attribute slots are configured and read in
    /// bounds of a buffer of `len` bytes for vertex number `v`.
    fn check_attribs_for_vertex(&self, v: usize, len: usize) -> (b: bool)
        ensures
            b == attribs_ok_for_vertex(*self, v as int, len as int),
    {
        let n = self.attribs.len();
        for i in 0..n
            invariant
                n == self.attribs.len(),
                forall|k: int| 0 <= k < i ==> #[trigger] slot_ok(self.attribs[k], v as int, len as int),
        {
            let slot = self.attribs[i];
            if slot.enabled {
                match slot.pointer {
                    None => {
                        assert(!slot_ok(self.attribs[i as int], v as int, len as int));
                        return false;
                    },
                    Some(p) => {
                        let width = match p.components.checked_mul(component_size(p.type_tag)) {
                            Some(w) => w,
                            None => {
                                assert(!slot_ok(self.attribs[i as int], v as int, len as int));
                                return false;
                            },
                        };
                        let span = match v.checked_mul(p.stride) {
                            Some(s) => s,
                            None => {
                                assert(!slot_ok(self.attribs[i as int], v as int, len as int));
                                return false;
                            },
                        };
                        let end = match p.offset.checked_add(span) {
                            Some(e) => match e.checked_add(width) {
                                Some(e2) => e2,
                                None => {
                                    assert(!slot_ok(self.attribs[i as int], v as int, len as int));
                                    return false;
                                },
                            },
                            None => {
                                assert(!slot_ok(self.attribs[i as int], v as int, len as int));
                                return false;
                            },
                        };
                        if end > len {
                            assert(!slot_ok(self.attribs[i as int], v as int, len as int));
                            return false;
                        }
                    },
                }
            }
        }
        true
    }

    /// Returns whether `h` names a live buffer object.
    pub fn is_buffer_live(&self, h: u32) -> (b: bool)
        ensures
            b == buffer_live(*self, h),
    {
        h >= 1 && (h as usize) <= self.buffers.len() && self.buffers[(h - 1) as usize].alive
    }

    /// Returns whether `h` names a live program object.
    pub fn is_program_live(&self, h: u32) -> (b: bool)
        ensures
            b == program_live(*self, h),
    {
        h >= 1 && (h as usize) <= self.programs.len() && self.programs[(h - 1) as usize].alive
    }

    /// Returns whether a non-indexed draw of `count` vertices is valid in the
    /// current state.
    fn check_arrays_ok(&self, count: usize) -> (b: bool)
        ensures
            b == arrays_draw_ok(*self, count as int),
    {
        if !self.is_program_live(self.bound_program) {
            return false;
        }
        if !self.is_buffer_live(self.bound_array_buffer) {
            return false;
        }
        if count == 0 {
            return true;
        }
        let idx: usize = (self.bound_array_buffer - 1) as usize;
        let len = self.buffers[idx].data.len();
        self.check_attribs_for_vertex(count - 1, len)
    }

    /// Issues a non-indexed draw of `count` consecutive vertices. If the
    /// current state makes the draw read out of bounds or lacks a program,
    /// the device reports one diagnostic error.
    pub fn draw_arrays(&mut self, mode: u32, count: usize)
        requires
            old(self).error_count < u64::MAX,
        ensures
            final(self).draw_calls@ == old(self).draw_calls@.push(
                (DrawCall::Arrays { mode, count }),
            ),
            final(self).error_count == old(self).error_count + (if arrays_draw_ok(
                *old(self),
                count as int,
            ) {
                0int
            } else {
                1int
            }),
            debug_settings_post(*old(self), *final(self)),
            final(self).uniform_writes@ == old(self).uniform_writes@,
            final(self).debug_output == old(self).debug_output,
            final(self).cull == old(self).cull,
            final(self).clear_color == old(self).clear_color,
            final(self).clear_depth == old(self).clear_depth,
            final(self).clears == old(self).clears,
    {
        let ok = self.check_arrays_ok(count);
        if !ok {
            self.error_count = self.error_count + 1;
        }
        self.draw_calls.push(DrawCall::Arrays { mode, count });
    }

    /// Returns whether an indexed draw of `count` 32-bit indices is valid in
    /// the current state.
    fn check_elements_ok(&self, count: usize) -> (b: bool)
        ensures
            b == elements_draw_ok(*self, count as int),
    {
        if !self.is_program_live(self.bound_program) {
            return false;
        }
        if !self.is_buffer_live(self.bound_array_buffer) {
            return false;
        }
        if !self.is_buffer_live(self.bound_element_buffer) {
            return false;
        }
        let vbo_idx: usize = (self.bound_array_buffer - 1) as usize;
        let vbo_len = self.buffers[vbo_idx].data.len();
        let ibo_idx: usize = (self.bound_element_buffer - 1) as usize;
        let ibo_len = self.buffers[ibo_idx].data.len();
        match count.checked_mul(4) {
            None => {
                return false;
            },
            Some(need) => {
                if need > ibo_len {
                    return false;
                }
            },
        }
        for j in 0..count
            invariant
                count * 4 <= ibo_len,
                vbo_idx == self.bound_array_buffer - 1,
                ibo_idx == self.bound_element_buffer - 1,
                vbo_idx < self.buffers.len(),
                ibo_idx < self.buffers.len(),
                vbo_len == self.buffers[vbo_idx as int].data@.len(),
                ibo_len == self.buffers[ibo_idx as int].data@.len(),
                forall|jj: int|
                    0 <= jj < j ==> attribs_ok_for_vertex(
                        *self,
                        (#[trigger] spec_index_at(
                            self.buffers[self.bound_element_buffer - 1].data@,
                            jj,
                        )) as int,
                        self.buffers[self.bound_array_buffer - 1].data@.len() as int,
                    ),
        {
            let data = &self.buffers[ibo_idx].data;
            let mut word: Vec<u8> = Vec::new();
            proof {
                assert(4 * (j as int) + 4 <= 4 * (count as int)) by (nonlinear_arith)
                    requires
                        j < count,
                ;
                assert(4 * (count as int) == (count as int) * 4);
            }
            word.push(data[4 * j]);
            word.push(data[4 * j + 1]);
            word.push(data[4 * j + 2]);
            word.push(data[4 * j + 3]);
            let idx = u32_from_le_bytes(word.as_slice());
            proof {
                assert(word@ =~= data@.subrange(4 * (j as int), 4 * (j as int) + 4));
                assert(idx == spec_index_at(self.buffers[ibo_idx as int].data@, j as int));
            }
            if !self.check_attribs_for_vertex(idx as usize, vbo_len) {
                proof {
                    assert(!attribs_ok_for_vertex(*self, idx as int, vbo_len as int));
                    assert(spec_index_at(
                        self.buffers[self.bound_element_buffer - 1].data@,
                        j as int,
                    ) == idx);
                    assert(!elements_draw_ok(*self, count as int));
                }
                return false;
            }
        }
        true
    }

    /// Issues an indexed draw of `count` indices of 32-bit unsigned index
    /// type. If the current state makes the draw read out of bounds (in the
    /// index buffer, or in the vertex buffer at any referenced index) or
    /// lacks a program, the device reports one diagnostic error.
    pub fn draw_elements(&mut self, mode: u32, count: usize, index_type: u32)
        requires
            index_type == GL_UNSIGNED_INT,
            old(self).error_count < u64::MAX,
        ensures
            final(self).draw_calls@ == old(self).draw_calls@.push(
                (DrawCall::Elements { mode, count, index_type }),
            ),
            final(self).error_count == old(self).error_count + (if elements_draw_ok(
                *old(self),
                count as int,
            ) {
                0int
            } else {
                1int
            }),
            debug_settings_post(*old(self), *final(self)),
            final(self).uniform_writes@ == old(self).uniform_writes@,
            final(self).debug_output == old(self).debug_output,
            final(self).cull == old(self).cull,
            final(self).clear_color == old(self).clear_color,
            final(self).clear_depth == old(self).clear_depth,
            final(self).clears == old(self).clears,
    {
        let ok = self.check_elements_ok(count);
        if !ok {
            self.error_count = self.error_count + 1;
        }
        self.draw_calls.push(DrawCall::Elements { mode, count, index_type });
    }
}

/// Whether attribute slot `s`, if enabled, is configured and reads within
/// `len` bytes for vertex number `v`.
pub open spec fn slot_ok(s: AttribSlot, v: int, len: int) -> bool {
    s.enabled ==> {
        &&& s.pointer is Some
        &&& s.pointer.unwrap().offset + v * s.pointer.unwrap().stride + s.pointer.unwrap().components
            * spec_component_size(s.pointer.unwrap().type_tag) <= len
    }
}

/// Whether every enabled attribute slot of `dev` is configured and reads
/// within `len` bytes for vertex number `v`.
pub open spec fn attribs_ok_for_vertex(dev: Device, v: int, len: int) -> bool {
    forall|i: int| 0 <= i < dev.attribs.len() ==> #[trigger] slot_ok(dev.attribs[i], v, len)
}

/// Whether a non-indexed draw of `count` vertices is valid: a program is in
/// use, a live buffer is bound to the array-buffer target, and every enabled
/// attribute read stays within that buffer for all `count` vertices.
pub open spec fn arrays_draw_ok(dev: Device, count: int) -> bool {
    &&& program_live(dev, dev.bound_program)
    &&& buffer_live(dev, dev.bound_array_buffer)
    &&& (count == 0 || attribs_ok_for_vertex(
        dev,
        count - 1,
        dev.buffers[dev.bound_array_buffer - 1].data@.len() as int,
    ))
}

/// The `j`-th 32-bit little-endian index held in an index buffer's bytes.
pub open spec fn spec_index_at(data: Seq<u8>, j: int) -> u32 {
    spec_u32_from_le_bytes(data.subrange(4 * j, 4 * j + 4))
}

/// Whether an indexed draw of `count` 32-bit indices is valid: a program is
/// in use, live buffers are bound to both targets, the index buffer holds
/// `count` indices, and every enabled attribute read stays within the vertex
/// buffer at every referenced index.
pub open spec fn elements_draw_ok(dev: Device, count: int) -> bool {
    &&& program_live(dev, dev.bound_program)
    &&& buffer_live(dev, dev.bound_array_buffer)
    &&& buffer_live(dev, dev.bound_element_buffer)
    &&& 4 * count <= dev.buffers[dev.bound_element_buffer - 1].data@.len()
    &&& forall|j: int|
        0 <= j < count ==> attribs_ok_for_vertex(
            dev,
            (#[trigger] spec_index_at(dev.buffers[dev.bound_element_buffer - 1].data@, j)) as int,
            dev.buffers[dev.bound_array_buffer - 1].data@.len() as int,
        )
}

/// All device state other than the attribute table is unchanged.
pub open spec fn same_except_attribs(pre: Device, post: Device) -> bool {
    &&& post.buffers@ == pre.buffers@
    &&& post.vertex_arrays@ == pre.vertex_arrays@
    &&& post.shaders@ == pre.shaders@
    &&& post.programs@ == pre.programs@
    &&& post.bound_array_buffer == pre.bound_array_buffer
    &&& post.bound_element_buffer == pre.bound_element_buffer
    &&& post.bound_vertex_array == pre.bound_vertex_array
    &&& post.bound_program == pre.bound_program
    &&& same_diagnostics_and_settings(pre, post)
}

/// The object tables, bindings and attribute table are unchanged: only the
/// diagnostic channel or a draw setting may have moved.
pub open spec fn debug_settings_post(pre: Device, post: Device) -> bool {
    &&& post.buffers@ == pre.buffers@
    &&& post.vertex_arrays@ == pre.vertex_arrays@
    &&& post.shaders@ == pre.shaders@
    &&& post.programs@ == pre.programs@
    &&& post.bound_array_buffer == pre.bound_array_buffer
    &&& post.bound_element_buffer == pre.bound_element_buffer
    &&& post.bound_vertex_array == pre.bound_vertex_array
    &&& post.bound_program == pre.bound_program
    &&& post.attribs@ == pre.attribs@
}

/// Overwrites the leading `src.len()` elements of `dst` with `src`, keeping
/// the rest; `dst` is not reallocated in length.
fn overwrite_prefix(dst: &mut Vec<u8>, src: &Vec<u8>)
    requires
        src@.len() <= old(dst)@.len(),
    ensures
        final(dst)@ == src@ + old(dst)@.skip(src@.len() as int),
{
    let n = src.len();
    for i in 0..n
        invariant
            n == src@.len() <= dst@.len(),
            dst@.len() == old(dst)@.len(),
            dst@ == old(dst)@.take(0).add(src@.take(i as int)) + old(dst)@.skip(i as int),
    {
        dst[i] = src[i];
        proof {
            assert(dst@ =~= old(dst)@.take(0).add(src@.take(i + 1 as int)) + old(dst)@.skip(
                i + 1 as int,
            ));
        }
    }
    proof {
        assert(final(dst)@ =~= src@ + old(dst)@.skip(src@.len() as int));
    }
}

/// What (re)allocating storage with `bytes` for handle `h` does to the device.
pub open spec fn buffer_data_post(pre: Device, post: Device, h: u32, bytes: Seq<u8>) -> bool {
    &&& post.buffers.len() == pre.buffers.len()
    &&& post.buffers[h - 1].alive
    &&& post.buffers[h - 1].data@ == bytes
    &&& post.buffers[h - 1].allocations == pre.buffers[h - 1].allocations + 1
    &&& forall|i: int|
        0 <= i < pre.buffers.len() && i != h - 1 ==> post.buffers[i] == pre.buffers[i]
    &&& same_except_buffers(pre, post)
}

/// What overwriting the leading bytes of handle `h` in place does to the
/// device: contents updated, allocation generation unchanged.
pub open spec fn buffer_sub_data_post(pre: Device, post: Device, h: u32, bytes: Seq<u8>) -> bool {
    &&& post.buffers.len() == pre.buffers.len()
    &&& post.buffers[h - 1].alive == pre.buffers[h - 1].alive
    &&& post.buffers[h - 1].data@ == bytes + pre.buffers[h - 1].data@.skip(bytes.len() as int)
    &&& post.buffers[h - 1].data@.len() == pre.buffers[h - 1].data@.len()
    &&& post.buffers[h - 1].allocations == pre.buffers[h - 1].allocations
    &&& forall|i: int|
        0 <= i < pre.buffers.len() && i != h - 1 ==> post.buffers[i] == pre.buffers[i]
    &&& same_except_buffers(pre, post)
}

/// All device state other than the shader table is unchanged.
pub open spec fn same_except_shaders(pre: Device, post: Device) -> bool {
    &&& post.buffers@ == pre.buffers@
    &&& post.vertex_arrays@ == pre.vertex_arrays@
    &&& post.programs@ == pre.programs@
    &&& post.bound_array_buffer == pre.bound_array_buffer
    &&& post.bound_element_buffer == pre.bound_element_buffer
    &&& post.bound_vertex_array == pre.bound_vertex_array
    &&& post.bound_program == pre.bound_program
    &&& post.attribs@ == pre.attribs@
    &&& same_diagnostics_and_settings(pre, post)
}

/// All device state other than the program table is unchanged.
pub open spec fn same_except_programs(pre: Device, post: Device) -> bool {
    &&& post.buffers@ == pre.buffers@
    &&& post.vertex_arrays@ == pre.vertex_arrays@
    &&& post.shaders@ == pre.shaders@
    &&& post.bound_array_buffer == pre.bound_array_buffer
    &&& post.bound_element_buffer == pre.bound_element_buffer
    &&& post.bound_vertex_array == pre.bound_vertex_array
    &&& post.bound_program == pre.bound_program
    &&& post.attribs@ == pre.attribs@
    &&& same_diagnostics_and_settings(pre, post)
}

/// All device state other than the shader and program tables is unchanged.
pub open spec fn same_except_shaders_and_programs(pre: Device, post: Device) -> bool {
    &&& post.buffers@ == pre.buffers@
    &&& post.vertex_arrays@ == pre.vertex_arrays@
    &&& post.bound_array_buffer == pre.bound_array_buffer
    &&& post.bound_element_buffer == pre.bound_element_buffer
    &&& post.bound_vertex_array == pre.bound_vertex_array
    &&& post.bound_program == pre.bound_program
    &&& post.attribs@ == pre.attribs@
    &&& same_diagnostics_and_settings(pre, post)
}

/// All device state other than the program table and the binding points is
/// unchanged.
pub open spec fn same_except_programs_and_bindings(pre: Device, post: Device) -> bool {
    &&& post.buffers@ == pre.buffers@
    &&& post.vertex_arrays@ == pre.vertex_arrays@
    &&& post.shaders@ == pre.shaders@
    &&& post.attribs@ == pre.attribs@
    &&& same_diagnostics_and_settings(pre, post)
}

/// All device state other than the buffer table is unchanged.
pub open spec fn same_except_buffers(pre: Device, post: Device) -> bool {
    &&& post.vertex_arrays@ == pre.vertex_arrays@
    &&& post.shaders@ == pre.shaders@
    &&& post.programs@ == pre.programs@
    &&& post.bound_array_buffer == pre.bound_array_buffer
    &&& post.bound_element_buffer == pre.bound_element_buffer
    &&& post.bound_vertex_array == pre.bound_vertex_array
    &&& post.bound_program == pre.bound_program
    &&& post.attribs@ == pre.attribs@
    &&& same_diagnostics_and_settings(pre, post)
}

/// All device state other than the vertex-array table is unchanged.
pub open spec fn same_except_vertex_arrays(pre: Device, post: Device) -> bool {
    &&& post.buffers@ == pre.buffers@
    &&& post.shaders@ == pre.shaders@
    &&& post.programs@ == pre.programs@
    &&& post.bound_array_buffer == pre.bound_array_buffer
    &&& post.bound_element_buffer == pre.bound_element_buffer
    &&& post.bound_vertex_array == pre.bound_vertex_array
    &&& post.bound_program == pre.bound_program
    &&& post.attribs@ == pre.attribs@
    &&& same_diagnostics_and_settings(pre, post)
}

/// All device state other than the four binding points is unchanged.
pub open spec fn same_except_bindings(pre: Device, post: Device) -> bool {
    &&& post.buffers@ == pre.buffers@
    &&& post.vertex_arrays@ == pre.vertex_arrays@
    &&& post.shaders@ == pre.shaders@
    &&& post.programs@ == pre.programs@
    &&& post.attribs@ == pre.attribs@
    &&& same_diagnostics_and_settings(pre, post)
}

/// All device state other than the buffer table and the binding points is
/// unchanged.
pub open spec fn same_except_buffers_and_bindings(pre: Device, post: Device) -> bool {
    &&& post.vertex_arrays@ == pre.vertex_arrays@
    &&& post.shaders@ == pre.shaders@
    &&& post.programs@ == pre.programs@
    &&& post.attribs@ == pre.attribs@
    &&& same_diagnostics_and_settings(pre, post)
}

/// All device state other than the buffer table, the vertex-array table and
/// the binding points is unchanged.
pub open spec fn same_except_buffers_arrays_bindings(pre: Device, post: Device) -> bool {
    &&& post.shaders@ == pre.shaders@
    &&& post.programs@ == pre.programs@
    &&& post.attribs@ == pre.attribs@
    &&& same_diagnostics_and_settings(pre, post)
}

/// The device is unchanged in every observable part.
pub open spec fn device_unchanged(pre: Device, post: Device) -> bool {
    &&& post.buffers@ == pre.buffers@
    &&& post.vertex_arrays@ == pre.vertex_arrays@
    &&& post.bound_array_buffer == pre.bound_array_buffer
    &&& post.bound_element_buffer == pre.bound_element_buffer
    &&& post.bound_vertex_array == pre.bound_vertex_array
    &&& post.bound_program == pre.bound_program
    &&& same_except_buffers_arrays_bindings(pre, post)
}

/// The draw settings and debug flag are unchanged.
pub open spec fn settings_unchanged(pre: Device, post: Device) -> bool {
    &&& post.debug_output == pre.debug_output
    &&& post.cull == pre.cull
    &&& post.clear_color == pre.clear_color
    &&& post.clear_depth == pre.clear_depth
    &&& post.clears == pre.clears
}

/// The diagnostic channel and the draw settings are unchanged: no draw call,
/// no uniform write, no reported error, no clear, no setting touched.
pub open spec fn same_diagnostics_and_settings(pre: Device, post: Device) -> bool {
    &&& post.draw_calls@ == pre.draw_calls@
    &&& post.uniform_writes@ == pre.uniform_writes@
    &&& post.error_count == pre.error_count
    &&& post.debug_output == pre.debug_output
    &&& post.cull == pre.cull
    &&& post.clear_color == pre.clear_color
    &&& post.clear_depth == pre.clear_depth
    &&& post.clears == pre.clears
}

} // verus!
