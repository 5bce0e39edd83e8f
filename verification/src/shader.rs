use vstd::prelude::*;

verus! {

use crate::device::{
    AttribPointer, CompileOutcome, Device, LinkOutcome, program_live, shader_live,
};
use crate::types::spec_component_size;

/// An abstraction for the concept of a vertex attribute array: the ordered
/// slots that describe how one buffer element maps to per-vertex reads.
///
/// No validation is performed by this component alone; a descriptor is safe
/// only when it matches the byte encoding of the element type it describes
/// (see [`VertexAttributeSpec::wf_for_size`] and the derivation in
/// [`crate::buffer`]).
pub struct VertexAttributeSpec {
    /// The attribute slots, in slot-index order.
    pub layouts: Vec<AttribPointer>,
}

/// Whether slot `p` stays within an element of `size` bytes: its stride is
/// the element size and its read window ends inside the element.
pub open spec fn slot_fits(p: AttribPointer, size: nat) -> bool {
    &&& p.stride == size
    &&& p.offset + p.components * spec_component_size(p.type_tag) <= size
}

impl VertexAttributeSpec {
    /// Whether every slot of this descriptor stays within an element of
    /// `size` bytes. A descriptor with this property never makes the device
    /// read outside a buffer that holds whole elements.
    pub open spec fn wf_for_size(self, size: nat) -> bool {
        forall|i: int| 0 <= i < self.layouts.len() ==> #[trigger] slot_fits(self.layouts@[i], size)
    }

    /// Constructs an empty vertex attribute specification
    pub fn new() -> (r: VertexAttributeSpec)
        ensures
            r.layouts@ == Seq::<AttribPointer>::empty(),
    {
        VertexAttributeSpec { layouts: Vec::new() }
    }

    /// Adds a layout to the vertex specification.
    ///
    /// The caller answers for the values: vertex data must really be
    /// organized the way the parameters claim, or the device will read out
    /// of bounds.
    ///
    /// `count` - the number of components in the layout;
    /// `ty` - the type tag of the data in this layout;
    /// `normalized` - whether the data is normalized;
    /// `stride` - the number of bytes between elements in the layout;
    /// `offset` - the number of bytes from the start of the buffer to the
    /// first element in this layout.
    pub fn push_layout(&mut self, count: usize, ty: u32, normalized: bool, stride: usize, offset: usize)
        ensures
            final(self).layouts@ == old(self).layouts@.push(
                (AttribPointer {
                    components: count,
                    type_tag: ty,
                    normalized,
                    stride,
                    offset,
                }),
            ),
    {
        self.layouts.push(
            AttribPointer { components: count, type_tag: ty, normalized, stride, offset },
        );
    }
}

/// A trait representing a single vertex usable in a device buffer.
///
/// The byte encoding and the attribute descriptor are two views of one
/// layout: the trait ties them together so that they can never drift apart.
pub trait Vertex: Sized {
    /// The number of bytes one encoded vertex occupies.
    spec fn spec_size() -> nat;

    /// The byte encoding of this vertex.
    spec fn spec_data(self) -> Seq<u8>;

    /// The attribute descriptor of this type, slot by slot: the one
    /// spec-level description that the executable descriptor must equal.
    spec fn spec_layouts() -> Seq<AttribPointer>;

    /// Every vertex encodes to exactly [`Vertex::spec_size`] bytes.
    proof fn lemma_data_size(self)
        ensures
            self.spec_data().len() == Self::spec_size(),
    ;

    /// Every slot of the descriptor stays within one encoded vertex.
    proof fn lemma_layouts_wf()
        ensures
            forall|i: int|
                0 <= i < Self::spec_layouts().len() ==> #[trigger] slot_fits(
                    Self::spec_layouts()[i],
                    Self::spec_size(),
                ),
    ;

    /// Returns the byte encoding of this vertex.
    fn to_data(&self) -> (r: crate::buffer::VertexData)
        ensures
            r.data@ == self.spec_data(),
    ;

    /// Calculates the per-vertex attribute specification for this type: it
    /// is exactly [`Vertex::spec_layouts`], and so consistent with the byte
    /// encoding.
    fn get_vertex_spec() -> (r: VertexAttributeSpec)
        ensures
            r.layouts@ == Self::spec_layouts(),
            r.wf_for_size(Self::spec_size()),
    ;
}

/// The linking state of a shader program
pub enum ProgramState {
    /// The program has not been linked
    Unlinked,
    /// The program has been linked
    Linked,
    /// An error occurred during the linking process
    LinkerError(String),
}

/// A shader compilation error represented as its device diagnostic log
#[derive(Debug)]
pub struct ShaderCompilationError(pub String);

impl Clone for ShaderCompilationError {
    fn clone(&self) -> (r: Self)
        ensures
            r == *self,
    {
        ShaderCompilationError(self.0.clone())
    }
}

/// The compilation state of an individual shader
pub enum ShaderState {
    /// The shader is uncompiled, holding its source text
    Uncompiled(String),
    /// The shader failed to be compiled with some [`ShaderCompilationError`]
    CompilationError(ShaderCompilationError),
    /// The shader was successfully compiled
    Compiled,
}

/// The kind of a shader unit
#[derive(Debug, Copy, Clone, PartialEq, Eq, Structural)]
pub enum ShaderType {
    Vertex,
    Fragment,
}

/// A single device-side shader object with its compile state machine.
pub struct Shader {
    id: u32,
    shader_type: ShaderType,
    state: ShaderState,
}

impl Shader {
    /// The device handle of this shader.
    pub closed spec fn spec_id(self) -> u32 {
        self.id
    }

    /// The current compile state.
    pub closed spec fn spec_state(self) -> ShaderState {
        self.state
    }

    /// The kind this shader was created as.
    pub closed spec fn spec_shader_type(self) -> ShaderType {
        self.shader_type
    }

    /// This shader names a live shader object of `dev`.
    pub open spec fn wf(self, dev: Device) -> bool {
        shader_live(dev, self.spec_id())
    }

    /// Creates a fresh shader object on the device, holding `source` and not
    /// yet compiled.
    pub fn new(dev: &mut Device, source: String, shader_type: ShaderType) -> (s: Shader)
        requires
            old(dev).shaders.len() < u32::MAX,
        ensures
            s.wf(*final(dev)),
            s.spec_id() == old(dev).shaders.len() + 1,
            s.spec_state() == ShaderState::Uncompiled(source),
            s.spec_shader_type() == shader_type,
            final(dev).shaders.len() == old(dev).shaders.len() + 1,
            final(dev).shaders[s.spec_id() - 1].compile_submissions == 0,
            forall|i: int|
                0 <= i < old(dev).shaders.len() ==> final(dev).shaders[i] == old(dev).shaders[i],
            crate::device::same_except_shaders(*old(dev), *final(dev)),
    {
        let id = dev.create_shader();
        Shader { id, shader_type, state: ShaderState::Uncompiled(source) }
    }

    /// Returns the device handle of this shader.
    pub fn id(&self) -> (r: u32)
        ensures
            r == self.spec_id(),
    {
        self.id
    }

    /// Returns the current compile state.
    pub fn state(&self) -> (r: &ShaderState)
        ensures
            *r == self.spec_state(),
    {
        &self.state
    }

    /// Returns the kind this shader was created as.
    pub fn shader_type(&self) -> (r: ShaderType)
        ensures
            r == self.spec_shader_type(),
    {
        self.shader_type
    }

    /// Releases the device shader handle.
    pub fn destroy(self, dev: &mut Device)
        requires
            self.wf(*old(dev)),
        ensures
            final(dev).shaders.len() == old(dev).shaders.len(),
            !final(dev).shaders[self.spec_id() - 1].alive,
            forall|i: int|
                0 <= i < old(dev).shaders.len() && i != self.spec_id() - 1
                    ==> final(dev).shaders[i] == old(dev).shaders[i],
            crate::device::same_except_shaders(*old(dev), *final(dev)),
    {
        dev.delete_shader(self.id);
    }

    /// Compiles this shader: on the first call the source is submitted to
    /// the device compiler and `outcome` is its verdict; the resulting state
    /// is terminal, and later calls return the cached result without
    /// recompiling.
    pub fn compile(&mut self, dev: &mut Device, outcome: CompileOutcome) -> (r: Result<
        (),
        ShaderCompilationError,
    >)
        requires
            old(self).wf(*old(dev)),
            old(dev).shaders[old(self).spec_id() - 1].compile_submissions < u64::MAX,
        ensures
            final(self).spec_id() == old(self).spec_id(),
            final(self).spec_shader_type() == old(self).spec_shader_type(),
            final(self).wf(*final(dev)),
            compile_post(*old(self), *final(self), *old(dev), *final(dev), outcome, r),
    {
        match &self.state {
            ShaderState::Compiled => Ok(()),
            ShaderState::CompilationError(err) => Err(err.clone()),
            ShaderState::Uncompiled(_) => {
                dev.compile_shader(self.id);
                match outcome {
                    CompileOutcome::Accepted => {
                        self.state = ShaderState::Compiled;
                        Ok(())
                    },
                    CompileOutcome::Rejected(log) => {
                        let error = ShaderCompilationError(log);
                        self.state = ShaderState::CompilationError(error.clone());
                        Err(error)
                    },
                }
            },
        }
    }
}

/// A shader program: a device-side linked program built from shader units,
/// with its link state machine.
pub struct Program {
    id: u32,
    linked: ProgramState,
}

/// The device handles of a list of shaders, in order.
pub open spec fn ids_of(shaders: Seq<Shader>) -> Seq<u32> {
    shaders.map_values(|s: Shader| s.spec_id())
}

/// The error that compiling shader `s` under verdict `o` yields, if any: a
/// cached compilation error, or a fresh rejection of an uncompiled shader.
pub open spec fn spec_compile_failure(s: Shader, o: CompileOutcome) -> Option<
    ShaderCompilationError,
> {
    match s.spec_state() {
        ShaderState::CompilationError(e) => Some(e),
        ShaderState::Uncompiled(_) => match o {
            CompileOutcome::Rejected(log) => Some(ShaderCompilationError(log)),
            CompileOutcome::Accepted => None,
        },
        ShaderState::Compiled => None,
    }
}

/// Whether `k` is the first position whose shader fails to compile under its
/// verdict.
pub open spec fn first_failure_at(
    shaders: Seq<Shader>,
    outcomes: Seq<CompileOutcome>,
    k: int,
) -> bool {
    &&& 0 <= k < shaders.len()
    &&& spec_compile_failure(shaders[k], outcomes[k]) is Some
    &&& forall|i: int|
        0 <= i < k ==> spec_compile_failure(shaders[i], #[trigger] outcomes[i]) is None
}

/// Whether no shader in the list fails to compile under its verdict.
pub open spec fn all_compile(shaders: Seq<Shader>, outcomes: Seq<CompileOutcome>) -> bool {
    forall|i: int|
        0 <= i < shaders.len() ==> spec_compile_failure(shaders[i], #[trigger] outcomes[i]) is None
}

/// How many compile submissions one compile call adds for this shader: one
/// for an uncompiled shader, none for one in a terminal state.
pub open spec fn spec_submission_delta(s: Shader) -> int {
    if s.spec_state() is Uncompiled {
        1
    } else {
        0
    }
}

/// Whether the device handles of the listed shaders are pairwise distinct.
pub open spec fn distinct_ids(shaders: Seq<Shader>) -> bool {
    forall|a: int, b: int|
        0 <= a < b < shaders.len() ==> (#[trigger] shaders[a]).spec_id() != (
        #[trigger] shaders[b]).spec_id()
}

/// Whether `id` is the device handle of some listed shader.
pub open spec fn spec_id_among(shaders: Seq<Shader>, id: int) -> bool {
    exists|j: int| 0 <= j < shaders.len() && (#[trigger] shaders[j]).spec_id() == id
}

/// The listed shaders' compile-submission counts after compiling the first
/// `processed` of them: each compiled one rose by its delta, the rest are
/// untouched.
pub open spec fn submissions_post(
    pre: Device,
    post: Device,
    shaders: Seq<Shader>,
    processed: int,
) -> bool {
    forall|j: int|
        0 <= j < shaders.len() ==> post.shaders[(#[trigger] shaders[j]).spec_id()
            - 1].compile_submissions == pre.shaders[shaders[j].spec_id()
            - 1].compile_submissions + (if j < processed {
            spec_submission_delta(shaders[j])
        } else {
            0int
        })
}

/// Deletes every listed shader unit's device object, exactly once each.
#[verifier::loop_isolation(false)]
fn delete_shader_units(dev: &mut Device, shaders: &Vec<Shader>)
    requires
        forall|j: int| 0 <= j < shaders@.len() ==> (#[trigger] shaders@[j]).wf(*old(dev)),
        distinct_ids(shaders@),
    ensures
        final(dev).shaders.len() == old(dev).shaders.len(),
        forall|j: int|
            0 <= j < shaders@.len() ==> !final(dev).shaders[(#[trigger] shaders@[j]).spec_id()
                - 1].alive,
        forall|j: int|
            0 <= j < shaders@.len() ==> final(dev).shaders[(#[trigger] shaders@[j]).spec_id()
                - 1].compile_submissions == old(dev).shaders[shaders@[j].spec_id()
                - 1].compile_submissions,
        forall|h: int|
            0 <= h < old(dev).shaders.len() && !spec_id_among(shaders@, h + 1)
                ==> final(dev).shaders[h] == old(dev).shaders[h],
        crate::device::same_except_shaders(*old(dev), *final(dev)),
{
    let n = shaders.len();
    for i in 0..n
        invariant
            n == shaders@.len(),
            dev.shaders.len() == old(dev).shaders.len(),
            forall|j: int|
                0 <= j < i ==> !dev.shaders[(#[trigger] shaders@[j]).spec_id() - 1].alive,
            forall|j: int|
                0 <= j < i ==> dev.shaders[(#[trigger] shaders@[j]).spec_id()
                    - 1].compile_submissions == old(dev).shaders[shaders@[j].spec_id()
                    - 1].compile_submissions,
            forall|j: int|
                i <= j < n ==> dev.shaders[(#[trigger] shaders@[j]).spec_id() - 1] == old(
                    dev,
                ).shaders[shaders@[j].spec_id() - 1],
            forall|h: int|
                0 <= h < old(dev).shaders.len() && !spec_id_among(shaders@, h + 1)
                    ==> dev.shaders[h] == old(dev).shaders[h],
            crate::device::same_except_shaders(*old(dev), *dev),
    {
        let id = shaders[i].id();
        proof {
            assert(shaders@[i as int].wf(*old(dev)));
        }
        dev.delete_shader(id);
    }
}

impl Program {
    /// The device handle of this program.
    pub closed spec fn spec_id(self) -> u32 {
        self.id
    }

    /// The current link state.
    pub closed spec fn spec_state(self) -> ProgramState {
        self.linked
    }

    /// This program names a live program object of `dev`.
    pub open spec fn wf(self, dev: Device) -> bool {
        program_live(dev, self.spec_id())
    }

    /// Generates a blank shader program on the device, not yet linked.
    pub fn new(dev: &mut Device) -> (p: Program)
        requires
            old(dev).programs.len() < u32::MAX,
        ensures
            p.wf(*final(dev)),
            p.spec_id() == old(dev).programs.len() + 1,
            p.spec_state() == ProgramState::Unlinked,
            final(dev).programs.len() == old(dev).programs.len() + 1,
            final(dev).programs[p.spec_id() - 1].link_attempts == 0,
            final(dev).programs[p.spec_id() - 1].attached@ == Seq::<u32>::empty(),
            forall|i: int|
                0 <= i < old(dev).programs.len() ==> final(dev).programs[i]
                    == old(dev).programs[i],
            crate::device::same_except_programs(*old(dev), *final(dev)),
    {
        let id = dev.create_program();
        Program { id, linked: ProgramState::Unlinked }
    }

    /// Returns the device handle of this program.
    pub fn id(&self) -> (r: u32)
        ensures
            r == self.spec_id(),
    {
        self.id
    }

    /// Returns the current link state.
    pub fn state(&self) -> (r: &ProgramState)
        ensures
            *r == self.spec_state(),
    {
        &self.linked
    }

    /// Sets `self` as the currently active program to be used for drawing.
    pub fn bind(&self, dev: &mut Device)
        requires
            self.wf(*old(dev)),
        ensures
            final(dev).bound_program == self.spec_id(),
            final(dev).bound_array_buffer == old(dev).bound_array_buffer,
            final(dev).bound_element_buffer == old(dev).bound_element_buffer,
            final(dev).bound_vertex_array == old(dev).bound_vertex_array,
            crate::device::same_except_bindings(*old(dev), *final(dev)),
    {
        dev.use_program(self.id);
    }

    /// Releases the device program handle.
    pub fn destroy(self, dev: &mut Device)
        requires
            self.wf(*old(dev)),
        ensures
            final(dev).programs.len() == old(dev).programs.len(),
            !final(dev).programs[self.spec_id() - 1].alive,
            forall|i: int|
                0 <= i < old(dev).programs.len() && i != self.spec_id() - 1
                    ==> final(dev).programs[i] == old(dev).programs[i],
            crate::device::same_except_programs_and_bindings(*old(dev), *final(dev)),
    {
        dev.delete_program(self.id);
    }

    /// Attaches shaders and links the program.
    ///
    /// Each shader is compiled in order under its verdict in `outcomes`; the
    /// first compile failure short-circuits: its error is returned, the link
    /// state is left untouched, no link operation is issued, and shaders
    /// after the failing one are never submitted to the compiler. When all
    /// shaders compile, each is submitted at most once, they are all
    /// attached, one link operation is issued, and the program moves to the
    /// state that `link_outcome` dictates. The consumed shader units'
    /// device handles are released before returning, on every path.
    #[verifier::loop_isolation(false)]
    pub fn attach_and_link(
        &mut self,
        dev: &mut Device,
        shaders: Vec<Shader>,
        outcomes: &Vec<CompileOutcome>,
        link_outcome: LinkOutcome,
    ) -> (r: Result<(), ShaderCompilationError>)
        requires
            old(self).wf(*old(dev)),
            shaders@.len() == outcomes@.len(),
            forall|i: int| 0 <= i < shaders@.len() ==> (#[trigger] shaders@[i]).wf(*old(dev)),
            distinct_ids(shaders@),
            forall|i: int|
                0 <= i < shaders@.len() ==> old(dev).shaders[(#[trigger] shaders@[i]).spec_id()
                    - 1].compile_submissions < u64::MAX,
            old(dev).programs[old(self).spec_id() - 1].link_attempts < u64::MAX,
        ensures
            final(self).spec_id() == old(self).spec_id(),
            final(self).wf(*final(dev)),
            crate::device::same_except_shaders_and_programs(*old(dev), *final(dev)),
            final(dev).shaders.len() == old(dev).shaders.len(),
            forall|j: int|
                0 <= j < shaders@.len() ==> !final(dev).shaders[(#[trigger] shaders@[j]).spec_id()
                    - 1].alive,
            forall|h: int|
                0 <= h < old(dev).shaders.len() && !spec_id_among(shaders@, h + 1)
                    ==> final(dev).shaders[h] == old(dev).shaders[h],
            final(dev).programs.len() == old(dev).programs.len(),
            forall|i: int|
                0 <= i < old(dev).programs.len() && i != old(self).spec_id() - 1
                    ==> final(dev).programs[i] == old(dev).programs[i],
            final(dev).programs[old(self).spec_id() - 1].alive,
            if all_compile(shaders@, outcomes@) {
                &&& submissions_post(*old(dev), *final(dev), shaders@, shaders@.len() as int)
                &&& final(dev).programs[old(self).spec_id() - 1].attached@ == old(
                    dev,
                ).programs[old(self).spec_id() - 1].attached@ + ids_of(shaders@)
                &&& final(dev).programs[old(self).spec_id() - 1].link_attempts == old(
                    dev,
                ).programs[old(self).spec_id() - 1].link_attempts + 1
                &&& match link_outcome {
                    LinkOutcome::Accepted => {
                        &&& r is Ok
                        &&& final(self).spec_state() == ProgramState::Linked
                    },
                    LinkOutcome::Rejected(log) => {
                        &&& r == Result::<(), ShaderCompilationError>::Err(
                            ShaderCompilationError(log),
                        )
                        &&& final(self).spec_state() == ProgramState::LinkerError(log)
                    },
                }
            } else {
                &&& final(self).spec_state() == old(self).spec_state()
                &&& final(dev).programs[old(self).spec_id() - 1].link_attempts == old(
                    dev,
                ).programs[old(self).spec_id() - 1].link_attempts
                &&& exists|k: int|
                    #[trigger] first_failure_at(shaders@, outcomes@, k) && r
                        == Result::<(), ShaderCompilationError>::Err(
                        spec_compile_failure(shaders@[k], outcomes@[k]).unwrap(),
                    ) && final(dev).programs[old(self).spec_id() - 1].attached@ == old(
                        dev,
                    ).programs[old(self).spec_id() - 1].attached@ + ids_of(shaders@.take(k))
                        && submissions_post(*old(dev), *final(dev), shaders@, k + 1)
            },
    {
        let ghost shaders0 = shaders@;
        let ghost dev0 = *dev;
        let mut shaders = shaders;
        let n = shaders.len();
        let pidx = self.id;
        for i in 0..n
            invariant
                n == shaders0.len() == outcomes@.len(),
                shaders@.len() == n,
                *self == *old(self),
                self.wf(*dev),
                program_live(*dev, self.spec_id()),
                crate::device::same_except_shaders_and_programs(dev0, *dev),
                pidx == self.spec_id(),
                dev0 == *old(dev),
                dev.shaders.len() == dev0.shaders.len(),
                submissions_post(dev0, *dev, shaders0, i as int),
                forall|j: int|
                    i <= j < n ==> dev.shaders[(#[trigger] shaders0[j]).spec_id() - 1]
                        == dev0.shaders[shaders0[j].spec_id() - 1],
                forall|h: int|
                    0 <= h < dev0.shaders.len() && !spec_id_among(shaders0, h + 1)
                        ==> dev.shaders[h] == dev0.shaders[h],
                dev.programs.len() == dev0.programs.len(),
                forall|q: int|
                    0 <= q < dev0.programs.len() && q != self.spec_id() - 1
                        ==> dev.programs[q] == dev0.programs[q],
                dev.programs[self.spec_id() - 1].alive,
                dev.programs[self.spec_id() - 1].link_attempts == dev0.programs[self.spec_id()
                    - 1].link_attempts,
                dev.programs[self.spec_id() - 1].attached@ == dev0.programs[self.spec_id()
                    - 1].attached@ + ids_of(shaders0.take(i as int)),
                forall|j: int|
                    0 <= j < n ==> (#[trigger] shaders@[j]).spec_id() == shaders0[j].spec_id(),
                forall|j: int| 0 <= j < n ==> (#[trigger] shaders@[j]).wf(*dev),
                forall|j: int|
                    i <= j < n ==> (#[trigger] shaders@[j]).spec_state()
                        == shaders0[j].spec_state(),
                forall|j: int|
                    0 <= j < i ==> spec_compile_failure(shaders0[j], #[trigger] outcomes@[j])
                        is None,
                forall|j: int|
                    0 <= j < shaders0.len() ==> dev0.shaders[(#[trigger] shaders0[j]).spec_id()
                        - 1].compile_submissions < u64::MAX,
        {
            let o = outcomes[i].clone();
            let result = shaders[i].compile(dev, o);
            match result {
                Err(e) => {
                    proof {
                        assert(spec_compile_failure(shaders0[i as int], outcomes@[i as int])
                            == Some(e));
                        assert(first_failure_at(shaders0, outcomes@, i as int));
                        assert(!all_compile(shaders0, outcomes@));
                    }
                    let ghost pre_del = *dev;
                    delete_shader_units(dev, &shaders);
                    proof {
                        assert(submissions_post(dev0, *dev, shaders0, i + 1 as int));
                        assert forall|j: int|
                            0 <= j < shaders0.len() implies !dev.shaders[(
                        #[trigger] shaders0[j]).spec_id() - 1].alive by {
                            assert(shaders@[j].spec_id() == shaders0[j].spec_id());
                            assert(!dev.shaders[shaders@[j].spec_id() - 1].alive);
                        }
                        assert forall|h: int|
                            0 <= h < dev0.shaders.len() && !spec_id_among(shaders0, h + 1)
                                implies dev.shaders[h] == dev0.shaders[h] by {
                            if spec_id_among(shaders@, h + 1) {
                                let j = choose|j: int|
                                    0 <= j < shaders@.len() && (#[trigger] shaders@[j]).spec_id()
                                        == h + 1;
                                assert(shaders0[j].spec_id() == h + 1);
                                assert(spec_id_among(shaders0, h + 1));
                            }
                            assert(dev.shaders[h] == pre_del.shaders[h]);
                            assert(pre_del.shaders[h] == dev0.shaders[h]);
                        }
                    }
                    return Err(e);
                },
                Ok(()) => {
                    let sid = shaders[i].id();
                    dev.attach_shader(pidx, sid);
                    proof {
                        assert(shaders0.take(i + 1 as int) =~= shaders0.take(i as int).push(
                            shaders0[i as int],
                        ));
                        assert(ids_of(shaders0.take(i + 1 as int)) =~= ids_of(
                            shaders0.take(i as int),
                        ).push(shaders0[i as int].spec_id()));
                        assert(dev.programs[self.spec_id() - 1].attached@
                            =~= dev0.programs[self.spec_id() - 1].attached@ + ids_of(
                            shaders0.take(i + 1 as int),
                        ));
                    }
                },
            }
        }
        proof {
            assert(shaders0.take(n as int) =~= shaders0);
        }
        dev.link_program(pidx);
        let ghost pre_del = *dev;
        delete_shader_units(dev, &shaders);
        proof {
            assert(submissions_post(dev0, *dev, shaders0, n as int));
            assert forall|j: int|
                0 <= j < shaders0.len() implies !dev.shaders[(#[trigger] shaders0[j]).spec_id()
                - 1].alive by {
                assert(shaders@[j].spec_id() == shaders0[j].spec_id());
                assert(!dev.shaders[shaders@[j].spec_id() - 1].alive);
            }
            assert forall|h: int|
                0 <= h < dev0.shaders.len() && !spec_id_among(shaders0, h + 1)
                    implies dev.shaders[h] == dev0.shaders[h] by {
                if spec_id_among(shaders@, h + 1) {
                    let j = choose|j: int|
                        0 <= j < shaders@.len() && (#[trigger] shaders@[j]).spec_id() == h + 1;
                    assert(shaders0[j].spec_id() == h + 1);
                    assert(spec_id_among(shaders0, h + 1));
                }
                assert(dev.shaders[h] == pre_del.shaders[h]);
                assert(pre_del.shaders[h] == dev0.shaders[h]);
            }
        }
        match link_outcome {
            LinkOutcome::Accepted => {
                self.linked = ProgramState::Linked;
                Ok(())
            },
            LinkOutcome::Rejected(log) => {
                let error = ShaderCompilationError(log);
                self.linked = ProgramState::LinkerError(error.0.clone());
                Err(error)
            },
        }
    }
}

/// The caching law of the compile state machine: a shader that has reached
/// a terminal state keeps it through any further compile call, whatever the
/// device verdict would be — the cached result comes back and the device
/// compiler is never consulted again.
pub proof fn lemma_compile_caches(
    s: Shader,
    s2: Shader,
    dev: Device,
    dev2: Device,
    outcome: CompileOutcome,
    r: Result<(), ShaderCompilationError>,
)
    requires
        s.spec_state() is CompilationError || s.spec_state() is Compiled,
        compile_post(s, s2, dev, dev2, outcome, r),
    ensures
        s2.spec_state() == s.spec_state(),
        dev2.shaders@ == dev.shaders@,
        (match s.spec_state() {
            ShaderState::CompilationError(e) => r == Result::<
                (),
                ShaderCompilationError,
            >::Err(e),
            _ => r is Ok,
        }),
{
}

/// What one `compile` call does: terminal states are cached and leave the
/// device untouched; an uncompiled shader is submitted once and moves to the
/// terminal state that `outcome` dictates.
pub open spec fn compile_post(
    pre: Shader,
    post: Shader,
    dev_pre: Device,
    dev_post: Device,
    outcome: CompileOutcome,
    r: Result<(), ShaderCompilationError>,
) -> bool {
    match pre.spec_state() {
        ShaderState::Compiled => {
            &&& r is Ok
            &&& post.spec_state() == pre.spec_state()
            &&& dev_post.shaders@ == dev_pre.shaders@
            &&& crate::device::same_except_shaders(dev_pre, dev_post)
        },
        ShaderState::CompilationError(e) => {
            &&& r == Result::<(), ShaderCompilationError>::Err(e)
            &&& post.spec_state() == pre.spec_state()
            &&& dev_post.shaders@ == dev_pre.shaders@
            &&& crate::device::same_except_shaders(dev_pre, dev_post)
        },
        ShaderState::Uncompiled(_) => {
            &&& dev_post.shaders.len() == dev_pre.shaders.len()
            &&& dev_post.shaders[pre.spec_id() - 1].alive
            &&& dev_post.shaders[pre.spec_id() - 1].compile_submissions == dev_pre.shaders[pre.spec_id() - 1].compile_submissions + 1
            &&& forall|i: int|
                0 <= i < dev_pre.shaders.len() && i != pre.spec_id() - 1
                    ==> dev_post.shaders[i] == dev_pre.shaders[i]
            &&& crate::device::same_except_shaders(dev_pre, dev_post)
            &&& match outcome {
                CompileOutcome::Accepted => {
                    &&& r is Ok
                    &&& post.spec_state() == ShaderState::Compiled
                },
                CompileOutcome::Rejected(log) => {
                    &&& r == Result::<(), ShaderCompilationError>::Err(
                        ShaderCompilationError(log),
                    )
                    &&& post.spec_state() == ShaderState::CompilationError(
                        ShaderCompilationError(log),
                    )
                },
            }
        },
    }
}

} // verus!
