//! The modeled driver: one value that stands for the single native
//! graphics machine.
//!
//! The native driver is a single implicit global: the meaning of nearly
//! every call depends on what is currently bound.  This module makes that
//! machine an explicit value.  A [`GlMachine`] allocates identifiers the
//! way the driver does (never reusing one), tracks exactly the state the
//! library's safety argument rests on (the bound program, the two bound
//! buffer targets, the bound framebuffer, and each framebuffer's filled
//! attachment points), and records every foreign call in order in a log.
//! Facts only the real driver decides — whether allocation or linking
//! succeeds, the info-log bytes, the active attribute and uniform tables,
//! and whether a framebuffer's images are individually or jointly usable —
//! are held as configuration the caller sets up front, so the machine also
//! serves as the recording mock that the library's observable properties
//! are stated against.  A thin unverified shell can replay the log against
//! the real driver.

use vstd::prelude::*;
use crate::framebuffer::FramebufferAttachment;
use crate::index_data::IndexDatumType;
use crate::shader::ShaderType;
use crate::text::{clone_bytes, str_eq};
use crate::types::{BufferBits, BufferDataUsage, DrawingMode};
use crate::vertex_data::AttribDatumType;

verus! {

/// Which of the two mutable buffer-binding slots a call addresses.
#[derive(Clone, Copy, Debug, PartialEq, Eq, Structural)]
pub enum BufferTarget {
    ArrayBuffer,
    ElementArrayBuffer,
}

/// The kinds of resource the driver allocates and releases.
#[derive(Clone, Copy, Debug, PartialEq, Eq, Structural)]
pub enum ResourceKind {
    Program,
    Shader,
    Buffer,
    Texture,
    Framebuffer,
    Renderbuffer,
}

/// What the driver reports when a framebuffer's completeness is checked.
#[derive(Clone, Copy, Debug, PartialEq, Eq, Structural)]
pub enum FramebufferStatus {
    Complete,
    IncompleteAttachment,
    IncompleteMissingAttachment,
    Unsupported,
}

/// One foreign call, as the machine records it: the entry point that was
/// reached, its arguments, and, for queries, the value that came back.
#[allow(inconsistent_fields)]
#[derive(Clone, Copy, Debug, PartialEq, Eq, Structural)]
pub enum GlCall {
    CreateProgram { result: u32 },
    DeleteProgram { id: u32 },
    CreateShader { ty: ShaderType, result: u32 },
    DeleteShader { id: u32 },
    GenBuffer { result: u32 },
    DeleteBuffer { id: u32 },
    GenTexture { result: u32 },
    DeleteTexture { id: u32 },
    GenFramebuffer { result: u32 },
    DeleteFramebuffer { id: u32 },
    GenRenderbuffer { result: u32 },
    DeleteRenderbuffer { id: u32 },
    AttachShader { program: u32, shader: u32 },
    LinkProgram { program: u32 },
    GetLinkStatus { program: u32, result: bool },
    GetProgramInfoLog { program: u32 },
    GetAttribLocation { program: u32, result: i32 },
    GetUniformLocation { program: u32, result: i32 },
    UseProgram { id: u32 },
    BindBuffer { target: BufferTarget, id: u32 },
    BindFramebuffer { id: u32 },
    BufferData { target: BufferTarget, len: usize, usage: BufferDataUsage },
    FramebufferRenderbuffer { attachment: FramebufferAttachment, renderbuffer: u32 },
    FramebufferTexture2d { attachment: FramebufferAttachment, texture: u32, level: i32 },
    CheckFramebufferStatus { result: FramebufferStatus },
    Clear { buffers: BufferBits },
    EnableVertexAttribArray { index: u32 },
    VertexAttribPointer {
        index: u32,
        components: u32,
        data: AttribDatumType,
        normalize: bool,
        stride: usize,
        offset: usize,
    },
    Uniform1fv { location: u32, count: usize },
    Uniform1iv { location: u32, count: usize },
    Uniform2fv { location: u32, count: usize },
    Uniform2iv { location: u32, count: usize },
    Uniform3fv { location: u32, count: usize },
    Uniform3iv { location: u32, count: usize },
    Uniform4fv { location: u32, count: usize },
    Uniform4iv { location: u32, count: usize },
    UniformMatrix2fv { location: u32, count: usize },
    UniformMatrix3fv { location: u32, count: usize },
    UniformMatrix4fv { location: u32, count: usize },
    DrawArrays { mode: DrawingMode, first: u32, count: usize },
    DrawElements { mode: DrawingMode, count: usize, index_type: IndexDatumType },
}

/// Which attachment points of one framebuffer hold an image.
#[derive(Clone, Copy, Debug, PartialEq, Eq, Structural)]
pub struct AttachmentSet {
    pub color0: bool,
    pub depth: bool,
    pub stencil: bool,
}

impl AttachmentSet {
    /// The set with no attachment point filled.
    pub open spec fn empty_spec() -> AttachmentSet {
        AttachmentSet { color0: false, depth: false, stencil: false }
    }

    /// Build the set with no attachment point filled.
    pub fn empty() -> (r: AttachmentSet)
        ensures
            r == AttachmentSet::empty_spec(),
    {
        AttachmentSet { color0: false, depth: false, stencil: false }
    }

    /// Whether no attachment point holds an image.
    pub open spec fn is_empty_spec(self) -> bool {
        !self.color0 && !self.depth && !self.stencil
    }

    /// The set with one more attachment point filled.
    pub open spec fn spec_with(self, a: FramebufferAttachment) -> AttachmentSet {
        match a {
            FramebufferAttachment::ColorAttachment0 => AttachmentSet { color0: true, ..self },
            FramebufferAttachment::DepthAttachment => AttachmentSet { depth: true, ..self },
            FramebufferAttachment::StencilAttachment => AttachmentSet { stencil: true, ..self },
        }
    }

    /// Fill one more attachment point.
    pub fn with(self, a: FramebufferAttachment) -> (r: AttachmentSet)
        ensures
            r == self.spec_with(a),
    {
        match a {
            FramebufferAttachment::ColorAttachment0 => AttachmentSet { color0: true, ..self },
            FramebufferAttachment::DepthAttachment => AttachmentSet { depth: true, ..self },
            FramebufferAttachment::StencilAttachment => AttachmentSet { stencil: true, ..self },
        }
    }
}

/// Driver-side facts the library does not control, fixed when the machine
/// is set up: whether allocation and linking succeed, the info-log bytes a
/// failed link leaves behind, the active attribute and uniform tables of
/// the linked program, and the driver's judgment of framebuffer images.
pub struct GlConfig {
    /// Whether the allocator hands out identifiers (a zero result models
    /// allocation failure).
    pub alloc_ok: bool,
    /// Whether linking a program succeeds.
    pub link_ok: bool,
    /// The bytes the driver writes as the program info log.
    pub info_log: Vec<u8>,
    /// The active attributes of the linked program: name and location.
    pub attribs: Vec<(String, u32)>,
    /// The active uniforms of the linked program: name and location.
    pub uniforms: Vec<(String, u32)>,
    /// Whether some attached image is individually unusable.
    pub fb_flawed_attachment: bool,
    /// Whether the combination of attached images is unsupported.
    pub fb_unsupported: bool,
}

/// Whether two configurations agree fact for fact.
pub open spec fn same_config(pre: GlConfig, post: GlConfig) -> bool {
    &&& post.alloc_ok == pre.alloc_ok
    &&& post.link_ok == pre.link_ok
    &&& post.info_log@ == pre.info_log@
    &&& post.attribs@ == pre.attribs@
    &&& post.uniforms@ == pre.uniforms@
    &&& post.fb_flawed_attachment == pre.fb_flawed_attachment
    &&& post.fb_unsupported == pre.fb_unsupported
}

/// What is currently bound to each mutable global slot; zero means that
/// nothing is bound there.
#[derive(Clone, Copy, Debug, PartialEq, Eq, Structural)]
pub struct GlBindings {
    pub program: u32,
    pub array_buffer: u32,
    pub element_array_buffer: u32,
    pub framebuffer: u32,
}

/// The first attachment set recorded for `id`, or the empty set if the
/// table has none.
pub open spec fn spec_attachments_in(table: Seq<(u32, AttachmentSet)>, id: u32) -> AttachmentSet
    decreases table.len(),
{
    if table.len() == 0 {
        AttachmentSet::empty_spec()
    } else if table[0].0 == id {
        table[0].1
    } else {
        spec_attachments_in(table.drop_first(), id)
    }
}

/// The table after filling attachment point `a` of framebuffer `id`: the
/// first entry for `id` is updated, or a new entry is appended.
pub open spec fn spec_attach(
    table: Seq<(u32, AttachmentSet)>,
    id: u32,
    a: FramebufferAttachment,
) -> Seq<(u32, AttachmentSet)>
    decreases table.len(),
{
    if table.len() == 0 {
        seq![(id, AttachmentSet::empty_spec().spec_with(a))]
    } else if table[0].0 == id {
        seq![(id, table[0].1.spec_with(a))] + table.drop_first()
    } else {
        seq![table[0]] + spec_attach(table.drop_first(), id, a)
    }
}

/// The location registered under `name`, searching from the front.
pub open spec fn spec_location(table: Seq<(String, u32)>, name: Seq<char>) -> Option<u32>
    decreases table.len(),
{
    if table.len() == 0 {
        None
    } else if table[0].0@ == name {
        Some(table[0].1)
    } else {
        spec_location(table.drop_first(), name)
    }
}

/// The location query result as the driver reports it: the registered
/// location if one exists and fits a signed word, and `-1` otherwise.
pub open spec fn spec_location_code(table: Seq<(String, u32)>, name: Seq<char>) -> i32 {
    match spec_location(table, name) {
        Option::None => -1i32,
        Option::Some(loc) => if loc <= 0x7fff_ffffu32 {
            loc as i32
        } else {
            -1i32
        },
    }
}

/// The modeled native graphics machine.  See the module documentation.
pub struct GlMachine {
    /// The next identifier the allocator will hand out; identifiers are
    /// never reused.
    pub next_id: u32,
    /// Driver-side facts fixed at setup.
    pub config: GlConfig,
    /// What is bound to each mutable global slot.
    pub bindings: GlBindings,
    /// Which attachment points each framebuffer has filled.
    pub fb_attachments: Vec<(u32, AttachmentSet)>,
    /// Every foreign call reached so far, in order.
    pub log: Vec<GlCall>,
}

/// Whether the two machine states agree on everything but the log.
pub open spec fn same_but_log(pre: GlMachine, post: GlMachine) -> bool {
    &&& post.next_id == pre.next_id
    &&& same_config(pre.config, post.config)
    &&& post.bindings == pre.bindings
    &&& post.fb_attachments@ == pre.fb_attachments@
}

impl GlMachine {
    /// The identifier the next create call returns: fresh and nonzero
    /// while the allocator cooperates, zero otherwise.
    pub open spec fn spec_create_result(self) -> u32 {
        if self.config.alloc_ok && 0 < self.next_id < 0xffff_ffffu32 {
            self.next_id
        } else {
            0u32
        }
    }

    /// The identifier the next gen call returns: fresh and nonzero until
    /// the identifier space is exhausted.
    pub open spec fn spec_gen_result(self) -> u32 {
        if 0 < self.next_id < 0xffff_ffffu32 {
            self.next_id
        } else {
            0u32
        }
    }

    /// The allocator cursor after handing out `id`.
    pub open spec fn spec_next_after(self, id: u32) -> u32 {
        if id != 0 {
            (self.next_id + 1) as u32
        } else {
            self.next_id
        }
    }

    /// The attachment set of framebuffer `id`.
    pub open spec fn spec_attachments_of(self, id: u32) -> AttachmentSet {
        spec_attachments_in(self.fb_attachments@, id)
    }

    /// Every recorded framebuffer identifier was handed out before the
    /// allocator's cursor.  This holds along every run of the library's
    /// own operations, which never reuse an identifier; it guarantees
    /// that a freshly allocated framebuffer shadows no recorded one.
    pub open spec fn ids_fresh(self) -> bool {
        forall|j: int|
            0 <= j < self.fb_attachments@.len() ==> (#[trigger] self.fb_attachments@[j]).0
                < self.next_id
    }

    /// What a completeness check of the currently bound framebuffer
    /// reports: a framebuffer with no attachments is missing one; then the
    /// driver's judgment of the individual images and of their combination
    /// is decisive; otherwise the framebuffer is complete.
    pub open spec fn spec_status(self) -> FramebufferStatus {
        if self.spec_attachments_of(self.bindings.framebuffer).is_empty_spec() {
            FramebufferStatus::IncompleteMissingAttachment
        } else if self.config.fb_flawed_attachment {
            FramebufferStatus::IncompleteAttachment
        } else if self.config.fb_unsupported {
            FramebufferStatus::Unsupported
        } else {
            FramebufferStatus::Complete
        }
    }

    /// A machine in its startup state: the allocator at one, every slot
    /// unbound, no framebuffer recorded, an empty log, and a configuration
    /// under which allocation and linking succeed.
    pub fn new() -> (r: GlMachine)
        ensures
            r.next_id == 1,
            r.config.alloc_ok,
            r.config.link_ok,
            r.config.info_log@ == Seq::<u8>::empty(),
            r.config.attribs@ == Seq::<(String, u32)>::empty(),
            r.config.uniforms@ == Seq::<(String, u32)>::empty(),
            !r.config.fb_flawed_attachment,
            !r.config.fb_unsupported,
            r.bindings == (GlBindings { program: 0, array_buffer: 0, element_array_buffer: 0, framebuffer: 0 }),
            r.fb_attachments@ == Seq::<(u32, AttachmentSet)>::empty(),
            r.log@ == Seq::<GlCall>::empty(),
    {
        GlMachine {
            next_id: 1,
            config: GlConfig {
                alloc_ok: true,
                link_ok: true,
                info_log: Vec::new(),
                attribs: Vec::new(),
                uniforms: Vec::new(),
                fb_flawed_attachment: false,
                fb_unsupported: false,
            },
            bindings: GlBindings { program: 0, array_buffer: 0, element_array_buffer: 0, framebuffer: 0 },
            fb_attachments: Vec::new(),
            log: Vec::new(),
        }
    }

    /// Record one call, touching nothing else.
    fn push_call(&mut self, c: GlCall)
        ensures
            same_but_log(*old(self), *final(self)),
            final(self).log@ == old(self).log@.push(c),
    {
        self.log.push(c);
    }

    /// Hand out a fresh identifier, or zero once the space is exhausted.
    fn fresh_id(&mut self) -> (id: u32)
        ensures
            id == old(self).spec_gen_result(),
            final(self).next_id == old(self).spec_next_after(id),
            same_config(old(self).config, final(self).config),
            final(self).bindings == old(self).bindings,
            final(self).fb_attachments@ == old(self).fb_attachments@,
            final(self).log@ == old(self).log@,
    {
        if 0 < self.next_id && self.next_id < 0xffff_ffffu32 {
            let id = self.next_id;
            self.next_id = self.next_id + 1;
            id
        } else {
            0
        }
    }

    /// Hand out a fresh identifier if the allocator cooperates.
    fn create_id(&mut self) -> (id: u32)
        ensures
            id == old(self).spec_create_result(),
            final(self).next_id == old(self).spec_next_after(id),
            same_config(old(self).config, final(self).config),
            final(self).bindings == old(self).bindings,
            final(self).fb_attachments@ == old(self).fb_attachments@,
            final(self).log@ == old(self).log@,
    {
        if self.config.alloc_ok {
            self.fresh_id()
        } else {
            0
        }
    }

    /// Allocate a program object.
    pub fn create_program(&mut self) -> (id: u32)
        ensures
            id == old(self).spec_create_result(),
            final(self).next_id == old(self).spec_next_after(id),
            same_config(old(self).config, final(self).config),
            final(self).bindings == old(self).bindings,
            final(self).fb_attachments@ == old(self).fb_attachments@,
            final(self).log@ == old(self).log@.push(GlCall::CreateProgram { result: id }),
    {
        let id = self.create_id();
        self.push_call(GlCall::CreateProgram { result: id });
        id
    }

    /// Allocate a shader object for the given stage.
    pub fn create_shader(&mut self, ty: ShaderType) -> (id: u32)
        ensures
            id == old(self).spec_create_result(),
            final(self).next_id == old(self).spec_next_after(id),
            same_config(old(self).config, final(self).config),
            final(self).bindings == old(self).bindings,
            final(self).fb_attachments@ == old(self).fb_attachments@,
            final(self).log@ == old(self).log@.push(GlCall::CreateShader { ty: ty, result: id }),
    {
        let id = self.create_id();
        self.push_call(GlCall::CreateShader { ty: ty, result: id });
        id
    }

    /// Allocate a buffer object.
    pub fn gen_buffer(&mut self) -> (id: u32)
        ensures
            id == old(self).spec_gen_result(),
            final(self).next_id == old(self).spec_next_after(id),
            same_config(old(self).config, final(self).config),
            final(self).bindings == old(self).bindings,
            final(self).fb_attachments@ == old(self).fb_attachments@,
            final(self).log@ == old(self).log@.push(GlCall::GenBuffer { result: id }),
    {
        let id = self.fresh_id();
        self.push_call(GlCall::GenBuffer { result: id });
        id
    }

    /// Allocate a texture object.
    pub fn gen_texture(&mut self) -> (id: u32)
        ensures
            id == old(self).spec_gen_result(),
            final(self).next_id == old(self).spec_next_after(id),
            same_config(old(self).config, final(self).config),
            final(self).bindings == old(self).bindings,
            final(self).fb_attachments@ == old(self).fb_attachments@,
            final(self).log@ == old(self).log@.push(GlCall::GenTexture { result: id }),
    {
        let id = self.fresh_id();
        self.push_call(GlCall::GenTexture { result: id });
        id
    }

    /// Allocate a renderbuffer object.
    pub fn gen_renderbuffer(&mut self) -> (id: u32)
        ensures
            id == old(self).spec_gen_result(),
            final(self).next_id == old(self).spec_next_after(id),
            same_config(old(self).config, final(self).config),
            final(self).bindings == old(self).bindings,
            final(self).fb_attachments@ == old(self).fb_attachments@,
            final(self).log@ == old(self).log@.push(GlCall::GenRenderbuffer { result: id }),
    {
        let id = self.fresh_id();
        self.push_call(GlCall::GenRenderbuffer { result: id });
        id
    }

    /// Allocate a framebuffer object and record it with no attachments.
    pub fn gen_framebuffer(&mut self) -> (id: u32)
        ensures
            id == old(self).spec_gen_result(),
            final(self).next_id == old(self).spec_next_after(id),
            same_config(old(self).config, final(self).config),
            final(self).bindings == old(self).bindings,
            final(self).fb_attachments@ == if id != 0 {
                old(self).fb_attachments@.push((id, AttachmentSet::empty_spec()))
            } else {
                old(self).fb_attachments@
            },
            final(self).log@ == old(self).log@.push(GlCall::GenFramebuffer { result: id }),
    {
        let id = self.fresh_id();
        if id != 0 {
            self.fb_attachments.push((id, AttachmentSet::empty()));
        }
        self.push_call(GlCall::GenFramebuffer { result: id });
        id
    }

    /// Release a program object.
    pub fn delete_program(&mut self, id: u32)
        ensures
            same_but_log(*old(self), *final(self)),
            final(self).log@ == old(self).log@.push(GlCall::DeleteProgram { id: id }),
    {
        self.push_call(GlCall::DeleteProgram { id: id });
    }

    /// Release a shader object.
    pub fn delete_shader(&mut self, id: u32)
        ensures
            same_but_log(*old(self), *final(self)),
            final(self).log@ == old(self).log@.push(GlCall::DeleteShader { id: id }),
    {
        self.push_call(GlCall::DeleteShader { id: id });
    }

    /// Release a buffer object.
    pub fn delete_buffer(&mut self, id: u32)
        ensures
            same_but_log(*old(self), *final(self)),
            final(self).log@ == old(self).log@.push(GlCall::DeleteBuffer { id: id }),
    {
        self.push_call(GlCall::DeleteBuffer { id: id });
    }

    /// Release a texture object.
    pub fn delete_texture(&mut self, id: u32)
        ensures
            same_but_log(*old(self), *final(self)),
            final(self).log@ == old(self).log@.push(GlCall::DeleteTexture { id: id }),
    {
        self.push_call(GlCall::DeleteTexture { id: id });
    }

    /// Release a framebuffer object.
    pub fn delete_framebuffer(&mut self, id: u32)
        ensures
            same_but_log(*old(self), *final(self)),
            final(self).log@ == old(self).log@.push(GlCall::DeleteFramebuffer { id: id }),
    {
        self.push_call(GlCall::DeleteFramebuffer { id: id });
    }

    /// Release a renderbuffer object.
    pub fn delete_renderbuffer(&mut self, id: u32)
        ensures
            same_but_log(*old(self), *final(self)),
            final(self).log@ == old(self).log@.push(GlCall::DeleteRenderbuffer { id: id }),
    {
        self.push_call(GlCall::DeleteRenderbuffer { id: id });
    }

    /// Attach a shader to a program object.
    pub fn attach_shader(&mut self, program: u32, shader: u32)
        ensures
            same_but_log(*old(self), *final(self)),
            final(self).log@ == old(self).log@.push(
                GlCall::AttachShader { program: program, shader: shader },
            ),
    {
        self.push_call(GlCall::AttachShader { program: program, shader: shader });
    }

    /// Link a program object.
    pub fn link_program(&mut self, program: u32)
        ensures
            same_but_log(*old(self), *final(self)),
            final(self).log@ == old(self).log@.push(GlCall::LinkProgram { program: program }),
    {
        self.push_call(GlCall::LinkProgram { program: program });
    }

    /// Query whether the last link of a program succeeded.
    pub fn get_link_status(&mut self, program: u32) -> (r: bool)
        ensures
            r == old(self).config.link_ok,
            same_but_log(*old(self), *final(self)),
            final(self).log@ == old(self).log@.push(
                GlCall::GetLinkStatus { program: program, result: r },
            ),
    {
        let r = self.config.link_ok;
        self.push_call(GlCall::GetLinkStatus { program: program, result: r });
        r
    }

    /// Read the bytes of a program's info log.
    pub fn get_info_log_bytes(&mut self, program: u32) -> (r: Vec<u8>)
        ensures
            r@ == old(self).config.info_log@,
            same_but_log(*old(self), *final(self)),
            final(self).log@ == old(self).log@.push(
                GlCall::GetProgramInfoLog { program: program },
            ),
    {
        let r = clone_bytes(&self.config.info_log);
        self.push_call(GlCall::GetProgramInfoLog { program: program });
        r
    }

    /// Look up an active attribute's location by name.
    pub fn get_attrib_location(&mut self, program: u32, name: &str) -> (r: i32)
        ensures
            r == spec_location_code(old(self).config.attribs@, name@),
            same_but_log(*old(self), *final(self)),
            final(self).log@ == old(self).log@.push(
                GlCall::GetAttribLocation { program: program, result: r },
            ),
    {
        let r = location_lookup(&self.config.attribs, name);
        self.push_call(GlCall::GetAttribLocation { program: program, result: r });
        r
    }

    /// Look up an active uniform's location by name.
    pub fn get_uniform_location(&mut self, program: u32, name: &str) -> (r: i32)
        ensures
            r == spec_location_code(old(self).config.uniforms@, name@),
            same_but_log(*old(self), *final(self)),
            final(self).log@ == old(self).log@.push(
                GlCall::GetUniformLocation { program: program, result: r },
            ),
    {
        let r = location_lookup(&self.config.uniforms, name);
        self.push_call(GlCall::GetUniformLocation { program: program, result: r });
        r
    }

    /// Make a program current (zero makes none current).
    pub fn use_program(&mut self, id: u32)
        ensures
            final(self).next_id == old(self).next_id,
            same_config(old(self).config, final(self).config),
            final(self).fb_attachments@ == old(self).fb_attachments@,
            final(self).bindings.program == id,
            final(self).bindings.array_buffer == old(self).bindings.array_buffer,
            final(self).bindings.element_array_buffer == old(self).bindings.element_array_buffer,
            final(self).bindings.framebuffer == old(self).bindings.framebuffer,
            final(self).log@ == old(self).log@.push(GlCall::UseProgram { id: id }),
    {
        self.bindings.program = id;
        self.push_call(GlCall::UseProgram { id: id });
    }

    /// Bind a buffer to one of the two buffer slots (zero unbinds).
    pub fn bind_buffer(&mut self, target: BufferTarget, id: u32)
        ensures
            final(self).next_id == old(self).next_id,
            same_config(old(self).config, final(self).config),
            final(self).fb_attachments@ == old(self).fb_attachments@,
            final(self).bindings.program == old(self).bindings.program,
            final(self).bindings.framebuffer == old(self).bindings.framebuffer,
            target == BufferTarget::ArrayBuffer ==> {
                &&& final(self).bindings.array_buffer == id
                &&& final(self).bindings.element_array_buffer
                    == old(self).bindings.element_array_buffer
            },
            target == BufferTarget::ElementArrayBuffer ==> {
                &&& final(self).bindings.element_array_buffer == id
                &&& final(self).bindings.array_buffer == old(self).bindings.array_buffer
            },
            final(self).log@ == old(self).log@.push(GlCall::BindBuffer { target: target, id: id }),
    {
        match target {
            BufferTarget::ArrayBuffer => {
                self.bindings.array_buffer = id;
            },
            BufferTarget::ElementArrayBuffer => {
                self.bindings.element_array_buffer = id;
            },
        }
        self.push_call(GlCall::BindBuffer { target: target, id: id });
    }

    /// Bind a framebuffer (zero binds the default framebuffer).
    pub fn bind_framebuffer(&mut self, id: u32)
        ensures
            final(self).next_id == old(self).next_id,
            same_config(old(self).config, final(self).config),
            final(self).fb_attachments@ == old(self).fb_attachments@,
            final(self).bindings.framebuffer == id,
            final(self).bindings.program == old(self).bindings.program,
            final(self).bindings.array_buffer == old(self).bindings.array_buffer,
            final(self).bindings.element_array_buffer == old(self).bindings.element_array_buffer,
            final(self).log@ == old(self).log@.push(GlCall::BindFramebuffer { id: id }),
    {
        self.bindings.framebuffer = id;
        self.push_call(GlCall::BindFramebuffer { id: id });
    }

    /// Upload data to the buffer bound to `target`.
    pub fn buffer_data(&mut self, target: BufferTarget, len: usize, usage: BufferDataUsage)
        ensures
            same_but_log(*old(self), *final(self)),
            final(self).log@ == old(self).log@.push(
                GlCall::BufferData { target: target, len: len, usage: usage },
            ),
    {
        self.push_call(GlCall::BufferData { target: target, len: len, usage: usage });
    }

    /// Attach a renderbuffer image to an attachment point of the
    /// currently bound framebuffer.
    pub fn framebuffer_renderbuffer(&mut self, attachment: FramebufferAttachment, renderbuffer: u32)
        ensures
            final(self).next_id == old(self).next_id,
            same_config(old(self).config, final(self).config),
            final(self).bindings == old(self).bindings,
            final(self).fb_attachments@ == spec_attach(
                old(self).fb_attachments@,
                old(self).bindings.framebuffer,
                attachment,
            ),
            final(self).log@ == old(self).log@.push(
                GlCall::FramebufferRenderbuffer { attachment: attachment, renderbuffer: renderbuffer },
            ),
    {
        let id = self.bindings.framebuffer;
        attach_update(&mut self.fb_attachments, id, attachment);
        self.push_call(GlCall::FramebufferRenderbuffer {
            attachment: attachment,
            renderbuffer: renderbuffer,
        });
    }

    /// Attach one level of a two-dimensional texture to an attachment
    /// point of the currently bound framebuffer.
    pub fn framebuffer_texture_2d(
        &mut self,
        attachment: FramebufferAttachment,
        texture: u32,
        level: i32,
    )
        ensures
            final(self).next_id == old(self).next_id,
            same_config(old(self).config, final(self).config),
            final(self).bindings == old(self).bindings,
            final(self).fb_attachments@ == spec_attach(
                old(self).fb_attachments@,
                old(self).bindings.framebuffer,
                attachment,
            ),
            final(self).log@ == old(self).log@.push(
                GlCall::FramebufferTexture2d { attachment: attachment, texture: texture, level: level },
            ),
    {
        let id = self.bindings.framebuffer;
        attach_update(&mut self.fb_attachments, id, attachment);
        self.push_call(GlCall::FramebufferTexture2d {
            attachment: attachment,
            texture: texture,
            level: level,
        });
    }

    /// Check the completeness of the currently bound framebuffer.
    pub fn check_framebuffer_status(&mut self) -> (s: FramebufferStatus)
        ensures
            s == old(self).spec_status(),
            same_but_log(*old(self), *final(self)),
            final(self).log@ == old(self).log@.push(GlCall::CheckFramebufferStatus { result: s }),
    {
        let set = attachments_lookup(&self.fb_attachments, self.bindings.framebuffer);
        let s: FramebufferStatus = if !set.color0 && !set.depth && !set.stencil {
            FramebufferStatus::IncompleteMissingAttachment
        } else if self.config.fb_flawed_attachment {
            FramebufferStatus::IncompleteAttachment
        } else if self.config.fb_unsupported {
            FramebufferStatus::Unsupported
        } else {
            FramebufferStatus::Complete
        };
        self.push_call(GlCall::CheckFramebufferStatus { result: s });
        s
    }

    /// Clear the selected buffers of the bound framebuffer.
    pub fn clear(&mut self, buffers: BufferBits)
        ensures
            same_but_log(*old(self), *final(self)),
            final(self).log@ == old(self).log@.push(GlCall::Clear { buffers: buffers }),
    {
        self.push_call(GlCall::Clear { buffers: buffers });
    }

    /// Enable one vertex attribute array.
    pub fn enable_vertex_attrib_array(&mut self, index: u32)
        ensures
            same_but_log(*old(self), *final(self)),
            final(self).log@ == old(self).log@.push(GlCall::EnableVertexAttribArray { index: index }),
    {
        self.push_call(GlCall::EnableVertexAttribArray { index: index });
    }

    /// Describe the layout of one vertex attribute within the bound
    /// array buffer.
    pub fn vertex_attrib_pointer(
        &mut self,
        index: u32,
        components: u32,
        data: AttribDatumType,
        normalize: bool,
        stride: usize,
        offset: usize,
    )
        requires
            1 <= components <= 4,
        ensures
            same_but_log(*old(self), *final(self)),
            final(self).log@ == old(self).log@.push(
                GlCall::VertexAttribPointer {
                    index: index,
                    components: components,
                    data: data,
                    normalize: normalize,
                    stride: stride,
                    offset: offset,
                },
            ),
    {
        self.push_call(GlCall::VertexAttribPointer {
            index: index,
            components: components,
            data: data,
            normalize: normalize,
            stride: stride,
            offset: offset,
        });
    }

    /// Issue a draw of consecutive vertices from the bound array buffer.
    pub fn draw_arrays(&mut self, mode: DrawingMode, first: u32, count: usize)
        ensures
            same_but_log(*old(self), *final(self)),
            final(self).log@ == old(self).log@.push(
                GlCall::DrawArrays { mode: mode, first: first, count: count },
            ),
    {
        self.push_call(GlCall::DrawArrays { mode: mode, first: first, count: count });
    }

    /// Issue an indexed draw.
    pub fn draw_elements(&mut self, mode: DrawingMode, count: usize, index_type: IndexDatumType)
        ensures
            same_but_log(*old(self), *final(self)),
            final(self).log@ == old(self).log@.push(
                GlCall::DrawElements { mode: mode, count: count, index_type: index_type },
            ),
    {
        self.push_call(GlCall::DrawElements { mode: mode, count: count, index_type: index_type });
    }

    /// Set a one-component vector of floating-point uniform values.
    pub fn uniform1fv(&mut self, location: u32, count: usize)
        ensures
            same_but_log(*old(self), *final(self)),
            final(self).log@ == old(self).log@.push(
                GlCall::Uniform1fv { location: location, count: count },
            ),
    {
        self.push_call(GlCall::Uniform1fv { location: location, count: count });
    }

    /// Set a one-component vector of integer uniform values.
    pub fn uniform1iv(&mut self, location: u32, count: usize)
        ensures
            same_but_log(*old(self), *final(self)),
            final(self).log@ == old(self).log@.push(
                GlCall::Uniform1iv { location: location, count: count },
            ),
    {
        self.push_call(GlCall::Uniform1iv { location: location, count: count });
    }

    /// Set a two-component vector of floating-point uniform values.
    pub fn uniform2fv(&mut self, location: u32, count: usize)
        ensures
            same_but_log(*old(self), *final(self)),
            final(self).log@ == old(self).log@.push(
                GlCall::Uniform2fv { location: location, count: count },
            ),
    {
        self.push_call(GlCall::Uniform2fv { location: location, count: count });
    }

    /// Set a two-component vector of integer uniform values.
    pub fn uniform2iv(&mut self, location: u32, count: usize)
        ensures
            same_but_log(*old(self), *final(self)),
            final(self).log@ == old(self).log@.push(
                GlCall::Uniform2iv { location: location, count: count },
            ),
    {
        self.push_call(GlCall::Uniform2iv { location: location, count: count });
    }

    /// Set a three-component vector of floating-point uniform values.
    pub fn uniform3fv(&mut self, location: u32, count: usize)
        ensures
            same_but_log(*old(self), *final(self)),
            final(self).log@ == old(self).log@.push(
                GlCall::Uniform3fv { location: location, count: count },
            ),
    {
        self.push_call(GlCall::Uniform3fv { location: location, count: count });
    }

    /// Set a three-component vector of integer uniform values.
    pub fn uniform3iv(&mut self, location: u32, count: usize)
        ensures
            same_but_log(*old(self), *final(self)),
            final(self).log@ == old(self).log@.push(
                GlCall::Uniform3iv { location: location, count: count },
            ),
    {
        self.push_call(GlCall::Uniform3iv { location: location, count: count });
    }

    /// Set a four-component vector of floating-point uniform values.
    pub fn uniform4fv(&mut self, location: u32, count: usize)
        ensures
            same_but_log(*old(self), *final(self)),
            final(self).log@ == old(self).log@.push(
                GlCall::Uniform4fv { location: location, count: count },
            ),
    {
        self.push_call(GlCall::Uniform4fv { location: location, count: count });
    }

    /// Set a four-component vector of integer uniform values.
    pub fn uniform4iv(&mut self, location: u32, count: usize)
        ensures
            same_but_log(*old(self), *final(self)),
            final(self).log@ == old(self).log@.push(
                GlCall::Uniform4iv { location: location, count: count },
            ),
    {
        self.push_call(GlCall::Uniform4iv { location: location, count: count });
    }

    /// Set a two-by-two floating-point matrix uniform, never asking the
    /// driver to transpose.
    pub fn uniform_matrix2fv(&mut self, location: u32, count: usize)
        ensures
            same_but_log(*old(self), *final(self)),
            final(self).log@ == old(self).log@.push(
                GlCall::UniformMatrix2fv { location: location, count: count },
            ),
    {
        self.push_call(GlCall::UniformMatrix2fv { location: location, count: count });
    }

    /// Set a three-by-three floating-point matrix uniform, never asking
    /// the driver to transpose.
    pub fn uniform_matrix3fv(&mut self, location: u32, count: usize)
        ensures
            same_but_log(*old(self), *final(self)),
            final(self).log@ == old(self).log@.push(
                GlCall::UniformMatrix3fv { location: location, count: count },
            ),
    {
        self.push_call(GlCall::UniformMatrix3fv { location: location, count: count });
    }

    /// Set a four-by-four floating-point matrix uniform, never asking the
    /// driver to transpose.
    pub fn uniform_matrix4fv(&mut self, location: u32, count: usize)
        ensures
            same_but_log(*old(self), *final(self)),
            final(self).log@ == old(self).log@.push(
                GlCall::UniformMatrix4fv { location: location, count: count },
            ),
    {
        self.push_call(GlCall::UniformMatrix4fv { location: location, count: count });
    }

    /// Configure whether the allocator hands out identifiers.
    pub fn set_alloc_ok(&mut self, ok: bool)
        ensures
            final(self).config.alloc_ok == ok,
            final(self).config.link_ok == old(self).config.link_ok,
            final(self).config.info_log@ == old(self).config.info_log@,
            final(self).config.attribs@ == old(self).config.attribs@,
            final(self).config.uniforms@ == old(self).config.uniforms@,
            final(self).config.fb_flawed_attachment == old(self).config.fb_flawed_attachment,
            final(self).config.fb_unsupported == old(self).config.fb_unsupported,
            final(self).next_id == old(self).next_id,
            final(self).bindings == old(self).bindings,
            final(self).fb_attachments@ == old(self).fb_attachments@,
            final(self).log@ == old(self).log@,
    {
        self.config.alloc_ok = ok;
    }

    /// Configure whether linking succeeds.
    pub fn set_link_ok(&mut self, ok: bool)
        ensures
            final(self).config.link_ok == ok,
            final(self).config.alloc_ok == old(self).config.alloc_ok,
            final(self).config.info_log@ == old(self).config.info_log@,
            final(self).config.attribs@ == old(self).config.attribs@,
            final(self).config.uniforms@ == old(self).config.uniforms@,
            final(self).config.fb_flawed_attachment == old(self).config.fb_flawed_attachment,
            final(self).config.fb_unsupported == old(self).config.fb_unsupported,
            final(self).next_id == old(self).next_id,
            final(self).bindings == old(self).bindings,
            final(self).fb_attachments@ == old(self).fb_attachments@,
            final(self).log@ == old(self).log@,
    {
        self.config.link_ok = ok;
    }

    /// Configure the bytes the driver writes as the program info log.
    pub fn set_info_log(&mut self, bytes: Vec<u8>)
        ensures
            final(self).config.info_log@ == bytes@,
            final(self).config.alloc_ok == old(self).config.alloc_ok,
            final(self).config.link_ok == old(self).config.link_ok,
            final(self).config.attribs@ == old(self).config.attribs@,
            final(self).config.uniforms@ == old(self).config.uniforms@,
            final(self).config.fb_flawed_attachment == old(self).config.fb_flawed_attachment,
            final(self).config.fb_unsupported == old(self).config.fb_unsupported,
            final(self).next_id == old(self).next_id,
            final(self).bindings == old(self).bindings,
            final(self).fb_attachments@ == old(self).fb_attachments@,
            final(self).log@ == old(self).log@,
    {
        self.config.info_log = bytes;
    }

    /// Declare an active attribute of the linked program.
    pub fn declare_attrib(&mut self, name: String, location: u32)
        ensures
            final(self).config.attribs@ == old(self).config.attribs@.push((name, location)),
            final(self).config.alloc_ok == old(self).config.alloc_ok,
            final(self).config.link_ok == old(self).config.link_ok,
            final(self).config.info_log@ == old(self).config.info_log@,
            final(self).config.uniforms@ == old(self).config.uniforms@,
            final(self).config.fb_flawed_attachment == old(self).config.fb_flawed_attachment,
            final(self).config.fb_unsupported == old(self).config.fb_unsupported,
            final(self).next_id == old(self).next_id,
            final(self).bindings == old(self).bindings,
            final(self).fb_attachments@ == old(self).fb_attachments@,
            final(self).log@ == old(self).log@,
    {
        self.config.attribs.push((name, location));
    }

    /// Declare an active uniform of the linked program.
    pub fn declare_uniform(&mut self, name: String, location: u32)
        ensures
            final(self).config.uniforms@ == old(self).config.uniforms@.push((name, location)),
            final(self).config.alloc_ok == old(self).config.alloc_ok,
            final(self).config.link_ok == old(self).config.link_ok,
            final(self).config.info_log@ == old(self).config.info_log@,
            final(self).config.attribs@ == old(self).config.attribs@,
            final(self).config.fb_flawed_attachment == old(self).config.fb_flawed_attachment,
            final(self).config.fb_unsupported == old(self).config.fb_unsupported,
            final(self).next_id == old(self).next_id,
            final(self).bindings == old(self).bindings,
            final(self).fb_attachments@ == old(self).fb_attachments@,
            final(self).log@ == old(self).log@,
    {
        self.config.uniforms.push((name, location));
    }

    /// Configure the driver's judgment of framebuffer images: whether
    /// some image is individually unusable, and whether the combination
    /// is unsupported.
    pub fn set_framebuffer_flaws(&mut self, flawed_attachment: bool, unsupported: bool)
        ensures
            final(self).config.fb_flawed_attachment == flawed_attachment,
            final(self).config.fb_unsupported == unsupported,
            final(self).config.alloc_ok == old(self).config.alloc_ok,
            final(self).config.link_ok == old(self).config.link_ok,
            final(self).config.info_log@ == old(self).config.info_log@,
            final(self).config.attribs@ == old(self).config.attribs@,
            final(self).config.uniforms@ == old(self).config.uniforms@,
            final(self).next_id == old(self).next_id,
            final(self).bindings == old(self).bindings,
            final(self).fb_attachments@ == old(self).fb_attachments@,
            final(self).log@ == old(self).log@,
    {
        self.config.fb_flawed_attachment = flawed_attachment;
        self.config.fb_unsupported = unsupported;
    }
}

/// The first location registered under `name` in the table, as the driver
/// reports it.
fn location_lookup(table: &Vec<(String, u32)>, name: &str) -> (r: i32)
    ensures
        r == spec_location_code(table@, name@),
{
    proof {
        assert(table@.skip(0) =~= table@);
    }
    let mut i: usize = 0;
    while i < table.len()
        invariant
            i <= table@.len(),
            spec_location(table@, name@) == spec_location(table@.skip(i as int), name@),
        decreases table@.len() - i,
    {
        proof {
            assert(table@.skip(i as int)[0] == table@[i as int]);
        }
        let pair = &table[i];
        if str_eq(pair.0.as_str(), name) {
            let loc = pair.1;
            if loc <= 0x7fff_ffffu32 {
                return loc as i32;
            } else {
                return -1;
            }
        }
        proof {
            assert(table@.skip(i as int).drop_first() =~= table@.skip(i as int + 1));
        }
        i = i + 1;
    }
    proof {
        assert(table@.skip(i as int).len() == 0);
    }
    -1
}

/// The attachment set recorded for `id`, or the empty set.
fn attachments_lookup(table: &Vec<(u32, AttachmentSet)>, id: u32) -> (r: AttachmentSet)
    ensures
        r == spec_attachments_in(table@, id),
{
    proof {
        assert(table@.skip(0) =~= table@);
    }
    let mut i: usize = 0;
    while i < table.len()
        invariant
            i <= table@.len(),
            spec_attachments_in(table@, id) == spec_attachments_in(table@.skip(i as int), id),
        decreases table@.len() - i,
    {
        proof {
            assert(table@.skip(i as int)[0] == table@[i as int]);
        }
        let pair = &table[i];
        if pair.0 == id {
            return pair.1;
        }
        proof {
            assert(table@.skip(i as int).drop_first() =~= table@.skip(i as int + 1));
        }
        i = i + 1;
    }
    proof {
        assert(table@.skip(i as int).len() == 0);
    }
    AttachmentSet::empty()
}

/// Fill attachment point `a` of framebuffer `id` in the table.
fn attach_update(table: &mut Vec<(u32, AttachmentSet)>, id: u32, a: FramebufferAttachment)
    ensures
        final(table)@ == spec_attach(old(table)@, id, a),
{
    let mut i: usize = 0;
    while i < table.len()
        invariant
            i <= table@.len(),
            table@ == old(table)@,
            forall|j: int| 0 <= j < i ==> (#[trigger] table@[j]).0 != id,
        decreases table@.len() - i,
    {
        let found = table[i].0 == id;
        if found {
            let s = table[i].1;
            table.set(i, (id, s.with(a)));
            proof {
                lemma_attach_found(old(table)@, id, a, i as int);
            }
            return;
        }
        i = i + 1;
    }
    table.push((id, AttachmentSet::empty().with(a)));
    proof {
        lemma_attach_missing(old(table)@, id, a);
    }
}

/// Updating the first entry for `id` in place realizes `spec_attach` when
/// an entry exists.
proof fn lemma_attach_found(
    table: Seq<(u32, AttachmentSet)>,
    id: u32,
    a: FramebufferAttachment,
    i: int,
)
    requires
        0 <= i < table.len(),
        table[i].0 == id,
        forall|j: int| 0 <= j < i ==> (#[trigger] table[j]).0 != id,
    ensures
        spec_attach(table, id, a) =~= table.update(i, (id, table[i].1.spec_with(a))),
    decreases i,
{
    if i == 0 {
        assert(spec_attach(table, id, a) =~= table.update(0, (id, table[0].1.spec_with(a))));
    } else {
        assert(table.drop_first()[i - 1] == table[i]);
        lemma_attach_found(table.drop_first(), id, a, i - 1);
        assert(spec_attach(table, id, a) =~= table.update(i, (id, table[i].1.spec_with(a))));
    }
}

/// Appending a fresh entry realizes `spec_attach` when no entry exists.
proof fn lemma_attach_missing(table: Seq<(u32, AttachmentSet)>, id: u32, a: FramebufferAttachment)
    requires
        forall|j: int| 0 <= j < table.len() ==> (#[trigger] table[j]).0 != id,
    ensures
        spec_attach(table, id, a) =~= table.push((id, AttachmentSet::empty_spec().spec_with(a))),
    decreases table.len(),
{
    if table.len() == 0 {
    } else {
        lemma_attach_missing(table.drop_first(), id, a);
    }
}

/// Filling an attachment point of a framebuffer whose entry stands last,
/// behind entries for other framebuffers, updates exactly that entry.
pub proof fn lemma_attach_last(
    table: Seq<(u32, AttachmentSet)>,
    id: u32,
    s: AttachmentSet,
    a: FramebufferAttachment,
)
    requires
        forall|j: int| 0 <= j < table.len() ==> (#[trigger] table[j]).0 != id,
    ensures
        spec_attach(table.push((id, s)), id, a) =~= table.push((id, s.spec_with(a))),
    decreases table.len(),
{
    let t = table.push((id, s));
    assert(t[table.len() as int] == (id, s));
    assert(forall|j: int| 0 <= j < table.len() ==> t[j] == table[j]);
    lemma_attach_found(t, id, a, table.len() as int);
    assert(t.update(table.len() as int, (id, s.spec_with(a))) =~= table.push(
        (id, s.spec_with(a)),
    ));
}

/// Looking up a framebuffer whose entry stands last, behind entries for
/// other framebuffers, finds exactly that entry.
pub proof fn lemma_lookup_last(table: Seq<(u32, AttachmentSet)>, id: u32, s: AttachmentSet)
    requires
        forall|j: int| 0 <= j < table.len() ==> (#[trigger] table[j]).0 != id,
    ensures
        spec_attachments_in(table.push((id, s)), id) == s,
    decreases table.len(),
{
    let t = table.push((id, s));
    if table.len() == 0 {
        assert(t[0] == (id, s));
    } else {
        assert(t[0] == table[0]);
        assert(t.drop_first() =~= table.drop_first().push((id, s)));
        lemma_lookup_last(table.drop_first(), id, s);
    }
}

} // verus!
