//! Program-related context operations: creating, assembling and linking
//! program objects, looking up attribute and uniform locations, binding a
//! program, and dispatching uniform values to the one native call variant
//! their shape selects.

use vstd::prelude::*;
use crate::context::Context;
use crate::machine::{same_but_log, same_config, GlCall, GlConfig, GlMachine, spec_location_code};
use crate::program::{Program, ProgramAttrib, ProgramUniform};
use crate::shader::Shader;
use crate::text::{contains_nul, decode_utf8, utf8_text};
use crate::types::GLError;
use crate::uniform_data::{UniformData, UniformDatumType, UniformPrimitiveType};

verus! {

/// The message a link failure carries when the driver's info log is
/// absent or not valid text.
pub open spec fn spec_fallback_message() -> Seq<char> {
    "[Unknown program error]"@
}

/// The message a link failure carries: the driver's info log decoded as
/// text, or the fallback when the log is empty or not valid text.
pub open spec fn spec_link_message(cfg: GlConfig) -> Seq<char> {
    if cfg.info_log@.len() == 0 {
        spec_fallback_message()
    } else {
        match utf8_text(cfg.info_log@) {
            Option::Some(s) => s,
            Option::None => spec_fallback_message(),
        }
    }
}

/// The one native call variant a uniform shape selects, at a location and
/// element count.  Vectors dispatch on arity and scalar kind; matrices
/// are always floating point and never ask the driver to transpose.
pub open spec fn spec_uniform_call(t: UniformDatumType, location: u32, count: usize) -> GlCall {
    match t {
        UniformDatumType::Vec1(UniformPrimitiveType::Float) => GlCall::Uniform1fv {
            location: location,
            count: count,
        },
        UniformDatumType::Vec1(UniformPrimitiveType::Int) => GlCall::Uniform1iv {
            location: location,
            count: count,
        },
        UniformDatumType::Vec2(UniformPrimitiveType::Float) => GlCall::Uniform2fv {
            location: location,
            count: count,
        },
        UniformDatumType::Vec2(UniformPrimitiveType::Int) => GlCall::Uniform2iv {
            location: location,
            count: count,
        },
        UniformDatumType::Vec3(UniformPrimitiveType::Float) => GlCall::Uniform3fv {
            location: location,
            count: count,
        },
        UniformDatumType::Vec3(UniformPrimitiveType::Int) => GlCall::Uniform3iv {
            location: location,
            count: count,
        },
        UniformDatumType::Vec4(UniformPrimitiveType::Float) => GlCall::Uniform4fv {
            location: location,
            count: count,
        },
        UniformDatumType::Vec4(UniformPrimitiveType::Int) => GlCall::Uniform4iv {
            location: location,
            count: count,
        },
        UniformDatumType::Matrix2x2 => GlCall::UniformMatrix2fv {
            location: location,
            count: count,
        },
        UniformDatumType::Matrix3x3 => GlCall::UniformMatrix3fv {
            location: location,
            count: count,
        },
        UniformDatumType::Matrix4x4 => GlCall::UniformMatrix4fv {
            location: location,
            count: count,
        },
    }
}

/// An error naming a program attribute that could not be found.
#[derive(Debug)]
pub struct UnknownProgramAttrib {
    name: String,
}

impl UnknownProgramAttrib {
    /// The name that was looked up.
    pub closed spec fn spec_name(&self) -> Seq<char> {
        self.name@
    }

    /// Read the name that was looked up.
    pub fn name(&self) -> (r: &str)
        ensures
            r@ == self.spec_name(),
    {
        self.name.as_str()
    }
}

/// An error naming a program uniform that could not be found.
#[derive(Debug)]
pub struct UnknownProgramUniform {
    name: String,
}

impl UnknownProgramUniform {
    /// The name that was looked up.
    pub closed spec fn spec_name(&self) -> Seq<char> {
        self.name@
    }

    /// Read the name that was looked up.
    pub fn name(&self) -> (r: &str)
        ensures
            r@ == self.spec_name(),
    {
        self.name.as_str()
    }
}

/// The capability to make programs current.
#[derive(Debug)]
pub struct ProgramBinder {
    engaged: bool,
}

/// Scoped proof that a specific program is current.  The binding owns
/// the program, so the program cannot be rebound, relinked or released
/// through any other path while the binding lives.
#[derive(Debug)]
pub struct ProgramBinding {
    program: Program,
}

impl ProgramBinding {
    /// The program this binding holds.
    pub closed spec fn spec_program(&self) -> Program {
        self.program
    }

    /// The native identifier of the bound program.
    pub open spec fn spec_gl_id(&self) -> u32 {
        self.spec_program().spec_gl_id()
    }

    /// Read the bound program.
    pub fn program(&self) -> (r: &Program)
        ensures
            r == self.spec_program(),
    {
        &self.program
    }
}

impl ProgramBinder {
    /// Whether the binder can accept a bind: it has no binding out.
    pub closed spec fn is_free(&self) -> bool {
        !self.engaged
    }

    /// A fresh, free binder.  Only the context constructs one, so only
    /// one exists for the program slot.
    pub(crate) fn fresh() -> (b: ProgramBinder)
        ensures
            b.is_free(),
    {
        ProgramBinder { engaged: false }
    }

    /// Make a program current.  The binding owns the program and engages
    /// the binder, so a second bind is impossible until the binding is
    /// released: two binds of the slot are always observably sequential.
    pub fn bind(&mut self, gl: &mut GlMachine, program: Program) -> (b: ProgramBinding)
        requires
            old(self).is_free(),
        ensures
            !final(self).is_free(),
            b.spec_program() == program,
            final(gl).next_id == old(gl).next_id,
            same_config(old(gl).config, final(gl).config),
            final(gl).fb_attachments@ == old(gl).fb_attachments@,
            final(gl).bindings.program == program.spec_gl_id(),
            final(gl).bindings.array_buffer == old(gl).bindings.array_buffer,
            final(gl).bindings.element_array_buffer == old(gl).bindings.element_array_buffer,
            final(gl).bindings.framebuffer == old(gl).bindings.framebuffer,
            final(gl).log@ == old(gl).log@.push(GlCall::UseProgram { id: program.spec_gl_id() }),
    {
        self.engaged = true;
        gl.use_program(program.gl_id());
        ProgramBinding { program: program }
    }

    /// Take a binding back, freeing the slot for the next bind and
    /// returning the program.  No foreign call is needed: only rebinding
    /// changes the slot.
    pub fn release(&mut self, binding: ProgramBinding) -> (p: Program)
        requires
            !old(self).is_free(),
        ensures
            final(self).is_free(),
            p == binding.spec_program(),
    {
        self.engaged = false;
        let ProgramBinding { program } = binding;
        program
    }
}

impl Context {
    /// Create a new program object with no shaders attached, or report
    /// that the allocator returned the null identifier.
    pub fn create_program(&self, gl: &mut GlMachine) -> (r: Result<Program, ()>)
        ensures
            final(gl).next_id == old(gl).spec_next_after(old(gl).spec_create_result()),
            same_config(old(gl).config, final(gl).config),
            final(gl).bindings == old(gl).bindings,
            final(gl).fb_attachments@ == old(gl).fb_attachments@,
            final(gl).log@ == old(gl).log@.push(
                GlCall::CreateProgram { result: old(gl).spec_create_result() },
            ),
            r is Ok <==> old(gl).spec_create_result() != 0,
            r matches Ok(p) ==> {
                &&& p.spec_gl_id() == old(gl).spec_create_result()
                &&& p.spec_attached() == Seq::<u32>::empty()
                &&& !p.spec_linked()
            },
    {
        let id = gl.create_program();
        if id > 0 {
            Ok(Program::from_gl(id))
        } else {
            Err(())
        }
    }

    /// Attach a shader to a program object.  Each shader may be attached
    /// only once per program; the handle's record of attached shaders
    /// rules a second attach out.
    pub fn attach_shader(&self, gl: &mut GlMachine, program: &mut Program, shader: &Shader)
        requires
            !old(program).spec_attached().contains(shader.spec_gl_id()),
        ensures
            same_but_log(*old(gl), *final(gl)),
            final(gl).log@ == old(gl).log@.push(
                GlCall::AttachShader {
                    program: old(program).spec_gl_id(),
                    shader: shader.spec_gl_id(),
                },
            ),
            final(program).spec_gl_id() == old(program).spec_gl_id(),
            final(program).spec_attached()
                == old(program).spec_attached().push(shader.spec_gl_id()),
            final(program).spec_linked() == old(program).spec_linked(),
    {
        gl.attach_shader(program.gl_id(), shader.gl_id());
        program.note_attached(shader.gl_id());
    }

    /// Link a program object so it can be used for rendering.  Success is
    /// the driver's verdict; on failure the result carries the info log
    /// as text, or the fallback message, and the message is never empty.
    pub fn link_program(&self, gl: &mut GlMachine, program: &mut Program) -> (r: Result<
        (),
        GLError,
    >)
        ensures
            final(gl).next_id == old(gl).next_id,
            same_config(old(gl).config, final(gl).config),
            final(gl).bindings == old(gl).bindings,
            final(gl).fb_attachments@ == old(gl).fb_attachments@,
            final(program).spec_gl_id() == old(program).spec_gl_id(),
            final(program).spec_attached() == old(program).spec_attached(),
            final(program).spec_linked() == old(gl).config.link_ok,
            r is Ok <==> old(gl).config.link_ok,
            old(gl).config.link_ok ==> final(gl).log@ == old(gl).log@
                + seq![
                GlCall::LinkProgram { program: old(program).spec_gl_id() },
                GlCall::GetLinkStatus { program: old(program).spec_gl_id(), result: true },
            ],
            !old(gl).config.link_ok ==> final(gl).log@ == old(gl).log@
                + seq![
                GlCall::LinkProgram { program: old(program).spec_gl_id() },
                GlCall::GetLinkStatus { program: old(program).spec_gl_id(), result: false },
                GlCall::GetProgramInfoLog { program: old(program).spec_gl_id() },
            ],
            r matches Err(e) ==> {
                &&& e matches GLError::Message(m)
                &&& m@ == spec_link_message(old(gl).config)
                &&& m@.len() > 0
            },
    {
        let id = program.gl_id();
        gl.link_program(id);
        let ok = gl.get_link_status(id);
        program.note_linked(ok);
        if ok {
            proof {
                assert(gl.log@ =~= old(gl).log@
                    + seq![
                    GlCall::LinkProgram { program: old(program).spec_gl_id() },
                    GlCall::GetLinkStatus { program: old(program).spec_gl_id(), result: true },
                ]);
            }
            Ok(())
        } else {
            let msg = match self.get_program_info_log(gl, program) {
                Some(s) => s,
                None => {
                    proof {
                        reveal_strlit("[Unknown program error]");
                    }
                    fallback_message()
                },
            };
            proof {
                assert(gl.log@ =~= old(gl).log@
                    + seq![
                    GlCall::LinkProgram { program: old(program).spec_gl_id() },
                    GlCall::GetLinkStatus { program: old(program).spec_gl_id(), result: false },
                    GlCall::GetProgramInfoLog { program: old(program).spec_gl_id() },
                ]);
            }
            Err(GLError::Message(msg))
        }
    }

    /// Read a program's information log as text, if the driver wrote one
    /// and it is valid text.
    pub fn get_program_info_log(&self, gl: &mut GlMachine, program: &Program) -> (r: Option<
        String,
    >)
        ensures
            same_but_log(*old(gl), *final(gl)),
            final(gl).log@ == old(gl).log@.push(
                GlCall::GetProgramInfoLog { program: program.spec_gl_id() },
            ),
            r matches Some(s) ==> {
                &&& old(gl).config.info_log@.len() > 0
                &&& utf8_text(old(gl).config.info_log@) == Some(s@)
                &&& s@.len() > 0
            },
            r is None ==> old(gl).config.info_log@.len() == 0 || utf8_text(
                old(gl).config.info_log@,
            ) is None,
    {
        let bytes = gl.get_info_log_bytes(program.gl_id());
        if bytes.len() == 0 {
            None
        } else {
            decode_utf8(bytes)
        }
    }
}

impl Context {
    /// Retrieve a program attribute's location by name.  The lookup asks
    /// the driver, which knows the active attributes of the linked
    /// program; a name the program does not declare, or one no native
    /// string can carry, is reported unknown.
    pub fn get_attrib_location(&self, gl: &mut GlMachine, program: &Program, name: &str) -> (r:
        Result<ProgramAttrib, UnknownProgramAttrib>)
        requires
            program.spec_linked(),
        ensures
            same_but_log(*old(gl), *final(gl)),
            name@.contains('\0') ==> final(gl).log@ == old(gl).log@,
            !name@.contains('\0') ==> final(gl).log@ == old(gl).log@.push(
                GlCall::GetAttribLocation {
                    program: program.spec_gl_id(),
                    result: spec_location_code(old(gl).config.attribs@, name@),
                },
            ),
            r is Ok <==> !name@.contains('\0') && spec_location_code(
                old(gl).config.attribs@,
                name@,
            ) >= 0,
            r matches Ok(a) ==> a.gl_index == spec_location_code(
                old(gl).config.attribs@,
                name@,
            ) as u32,
            r matches Err(e) ==> e.spec_name() == name@,
    {
        if contains_nul(name) {
            return Err(UnknownProgramAttrib { name: String::from_str(name) });
        }
        let index = gl.get_attrib_location(program.gl_id(), name);
        if index >= 0 {
            Ok(ProgramAttrib { gl_index: index as u32 })
        } else {
            Err(UnknownProgramAttrib { name: String::from_str(name) })
        }
    }

    /// Retrieve a program uniform's location by name.  The location
    /// remembers the program it came from: setting a uniform demands
    /// that the same program is bound.
    pub fn get_uniform_location(&self, gl: &mut GlMachine, program: &Program, name: &str) -> (r:
        Result<ProgramUniform, UnknownProgramUniform>)
        requires
            program.spec_linked(),
        ensures
            same_but_log(*old(gl), *final(gl)),
            name@.contains('\0') ==> final(gl).log@ == old(gl).log@,
            !name@.contains('\0') ==> final(gl).log@ == old(gl).log@.push(
                GlCall::GetUniformLocation {
                    program: program.spec_gl_id(),
                    result: spec_location_code(old(gl).config.uniforms@, name@),
                },
            ),
            r is Ok <==> !name@.contains('\0') && spec_location_code(
                old(gl).config.uniforms@,
                name@,
            ) >= 0,
            r matches Ok(u) ==> u.gl_index == spec_location_code(
                old(gl).config.uniforms@,
                name@,
            ) as u32 && u.spec_program() == program.spec_gl_id(),
            r matches Err(e) ==> e.spec_name() == name@,
    {
        if contains_nul(name) {
            return Err(UnknownProgramUniform { name: String::from_str(name) });
        }
        let index = gl.get_uniform_location(program.gl_id(), name);
        if index >= 0 {
            Ok(ProgramUniform::new(index as u32, Ghost(program.spec_gl_id())))
        } else {
            Err(UnknownProgramUniform { name: String::from_str(name) })
        }
    }

    /// Dispatch one uniform-setting call by shape: each shape reaches
    /// exactly the one native variant that `spec_uniform_call` names.
    /// The binding proves the program the location belongs to is the one
    /// currently bound.
    pub fn set_uniform_raw(
        &self,
        gl: &mut GlMachine,
        binding: &ProgramBinding,
        uniform: ProgramUniform,
        datum_type: UniformDatumType,
        count: usize,
    )
        requires
            old(gl).bindings.program == binding.spec_gl_id(),
            uniform.spec_program() == binding.spec_gl_id(),
        ensures
            same_but_log(*old(gl), *final(gl)),
            final(gl).log@ == old(gl).log@.push(
                spec_uniform_call(datum_type, uniform.gl_index, count),
            ),
    {
        let idx = uniform.gl_index;
        match datum_type {
            UniformDatumType::Vec1(p) => match p {
                UniformPrimitiveType::Float => gl.uniform1fv(idx, count),
                UniformPrimitiveType::Int => gl.uniform1iv(idx, count),
            },
            UniformDatumType::Vec2(p) => match p {
                UniformPrimitiveType::Float => gl.uniform2fv(idx, count),
                UniformPrimitiveType::Int => gl.uniform2iv(idx, count),
            },
            UniformDatumType::Vec3(p) => match p {
                UniformPrimitiveType::Float => gl.uniform3fv(idx, count),
                UniformPrimitiveType::Int => gl.uniform3iv(idx, count),
            },
            UniformDatumType::Vec4(p) => match p {
                UniformPrimitiveType::Float => gl.uniform4fv(idx, count),
                UniformPrimitiveType::Int => gl.uniform4iv(idx, count),
            },
            UniformDatumType::Matrix2x2 => gl.uniform_matrix2fv(idx, count),
            UniformDatumType::Matrix3x3 => gl.uniform_matrix3fv(idx, count),
            UniformDatumType::Matrix4x4 => gl.uniform_matrix4fv(idx, count),
        }
    }

    /// Set the value of a uniform variable of the bound program.  The
    /// value's compile-time shape selects exactly one native call
    /// variant, and the location must have been obtained from the
    /// program currently bound.
    pub fn set_uniform<T: UniformData>(
        &self,
        gl: &mut GlMachine,
        binding: &ProgramBinding,
        uniform: ProgramUniform,
        val: T,
    )
        requires
            old(gl).bindings.program == binding.spec_gl_id(),
            uniform.spec_program() == binding.spec_gl_id(),
        ensures
            same_but_log(*old(gl), *final(gl)),
            final(gl).log@ == old(gl).log@.push(
                spec_uniform_call(
                    <T as UniformData>::spec_datum_type(),
                    uniform.gl_index,
                    val.spec_elements(),
                ),
            ),
    {
        let datum_type = T::uniform_datum_type();
        let count = val.uniform_elements();
        self.set_uniform_raw(gl, binding, uniform, datum_type, count)
    }

    /// Collect shaders into a program builder.
    pub fn build_program<'a>(&self, shaders: &'a [Shader]) -> (b: ProgramBuilder<'a>)
        ensures
            b.spec_shaders() == shaders@,
    {
        ProgramBuilder::new(shaders)
    }
}

/// The fallback message for a link failure whose info log is unusable.
fn fallback_message() -> (r: String)
    ensures
        r@ == spec_fallback_message(),
{
    String::from_str("[Unknown program error]")
}

/// Whether no two shaders in the sequence name the same object.
pub open spec fn spec_distinct_shaders(shaders: Seq<Shader>) -> bool {
    forall|i: int, j: int|
        0 <= i < j < shaders.len() ==> (#[trigger] shaders[i]).spec_gl_id() != (
        #[trigger] shaders[j]).spec_gl_id()
}

/// The calls that attach each shader to the program, in order.
pub open spec fn spec_attach_shader_calls(program: u32, shaders: Seq<Shader>) -> Seq<GlCall> {
    Seq::new(
        shaders.len(),
        |i: int| GlCall::AttachShader { program: program, shader: shaders[i].spec_gl_id() },
    )
}

/// Assembles a program: collects shaders, then creates the program
/// object, attaches each shader once, and links.
pub struct ProgramBuilder<'a> {
    shaders: &'a [Shader],
}

impl<'a> ProgramBuilder<'a> {
    /// The shaders the program will be linked from.
    pub closed spec fn spec_shaders(&self) -> Seq<Shader> {
        self.shaders@
    }

    /// Collect the shaders the program will be linked from.
    pub fn new(shaders: &'a [Shader]) -> (b: ProgramBuilder<'a>)
        ensures
            b.spec_shaders() == shaders@,
    {
        ProgramBuilder { shaders: shaders }
    }

    /// Create and link the program object from the collected shaders.
    /// Creation fails when the allocator returns the null identifier;
    /// linking fails on the driver's verdict, and the error then carries
    /// the info log as text or the fallback message, never empty.
    pub fn try_unwrap(self, ctx: &Context, gl: &mut GlMachine) -> (r: Result<Program, GLError>)
        requires
            spec_distinct_shaders(self.spec_shaders()),
        ensures
            same_config(old(gl).config, final(gl).config),
            final(gl).bindings == old(gl).bindings,
            final(gl).fb_attachments@ == old(gl).fb_attachments@,
            r is Ok <==> old(gl).spec_create_result() != 0 && old(gl).config.link_ok,
            old(gl).spec_create_result() == 0 ==> {
                &&& final(gl).next_id == old(gl).next_id
                &&& final(gl).log@ == old(gl).log@.push(GlCall::CreateProgram { result: 0 })
                &&& (r matches Err(e) ==> e matches GLError::Message(m)
                    && m@ == "Error creating OpenGL program"@)
            },
            old(gl).spec_create_result() != 0 ==> {
                &&& final(gl).next_id == old(gl).next_id + 1
                &&& final(gl).log@ == old(gl).log@.push(
                    GlCall::CreateProgram { result: old(gl).spec_create_result() },
                ) + spec_attach_shader_calls(old(gl).spec_create_result(), self.spec_shaders())
                    + seq![
                    GlCall::LinkProgram { program: old(gl).spec_create_result() },
                    GlCall::GetLinkStatus {
                        program: old(gl).spec_create_result(),
                        result: old(gl).config.link_ok,
                    },
                ] + if old(gl).config.link_ok {
                    Seq::<GlCall>::empty()
                } else {
                    seq![
                        GlCall::GetProgramInfoLog { program: old(gl).spec_create_result() },
                        GlCall::DeleteProgram { id: old(gl).spec_create_result() },
                    ]
                }
            },
            r matches Ok(p) ==> {
                &&& p.spec_gl_id() == old(gl).spec_create_result()
                &&& p.spec_linked()
                &&& p.spec_attached() == self.spec_shaders().map_values(
                    |s: Shader| s.spec_gl_id(),
                )
            },
            old(gl).spec_create_result() != 0 && !old(gl).config.link_ok ==> (r matches Err(e)
                ==> e matches GLError::Message(m) && m@ == spec_link_message(old(gl).config)
                && m@.len() > 0),
    {
        let created = ctx.create_program(gl);
        let mut program = match created {
            Ok(p) => p,
            Err(()) => {
                return Err(GLError::Message(String::from_str("Error creating OpenGL program")));
            },
        };
        let id = program.gl_id();
        let ghost log1 = gl.log@;
        let ghost snap = *gl;
        let mut i: usize = 0;
        while i < self.shaders.len()
            invariant
                i <= self.shaders@.len(),
                spec_distinct_shaders(self.shaders@),
                program.spec_gl_id() == id,
                !program.spec_linked(),
                program.spec_attached() == self.shaders@.take(i as int).map_values(
                    |s: Shader| s.spec_gl_id(),
                ),
                gl.next_id == snap.next_id,
                same_config(snap.config, gl.config),
                gl.bindings == snap.bindings,
                gl.fb_attachments@ == snap.fb_attachments@,
                gl.log@ == log1 + spec_attach_shader_calls(id, self.shaders@).take(i as int),
            decreases self.shaders@.len() - i,
        {
            proof {
                let ids = self.shaders@.take(i as int).map_values(|s: Shader| s.spec_gl_id());
                if ids.contains(self.shaders@[i as int].spec_gl_id()) {
                    let k = choose|k: int|
                        0 <= k < ids.len() && ids[k] == self.shaders@[i as int].spec_gl_id();
                    assert(self.shaders@[k].spec_gl_id() == self.shaders@[i as int].spec_gl_id());
                    assert(false);
                }
            }
            ctx.attach_shader(gl, &mut program, &self.shaders[i]);
            i = i + 1;
            proof {
                assert(program.spec_attached() =~= self.shaders@.take(i as int).map_values(
                    |s: Shader| s.spec_gl_id(),
                ));
                assert(gl.log@ =~= log1 + spec_attach_shader_calls(id, self.shaders@).take(
                    i as int,
                ));
            }
        }
        proof {
            assert(spec_attach_shader_calls(id, self.shaders@).take(i as int)
                =~= spec_attach_shader_calls(id, self.shaders@));
            assert(program.spec_attached() =~= self.shaders@.map_values(
                |s: Shader| s.spec_gl_id(),
            ));
        }
        let linked = ctx.link_program(gl, &mut program);
        match linked {
            Ok(()) => {
                proof {
                    assert(old(gl).config.link_ok);
                    assert(id == old(gl).spec_create_result());
                    assert(gl.log@ =~= old(gl).log@.push(
                        GlCall::CreateProgram { result: old(gl).spec_create_result() },
                    ) + spec_attach_shader_calls(
                        old(gl).spec_create_result(),
                        self.spec_shaders(),
                    ) + seq![
                        GlCall::LinkProgram { program: old(gl).spec_create_result() },
                        GlCall::GetLinkStatus {
                            program: old(gl).spec_create_result(),
                            result: old(gl).config.link_ok,
                        },
                    ] + if old(gl).config.link_ok {
                        Seq::<GlCall>::empty()
                    } else {
                        seq![
                            GlCall::GetProgramInfoLog { program: old(gl).spec_create_result() },
                            GlCall::DeleteProgram { id: old(gl).spec_create_result() },
                        ]
                    });
                }
                Ok(program)
            },
            Err(e) => {
                program.delete(gl);
                proof {
                    assert(!old(gl).config.link_ok);
                    assert(id == old(gl).spec_create_result());
                    assert(gl.log@ =~= old(gl).log@.push(
                        GlCall::CreateProgram { result: old(gl).spec_create_result() },
                    ) + spec_attach_shader_calls(
                        old(gl).spec_create_result(),
                        self.spec_shaders(),
                    ) + seq![
                        GlCall::LinkProgram { program: old(gl).spec_create_result() },
                        GlCall::GetLinkStatus {
                            program: old(gl).spec_create_result(),
                            result: old(gl).config.link_ok,
                        },
                    ] + if old(gl).config.link_ok {
                        Seq::<GlCall>::empty()
                    } else {
                        seq![
                            GlCall::GetProgramInfoLog { program: old(gl).spec_create_result() },
                            GlCall::DeleteProgram { id: old(gl).spec_create_result() },
                        ]
                    });
                }
                Err(e)
            },
        }
    }

    /// Create and link the program object from the collected shaders,
    /// which must succeed: the inputs on which the original operation
    /// would fail are excluded up front.
    pub fn unwrap(self, ctx: &Context, gl: &mut GlMachine) -> (p: Program)
        requires
            spec_distinct_shaders(self.spec_shaders()),
            old(gl).spec_create_result() != 0,
            old(gl).config.link_ok,
        ensures
            p.spec_gl_id() == old(gl).spec_create_result(),
            p.spec_linked(),
    {
        let r = self.try_unwrap(ctx, gl);
        match r {
            Ok(p) => p,
            Err(_) => {
                proof {
                    assert(false);
                }
                Program::from_gl(0)
            },
        }
    }
}

} // verus!
