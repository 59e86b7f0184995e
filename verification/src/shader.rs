//! Shaders, programs, reflection and typed uniform and attribute handles.
//!
//! A program moves through three states: unlinked, linked, and
//! linked-with-loaded-descriptors. Linking reports success as a boolean; the
//! info log is retrievable regardless of the outcome, so warnings can surface
//! on success too. After linking, the driver-enumerated active uniforms and
//! attributes are processed into name-keyed descriptor tables (stripping the
//! trailing array marker from array names), and typed [`Uniform`] and
//! [`Attrib`] handles are produced from them, validated against the declared
//! shading-language types.

use vstd::prelude::*;

use crate::context::BindingTarget;
use crate::context::Context;
use crate::context::GlCall;
use crate::error::OoglError;

verus! {

/// The location reported for a uniform the linker optimized away.
pub const INACTIVE_UNIFORM_LOCATION: i32 = -1;

/// The location reported for an attribute the linker optimized away.
pub const INACTIVE_ATTRIB_LOCATION: u32 = 0xFFFF_FFFF;

/// The two kinds of shader objects.
#[derive(Debug, Copy, Clone, PartialEq, Eq, Structural)]
pub enum ShaderType {
    Vertex,
    Fragment,
}

/// The shading-language type of a uniform or attribute, as reflection
/// reports it.
#[derive(Debug, Copy, Clone, PartialEq, Eq, Structural)]
pub enum GlslTypeName {
    Float,
    Vec2,
    Vec3,
    Vec4,
    Int,
    IVec2,
    IVec3,
    IVec4,
    Bool,
    BVec2,
    BVec3,
    BVec4,
    Mat2,
    Mat3,
    Mat4,
    Sampler2D,
    SamplerCube,
}

impl GlslTypeName {
    /// The number of scalar components a value of this type holds.
    pub open spec fn spec_components(self) -> u8 {
        match self {
            GlslTypeName::Float => 1u8,
            GlslTypeName::Int => 1u8,
            GlslTypeName::Bool => 1u8,
            GlslTypeName::Vec2 => 2u8,
            GlslTypeName::IVec2 => 2u8,
            GlslTypeName::BVec2 => 2u8,
            GlslTypeName::Vec3 => 3u8,
            GlslTypeName::IVec3 => 3u8,
            GlslTypeName::BVec3 => 3u8,
            GlslTypeName::Vec4 => 4u8,
            GlslTypeName::IVec4 => 4u8,
            GlslTypeName::BVec4 => 4u8,
            GlslTypeName::Mat2 => 4u8,
            GlslTypeName::Mat3 => 9u8,
            GlslTypeName::Mat4 => 16u8,
            GlslTypeName::Sampler2D => 1u8,
            GlslTypeName::SamplerCube => 1u8,
        }
    }

    /// The number of scalar components a value of this type holds.
    pub fn components(self) -> (count: u8)
        ensures
            count == self.spec_components(),
    {
        match self {
            GlslTypeName::Float => 1,
            GlslTypeName::Int => 1,
            GlslTypeName::Bool => 1,
            GlslTypeName::Vec2 => 2,
            GlslTypeName::IVec2 => 2,
            GlslTypeName::BVec2 => 2,
            GlslTypeName::Vec3 => 3,
            GlslTypeName::IVec3 => 3,
            GlslTypeName::BVec3 => 3,
            GlslTypeName::Vec4 => 4,
            GlslTypeName::IVec4 => 4,
            GlslTypeName::BVec4 => 4,
            GlslTypeName::Mat2 => 4,
            GlslTypeName::Mat3 => 9,
            GlslTypeName::Mat4 => 16,
            GlslTypeName::Sampler2D => 1,
            GlslTypeName::SamplerCube => 1,
        }
    }

    /// The type's name in shading-language source text.
    pub fn name_string(self) -> (name: String)
        ensures
            name@ == self.spec_name_string(),
    {
        let text: &str = match self {
            GlslTypeName::Float => "float",
            GlslTypeName::Vec2 => "vec2",
            GlslTypeName::Vec3 => "vec3",
            GlslTypeName::Vec4 => "vec4",
            GlslTypeName::Int => "int",
            GlslTypeName::IVec2 => "ivec2",
            GlslTypeName::IVec3 => "ivec3",
            GlslTypeName::IVec4 => "ivec4",
            GlslTypeName::Bool => "bool",
            GlslTypeName::BVec2 => "bvec2",
            GlslTypeName::BVec3 => "bvec3",
            GlslTypeName::BVec4 => "bvec4",
            GlslTypeName::Mat2 => "mat2",
            GlslTypeName::Mat3 => "mat3",
            GlslTypeName::Mat4 => "mat4",
            GlslTypeName::Sampler2D => "sampler2D",
            GlslTypeName::SamplerCube => "samplerCube",
        };
        String::from_str(text)
    }

    /// The type's name in shading-language source text.
    pub open spec fn spec_name_string(self) -> Seq<char> {
        match self {
            GlslTypeName::Float => "float"@,
            GlslTypeName::Vec2 => "vec2"@,
            GlslTypeName::Vec3 => "vec3"@,
            GlslTypeName::Vec4 => "vec4"@,
            GlslTypeName::Int => "int"@,
            GlslTypeName::IVec2 => "ivec2"@,
            GlslTypeName::IVec3 => "ivec3"@,
            GlslTypeName::IVec4 => "ivec4"@,
            GlslTypeName::Bool => "bool"@,
            GlslTypeName::BVec2 => "bvec2"@,
            GlslTypeName::BVec3 => "bvec3"@,
            GlslTypeName::BVec4 => "bvec4"@,
            GlslTypeName::Mat2 => "mat2"@,
            GlslTypeName::Mat3 => "mat3"@,
            GlslTypeName::Mat4 => "mat4"@,
            GlslTypeName::Sampler2D => "sampler2D"@,
            GlslTypeName::SamplerCube => "samplerCube"@,
        }
    }
}

/// The full declared type of a shader input: base type plus, for arrays, the
/// declared element count.
#[derive(Debug, Copy, Clone, PartialEq, Eq, Structural)]
pub struct GlslType {
    pub name: GlslTypeName,
    pub array_len: Option<u32>,
}

impl GlslType {
    /// Whether the input was declared as an array.
    pub fn is_array(&self) -> (array: bool)
        ensures
            array == (self.array_len is Some),
    {
        self.array_len.is_some()
    }
}


/// The textual form of a declared shading-language type: its name plus, for
/// arrays, the declared element count in brackets.
pub open spec fn spec_glsl_type_string(declared: GlslType) -> Seq<char> {
    match declared.array_len {
        Some(array_len) => declared.name.spec_name_string() + "["@
            + crate::error::spec_decimal_digits(array_len as nat) + "]"@,
        None => declared.name.spec_name_string(),
    }
}

impl GlslType {
    /// The textual form of the declared type, as it would be written in
    /// shading-language source text.
    pub fn type_string(&self) -> (text: String)
        ensures
            text@ == spec_glsl_type_string(*self),
    {
        let mut text: String = self.name.name_string();
        match self.array_len {
            Some(array_len) => {
                text.append("[");
                text.append(crate::error::decimal_string(array_len as u128).as_str());
                text.append("]");
                text
            },
            None => text,
        }
    }
}


/// The textual form of a set of shading-language types, comma-separated.
pub open spec fn spec_type_list_string(types: Seq<GlslTypeName>) -> Seq<char>
    decreases types.len(),
{
    if types.len() == 0 {
        Seq::<char>::empty()
    } else if types.len() == 1 {
        types.first().spec_name_string()
    } else {
        types.first().spec_name_string() + ", "@ + spec_type_list_string(types.drop_first())
    }
}

/// Renders a set of shading-language types, comma-separated, from `start` on.
fn type_list_from(types: &Vec<GlslTypeName>, start: usize) -> (text: String)
    requires
        start <= types@.len(),
    ensures
        text@ == spec_type_list_string(types@.skip(start as int)),
    decreases types@.len() - start,
{
    if start == types.len() {
        proof {
            assert(types@.skip(start as int) =~= Seq::<GlslTypeName>::empty());
        }
        String::new()
    } else if start + 1 == types.len() {
        proof {
            assert(types@.skip(start as int).len() == 1);
            assert(types@.skip(start as int).first() == types@[start as int]);
        }
        types[start].name_string()
    } else {
        proof {
            assert(types@.skip(start as int).first() == types@[start as int]);
            assert(types@.skip(start as int).drop_first() =~= types@.skip(start as int + 1));
        }
        let mut text: String = types[start].name_string();
        text.append(", ");
        text.append(type_list_from(types, start + 1).as_str());
        text
    }
}

/// Renders a set of shading-language types, comma-separated.
pub fn type_list_string(types: &Vec<GlslTypeName>) -> (text: String)
    ensures
        text@ == spec_type_list_string(types@),
{
    proof {
        assert(types@.skip(0) =~= types@);
    }
    type_list_from(types, 0)
}

/// The descriptor of one active uniform: its binding location and its
/// declared type.
#[derive(Debug, Copy, Clone, PartialEq, Eq, Structural)]
pub struct UniformDescriptor {
    pub location: i32,
    pub data_type: GlslType,
}

/// The descriptor of one active attribute: its binding location and its
/// declared type.
#[derive(Debug, Copy, Clone, PartialEq, Eq, Structural)]
pub struct AttribDescriptor {
    pub location: u32,
    pub data_type: GlslType,
}

/// One entry of the driver's active-uniform enumeration, as the reflection
/// queries would report it: the name (with the trailing array marker still
/// attached for arrays), the base type, the declared array length, and the
/// location the driver assigned.
#[derive(Debug, Clone)]
pub struct ActiveUniform {
    pub name: String,
    pub data_type_name: GlslTypeName,
    pub array_len: u32,
    pub location: i32,
}

/// One entry of the driver's active-attribute enumeration.
#[derive(Debug, Clone)]
pub struct ActiveAttrib {
    pub name: String,
    pub data_type_name: GlslTypeName,
    pub array_len: u32,
    pub location: u32,
}

/// Whether a reported input name carries the trailing array marker.
pub open spec fn spec_is_array_name(name: Seq<char>) -> bool {
    name.len() >= 3 && name.subrange(name.len() - 3, name.len() as int) == "[0]"@
}

/// A reported input name with the trailing array marker, if any, stripped.
pub open spec fn spec_strip_array_marker(name: Seq<char>) -> Seq<char> {
    if spec_is_array_name(name) {
        name.take(name.len() - 3)
    } else {
        name
    }
}

/// Strips the trailing array marker from a reported input name; the second
/// component tells whether one was there.
fn strip_array_marker(name: &str) -> (result: (String, bool))
    ensures
        result.0@ == spec_strip_array_marker(name@),
        result.1 == spec_is_array_name(name@),
{
    proof {
        reveal_strlit("[0]");
    }
    let name_len: usize = name.unicode_len();
    if name_len >= 3 {
        let open_bracket: char = name.get_char(name_len - 3);
        let zero: char = name.get_char(name_len - 2);
        let close_bracket: char = name.get_char(name_len - 1);
        proof {
            let marker_sub = name@.subrange(name@.len() - 3, name@.len() as int);
            assert(marker_sub.len() == 3);
            assert(marker_sub[0] == name@[name@.len() - 3]);
            assert(marker_sub[1] == name@[name@.len() - 2]);
            assert(marker_sub[2] == name@[name@.len() - 1]);
            assert("[0]"@.len() == 3 && "[0]"@[0] == '[' && "[0]"@[1] == '0' && "[0]"@[2] == ']');
        }
        if open_bracket == '[' && zero == '0' && close_bracket == ']' {
            proof {
                assert(name@.subrange(name@.len() - 3, name@.len() as int) =~= "[0]"@);
            }
            let stripped: &str = name.substring_char(0, name_len - 3);
            return (String::from_str(stripped), true);
        }
        proof {
            assert(name@.subrange(name@.len() - 3, name@.len() as int) != "[0]"@);
        }
    }
    (String::from_str(name), false)
}

/// The descriptor an active-uniform entry is processed into: the reported
/// location, the reported base type, and the reported array length where the
/// name carries the array marker.
pub open spec fn spec_uniform_descriptor_of(entry: ActiveUniform) -> UniformDescriptor {
    UniformDescriptor {
        location: entry.location,
        data_type: GlslType {
            name: entry.data_type_name,
            array_len: if spec_is_array_name(entry.name@) {
                Some(entry.array_len)
            } else {
                None
            },
        },
    }
}

/// The descriptor an active-attribute entry is processed into.
pub open spec fn spec_attrib_descriptor_of(entry: ActiveAttrib) -> AttribDescriptor {
    AttribDescriptor {
        location: entry.location,
        data_type: GlslType {
            name: entry.data_type_name,
            array_len: if spec_is_array_name(entry.name@) {
                Some(entry.array_len)
            } else {
                None
            },
        },
    }
}

/// A shader object: owns one server-side handle, its kind, and the mirror of
/// the last uploaded source text.
#[derive(Debug)]
pub struct Shader {
    pub addr: u32,
    pub shader_type: ShaderType,
    pub source: Vec<u8>,
}

impl Shader {
    /// Creates a shader object of the given kind with a fresh handle.
    pub fn new(ctx: &mut Context, shader_type: ShaderType) -> (shader: Shader)
        requires
            old(ctx).wf(),
            old(ctx).next_addr < u32::MAX,
        ensures
            shader.addr == old(ctx).next_addr,
            shader.shader_type == shader_type,
            shader.source@ == Seq::<u8>::empty(),
            *final(ctx) == (Context {
                calls: final (ctx).calls,
                next_addr: final (ctx).next_addr,
                ..*old(ctx)
            }),
            final (ctx).next_addr == old(ctx).next_addr + 1,
            final (ctx).calls@ == old(ctx).calls@.push(
                GlCall::CreateShader { shader_type, addr: shader.addr },
            ),
            final (ctx).wf(),
    {
        let addr: u32 = ctx.fresh_addr();
        ctx.calls.push(GlCall::CreateShader { shader_type, addr });
        Shader { addr, shader_type, source: Vec::new() }
    }

    /// The kind of shader this is.
    pub fn type_(&self) -> (shader_type: ShaderType)
        ensures
            shader_type == self.shader_type,
    {
        self.shader_type
    }

    /// The server-side handle.
    pub fn addr(&self) -> (addr: u32)
        ensures
            addr == self.addr,
    {
        self.addr
    }

    /// Uploads the shader's source text.
    pub fn set_source(&mut self, ctx: &mut Context, src: &[u8])
        requires
            src@.len() <= i32::MAX,
        ensures
            *final(self) == (Shader { source: final (self).source, ..*old(self) }),
            final (self).source@ == src@,
            *final(ctx) == (Context { calls: final (ctx).calls, ..*old(ctx) }),
            final (ctx).calls@ == old(ctx).calls@.push(
                GlCall::ShaderSource { addr: old(self).addr, byte_len: src@.len() as usize },
            ),
    {
        ctx.calls.push(GlCall::ShaderSource { addr: self.addr, byte_len: src.len() });
        self.source = vstd::slice::slice_to_vec(src);
    }

    /// Reads the shader's source text back.
    pub fn get_source(&self) -> (src: Vec<u8>)
        ensures
            src@ == self.source@,
    {
        vstd::slice::slice_to_vec(self.source.as_slice())
    }

    /// Compiles the uploaded source and reports whether the driver accepted
    /// it; the info log holds its diagnostics either way.
    pub fn compile(&self, ctx: &mut Context) -> (status: bool)
        ensures
            status == old(ctx).replies.compile_status,
            *final(ctx) == (Context { calls: final (ctx).calls, ..*old(ctx) }),
            final (ctx).calls@ == old(ctx).calls@.push(GlCall::CompileShader { addr: self.addr }),
    {
        ctx.calls.push(GlCall::CompileShader { addr: self.addr });
        ctx.replies.compile_status
    }

    /// The driver's current diagnostics for this shader, retrievable whether
    /// or not compilation succeeded.
    pub fn get_info_log(&self, ctx: &Context) -> (log: Vec<u8>)
        ensures
            log@ == ctx.replies.info_log@,
    {
        vstd::slice::slice_to_vec(ctx.replies.info_log.as_slice())
    }

    /// Issues the command that deletes the handle. The owner is consumed:
    /// a deleted shader cannot be touched again.
    pub fn delete(self, ctx: &mut Context)
        ensures
            *final(ctx) == (Context { calls: final (ctx).calls, ..*old(ctx) }),
            final (ctx).calls@ == old(ctx).calls@.push(GlCall::DeleteShader { addr: self.addr }),
    {
        ctx.calls.push(GlCall::DeleteShader { addr: self.addr });
    }
}

/// A program object: owns one server-side handle and, once reflection has
/// run, the name-keyed descriptor tables of its active uniforms and
/// attributes.
#[derive(Debug)]
pub struct Program {
    pub addr: u32,
    pub uniform_descriptors: Vec<(String, UniformDescriptor)>,
    pub attrib_descriptors: Vec<(String, AttribDescriptor)>,
}

/// The first descriptor stored under `name`, if any.
pub open spec fn spec_lookup<D>(table: Seq<(String, D)>, name: Seq<char>) -> Option<D>
    decreases table.len(),
{
    if table.len() == 0 {
        None
    } else if table.first().0@ == name {
        Some(table.first().1)
    } else {
        spec_lookup(table.drop_first(), name)
    }
}

/// Looks a descriptor up by name.
fn lookup_descriptor<D: Copy>(table: &Vec<(String, D)>, name: &str) -> (result: Option<D>)
    ensures
        result == spec_lookup(table@, name@),
{
    let owned_name: String = String::from_str(name);
    let mut pos: usize = 0;
    proof {
        assert(table@.skip(0) =~= table@);
    }
    while pos < table.len()
        invariant
            0 <= pos <= table@.len(),
            owned_name@ == name@,
            spec_lookup(table@.skip(pos as int), name@) == spec_lookup(table@, name@),
        decreases table@.len() - pos,
    {
        proof {
            assert(table@.skip(pos as int).first() == table@[pos as int]);
            assert(table@.skip(pos as int).drop_first() =~= table@.skip(pos as int + 1));
        }
        let key: &String = &table[pos].0;
        if key.eq(&owned_name) {
            return Some(table[pos].1);
        }
        pos = pos + 1;
    }
    proof {
        assert(table@.skip(table@.len() as int) =~= Seq::<(String, D)>::empty());
    }
    None
}

impl Program {
    /// Creates a program object with a fresh handle and empty descriptor
    /// tables.
    pub fn new(ctx: &mut Context) -> (program: Program)
        requires
            old(ctx).wf(),
            old(ctx).next_addr < u32::MAX,
        ensures
            program.addr == old(ctx).next_addr,
            program.uniform_descriptors@ == Seq::<(String, UniformDescriptor)>::empty(),
            program.attrib_descriptors@ == Seq::<(String, AttribDescriptor)>::empty(),
            *final(ctx) == (Context {
                calls: final (ctx).calls,
                next_addr: final (ctx).next_addr,
                ..*old(ctx)
            }),
            final (ctx).next_addr == old(ctx).next_addr + 1,
            final (ctx).calls@ == old(ctx).calls@.push(
                GlCall::CreateProgram { addr: program.addr },
            ),
            final (ctx).wf(),
    {
        let addr: u32 = ctx.fresh_addr();
        ctx.calls.push(GlCall::CreateProgram { addr });
        Program { addr, uniform_descriptors: Vec::new(), attrib_descriptors: Vec::new() }
    }

    /// The server-side handle.
    pub fn addr(&self) -> (addr: u32)
        ensures
            addr == self.addr,
    {
        self.addr
    }

    /// Attaches a shader to the program for the next link.
    pub fn attach_shader(&self, ctx: &mut Context, shader: &Shader)
        ensures
            *final(ctx) == (Context { calls: final (ctx).calls, ..*old(ctx) }),
            final (ctx).calls@ == old(ctx).calls@.push(
                GlCall::AttachShader { program_addr: self.addr, shader_addr: shader.addr },
            ),
    {
        ctx.calls.push(GlCall::AttachShader { program_addr: self.addr, shader_addr: shader.addr });
    }

    /// Detaches a shader from the program.
    pub fn detach_shader(&self, ctx: &mut Context, shader: &Shader)
        ensures
            *final(ctx) == (Context { calls: final (ctx).calls, ..*old(ctx) }),
            final (ctx).calls@ == old(ctx).calls@.push(
                GlCall::DetachShader { program_addr: self.addr, shader_addr: shader.addr },
            ),
    {
        ctx.calls.push(GlCall::DetachShader { program_addr: self.addr, shader_addr: shader.addr });
    }

    /// Requests a fixed location for a named attribute; takes effect at the
    /// next link.
    pub fn request_attrib_location(&self, ctx: &mut Context, name: &str, location: u32)
        ensures
            *final(ctx) == (Context { calls: final (ctx).calls, ..*old(ctx) }),
            final (ctx).calls@.len() == old(ctx).calls@.len() + 1,
            final (ctx).calls@.take(old(ctx).calls@.len() as int) == old(ctx).calls@,
            final (ctx).calls@.last() matches GlCall::BindAttribLocation {
                program_addr,
                location: loc,
                name: n,
            } && program_addr == self.addr && loc == location && n@ == name@,
    {
        let owned_name: String = String::from_str(name);
        ctx.calls.push(
            GlCall::BindAttribLocation { program_addr: self.addr, location, name: owned_name },
        );
        proof {
            assert(final (ctx).calls@.take(old(ctx).calls@.len() as int) =~= old(ctx).calls@);
        }
    }

    /// Links the attached shaders and reports whether the driver accepted
    /// the program; the info log holds its diagnostics either way.
    pub fn link(&self, ctx: &mut Context) -> (status: bool)
        ensures
            status == old(ctx).replies.link_status,
            *final(ctx) == (Context { calls: final (ctx).calls, ..*old(ctx) }),
            final (ctx).calls@ == old(ctx).calls@.push(GlCall::LinkProgram { addr: self.addr }),
    {
        ctx.calls.push(GlCall::LinkProgram { addr: self.addr });
        ctx.replies.link_status
    }

    /// The driver's current diagnostics for this program, retrievable whether
    /// or not linking succeeded.
    pub fn get_info_log(&self, ctx: &Context) -> (log: Vec<u8>)
        ensures
            log@ == ctx.replies.info_log@,
    {
        vstd::slice::slice_to_vec(ctx.replies.info_log.as_slice())
    }

    /// Creates the scoped binding for this program: marks the program binding
    /// point as in use and makes the program current if it is not already.
    ///
    /// Fails, issuing no command and changing nothing, exactly when a scoped
    /// binding for the program binding point is still alive.
    pub fn bind(&self, ctx: &mut Context) -> (result: Result<ProgramBinding, OoglError>)
        ensures
            match result {
                Ok(binding) => {
                    &&& old(ctx).bound_program.spec_accepts_binding()
                    &&& binding.spec_addr() == self.addr
                    &&& *final(ctx) == (Context {
                        calls: final (ctx).calls,
                        bound_program: final (ctx).bound_program,
                        ..*old(ctx)
                    })
                    &&& final (ctx).bound_program == old(ctx).bound_program.spec_after_scoped_bind(
                        self.addr,
                    )
                    &&& final (ctx).calls@ == old(ctx).calls@ + old(ctx).bound_program.spec_bind_calls(self.addr)
                },
                Err(e) => {
                    &&& !old(ctx).bound_program.spec_accepts_binding()
                    &&& e == (OoglError::OverlappingBinding {
                        new_addr: self.addr,
                        old_addr: old(ctx).bound_program.bound_addr,
                    })
                    &&& *final(ctx) == *old(ctx)
                },
            },
    {
        let created = ctx.bound_program.on_binding_created(self.addr);
        match created {
            Ok(_) => {
                ctx.bound_program.bind_if_needed(&mut ctx.calls, self.addr);
                Ok(ProgramBinding { addr: self.addr })
            },
            Err(e) => Err(e),
        }
    }

    /// Rebuilds the uniform descriptor table out of the driver's
    /// active-uniform enumeration: each entry keyed by its name with the
    /// trailing array marker stripped, carrying the reported location and
    /// type. Idempotent: re-running with the same enumeration gives the same
    /// table.
    pub fn load_uniform_descriptors(&mut self, active: &Vec<ActiveUniform>)
        ensures
            *final(self) == (Program {
                uniform_descriptors: final (self).uniform_descriptors,
                ..*old(self)
            }),
            final (self).uniform_descriptors@.len() == active@.len(),
            forall|i: int|
                0 <= i < active@.len() ==> final (self).uniform_descriptors@[i].0@
                    == spec_strip_array_marker(active@[i].name@) && final(self).uniform_descriptors@[i].1 == spec_uniform_descriptor_of(active@[i]),
    {
        let mut table: Vec<(String, UniformDescriptor)> = Vec::new();
        let mut pos: usize = 0;
        while pos < active.len()
            invariant
                0 <= pos <= active@.len(),
                table@.len() == pos,
                forall|i: int|
                    0 <= i < pos ==> table@[i].0@ == spec_strip_array_marker(active@[i].name@)
                        && table@[i].1 == spec_uniform_descriptor_of(active@[i]),
            decreases active@.len() - pos,
        {
            let entry = &active[pos];
            let (name, is_array) = strip_array_marker(entry.name.as_str());
            let descriptor = UniformDescriptor {
                location: entry.location,
                data_type: GlslType {
                    name: entry.data_type_name,
                    array_len: if is_array {
                        Some(entry.array_len)
                    } else {
                        None
                    },
                },
            };
            table.push((name, descriptor));
            pos = pos + 1;
        }
        self.uniform_descriptors = table;
    }

    /// Rebuilds the attribute descriptor table out of the driver's
    /// active-attribute enumeration, like [`Program::load_uniform_descriptors`].
    pub fn load_attrib_descriptors(&mut self, active: &Vec<ActiveAttrib>)
        ensures
            *final(self) == (Program {
                attrib_descriptors: final (self).attrib_descriptors,
                ..*old(self)
            }),
            final (self).attrib_descriptors@.len() == active@.len(),
            forall|i: int|
                0 <= i < active@.len() ==> final (self).attrib_descriptors@[i].0@
                    == spec_strip_array_marker(active@[i].name@) && final(self).attrib_descriptors@[i].1 == spec_attrib_descriptor_of(active@[i]),
    {
        let mut table: Vec<(String, AttribDescriptor)> = Vec::new();
        let mut pos: usize = 0;
        while pos < active.len()
            invariant
                0 <= pos <= active@.len(),
                table@.len() == pos,
                forall|i: int|
                    0 <= i < pos ==> table@[i].0@ == spec_strip_array_marker(active@[i].name@)
                        && table@[i].1 == spec_attrib_descriptor_of(active@[i]),
            decreases active@.len() - pos,
        {
            let entry = &active[pos];
            let (name, is_array) = strip_array_marker(entry.name.as_str());
            let descriptor = AttribDescriptor {
                location: entry.location,
                data_type: GlslType {
                    name: entry.data_type_name,
                    array_len: if is_array {
                        Some(entry.array_len)
                    } else {
                        None
                    },
                },
            };
            table.push((name, descriptor));
            pos = pos + 1;
        }
        self.attrib_descriptors = table;
    }

    /// Rebuilds both descriptor tables in one step.
    pub fn load_descriptors(&mut self, uniforms: &Vec<ActiveUniform>, attribs: &Vec<ActiveAttrib>)
        ensures
            final (self).addr == old(self).addr,
            final (self).uniform_descriptors@.len() == uniforms@.len(),
            forall|i: int|
                0 <= i < uniforms@.len() ==> final (self).uniform_descriptors@[i].0@
                    == spec_strip_array_marker(uniforms@[i].name@) && final(self).uniform_descriptors@[i].1 == spec_uniform_descriptor_of(uniforms@[i]),
            final (self).attrib_descriptors@.len() == attribs@.len(),
            forall|i: int|
                0 <= i < attribs@.len() ==> final (self).attrib_descriptors@[i].0@
                    == spec_strip_array_marker(attribs@[i].name@) && final(self).attrib_descriptors@[i].1 == spec_attrib_descriptor_of(attribs@[i]),
    {
        self.load_uniform_descriptors(uniforms);
        self.load_attrib_descriptors(attribs);
    }

    /// The location of the named uniform, or [`INACTIVE_UNIFORM_LOCATION`] if
    /// the linker kept no uniform of that name.
    pub fn get_uniform_location(&self, name: &str) -> (location: i32)
        ensures
            location == match spec_lookup(self.uniform_descriptors@, name@) {
                Some(descriptor) => descriptor.location,
                None => INACTIVE_UNIFORM_LOCATION,
            },
    {
        let found = lookup_descriptor(&self.uniform_descriptors, name);
        match found {
            Some(descriptor) => descriptor.location,
            None => INACTIVE_UNIFORM_LOCATION,
        }
    }

    /// The location of the named attribute, or [`INACTIVE_ATTRIB_LOCATION`]
    /// if the linker kept no attribute of that name.
    pub fn get_attrib_location(&self, name: &str) -> (location: u32)
        ensures
            location == match spec_lookup(self.attrib_descriptors@, name@) {
                Some(descriptor) => descriptor.location,
                None => INACTIVE_ATTRIB_LOCATION,
            },
    {
        let found = lookup_descriptor(&self.attrib_descriptors, name);
        match found {
            Some(descriptor) => descriptor.location,
            None => INACTIVE_ATTRIB_LOCATION,
        }
    }

    /// Issues the command that deletes the handle. The owner is consumed:
    /// a deleted program cannot be touched again.
    pub fn delete(self, ctx: &mut Context)
        ensures
            *final(ctx) == (Context { calls: final (ctx).calls, ..*old(ctx) }),
            final (ctx).calls@ == old(ctx).calls@.push(GlCall::DeleteProgram { addr: self.addr }),
    {
        ctx.calls.push(GlCall::DeleteProgram { addr: self.addr });
    }
}

/// The scoped binding of a program: while it is alive, the program binding
/// point is marked in use and the program is current. Its existence is what
/// draw calls and uniform stores demand as proof that a program is bound.
#[derive(Debug)]
pub struct ProgramBinding {
    addr: u32,
}

impl ProgramBinding {
    /// The handle of the program this binding was created for.
    pub closed spec fn spec_addr(self) -> u32 {
        self.addr
    }

    /// The handle of the program this binding was created for.
    pub fn addr(&self) -> (addr: u32)
        ensures
            addr == self.spec_addr(),
    {
        self.addr
    }

    /// The binding is live for `program_addr` in `ctx`.
    pub open spec fn is_live(self, ctx: Context, program_addr: u32) -> bool {
        &&& self.spec_addr() == program_addr
        &&& ctx.bound_program.bound_addr == program_addr
        &&& ctx.bound_program.is_binding_alive
    }

    /// Drops the scoped binding: the binding point is free again, but the
    /// program stays current, so rebinding the same program later is free.
    pub fn unbind(self, ctx: &mut Context)
        ensures
            *final(ctx) == (Context { bound_program: final (ctx).bound_program, ..*old(ctx) }),
            final (ctx).bound_program == old(ctx).bound_program.spec_after_binding_dropped(),
    {
        ctx.bound_program.on_binding_dropped();
    }

    /// Drops the scoped binding and makes program 0 current, so the program
    /// leaves no trace of itself at the binding point.
    pub fn unbind_completely(self, ctx: &mut Context)
        ensures
            *final(ctx) == (Context {
                calls: final (ctx).calls,
                bound_program: final (ctx).bound_program,
                ..*old(ctx)
            }),
            final (ctx).bound_program == (BindingTarget {
                bound_addr: 0u32,
                is_binding_alive: false,
                ..old(ctx).bound_program
            }),
            final (ctx).calls@ == old(ctx).calls@.push(
                crate::context::spec_bind_call(old(ctx).bound_program.kind, 0),
            ),
    {
        ctx.bound_program.unbind_unconditionally(&mut ctx.calls);
        ctx.bound_program.on_binding_dropped();
    }
}

/// Whether `types` holds `wanted`.
fn contains_type(types: &Vec<GlslTypeName>, wanted: GlslTypeName) -> (found: bool)
    ensures
        found == types@.contains(wanted),
{
    let mut pos: usize = 0;
    while pos < types.len()
        invariant
            0 <= pos <= types@.len(),
            forall|j: int| 0 <= j < pos ==> types@[j] != wanted,
        decreases types@.len() - pos,
    {
        if types[pos] == wanted {
            return true;
        }
        pos = pos + 1;
    }
    false
}

/// The value types that can be stored into a uniform, each with the closed
/// set of shading-language types it is assignable to.
pub trait CorrespondingUniformType: Sized {
    /// The shading-language types values of `Self` are assignable to.
    spec fn spec_corresponding_uniform_types() -> Seq<GlslTypeName>;

    /// The shading-language types values of `Self` are assignable to.
    fn corresponding_uniform_types() -> (types: Vec<GlslTypeName>)
        ensures
            types@ == Self::spec_corresponding_uniform_types(),
    ;
}

/// The closed set of value types with a "store to uniform" command; there is
/// deliberately no fallback, so an unsupported value type fails to compile.
pub trait SetToUniform: CorrespondingUniformType {
    /// The commands that storing `value` at `location` issues.
    spec fn spec_uniform_calls(location: i32, value: Self) -> Seq<GlCall>;

    /// Issues the commands that store `value` at `location`.
    fn set_to_uniform(ctx: &mut Context, location: i32, value: &Self)
        ensures
            *final(ctx) == (Context { calls: final (ctx).calls, ..*old(ctx) }),
            final (ctx).calls@ == old(ctx).calls@ + Self::spec_uniform_calls(location, *value),
    ;
}

impl CorrespondingUniformType for i32 {
    open spec fn spec_corresponding_uniform_types() -> Seq<GlslTypeName> {
        seq![GlslTypeName::Int]
    }

    fn corresponding_uniform_types() -> (types: Vec<GlslTypeName>) {
        let mut types: Vec<GlslTypeName> = Vec::new();
        types.push(GlslTypeName::Int);
        proof {
            assert(types@ =~= seq![GlslTypeName::Int]);
        }
        types
    }
}

impl SetToUniform for i32 {
    open spec fn spec_uniform_calls(location: i32, value: Self) -> Seq<GlCall> {
        seq![GlCall::Uniform1i { location, x: value }]
    }

    fn set_to_uniform(ctx: &mut Context, location: i32, value: &Self) {
        ctx.calls.push(GlCall::Uniform1i { location, x: *value });
        proof {
            assert(final (ctx).calls@ =~= old(ctx).calls@ + Self::spec_uniform_calls(
                location,
                *value,
            ));
        }
    }
}

impl CorrespondingUniformType for u32 {
    open spec fn spec_corresponding_uniform_types() -> Seq<GlslTypeName> {
        seq![GlslTypeName::Int]
    }

    fn corresponding_uniform_types() -> (types: Vec<GlslTypeName>) {
        let mut types: Vec<GlslTypeName> = Vec::new();
        types.push(GlslTypeName::Int);
        proof {
            assert(types@ =~= seq![GlslTypeName::Int]);
        }
        types
    }
}

impl SetToUniform for u32 {
    open spec fn spec_uniform_calls(location: i32, value: Self) -> Seq<GlCall> {
        seq![GlCall::Uniform1i { location, x: value as i32 }]
    }

    fn set_to_uniform(ctx: &mut Context, location: i32, value: &Self) {
        let x: i32 = #[verifier::truncate] (*value as i32);
        ctx.calls.push(GlCall::Uniform1i { location, x });
        proof {
            assert(final (ctx).calls@ =~= old(ctx).calls@ + Self::spec_uniform_calls(
                location,
                *value,
            ));
        }
    }
}

impl CorrespondingUniformType for bool {
    open spec fn spec_corresponding_uniform_types() -> Seq<GlslTypeName> {
        seq![GlslTypeName::Bool]
    }

    fn corresponding_uniform_types() -> (types: Vec<GlslTypeName>) {
        let mut types: Vec<GlslTypeName> = Vec::new();
        types.push(GlslTypeName::Bool);
        proof {
            assert(types@ =~= seq![GlslTypeName::Bool]);
        }
        types
    }
}

impl SetToUniform for bool {
    open spec fn spec_uniform_calls(location: i32, value: Self) -> Seq<GlCall> {
        seq![
            GlCall::Uniform1i {
                location,
                x: if value {
                    1i32
                } else {
                    0i32
                },
            },
        ]
    }

    fn set_to_uniform(ctx: &mut Context, location: i32, value: &Self) {
        let x: i32 = if *value {
            1
        } else {
            0
        };
        ctx.calls.push(GlCall::Uniform1i { location, x });
        proof {
            assert(final (ctx).calls@ =~= old(ctx).calls@ + Self::spec_uniform_calls(
                location,
                *value,
            ));
        }
    }
}

impl CorrespondingUniformType for crate::math::Vec2<i32> {
    open spec fn spec_corresponding_uniform_types() -> Seq<GlslTypeName> {
        seq![GlslTypeName::IVec2]
    }

    fn corresponding_uniform_types() -> (types: Vec<GlslTypeName>) {
        let mut types: Vec<GlslTypeName> = Vec::new();
        types.push(GlslTypeName::IVec2);
        proof {
            assert(types@ =~= seq![GlslTypeName::IVec2]);
        }
        types
    }
}

impl SetToUniform for crate::math::Vec2<i32> {
    open spec fn spec_uniform_calls(location: i32, value: Self) -> Seq<GlCall> {
        seq![GlCall::Uniform2i { location, x: value.x, y: value.y }]
    }

    fn set_to_uniform(ctx: &mut Context, location: i32, value: &Self) {
        ctx.calls.push(GlCall::Uniform2i { location, x: value.x, y: value.y });
        proof {
            assert(final (ctx).calls@ =~= old(ctx).calls@ + Self::spec_uniform_calls(
                location,
                *value,
            ));
        }
    }
}

impl CorrespondingUniformType for crate::math::Vec2<u32> {
    open spec fn spec_corresponding_uniform_types() -> Seq<GlslTypeName> {
        seq![GlslTypeName::IVec2]
    }

    fn corresponding_uniform_types() -> (types: Vec<GlslTypeName>) {
        let mut types: Vec<GlslTypeName> = Vec::new();
        types.push(GlslTypeName::IVec2);
        proof {
            assert(types@ =~= seq![GlslTypeName::IVec2]);
        }
        types
    }
}

impl SetToUniform for crate::math::Vec2<u32> {
    open spec fn spec_uniform_calls(location: i32, value: Self) -> Seq<GlCall> {
        seq![GlCall::Uniform2i { location, x: value.x as i32, y: value.y as i32 }]
    }

    fn set_to_uniform(ctx: &mut Context, location: i32, value: &Self) {
        let x: i32 = #[verifier::truncate] (value.x as i32);
        let y: i32 = #[verifier::truncate] (value.y as i32);
        ctx.calls.push(GlCall::Uniform2i { location, x, y });
        proof {
            assert(final (ctx).calls@ =~= old(ctx).calls@ + Self::spec_uniform_calls(
                location,
                *value,
            ));
        }
    }
}

impl CorrespondingUniformType for crate::math::Vec2<bool> {
    open spec fn spec_corresponding_uniform_types() -> Seq<GlslTypeName> {
        seq![GlslTypeName::BVec2]
    }

    fn corresponding_uniform_types() -> (types: Vec<GlslTypeName>) {
        let mut types: Vec<GlslTypeName> = Vec::new();
        types.push(GlslTypeName::BVec2);
        proof {
            assert(types@ =~= seq![GlslTypeName::BVec2]);
        }
        types
    }
}

impl SetToUniform for crate::math::Vec2<bool> {
    open spec fn spec_uniform_calls(location: i32, value: Self) -> Seq<GlCall> {
        seq![
            GlCall::Uniform2i {
                location,
                x: if value.x {
                    1i32
                } else {
                    0i32
                },
                y: if value.y {
                    1i32
                } else {
                    0i32
                },
            },
        ]
    }

    fn set_to_uniform(ctx: &mut Context, location: i32, value: &Self) {
        let x: i32 = if value.x {
            1
        } else {
            0
        };
        let y: i32 = if value.y {
            1
        } else {
            0
        };
        ctx.calls.push(GlCall::Uniform2i { location, x, y });
        proof {
            assert(final (ctx).calls@ =~= old(ctx).calls@ + Self::spec_uniform_calls(
                location,
                *value,
            ));
        }
    }
}

impl CorrespondingUniformType for crate::context::TextureUnit {
    open spec fn spec_corresponding_uniform_types() -> Seq<GlslTypeName> {
        seq![GlslTypeName::Sampler2D, GlslTypeName::SamplerCube]
    }

    fn corresponding_uniform_types() -> (types: Vec<GlslTypeName>) {
        let mut types: Vec<GlslTypeName> = Vec::new();
        types.push(GlslTypeName::Sampler2D);
        types.push(GlslTypeName::SamplerCube);
        proof {
            assert(types@ =~= seq![GlslTypeName::Sampler2D, GlslTypeName::SamplerCube]);
        }
        types
    }
}

impl SetToUniform for crate::context::TextureUnit {
    open spec fn spec_uniform_calls(location: i32, value: Self) -> Seq<GlCall> {
        seq![GlCall::Uniform1i { location, x: value.spec_id() as i32 }]
    }

    fn set_to_uniform(ctx: &mut Context, location: i32, value: &Self) {
        let x: i32 = value.id() as i32;
        ctx.calls.push(GlCall::Uniform1i { location, x });
        proof {
            assert(final (ctx).calls@ =~= old(ctx).calls@ + Self::spec_uniform_calls(
                location,
                *value,
            ));
        }
    }
}

/// A typed handle to one uniform of a linked program: a lightweight view into
/// a descriptor, not an owner. A handle for a name the linker optimized away
/// is inactive, and stores through it are silent no-ops.
#[derive(Debug)]
pub struct Uniform<T> {
    pub location: i32,
    pub program_addr: u32,
    pub data_type: Option<GlslType>,
    pub phantom: core::marker::PhantomData<T>,
}

impl<T: CorrespondingUniformType> Uniform<T> {
    /// The uniform's binding location, [`INACTIVE_UNIFORM_LOCATION`] if
    /// inactive.
    pub fn location(&self) -> (location: i32)
        ensures
            location == self.location,
    {
        self.location
    }

    /// Whether the linker kept this uniform.
    pub fn is_active(&self) -> (active: bool)
        ensures
            active == (self.location != INACTIVE_UNIFORM_LOCATION),
    {
        self.location != INACTIVE_UNIFORM_LOCATION
    }

    /// The handle of the program this handle was fetched from.
    pub fn program_addr(&self) -> (addr: u32)
        ensures
            addr == self.program_addr,
    {
        self.program_addr
    }

    /// The declared shading-language type, `None` for an inactive handle.
    pub fn data_type(&self) -> (data_type: &Option<GlslType>)
        ensures
            data_type == self.data_type,
    {
        &self.data_type
    }

    /// Fetches the handle from a program, as [`Program::get_uniform`] does.
    pub fn reflect_from(program: &Program, name: &str) -> (result: Result<
        Uniform<T>,
        OoglError,
    >)
        ensures
            match result {
                Ok(uniform) => {
                    &&& uniform.program_addr == program.addr
                    &&& match spec_lookup(program.uniform_descriptors@, name@) {
                        Some(descriptor) => {
                            &&& T::spec_corresponding_uniform_types().contains(
                                descriptor.data_type.name,
                            )
                            &&& uniform.location == descriptor.location
                            &&& uniform.data_type == Some(descriptor.data_type)
                        },
                        None => {
                            &&& uniform.location == INACTIVE_UNIFORM_LOCATION
                            &&& uniform.data_type is None
                        },
                    }
                },
                Err(e) => {
                    &&& spec_lookup(program.uniform_descriptors@, name@) matches Some(descriptor)
                        && !T::spec_corresponding_uniform_types().contains(
                        descriptor.data_type.name,
                    ) && (e matches OoglError::UniformTypeMismatch {
                        name: error_name,
                        requested,
                        declared,
                    } && error_name@ == name@ && requested@
                        == T::spec_corresponding_uniform_types() && declared
                        == descriptor.data_type)
                },
            },
    {
        program.get_uniform(name)
    }
}

impl<T: SetToUniform> Uniform<T> {
    /// Stores `value` into the uniform of the currently bound program. The
    /// binding's existence proves a program is bound; it must belong to the
    /// program the handle was fetched from. A store through an inactive
    /// handle is a silent no-op.
    pub fn set(&self, ctx: &mut Context, program_binding: &ProgramBinding, value: &T)
        requires
            self.program_addr == program_binding.spec_addr(),
        ensures
            *final(ctx) == (Context { calls: final (ctx).calls, ..*old(ctx) }),
            self.location != INACTIVE_UNIFORM_LOCATION ==> final (ctx).calls@ == old(ctx).calls@
                + T::spec_uniform_calls(self.location, *value),
            self.location == INACTIVE_UNIFORM_LOCATION ==> final (ctx).calls@ == old(ctx).calls@,
    {
        if self.location != INACTIVE_UNIFORM_LOCATION {
            T::set_to_uniform(ctx, self.location, value);
        }
    }

    /// Stores `value` into the element `index` of a uniform array. A store
    /// through an inactive handle is a silent no-op.
    pub fn set_at_index(
        &self,
        ctx: &mut Context,
        program_binding: &ProgramBinding,
        index: u32,
        value: &T,
    )
        requires
            self.program_addr == program_binding.spec_addr(),
            self.data_type matches Some(data_type) ==> index < (match data_type.array_len {
                Some(array_len) => array_len,
                None => 1u32,
            }),
            self.location != INACTIVE_UNIFORM_LOCATION ==> 0 <= self.location && self.location
                + index <= i32::MAX,
        ensures
            *final(ctx) == (Context { calls: final (ctx).calls, ..*old(ctx) }),
            self.location != INACTIVE_UNIFORM_LOCATION ==> final (ctx).calls@ == old(ctx).calls@
                + T::spec_uniform_calls((self.location + index) as i32, *value),
            self.location == INACTIVE_UNIFORM_LOCATION ==> final (ctx).calls@ == old(ctx).calls@,
    {
        if self.location != INACTIVE_UNIFORM_LOCATION {
            let location: i32 = self.location + (index as i32);
            T::set_to_uniform(ctx, location, value);
        }
    }
}

/// The value types that can feed a vertex attribute, each with the closed set
/// of shading-language types it is assignable to.
pub trait CorrespondingAttribType: Sized {
    /// The shading-language types attributes fed from `Self` may have.
    spec fn spec_corresponding_attrib_types() -> Seq<GlslTypeName>;

    /// The shading-language types attributes fed from `Self` may have.
    fn corresponding_attrib_types() -> (types: Vec<GlslTypeName>)
        ensures
            types@ == Self::spec_corresponding_attrib_types(),
    ;
}

impl CorrespondingAttribType for u8 {
    open spec fn spec_corresponding_attrib_types() -> Seq<GlslTypeName> {
        seq![GlslTypeName::Float]
    }

    fn corresponding_attrib_types() -> (types: Vec<GlslTypeName>) {
        let mut types: Vec<GlslTypeName> = Vec::new();
        types.push(GlslTypeName::Float);
        proof {
            assert(types@ =~= seq![GlslTypeName::Float]);
        }
        types
    }
}

impl CorrespondingAttribType for i16 {
    open spec fn spec_corresponding_attrib_types() -> Seq<GlslTypeName> {
        seq![GlslTypeName::Float]
    }

    fn corresponding_attrib_types() -> (types: Vec<GlslTypeName>) {
        let mut types: Vec<GlslTypeName> = Vec::new();
        types.push(GlslTypeName::Float);
        proof {
            assert(types@ =~= seq![GlslTypeName::Float]);
        }
        types
    }
}

impl CorrespondingAttribType for crate::math::Vec2<u8> {
    open spec fn spec_corresponding_attrib_types() -> Seq<GlslTypeName> {
        seq![GlslTypeName::Vec2]
    }

    fn corresponding_attrib_types() -> (types: Vec<GlslTypeName>) {
        let mut types: Vec<GlslTypeName> = Vec::new();
        types.push(GlslTypeName::Vec2);
        proof {
            assert(types@ =~= seq![GlslTypeName::Vec2]);
        }
        types
    }
}

impl CorrespondingAttribType for crate::math::Vec2<i16> {
    open spec fn spec_corresponding_attrib_types() -> Seq<GlslTypeName> {
        seq![GlslTypeName::Vec2]
    }

    fn corresponding_attrib_types() -> (types: Vec<GlslTypeName>) {
        let mut types: Vec<GlslTypeName> = Vec::new();
        types.push(GlslTypeName::Vec2);
        proof {
            assert(types@ =~= seq![GlslTypeName::Vec2]);
        }
        types
    }
}

impl CorrespondingAttribType for crate::math::Vec3<u8> {
    open spec fn spec_corresponding_attrib_types() -> Seq<GlslTypeName> {
        seq![GlslTypeName::Vec3]
    }

    fn corresponding_attrib_types() -> (types: Vec<GlslTypeName>) {
        let mut types: Vec<GlslTypeName> = Vec::new();
        types.push(GlslTypeName::Vec3);
        proof {
            assert(types@ =~= seq![GlslTypeName::Vec3]);
        }
        types
    }
}

impl CorrespondingAttribType for crate::math::Vec4<u8> {
    open spec fn spec_corresponding_attrib_types() -> Seq<GlslTypeName> {
        seq![GlslTypeName::Vec4]
    }

    fn corresponding_attrib_types() -> (types: Vec<GlslTypeName>) {
        let mut types: Vec<GlslTypeName> = Vec::new();
        types.push(GlslTypeName::Vec4);
        proof {
            assert(types@ =~= seq![GlslTypeName::Vec4]);
        }
        types
    }
}

impl CorrespondingAttribType for crate::math::Color<u8> {
    open spec fn spec_corresponding_attrib_types() -> Seq<GlslTypeName> {
        seq![GlslTypeName::Vec4]
    }

    fn corresponding_attrib_types() -> (types: Vec<GlslTypeName>) {
        let mut types: Vec<GlslTypeName> = Vec::new();
        types.push(GlslTypeName::Vec4);
        proof {
            assert(types@ =~= seq![GlslTypeName::Vec4]);
        }
        types
    }
}

/// A typed handle to one attribute of a linked program: a lightweight view
/// into a descriptor, not an owner. A handle for a name the linker optimized
/// away is inactive.
#[derive(Debug)]
pub struct Attrib<T> {
    pub location: u32,
    pub program_addr: u32,
    pub data_type: Option<GlslType>,
    pub phantom: core::marker::PhantomData<T>,
}

impl<T: CorrespondingAttribType> Attrib<T> {
    /// The attribute's binding location, [`INACTIVE_ATTRIB_LOCATION`] if
    /// inactive.
    pub fn location(&self) -> (location: u32)
        ensures
            location == self.location,
    {
        self.location
    }

    /// Whether the linker kept this attribute.
    pub fn is_active(&self) -> (active: bool)
        ensures
            active == (self.location != INACTIVE_ATTRIB_LOCATION),
    {
        self.location != INACTIVE_ATTRIB_LOCATION
    }

    /// The handle of the program this handle was fetched from.
    pub fn program_addr(&self) -> (addr: u32)
        ensures
            addr == self.program_addr,
    {
        self.program_addr
    }

    /// The declared shading-language type, `None` for an inactive handle.
    pub fn data_type(&self) -> (data_type: &Option<GlslType>)
        ensures
            data_type == self.data_type,
    {
        &self.data_type
    }

    /// Fetches the handle from a program, as [`Program::get_attrib`] does.
    pub fn reflect_from(program: &Program, name: &str) -> (result: Result<Attrib<T>, OoglError>)
        ensures
            match result {
                Ok(attrib) => {
                    &&& attrib.program_addr == program.addr
                    &&& match spec_lookup(program.attrib_descriptors@, name@) {
                        Some(descriptor) => {
                            &&& T::spec_corresponding_attrib_types().contains(
                                descriptor.data_type.name,
                            )
                            &&& attrib.location == descriptor.location
                            &&& attrib.data_type == Some(descriptor.data_type)
                        },
                        None => {
                            &&& attrib.location == INACTIVE_ATTRIB_LOCATION
                            &&& attrib.data_type is None
                        },
                    }
                },
                Err(e) => {
                    &&& spec_lookup(program.attrib_descriptors@, name@) matches Some(descriptor)
                        && !T::spec_corresponding_attrib_types().contains(descriptor.data_type.name)
                        && (e matches OoglError::AttribTypeMismatch {
                        name: error_name,
                        requested,
                        declared,
                    } && error_name@ == name@ && requested@ == T::spec_corresponding_attrib_types()
                        && declared == descriptor.data_type)
                },
            },
    {
        program.get_attrib(name)
    }
}

impl Program {
    /// Fetches the typed uniform handle for `name`.
    ///
    /// If the linker kept no uniform of that name, the handle is inactive and
    /// stores through it are silent no-ops. If the uniform exists but its
    /// declared type accepts none of `T`'s shading-language types, the fetch
    /// fails with an error naming the uniform, the requested types and the
    /// declared type.
    pub fn get_uniform<T: CorrespondingUniformType>(&self, name: &str) -> (result: Result<
        Uniform<T>,
        OoglError,
    >)
        ensures
            match result {
                Ok(uniform) => {
                    &&& uniform.program_addr == self.addr
                    &&& match spec_lookup(self.uniform_descriptors@, name@) {
                        Some(descriptor) => {
                            &&& T::spec_corresponding_uniform_types().contains(
                                descriptor.data_type.name,
                            )
                            &&& uniform.location == descriptor.location
                            &&& uniform.data_type == Some(descriptor.data_type)
                        },
                        None => {
                            &&& uniform.location == INACTIVE_UNIFORM_LOCATION
                            &&& uniform.data_type is None
                        },
                    }
                },
                Err(e) => {
                    &&& spec_lookup(self.uniform_descriptors@, name@) matches Some(descriptor)
                        && !T::spec_corresponding_uniform_types().contains(
                        descriptor.data_type.name,
                    ) && (e matches OoglError::UniformTypeMismatch {
                        name: error_name,
                        requested,
                        declared,
                    } && error_name@ == name@ && requested@
                        == T::spec_corresponding_uniform_types() && declared
                        == descriptor.data_type)
                },
            },
    {
        let found = lookup_descriptor(&self.uniform_descriptors, name);
        match found {
            Some(descriptor) => {
                let requested: Vec<GlslTypeName> = T::corresponding_uniform_types();
                if contains_type(&requested, descriptor.data_type.name) {
                    Ok(
                        Uniform {
                            location: descriptor.location,
                            program_addr: self.addr,
                            data_type: Some(descriptor.data_type),
                            phantom: core::marker::PhantomData,
                        },
                    )
                } else {
                    Err(
                        OoglError::UniformTypeMismatch {
                            name: String::from_str(name),
                            requested,
                            declared: descriptor.data_type,
                        },
                    )
                }
            },
            None => Ok(
                Uniform {
                    location: INACTIVE_UNIFORM_LOCATION,
                    program_addr: self.addr,
                    data_type: None,
                    phantom: core::marker::PhantomData,
                },
            ),
        }
    }

    /// Fetches the typed attribute handle for `name`, exactly as
    /// [`Program::get_uniform`] does for uniforms.
    pub fn get_attrib<T: CorrespondingAttribType>(&self, name: &str) -> (result: Result<
        Attrib<T>,
        OoglError,
    >)
        ensures
            match result {
                Ok(attrib) => {
                    &&& attrib.program_addr == self.addr
                    &&& match spec_lookup(self.attrib_descriptors@, name@) {
                        Some(descriptor) => {
                            &&& T::spec_corresponding_attrib_types().contains(
                                descriptor.data_type.name,
                            )
                            &&& attrib.location == descriptor.location
                            &&& attrib.data_type == Some(descriptor.data_type)
                        },
                        None => {
                            &&& attrib.location == INACTIVE_ATTRIB_LOCATION
                            &&& attrib.data_type is None
                        },
                    }
                },
                Err(e) => {
                    &&& spec_lookup(self.attrib_descriptors@, name@) matches Some(descriptor)
                        && !T::spec_corresponding_attrib_types().contains(descriptor.data_type.name)
                        && (e matches OoglError::AttribTypeMismatch {
                        name: error_name,
                        requested,
                        declared,
                    } && error_name@ == name@ && requested@ == T::spec_corresponding_attrib_types()
                        && declared == descriptor.data_type)
                },
            },
    {
        let found = lookup_descriptor(&self.attrib_descriptors, name);
        match found {
            Some(descriptor) => {
                let requested: Vec<GlslTypeName> = T::corresponding_attrib_types();
                if contains_type(&requested, descriptor.data_type.name) {
                    Ok(
                        Attrib {
                            location: descriptor.location,
                            program_addr: self.addr,
                            data_type: Some(descriptor.data_type),
                            phantom: core::marker::PhantomData,
                        },
                    )
                } else {
                    Err(
                        OoglError::AttribTypeMismatch {
                            name: String::from_str(name),
                            requested,
                            declared: descriptor.data_type,
                        },
                    )
                }
            },
            None => Ok(
                Attrib {
                    location: INACTIVE_ATTRIB_LOCATION,
                    program_addr: self.addr,
                    data_type: None,
                    phantom: core::marker::PhantomData,
                },
            ),
        }
    }
}

/// The lookups a declarative reflection block can ask for, one per supported
/// typed-handle kind.
#[derive(Debug, Copy, Clone, PartialEq, Eq, Structural)]
pub enum ReflectionKind {
    UniformInt,
    UniformBool,
    UniformIVec2,
    UniformSampler,
    AttribScalar,
    AttribPair,
}

/// One field of a declarative reflection block: the shader-side input name
/// and the typed-handle kind to fetch for it.
#[derive(Debug, Clone)]
pub struct ReflectionEntry {
    pub name: String,
    pub kind: ReflectionKind,
}

/// One fetched typed handle of a declarative reflection block.
#[derive(Debug)]
pub enum ReflectedHandle {
    UniformInt(Uniform<i32>),
    UniformBool(Uniform<bool>),
    UniformIVec2(Uniform<crate::math::Vec2<i32>>),
    UniformSampler(Uniform<crate::context::TextureUnit>),
    AttribScalar(Attrib<u8>),
    AttribPair(Attrib<crate::math::Vec2<u8>>),
}

/// The handle is exactly what fetching a `Uniform<T>` for `name` from
/// `program` gives.
pub open spec fn spec_uniform_handle_ok<T: CorrespondingUniformType>(
    program: Program,
    name: Seq<char>,
    uniform: Uniform<T>,
) -> bool {
    &&& uniform.program_addr == program.addr
    &&& match spec_lookup(program.uniform_descriptors@, name) {
        Some(descriptor) => {
            &&& T::spec_corresponding_uniform_types().contains(descriptor.data_type.name)
            &&& uniform.location == descriptor.location
            &&& uniform.data_type == Some(descriptor.data_type)
        },
        None => {
            &&& uniform.location == INACTIVE_UNIFORM_LOCATION
            &&& uniform.data_type is None
        },
    }
}

/// The handle is exactly what fetching an `Attrib<T>` for `name` from
/// `program` gives.
pub open spec fn spec_attrib_handle_ok<T: CorrespondingAttribType>(
    program: Program,
    name: Seq<char>,
    attrib: Attrib<T>,
) -> bool {
    &&& attrib.program_addr == program.addr
    &&& match spec_lookup(program.attrib_descriptors@, name) {
        Some(descriptor) => {
            &&& T::spec_corresponding_attrib_types().contains(descriptor.data_type.name)
            &&& attrib.location == descriptor.location
            &&& attrib.data_type == Some(descriptor.data_type)
        },
        None => {
            &&& attrib.location == INACTIVE_ATTRIB_LOCATION
            &&& attrib.data_type is None
        },
    }
}

/// The fetched handle answers the entry: it has the entry's kind and is the
/// entry's lookup result.
pub open spec fn spec_reflected_entry_ok(
    program: Program,
    entry: ReflectionEntry,
    handle: ReflectedHandle,
) -> bool {
    match (entry.kind, handle) {
        (ReflectionKind::UniformInt, ReflectedHandle::UniformInt(uniform)) =>
            spec_uniform_handle_ok(program, entry.name@, uniform),
        (ReflectionKind::UniformBool, ReflectedHandle::UniformBool(uniform)) =>
            spec_uniform_handle_ok(program, entry.name@, uniform),
        (ReflectionKind::UniformIVec2, ReflectedHandle::UniformIVec2(uniform)) =>
            spec_uniform_handle_ok(program, entry.name@, uniform),
        (ReflectionKind::UniformSampler, ReflectedHandle::UniformSampler(uniform)) =>
            spec_uniform_handle_ok(program, entry.name@, uniform),
        (ReflectionKind::AttribScalar, ReflectedHandle::AttribScalar(attrib)) =>
            spec_attrib_handle_ok(program, entry.name@, attrib),
        (ReflectionKind::AttribPair, ReflectedHandle::AttribPair(attrib)) => spec_attrib_handle_ok(
            program,
            entry.name@,
            attrib,
        ),
        _ => false,
    }
}

/// The entry's fetch is refused: its name resolves to a descriptor whose
/// declared shading-language type accepts none of the requested value type's
/// shading-language types.
pub open spec fn spec_uniform_mismatch<T: CorrespondingUniformType>(
    program: Program,
    name: Seq<char>,
) -> bool {
    match spec_lookup(program.uniform_descriptors@, name) {
        Some(descriptor) => !T::spec_corresponding_uniform_types().contains(
            descriptor.data_type.name,
        ),
        None => false,
    }
}

/// The error the refused uniform fetch reports: it carries the entry's name,
/// the requested type set and the declared type.
pub open spec fn spec_uniform_mismatch_error<T: CorrespondingUniformType>(
    program: Program,
    name: Seq<char>,
    error: OoglError,
) -> bool {
    match spec_lookup(program.uniform_descriptors@, name) {
        Some(descriptor) => error matches OoglError::UniformTypeMismatch {
            name: error_name,
            requested,
            declared,
        } && error_name@ == name && requested@ == T::spec_corresponding_uniform_types() && declared
            == descriptor.data_type,
        None => false,
    }
}

/// The entry's fetch is refused, as [`spec_uniform_mismatch`] says of
/// uniforms.
pub open spec fn spec_attrib_mismatch<T: CorrespondingAttribType>(
    program: Program,
    name: Seq<char>,
) -> bool {
    match spec_lookup(program.attrib_descriptors@, name) {
        Some(descriptor) => !T::spec_corresponding_attrib_types().contains(
            descriptor.data_type.name,
        ),
        None => false,
    }
}

/// The error the refused attribute fetch reports, as
/// [`spec_uniform_mismatch_error`] says of uniforms.
pub open spec fn spec_attrib_mismatch_error<T: CorrespondingAttribType>(
    program: Program,
    name: Seq<char>,
    error: OoglError,
) -> bool {
    match spec_lookup(program.attrib_descriptors@, name) {
        Some(descriptor) => error matches OoglError::AttribTypeMismatch {
            name: error_name,
            requested,
            declared,
        } && error_name@ == name && requested@ == T::spec_corresponding_attrib_types() && declared
            == descriptor.data_type,
        None => false,
    }
}

/// The entry's fetch is refused: its name resolves, in the table of the
/// entry's kind, to a descriptor of a mismatched declared type.
pub open spec fn spec_reflected_entry_mismatch(program: Program, entry: ReflectionEntry) -> bool {
    match entry.kind {
        ReflectionKind::UniformInt => spec_uniform_mismatch::<i32>(program, entry.name@),
        ReflectionKind::UniformBool => spec_uniform_mismatch::<bool>(program, entry.name@),
        ReflectionKind::UniformIVec2 => spec_uniform_mismatch::<crate::math::Vec2<i32>>(
            program,
            entry.name@,
        ),
        ReflectionKind::UniformSampler => spec_uniform_mismatch::<crate::context::TextureUnit>(
            program,
            entry.name@,
        ),
        ReflectionKind::AttribScalar => spec_attrib_mismatch::<u8>(program, entry.name@),
        ReflectionKind::AttribPair => spec_attrib_mismatch::<crate::math::Vec2<u8>>(
            program,
            entry.name@,
        ),
    }
}

/// The error the entry's refused fetch reports.
pub open spec fn spec_reflected_entry_error(
    program: Program,
    entry: ReflectionEntry,
    error: OoglError,
) -> bool {
    match entry.kind {
        ReflectionKind::UniformInt => spec_uniform_mismatch_error::<i32>(
            program,
            entry.name@,
            error,
        ),
        ReflectionKind::UniformBool => spec_uniform_mismatch_error::<bool>(
            program,
            entry.name@,
            error,
        ),
        ReflectionKind::UniformIVec2 => spec_uniform_mismatch_error::<crate::math::Vec2<i32>>(
            program,
            entry.name@,
            error,
        ),
        ReflectionKind::UniformSampler => spec_uniform_mismatch_error::<
            crate::context::TextureUnit,
        >(program, entry.name@, error),
        ReflectionKind::AttribScalar => spec_attrib_mismatch_error::<u8>(
            program,
            entry.name@,
            error,
        ),
        ReflectionKind::AttribPair => spec_attrib_mismatch_error::<crate::math::Vec2<u8>>(
            program,
            entry.name@,
            error,
        ),
    }
}

/// Builds a declarative reflection block: one typed handle per entry, each
/// fetched with the entry's own name, with all the validation the single
/// fetches apply.
///
/// Succeeds, with one handle per entry, exactly when no entry's fetch is
/// refused; fails with the first refused entry's type-mismatch error, naming
/// the offending input, the requested type set and the declared type.
pub fn reflect_block(program: &Program, entries: &Vec<ReflectionEntry>) -> (result: Result<
    Vec<ReflectedHandle>,
    OoglError,
>)
    ensures
        match result {
            Ok(handles) => {
                &&& handles@.len() == entries@.len()
                &&& forall|i: int|
                    0 <= i < entries@.len() ==> spec_reflected_entry_ok(
                        *program,
                        entries@[i],
                        #[trigger] handles@[i],
                    )
                &&& forall|i: int|
                    0 <= i < entries@.len() ==> !spec_reflected_entry_mismatch(
                        *program,
                        #[trigger] entries@[i],
                    )
            },
            Err(e) => exists|i: int|
                {
                    &&& 0 <= i < entries@.len()
                    &&& (forall|j: int|
                        0 <= j < i ==> !spec_reflected_entry_mismatch(
                            *program,
                            #[trigger] entries@[j],
                        ))
                    &&& spec_reflected_entry_mismatch(*program, #[trigger] entries@[i])
                    &&& spec_reflected_entry_error(*program, entries@[i], e)
                },
        },
{
    let mut handles: Vec<ReflectedHandle> = Vec::new();
    let mut pos: usize = 0;
    while pos < entries.len()
        invariant
            0 <= pos <= entries@.len(),
            handles@.len() == pos,
            forall|i: int|
                0 <= i < pos ==> spec_reflected_entry_ok(
                    *program,
                    entries@[i],
                    #[trigger] handles@[i],
                ),
            forall|i: int|
                0 <= i < pos ==> !spec_reflected_entry_mismatch(*program, #[trigger] entries@[i]),
        decreases entries@.len() - pos,
    {
        let entry = &entries[pos];
        let name: &str = entry.name.as_str();
        let handle: ReflectedHandle = match entry.kind {
            ReflectionKind::UniformInt => {
                match program.get_uniform::<i32>(name) {
                    Ok(uniform) => ReflectedHandle::UniformInt(uniform),
                    Err(e) => {
                        return Err(e);
                    },
                }
            },
            ReflectionKind::UniformBool => {
                match program.get_uniform::<bool>(name) {
                    Ok(uniform) => ReflectedHandle::UniformBool(uniform),
                    Err(e) => {
                        return Err(e);
                    },
                }
            },
            ReflectionKind::UniformIVec2 => {
                match program.get_uniform::<crate::math::Vec2<i32>>(name) {
                    Ok(uniform) => ReflectedHandle::UniformIVec2(uniform),
                    Err(e) => {
                        return Err(e);
                    },
                }
            },
            ReflectionKind::UniformSampler => {
                match program.get_uniform::<crate::context::TextureUnit>(name) {
                    Ok(uniform) => ReflectedHandle::UniformSampler(uniform),
                    Err(e) => {
                        return Err(e);
                    },
                }
            },
            ReflectionKind::AttribScalar => {
                match program.get_attrib::<u8>(name) {
                    Ok(attrib) => ReflectedHandle::AttribScalar(attrib),
                    Err(e) => {
                        return Err(e);
                    },
                }
            },
            ReflectionKind::AttribPair => {
                match program.get_attrib::<crate::math::Vec2<u8>>(name) {
                    Ok(attrib) => ReflectedHandle::AttribPair(attrib),
                    Err(e) => {
                        return Err(e);
                    },
                }
            },
        };
        handles.push(handle);
        pos = pos + 1;
    }
    Ok(handles)
}

} // verus!
