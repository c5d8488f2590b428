use vstd::prelude::*;
use crate::bits::{Mat4Bits, Vec3Bits};
use crate::context::{GpuCommand, ProgramKind, RenderContext, UniformName, UniformValue};

verus! {

// A full-screen shading program. Compiling and linking happen on the
// graphics context; here a program is its model-side identifier together
// with the uniform-upload operations the pipeline wires through it. A
// failed compile or link, and a failed uniform upload, are reported by the
// embedder that performs the recorded commands.

/// Reasons a program operation fails.
#[derive(Clone, Debug, PartialEq)]
pub enum Error {
    FailedToCompile { message: String },
    FailedToLink { message: String },
    FailedToUploadUniform { message: String },
}

/// One shading program owned by the pipeline.
#[derive(Clone, Copy, Debug, PartialEq, Eq, Structural)]
pub struct Program {
    pub handle: u64,
    pub kind: ProgramKind,
}

impl Program {
    /// The command a `uniform_*` call with the given value appends.
    pub open spec fn uniform_cmd(self, name: UniformName, value: UniformValue) -> GpuCommand {
        GpuCommand::Uniform { program: self.handle, name, value }
    }

    /// Build a program of the given kind: allocates its identifier and
    /// records the compile. Fails exactly when the context's identifier
    /// pool is exhausted; a compile or link failure on the real context is
    /// reported by the embedder.
    pub fn from_source(ctx: &mut RenderContext, kind: ProgramKind) -> (r: Result<Program, Error>)
        ensures
            r is Err <==> old(ctx).ids_exhausted(),
            r is Err ==> *final(ctx) == *old(ctx),
            r matches Ok(p) ==> {
                &&& p.handle == old(ctx).next_id
                &&& p.kind == kind
                &&& final(ctx).next_id == old(ctx).next_id + 1
                &&& final(ctx).state == old(ctx).state
                &&& final(ctx).commands@ == old(ctx).commands@.push(
                    GpuCommand::CompileProgram { program: p.handle, kind },
                )
            },
    {
        if ctx.next_id > u64::MAX - 10 {
            return Err(
                Error::FailedToCompile {
                    message: String::from_str("graphics object identifiers exhausted"),
                },
            );
        }
        let handle = ctx.fresh_id();
        ctx.emit(GpuCommand::CompileProgram { program: handle, kind });
        Ok(Program { handle, kind })
    }

    /// Upload an integer uniform.
    pub fn add_uniform_int(&self, ctx: &mut RenderContext, name: UniformName, value: i32)
        ensures
            final(ctx).commands@ == old(ctx).commands@.push(
                self.uniform_cmd(name, UniformValue::Int(value)),
            ),
            final(ctx).state == old(ctx).state,
            final(ctx).next_id == old(ctx).next_id,
    {
        ctx.emit(GpuCommand::Uniform { program: self.handle, name, value: UniformValue::Int(value) });
    }

    /// Upload a single-precision uniform, given as its bit pattern.
    pub fn add_uniform_float(&self, ctx: &mut RenderContext, name: UniformName, value: u32)
        ensures
            final(ctx).commands@ == old(ctx).commands@.push(
                self.uniform_cmd(name, UniformValue::Float(value)),
            ),
            final(ctx).state == old(ctx).state,
            final(ctx).next_id == old(ctx).next_id,
    {
        ctx.emit(
            GpuCommand::Uniform { program: self.handle, name, value: UniformValue::Float(value) },
        );
    }

    /// Upload a three-component vector uniform.
    pub fn add_uniform_vec3(&self, ctx: &mut RenderContext, name: UniformName, value: Vec3Bits)
        ensures
            final(ctx).commands@ == old(ctx).commands@.push(
                self.uniform_cmd(name, UniformValue::Vec3(value)),
            ),
            final(ctx).state == old(ctx).state,
            final(ctx).next_id == old(ctx).next_id,
    {
        ctx.emit(
            GpuCommand::Uniform { program: self.handle, name, value: UniformValue::Vec3(value) },
        );
    }

    /// Upload a 4 by 4 matrix uniform.
    pub fn add_uniform_mat4(&self, ctx: &mut RenderContext, name: UniformName, value: Mat4Bits)
        ensures
            final(ctx).commands@ == old(ctx).commands@.push(
                self.uniform_cmd(name, UniformValue::Mat4(value)),
            ),
            final(ctx).state == old(ctx).state,
            final(ctx).next_id == old(ctx).next_id,
    {
        ctx.emit(
            GpuCommand::Uniform { program: self.handle, name, value: UniformValue::Mat4(value) },
        );
    }
}

} // verus!
