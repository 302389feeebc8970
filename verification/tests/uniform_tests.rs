//! Uniform dispatch: each value shape reaches exactly the one native
//! call variant it selects.

use glitter::context::Context;
use glitter::machine::GlCall;
use glitter::uniform_data::{UniformDatumType, UniformPrimitiveType};

#[test]
fn three_float_vector_reaches_the_three_float_variant() {
    let (mut ctx, mut gl) = Context::new();
    gl.declare_uniform("tint".to_string(), 5);
    let program = ctx.build_program(&[]).try_unwrap(&ctx, &mut gl).unwrap();
    let uniform = ctx.get_uniform_location(&mut gl, &program, "tint").unwrap();
    let mut binder = ctx.split_program();
    let binding = binder.bind(&mut gl, program);

    ctx.set_uniform_raw(
        &mut gl,
        &binding,
        uniform,
        UniformDatumType::Vec3(UniformPrimitiveType::Float),
        1,
    );
    assert_eq!(
        *gl.log.last().unwrap(),
        GlCall::Uniform3fv { location: 5, count: 1 }
    );

    let program = binder.release(binding);
    ctx.join_program(binder);
    program.delete(&mut gl);
}

#[test]
fn integer_values_dispatch_by_arity() {
    let (mut ctx, mut gl) = Context::new();
    gl.declare_uniform("mode".to_string(), 2);
    let program = ctx.build_program(&[]).try_unwrap(&ctx, &mut gl).unwrap();
    let uniform = ctx.get_uniform_location(&mut gl, &program, "mode").unwrap();
    let mut binder = ctx.split_program();
    let binding = binder.bind(&mut gl, program);

    ctx.set_uniform(&mut gl, &binding, uniform, 42i32);
    assert_eq!(
        *gl.log.last().unwrap(),
        GlCall::Uniform1iv { location: 2, count: 1 }
    );

    ctx.set_uniform(&mut gl, &binding, uniform, [1i32, 2, 3]);
    assert_eq!(
        *gl.log.last().unwrap(),
        GlCall::Uniform3iv { location: 2, count: 1 }
    );

    ctx.set_uniform(&mut gl, &binding, uniform, [1i32, 2, 3, 4]);
    assert_eq!(
        *gl.log.last().unwrap(),
        GlCall::Uniform4iv { location: 2, count: 1 }
    );

    let program = binder.release(binding);
    ctx.join_program(binder);
    program.delete(&mut gl);
}

#[test]
fn matrices_reach_the_matching_matrix_variant() {
    let (mut ctx, mut gl) = Context::new();
    gl.declare_uniform("model".to_string(), 0);
    let program = ctx.build_program(&[]).try_unwrap(&ctx, &mut gl).unwrap();
    let uniform = ctx.get_uniform_location(&mut gl, &program, "model").unwrap();
    let mut binder = ctx.split_program();
    let binding = binder.bind(&mut gl, program);

    ctx.set_uniform_raw(&mut gl, &binding, uniform, UniformDatumType::Matrix2x2, 1);
    assert_eq!(
        *gl.log.last().unwrap(),
        GlCall::UniformMatrix2fv { location: 0, count: 1 }
    );
    ctx.set_uniform_raw(&mut gl, &binding, uniform, UniformDatumType::Matrix4x4, 1);
    assert_eq!(
        *gl.log.last().unwrap(),
        GlCall::UniformMatrix4fv { location: 0, count: 1 }
    );

    let program = binder.release(binding);
    ctx.join_program(binder);
    program.delete(&mut gl);
}
