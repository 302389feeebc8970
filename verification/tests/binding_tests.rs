//! The binder/binding protocol: splitting is exclusive per slot, binds
//! are recorded in order with no overlap window, and releasing a binding
//! frees the slot without a foreign call.

use glitter::context::Context;
use glitter::machine::{BufferTarget, GlCall};

#[test]
fn sequential_program_binds_record_in_order() {
    let (mut ctx, mut gl) = Context::new();
    let p1 = ctx.create_program(&mut gl).unwrap();
    let p2 = ctx.create_program(&mut gl).unwrap();
    let id1 = p1.gl_id();
    let id2 = p2.gl_id();
    let mut binder = ctx.split_program();

    let binding = binder.bind(&mut gl, p1);
    assert_eq!(gl.bindings.program, id1);
    let first_at = gl.log.len() - 1;
    assert_eq!(gl.log[first_at], GlCall::UseProgram { id: id1 });

    let p1 = binder.release(binding);
    let binding = binder.bind(&mut gl, p2);
    assert_eq!(gl.bindings.program, id2);
    let second_at = gl.log.len() - 1;
    assert_eq!(gl.log[second_at], GlCall::UseProgram { id: id2 });
    assert!(first_at < second_at);

    let p2 = binder.release(binding);
    ctx.join_program(binder);
    p1.delete(&mut gl);
    p2.delete(&mut gl);
}

#[test]
fn release_makes_no_foreign_call() {
    let (mut ctx, mut gl) = Context::new();
    let buffer = ctx.gen_buffer(&mut gl);
    let mut binder = ctx.split_array_buffer();
    let binding = binder.bind(&mut gl, &buffer);
    let len_after_bind = gl.log.len();
    binder.release(binding);
    assert_eq!(gl.log.len(), len_after_bind);
    ctx.join_array_buffer(binder);
    buffer.delete(&mut gl);
}

#[test]
fn buffer_slots_are_independent() {
    let (mut ctx, mut gl) = Context::new();
    let array = ctx.gen_buffer(&mut gl);
    let elements = ctx.gen_buffer(&mut gl);
    let array_id = array.gl_id();
    let elements_id = elements.gl_id();

    let mut array_binder = ctx.split_array_buffer();
    let mut element_binder = ctx.split_element_array_buffer();
    let array_binding = array_binder.bind(&mut gl, &array);
    let element_binding = element_binder.bind(&mut gl, &elements);

    assert_eq!(gl.bindings.array_buffer, array_id);
    assert_eq!(gl.bindings.element_array_buffer, elements_id);
    let n = gl.log.len();
    assert_eq!(
        gl.log[n - 2],
        GlCall::BindBuffer { target: BufferTarget::ArrayBuffer, id: array_id }
    );
    assert_eq!(
        gl.log[n - 1],
        GlCall::BindBuffer { target: BufferTarget::ElementArrayBuffer, id: elements_id }
    );

    array_binder.release(array_binding);
    element_binder.release(element_binding);
    ctx.join_array_buffer(array_binder);
    ctx.join_element_array_buffer(element_binder);
    array.delete(&mut gl);
    elements.delete(&mut gl);
}

#[test]
fn current_binding_stands_for_the_default_framebuffer() {
    let (mut ctx, mut gl) = Context::new();
    let mut binder = ctx.split_framebuffer();
    let len_before = gl.log.len();
    let binding = binder.current_binding(&gl);
    assert_eq!(gl.log.len(), len_before);
    let status = binding.check_framebuffer_status(&mut gl);
    assert!(status.is_some());
    assert!(binder.release(binding).is_none());
    ctx.join_framebuffer(binder);
}
