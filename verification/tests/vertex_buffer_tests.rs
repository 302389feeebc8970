//! Vertex and index buffers: uploads keep the record count honest, the
//! attribute binder issues one enable and one pointer call per field,
//! and draws record the variant and range they were asked for.

use glitter::context::Context;
use glitter::index_data::IndexDatumType;
use glitter::machine::{BufferTarget, GlCall};
use glitter::program::ProgramAttrib;
use glitter::types::{BufferDataUsage, DrawingMode};
use glitter::vertex_buffer::{AttribBinder, IndexBufferBinding, VertexBufferBinding};
use glitter::vertex_data::{AttribDatumType, VertexAttribute, VertexAttributeType, VertexData};

struct ColoredVertex {
    _position: [i16; 2],
    _shade: u8,
}

impl VertexData for ColoredVertex {
    fn spec_attributes() -> vstd::prelude::Seq<VertexAttribute> {
        unreachable!()
    }

    fn spec_vertex_size() -> usize {
        unreachable!()
    }

    fn attributes() -> Vec<VertexAttribute> {
        vec![
            VertexAttribute {
                name: "position".to_string(),
                ty: VertexAttributeType {
                    components: 2,
                    data: AttribDatumType::Short,
                    normalize: false,
                },
                stride: 6,
                offset: 0,
            },
            VertexAttribute {
                name: "shade".to_string(),
                ty: VertexAttributeType {
                    components: 1,
                    data: AttribDatumType::UnsignedByte,
                    normalize: true,
                },
                stride: 6,
                offset: 4,
            },
        ]
    }

    fn vertex_size() -> usize {
        6
    }
}

fn vertex(x: i16, y: i16, shade: u8) -> ColoredVertex {
    ColoredVertex { _position: [x, y], _shade: shade }
}

fn attrib_binder() -> AttribBinder {
    let mut attribs = AttribBinder::new();
    attribs.add("position", ProgramAttrib { gl_index: 4 }).unwrap();
    attribs.add("shade", ProgramAttrib { gl_index: 7 }).unwrap();
    attribs
}

#[test]
fn binding_enables_and_describes_each_field_in_order() {
    let (mut ctx, mut gl) = Context::new();
    let mut vbo = ctx.new_vertex_buffer::<ColoredVertex>(&mut gl);
    vbo.bind_attrib_pointers(attrib_binder());
    let mut binder = ctx.split_array_buffer();
    let gl_buffer = binder.bind(&mut gl, vbo.buffer());
    let before = gl.log.len();
    vbo.bind(&gl_buffer, &mut gl).unwrap();
    assert_eq!(
        &gl.log[before..],
        &[
            GlCall::EnableVertexAttribArray { index: 4 },
            GlCall::EnableVertexAttribArray { index: 7 },
            GlCall::VertexAttribPointer {
                index: 4,
                components: 2,
                data: AttribDatumType::Short,
                normalize: false,
                stride: 6,
                offset: 0,
            },
            GlCall::VertexAttribPointer {
                index: 7,
                components: 1,
                data: AttribDatumType::UnsignedByte,
                normalize: true,
                stride: 6,
                offset: 4,
            },
        ]
    );
    binder.release(gl_buffer);
    ctx.join_array_buffer(binder);
}

#[test]
fn binding_without_an_attrib_binder_fails_silently_on_the_wire() {
    let (mut ctx, mut gl) = Context::new();
    let vbo = ctx.new_vertex_buffer::<ColoredVertex>(&mut gl);
    let mut binder = ctx.split_array_buffer();
    let gl_buffer = binder.bind(&mut gl, vbo.buffer());
    let before = gl.log.len();
    assert!(vbo.bind(&gl_buffer, &mut gl).is_err());
    assert_eq!(gl.log.len(), before);
    binder.release(gl_buffer);
    ctx.join_array_buffer(binder);
}

#[test]
fn mismatched_field_set_fails_without_effect() {
    let (mut ctx, mut gl) = Context::new();
    let mut vbo = ctx.new_vertex_buffer::<ColoredVertex>(&mut gl);
    let mut attribs = AttribBinder::new();
    attribs.add("position", ProgramAttrib { gl_index: 4 }).unwrap();
    attribs.add("normal", ProgramAttrib { gl_index: 9 }).unwrap();
    vbo.bind_attrib_pointers(attribs);
    let mut binder = ctx.split_array_buffer();
    let gl_buffer = binder.bind(&mut gl, vbo.buffer());
    let before = gl.log.len();
    assert!(vbo.bind(&gl_buffer, &mut gl).is_err());
    assert_eq!(gl.log.len(), before);
    binder.release(gl_buffer);
    ctx.join_array_buffer(binder);
}

#[test]
fn upload_sets_the_record_count_to_the_last_upload() {
    let (mut ctx, mut gl) = Context::new();
    let vbo = ctx.new_vertex_buffer::<ColoredVertex>(&mut gl);
    assert_eq!(vbo.count(), 0);
    let mut binder = ctx.split_array_buffer();
    let gl_buffer = binder.bind(&mut gl, vbo.buffer());
    let mut bound = VertexBufferBinding::new(gl_buffer, vbo);
    let data = [vertex(0, 0, 255), vertex(1, 0, 128)];
    bound.buffer_data(&mut gl, &data, BufferDataUsage::StaticDraw);
    assert_eq!(
        *gl.log.last().unwrap(),
        GlCall::BufferData { target: BufferTarget::ArrayBuffer, len: 12, usage: BufferDataUsage::StaticDraw }
    );
    let one = [vertex(2, 2, 0)];
    bound.buffer_data(&mut gl, &one, BufferDataUsage::DynamicDraw);
    let (gl_buffer, vbo) = bound.into_parts();
    assert_eq!(vbo.count(), 1);
    binder.release(gl_buffer);
    ctx.join_array_buffer(binder);
}

#[test]
fn draws_record_mode_range_and_index_kind() {
    let (mut ctx, mut gl) = Context::new();
    let vbo = ctx.new_vertex_buffer::<ColoredVertex>(&mut gl);
    let mut array_binder = ctx.split_array_buffer();
    let gl_buffer = array_binder.bind(&mut gl, vbo.buffer());
    let mut bound_vbo = VertexBufferBinding::new(gl_buffer, vbo);
    let data = [vertex(0, 0, 1), vertex(1, 0, 2), vertex(0, 1, 3)];
    bound_vbo.buffer_data(&mut gl, &data, BufferDataUsage::StaticDraw);

    let ibo = ctx.new_index_buffer::<u16>(&mut gl);
    let mut element_binder = ctx.split_element_array_buffer();
    let element_binding = element_binder.bind(&mut gl, ibo.buffer());
    let mut bound_ibo = IndexBufferBinding::new(element_binding, ibo);
    bound_ibo.buffer_data(&mut gl, &[0u16, 1, 2], BufferDataUsage::StaticDraw);
    assert_eq!(
        *gl.log.last().unwrap(),
        GlCall::BufferData {
            target: BufferTarget::ElementArrayBuffer,
            len: 6,
            usage: BufferDataUsage::StaticDraw,
        }
    );

    let mut framebuffer_binder = ctx.split_framebuffer();
    let mut screen = framebuffer_binder.current_binding(&gl);

    screen.draw_arrays_vbo(&mut gl, &bound_vbo, DrawingMode::Triangles);
    assert_eq!(
        *gl.log.last().unwrap(),
        GlCall::DrawArrays { mode: DrawingMode::Triangles, first: 0, count: 3 }
    );

    screen.draw_arrays_range_vbo(&mut gl, &bound_vbo, DrawingMode::Points, 1, 2);
    assert_eq!(
        *gl.log.last().unwrap(),
        GlCall::DrawArrays { mode: DrawingMode::Points, first: 1, count: 2 }
    );

    screen.draw_elements_buffered_vbo(&mut gl, &bound_vbo, &bound_ibo, DrawingMode::Triangles);
    assert_eq!(
        *gl.log.last().unwrap(),
        GlCall::DrawElements {
            mode: DrawingMode::Triangles,
            count: 3,
            index_type: IndexDatumType::UnsignedShort,
        }
    );

    screen.draw_n_elements_buffered_vbo(&mut gl, &bound_vbo, &bound_ibo, DrawingMode::Lines, 2);
    assert_eq!(
        *gl.log.last().unwrap(),
        GlCall::DrawElements {
            mode: DrawingMode::Lines,
            count: 2,
            index_type: IndexDatumType::UnsignedShort,
        }
    );

    let client_indices = [0u8, 2, 1];
    screen.draw_elements_vbo(&mut gl, &bound_vbo, DrawingMode::TriangleFan, &client_indices);
    assert_eq!(
        *gl.log.last().unwrap(),
        GlCall::DrawElements {
            mode: DrawingMode::TriangleFan,
            count: 3,
            index_type: IndexDatumType::UnsignedByte,
        }
    );

    screen.draw_n_elements_vbo(&mut gl, &bound_vbo, DrawingMode::LineLoop, 2, &client_indices);
    assert_eq!(
        *gl.log.last().unwrap(),
        GlCall::DrawElements {
            mode: DrawingMode::LineLoop,
            count: 2,
            index_type: IndexDatumType::UnsignedByte,
        }
    );

    assert!(framebuffer_binder.release(screen).is_none());
    ctx.join_framebuffer(framebuffer_binder);
    let (gl_buffer, _vbo) = bound_vbo.into_parts();
    array_binder.release(gl_buffer);
    ctx.join_array_buffer(array_binder);
    let (element_binding, _ibo) = bound_ibo.into_parts();
    element_binder.release(element_binding);
    ctx.join_element_array_buffer(element_binder);
}
