use ruffle_render_glow::backend::{
    clamped_dimension, DeviceSetup, GlowRenderBackend, MsaaBuffers, StageQuality,
    ViewportDimensions, SCALE_FACTOR_ONE,
};
use ruffle_render_glow::blend::{BlendMode, RenderBlendMode};
use ruffle_render_glow::error::Error;
use ruffle_render_glow::gl::{
    AttribKind, BlendEquation, BlendFactor, BufferId, BufferTarget, Capability, ColorUnits,
    FramebufferId, FramebufferTarget, GlCommand, Mat4, Pipeline, Primitive, Rgba8, Scalar,
    TextureId, VertexArrayId,
};
use ruffle_render_glow::mask::{MaskState, MaskTracker};
use ruffle_render_glow::mesh::{BitmapDraw, Draw, DrawType};
use ruffle_render_glow::render::DrawState;
use ruffle_render_glow::shader::ProgramLink;

fn full_link() -> ProgramLink {
    ProgramLink {
        uniforms: [
            Some(0),
            Some(1),
            Some(2),
            Some(3),
            Some(4),
            Some(5),
            Some(6),
            Some(7),
            Some(8),
            Some(9),
            Some(10),
            Some(11),
        ],
        position: Some(0),
        color: Some(1),
    }
}

fn full_setup() -> DeviceSetup {
    DeviceSetup {
        color_vertex: true,
        texture_vertex: true,
        color_fragment: true,
        bitmap_fragment: true,
        gradient_fragment: true,
        color: Some(full_link()),
        bitmap: Some(full_link()),
        gradient: Some(full_link()),
    }
}

fn fresh_backend() -> GlowRenderBackend {
    GlowRenderBackend::new(full_setup(), false, StageQuality::High).unwrap().0
}

fn upload(first: u64, blob: usize) -> Vec<GlCommand> {
    vec![
        GlCommand::CreateVertexArray(VertexArrayId(first)),
        GlCommand::BindVertexArray(Some(VertexArrayId(first))),
        GlCommand::CreateBuffer(BufferId(first + 1)),
        GlCommand::BindBuffer { target: BufferTarget::Array, buffer: BufferId(first + 1) },
        GlCommand::BufferData { target: BufferTarget::Array, blob },
        GlCommand::CreateBuffer(BufferId(first + 2)),
        GlCommand::BindBuffer { target: BufferTarget::ElementArray, buffer: BufferId(first + 2) },
        GlCommand::BufferData { target: BufferTarget::ElementArray, blob: blob + 1 },
        GlCommand::VertexAttribPointer {
            index: 0,
            size: 2,
            kind: AttribKind::Float,
            normalized: false,
            stride: 12,
            offset: 0,
        },
        GlCommand::EnableVertexAttribArray(0),
        GlCommand::VertexAttribPointer {
            index: 1,
            size: 4,
            kind: AttribKind::UnsignedByte,
            normalized: true,
            stride: 12,
            offset: 8,
        },
        GlCommand::EnableVertexAttribArray(1),
        GlCommand::BindVertexArray(None),
    ]
}

fn words_to_native_bytes(words: &[u32]) -> Vec<u8> {
    words.iter().flat_map(|w| w.to_ne_bytes()).collect()
}

fn no_mask_setup() -> Vec<GlCommand> {
    vec![GlCommand::Disable(Capability::StencilTest), GlCommand::ColorMask(true)]
}

#[test]
fn new_backend_sets_the_gpu_up() {
    let (backend, batch) = GlowRenderBackend::new(full_setup(), true, StageQuality::Low).unwrap();
    let mut expected = vec![
        GlCommand::Enable(Capability::Blend),
        GlCommand::PixelStoreUnpackAlignment(1),
        GlCommand::BlendEquationSeparate { rgb: BlendEquation::Add, alpha: BlendEquation::Add },
        GlCommand::BlendFuncSeparate {
            src_rgb: BlendFactor::One,
            dst_rgb: BlendFactor::OneMinusSrcAlpha,
            src_alpha: BlendFactor::One,
            dst_alpha: BlendFactor::OneMinusSrcAlpha,
        },
    ];
    expected.extend(upload(0, 0));
    expected.extend(upload(3, 2));
    expected.extend(vec![
        GlCommand::BindFramebuffer { target: FramebufferTarget::Both, framebuffer: None },
        GlCommand::UnbindRenderbuffer,
        GlCommand::Viewport { width: 1, height: 1 },
    ]);
    assert_eq!(batch.commands, expected);

    let one = 0x3f80_0000u32;
    let white = 0xffff_ffffu32;
    let quad = words_to_native_bytes(&[
        0, 0, white, one, 0, white, one, one, white, 0, one, white,
    ]);
    let indices = words_to_native_bytes(&[0, 1, 2, 3]);
    assert_eq!(batch.blobs, vec![quad.clone(), indices.clone(), quad, indices]);

    assert!(backend.is_transparent);
    assert_eq!(backend.msaa_buffers, None);
    assert_eq!(backend.next_id, 6);
    assert_eq!(backend.renderbuffer_width, 1);
    assert_eq!(backend.renderbuffer_height, 1);
    assert_eq!(backend.view_matrix, Mat4::Ortho { width: 1, height: 1 });
    assert_eq!(backend.viewport_scale_factor, 1.0f64.to_bits());
    assert_eq!(SCALE_FACTOR_ONE, 1.0f64.to_bits());
    assert_eq!(backend.blend_modes.modes, vec![RenderBlendMode::Builtin(BlendMode::Normal)]);
    assert_eq!(
        backend.state,
        DrawState {
            mask: MaskTracker { state: MaskState::NoMask, depth: 0, programmed: None },
            active_program: None,
            world_matrix: None,
            mult_color: None,
            add_color: None,
        }
    );
    assert_eq!(
        backend.color_quad_draws,
        vec![Draw {
            draw_type: DrawType::Color,
            vertex_buffer: BufferId(1),
            index_buffer: BufferId(2),
            vao: VertexArrayId(0),
            num_indices: 4,
            num_mask_indices: 4,
        }]
    );
    let o = Scalar::from_bits(one);
    let z = Scalar::from_bits(0);
    assert_eq!(
        backend.bitmap_quad_draws,
        vec![Draw {
            draw_type: DrawType::Bitmap(BitmapDraw {
                matrix: [[o, z, z], [z, o, z], [z, z, o]],
                handle: None,
                is_repeating: false,
                is_smoothed: true,
            }),
            vertex_buffer: BufferId(4),
            index_buffer: BufferId(5),
            vao: VertexArrayId(3),
            num_indices: 4,
            num_mask_indices: 4,
        }]
    );
    assert_eq!(backend.programs.color.pipeline, Pipeline::Color);
    assert_eq!(backend.programs.bitmap.pipeline, Pipeline::Bitmap);
    assert_eq!(backend.programs.gradient.pipeline, Pipeline::Gradient);
}

#[test]
fn new_fails_when_a_shader_object_is_missing() {
    for missing in 0..5 {
        let mut setup = full_setup();
        match missing {
            0 => setup.color_vertex = false,
            1 => setup.texture_vertex = false,
            2 => setup.color_fragment = false,
            3 => setup.bitmap_fragment = false,
            _ => setup.gradient_fragment = false,
        }
        // A missing program as well: the shader is what is reported.
        setup.gradient = None;
        let made = GlowRenderBackend::new(setup, false, StageQuality::High);
        assert_eq!(made.err(), Some(Error::UnableToCreateShader));
    }
}

#[test]
fn new_fails_when_a_program_object_is_missing() {
    for missing in 0..3 {
        let mut setup = full_setup();
        match missing {
            0 => setup.color = None,
            1 => setup.bitmap = None,
            _ => setup.gradient = None,
        }
        let made = GlowRenderBackend::new(setup, false, StageQuality::High);
        assert_eq!(made.err(), Some(Error::UnableToCreateProgram));
    }
}

#[test]
fn a_program_without_attributes_has_both_slots_switched_off() {
    let mut setup = full_setup();
    setup.color = Some(ProgramLink { uniforms: [None; 12], position: None, color: None });
    let (backend, batch) = GlowRenderBackend::new(setup, false, StageQuality::High).unwrap();
    assert_eq!(backend.programs.color.num_vertex_attributes, 0);
    assert_eq!(backend.programs.color.vertex_position_location, 0xffff_ffff);
    assert_eq!(backend.programs.color.vertex_color_location, 0xffff_ffff);
    let quad: Vec<GlCommand> = batch.commands[4..15].to_vec();
    let mut expected = upload(0, 0)[..8].to_vec();
    expected.push(GlCommand::BindVertexArray(None));
    expected.push(GlCommand::DisableVertexAttribArray(0));
    expected.push(GlCommand::DisableVertexAttribArray(1));
    assert_eq!(quad, expected);
}

#[test]
fn a_program_with_a_position_only_has_the_second_slot_switched_off() {
    let mut setup = full_setup();
    setup.color = Some(ProgramLink { uniforms: [None; 12], position: Some(5), color: None });
    let (backend, batch) = GlowRenderBackend::new(setup, false, StageQuality::High).unwrap();
    assert_eq!(backend.programs.color.num_vertex_attributes, 1);
    let quad: Vec<GlCommand> = batch.commands[4..16].to_vec();
    let mut expected = upload(0, 0)[..8].to_vec();
    expected.push(GlCommand::VertexAttribPointer {
        index: 5,
        size: 2,
        kind: AttribKind::Float,
        normalized: false,
        stride: 12,
        offset: 0,
    });
    expected.push(GlCommand::EnableVertexAttribArray(5));
    expected.push(GlCommand::BindVertexArray(None));
    expected.push(GlCommand::DisableVertexAttribArray(1));
    assert_eq!(quad, expected);
}

#[test]
fn resizing_to_zero_clamps_the_render_buffer_to_one_pixel() {
    let mut backend = fresh_backend();
    let out = backend.set_viewport_dimensions(ViewportDimensions {
        width: 0,
        height: 0,
        scale_factor: 2.0f64.to_bits(),
    });
    assert_eq!(backend.renderbuffer_width, 1);
    assert_eq!(backend.renderbuffer_height, 1);
    assert_eq!(
        out,
        vec![
            GlCommand::BindFramebuffer { target: FramebufferTarget::Both, framebuffer: None },
            GlCommand::UnbindRenderbuffer,
            GlCommand::Viewport { width: 1, height: 1 },
        ]
    );
    assert_eq!(
        backend.viewport_dimensions(),
        ViewportDimensions { width: 1, height: 1, scale_factor: 2.0f64.to_bits() }
    );
    assert_eq!(backend.view_matrix, Mat4::Ortho { width: 0, height: 0 });
}

#[test]
fn resizing_sets_view_matrix_and_viewport() {
    let mut backend = fresh_backend();
    let out = backend.set_viewport_dimensions(ViewportDimensions {
        width: 800,
        height: 600,
        scale_factor: SCALE_FACTOR_ONE,
    });
    assert_eq!(backend.view_matrix, Mat4::Ortho { width: 800, height: 600 });
    assert_eq!(out.last(), Some(&GlCommand::Viewport { width: 800, height: 600 }));
    assert_eq!(
        backend.viewport_dimensions(),
        ViewportDimensions { width: 800, height: 600, scale_factor: SCALE_FACTOR_ONE }
    );
}

#[test]
fn render_buffer_sides_are_held_between_one_and_the_largest_count() {
    assert_eq!(clamped_dimension(0), 1);
    assert_eq!(clamped_dimension(1), 1);
    assert_eq!(clamped_dimension(1920), 1920);
    assert_eq!(clamped_dimension(i32::MAX as u32), i32::MAX);
    assert_eq!(clamped_dimension(i32::MAX as u32 + 1), i32::MAX);
    assert_eq!(clamped_dimension(u32::MAX), i32::MAX);
}

#[test]
fn begin_frame_resets_and_clears() {
    let mut backend = fresh_backend();
    backend.set_viewport_dimensions(ViewportDimensions {
        width: 320,
        height: 200,
        scale_factor: SCALE_FACTOR_ONE,
    });
    backend.push_mask();
    backend.state.active_program = Some(Pipeline::Gradient);
    backend.state.mult_color = Some(ColorUnits { r: 1, g: 2, b: 3, a: 4 });
    let clear = Rgba8 { r: 10, g: 20, b: 30, a: 255 };
    let out = backend.begin_frame(clear);
    let mut expected = vec![GlCommand::Viewport { width: 320, height: 200 }];
    expected.extend(no_mask_setup());
    expected.extend(vec![
        GlCommand::ClearColor(clear),
        GlCommand::StencilMask(0xff),
        GlCommand::Clear { color: true, stencil: true },
    ]);
    assert_eq!(out, expected);
    assert_eq!(
        backend.state,
        DrawState {
            mask: MaskTracker {
                state: MaskState::NoMask,
                depth: 0,
                programmed: Some((MaskState::NoMask, 0)),
            },
            active_program: None,
            world_matrix: None,
            mult_color: None,
            add_color: None,
        }
    );
}

#[test]
fn a_transparent_backend_clears_to_nothing() {
    let mut backend = GlowRenderBackend::new(full_setup(), true, StageQuality::High).unwrap().0;
    let out = backend.begin_frame(Rgba8 { r: 10, g: 20, b: 30, a: 255 });
    assert_eq!(out[3], GlCommand::ClearColor(Rgba8 { r: 0, g: 0, b: 0, a: 0 }));
}

#[test]
fn end_frame_without_multisampling_asks_for_nothing() {
    let mut backend = fresh_backend();
    backend.begin_frame(Rgba8 { r: 0, g: 0, b: 0, a: 255 });
    let state = backend.state;
    assert!(backend.end_frame().is_empty());
    assert_eq!(backend.state, state);
}

#[test]
fn multisampled_frames_are_rendered_offscreen_and_resolved() {
    let mut backend = fresh_backend();
    backend.set_viewport_dimensions(ViewportDimensions {
        width: 64,
        height: 32,
        scale_factor: SCALE_FACTOR_ONE,
    });
    let provisioned = backend.enable_msaa().unwrap();
    let buffers = MsaaBuffers {
        render_framebuffer: FramebufferId(6),
        color_framebuffer: FramebufferId(7),
        framebuffer_texture: TextureId(8),
    };
    assert_eq!(backend.msaa_buffers, Some(buffers));
    assert_eq!(backend.next_id, 9);
    let provision = |width, height| GlCommand::ProvisionMsaaTargets {
        render_framebuffer: FramebufferId(6),
        color_framebuffer: FramebufferId(7),
        framebuffer_texture: TextureId(8),
        width,
        height,
    };
    assert_eq!(provisioned, vec![provision(64, 32)]);

    let resized = backend.set_viewport_dimensions(ViewportDimensions {
        width: 128,
        height: 0,
        scale_factor: SCALE_FACTOR_ONE,
    });
    assert_eq!(resized, vec![provision(128, 1), GlCommand::Viewport { width: 128, height: 1 }]);

    let begun = backend.begin_frame(Rgba8 { r: 1, g: 2, b: 3, a: 4 });
    assert_eq!(
        begun[0],
        GlCommand::BindFramebuffer {
            target: FramebufferTarget::Both,
            framebuffer: Some(FramebufferId(6)),
        }
    );
    assert_eq!(begun[1], GlCommand::Viewport { width: 128, height: 1 });

    backend.push_mask();
    let ended = backend.end_frame();
    let o = Scalar::one();
    let z = Scalar::zero();
    assert_eq!(
        ended,
        vec![
            GlCommand::Disable(Capability::StencilTest),
            GlCommand::ColorMask(true),
            GlCommand::BindFramebuffer {
                target: FramebufferTarget::Read,
                framebuffer: Some(FramebufferId(6)),
            },
            GlCommand::BindFramebuffer {
                target: FramebufferTarget::Draw,
                framebuffer: Some(FramebufferId(7)),
            },
            GlCommand::BlitFramebuffer { width: 128, height: 1 },
            GlCommand::BindFramebuffer { target: FramebufferTarget::Both, framebuffer: None },
            GlCommand::Viewport { width: 128, height: 1 },
            GlCommand::UseProgram(Pipeline::Bitmap),
            GlCommand::UniformMatrix4 { location: 0, value: Mat4::ClipSpaceQuad },
            GlCommand::UniformMatrix4 { location: 1, value: Mat4::Identity },
            GlCommand::UniformMultColor {
                location: 2,
                value: ColorUnits { r: 256, g: 256, b: 256, a: 256 },
            },
            GlCommand::UniformAddColor { location: 3, value: ColorUnits { r: 0, g: 0, b: 0, a: 0 } },
            GlCommand::UniformMatrix3 { location: 4, value: [[o, z, z], [z, o, z], [z, z, o]] },
            GlCommand::ActiveTexture(0),
            GlCommand::BindTexture(TextureId(8)),
            GlCommand::Uniform1i { location: 11, value: 0 },
            GlCommand::BindVertexArray(Some(VertexArrayId(3))),
            GlCommand::DrawElements { mode: Primitive::TriangleFan, count: 4 },
        ]
    );
    assert_eq!(backend.state.active_program, None);
    assert_eq!(backend.state.mask.programmed, None);
    assert_eq!(backend.state.mask.depth, 1);
}

#[test]
fn multisampling_cannot_be_switched_on_without_identifiers() {
    let mut backend = fresh_backend();
    backend.next_id = u64::MAX - 2;
    assert_eq!(backend.enable_msaa(), Err(Error::UnableToCreateFrameBuffer));
    assert_eq!(backend.msaa_buffers, None);
    assert_eq!(backend.next_id, u64::MAX - 2);
    backend.next_id = u64::MAX - 3;
    assert!(backend.enable_msaa().is_ok());
    assert_eq!(backend.next_id, u64::MAX);
}

#[test]
fn quad_mesh_cannot_be_built_without_identifiers() {
    let mut backend = fresh_backend();
    backend.next_id = u64::MAX - 1;
    let mut batch = ruffle_render_glow::gl::GlBatch::new();
    assert_eq!(
        backend.build_quad_mesh(Pipeline::Color, &mut batch),
        Err(Error::UnableToCreateVAO)
    );
    assert!(batch.commands.is_empty());
    assert!(batch.blobs.is_empty());
    assert_eq!(backend.next_id, u64::MAX - 1);
}

#[test]
fn backend_names_itself() {
    let mut backend = fresh_backend();
    assert_eq!(backend.name(), "glow");
    assert_eq!(backend.debug_info(), "Renderer: glow");
    let before = backend.next_id;
    backend.set_quality(StageQuality::Best);
    assert_eq!(backend.next_id, before);
}
