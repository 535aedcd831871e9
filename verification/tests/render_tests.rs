use ruffle_render_glow::backend::{
    DeviceSetup, GlowRenderBackend, StageQuality, ViewportDimensions, SCALE_FACTOR_ONE,
};
use ruffle_render_glow::bitmaps::{Bitmap, BitmapError};
use ruffle_render_glow::executor::{PixelBenderShaderHandle, SyncHandle};
use ruffle_render_glow::blend::{BlendMode, RenderBlendMode};
use ruffle_render_glow::commands::{BitmapCacheEntry, Command, CommandList};
use ruffle_render_glow::gl::{
    BlendEquation, BlendFactor, Capability, ColorSpace, ColorTransform, ColorUnits, CompareFunc,
    GlCommand, GradientStop, Mat4, Matrix, Pipeline, PixelFormat, PixelSnapping, Primitive, Rgba8,
    Scalar, StencilAction, StopColor, TextureId, TextureParam, TextureValue, Transform,
    VertexArrayId,
};
use ruffle_render_glow::gradient::{
    GradientInterpolation, GradientRecord, GradientSpread, GradientType, TessGradient,
};
use ruffle_render_glow::mask::{MaskOp, MaskState};
use ruffle_render_glow::mesh::{
    BitmapHandle, ShapeHandle, TessBitmap, TessDraw, TessDrawType, TessVertex,
};
use ruffle_render_glow::shader::ProgramLink;

fn link_r() -> ProgramLink {
    ProgramLink {
        uniforms: [
            Some(0),
            Some(1),
            Some(2),
            Some(3),
            Some(4),
            Some(5),
            Some(6),
            Some(7),
            Some(8),
            Some(9),
            Some(10),
            Some(11),
        ],
        position: Some(0),
        color: Some(1),
    }
}

fn backend_r(width: u32, height: u32) -> GlowRenderBackend {
    let setup = DeviceSetup {
        color_vertex: true,
        texture_vertex: true,
        color_fragment: true,
        bitmap_fragment: true,
        gradient_fragment: true,
        color: Some(link_r()),
        bitmap: Some(link_r()),
        gradient: Some(link_r()),
    };
    let mut backend = GlowRenderBackend::new(setup, false, StageQuality::High).unwrap().0;
    backend.set_viewport_dimensions(ViewportDimensions {
        width,
        height,
        scale_factor: SCALE_FACTOR_ONE,
    });
    backend.begin_frame(Rgba8 { r: 0, g: 0, b: 0, a: 255 });
    backend
}

fn identity_r() -> Matrix {
    Matrix {
        a: Scalar::one(),
        b: Scalar::zero(),
        c: Scalar::zero(),
        d: Scalar::one(),
        tx: 0,
        ty: 0,
    }
}

fn plain_r() -> Transform {
    Transform {
        matrix: identity_r(),
        color_transform: ColorTransform {
            r_multiply: 256,
            g_multiply: 256,
            b_multiply: 256,
            a_multiply: 256,
            r_add: 0,
            g_add: 0,
            b_add: 0,
            a_add: 0,
        },
    }
}

fn white_r() -> ColorUnits {
    ColorUnits { r: 256, g: 256, b: 256, a: 256 }
}

fn zero_r() -> ColorUnits {
    ColorUnits { r: 0, g: 0, b: 0, a: 0 }
}

fn vertex_r(x: f32, y: f32) -> TessVertex {
    TessVertex {
        x: Scalar::from_bits(x.to_bits()),
        y: Scalar::from_bits(y.to_bits()),
        color: Rgba8 { r: 255, g: 0, b: 0, a: 255 },
    }
}

fn triangle_r(draw_type: TessDrawType, mask_index_count: u32) -> TessDraw {
    TessDraw {
        draw_type,
        vertices: vec![vertex_r(0.0, 0.0), vertex_r(1.0, 0.0), vertex_r(0.0, 1.0)],
        indices: vec![0, 1, 2],
        mask_index_count,
    }
}

fn unit_matrix_r() -> [[Scalar; 3]; 3] {
    let o = Scalar::one();
    let z = Scalar::zero();
    [[o, z, z], [z, o, z], [z, z, o]]
}

fn draw_calls_r(out: &[GlCommand]) -> Vec<i32> {
    out.iter()
        .filter_map(|c| match c {
            GlCommand::DrawElements { count, .. } => Some(*count),
            _ => None,
        })
        .collect()
}

fn register_bitmap_r(backend: &mut GlowRenderBackend, width: u32, height: u32) -> BitmapHandle {
    let bitmap = Bitmap {
        format: PixelFormat::Rgba,
        width,
        height,
        data: vec![0x80; (width * height * 4) as usize],
    };
    backend.register_bitmap(bitmap).unwrap().0
}

#[test]
fn solid_triangle_is_drawn_with_one_call() {
    let mut backend = backend_r(640, 480);
    let (shape, _) = backend.register_shape(&vec![triangle_r(TessDrawType::Color, 3)]);
    let mut out = Vec::new();
    backend.render_shape(shape, plain_r(), &mut out);
    assert_eq!(
        out,
        vec![
            GlCommand::BindVertexArray(Some(VertexArrayId(6))),
            GlCommand::UseProgram(Pipeline::Color),
            GlCommand::UniformMatrix4 {
                location: 1,
                value: Mat4::Ortho { width: 640, height: 480 },
            },
            GlCommand::UniformMatrix4 { location: 0, value: Mat4::World(identity_r()) },
            GlCommand::UniformMultColor { location: 2, value: white_r() },
            GlCommand::UniformAddColor { location: 3, value: zero_r() },
            GlCommand::DrawElements { mode: Primitive::Triangles, count: 3 },
        ]
    );
    assert_eq!(draw_calls_r(&out), vec![3]);
    assert!(!out
        .iter()
        .any(|c| matches!(c, GlCommand::BindTexture(_) | GlCommand::ActiveTexture(_))));
    assert_eq!(backend.state.active_program, Some(Pipeline::Color));
}

#[test]
fn rendering_the_same_shape_again_sets_only_what_changed() {
    let mut backend = backend_r(640, 480);
    let (shape, _) = backend.register_shape(&vec![triangle_r(TessDrawType::Color, 3)]);
    let mut out = Vec::new();
    backend.render_shape(shape, plain_r(), &mut out);
    let mut again = Vec::new();
    backend.render_shape(shape, plain_r(), &mut again);
    assert_eq!(
        again,
        vec![
            GlCommand::BindVertexArray(Some(VertexArrayId(6))),
            GlCommand::DrawElements { mode: Primitive::Triangles, count: 3 },
        ]
    );
    let mut tinted = plain_r();
    tinted.color_transform.r_add = 17;
    let mut third = Vec::new();
    backend.render_shape(shape, tinted, &mut third);
    assert_eq!(
        third,
        vec![
            GlCommand::BindVertexArray(Some(VertexArrayId(6))),
            GlCommand::UniformAddColor {
                location: 3,
                value: ColorUnits { r: 17, g: 0, b: 0, a: 0 },
            },
            GlCommand::DrawElements { mode: Primitive::Triangles, count: 3 },
        ]
    );
    let mut moved = tinted;
    moved.matrix.tx = 40;
    let mut fourth = Vec::new();
    backend.render_shape(shape, moved, &mut fourth);
    assert_eq!(
        fourth,
        vec![
            GlCommand::BindVertexArray(Some(VertexArrayId(6))),
            GlCommand::UniformMatrix4 { location: 0, value: Mat4::World(moved.matrix) },
            GlCommand::DrawElements { mode: Primitive::Triangles, count: 3 },
        ]
    );
}

#[test]
fn mask_indices_are_drawn_while_a_silhouette_is_painted() {
    let mut backend = backend_r(100, 100);
    let mut draw = triangle_r(TessDrawType::Color, 3);
    draw.indices = vec![0, 1, 2, 2, 1, 0];
    let (shape, _) = backend.register_shape(&vec![draw]);
    let mut outside = Vec::new();
    backend.render_shape(shape, plain_r(), &mut outside);
    assert_eq!(draw_calls_r(&outside), vec![6]);

    backend.push_mask();
    let mut painting = Vec::new();
    backend.render_shape(shape, plain_r(), &mut painting);
    assert_eq!(draw_calls_r(&painting), vec![3]);
    assert_eq!(
        painting[..4].to_vec(),
        vec![
            GlCommand::Disable(Capability::StencilTest),
            GlCommand::StencilFunc { func: CompareFunc::Always, reference: 0, mask: 0xff },
            GlCommand::StencilOp {
                fail: StencilAction::Keep,
                depth_fail: StencilAction::Keep,
                pass: StencilAction::Increment,
            },
            GlCommand::ColorMask(false),
        ]
    );

    backend.activate_mask();
    let mut content = Vec::new();
    backend.render_shape(shape, plain_r(), &mut content);
    assert_eq!(draw_calls_r(&content), vec![6]);
    assert_eq!(
        content[1],
        GlCommand::StencilFunc { func: CompareFunc::Equal, reference: 1, mask: 0xff }
    );

    backend.deactivate_mask();
    let mut clearing = Vec::new();
    backend.render_shape(shape, plain_r(), &mut clearing);
    assert_eq!(draw_calls_r(&clearing), vec![3]);
    assert_eq!(
        clearing[2],
        GlCommand::StencilOp {
            fail: StencilAction::Keep,
            depth_fail: StencilAction::Keep,
            pass: StencilAction::Decrement,
        }
    );
    backend.pop_mask();
    assert_eq!(backend.state.mask.state, MaskState::NoMask);
}

#[test]
fn a_draw_without_mask_indices_is_not_issued_while_a_silhouette_is_painted() {
    let mut backend = backend_r(100, 100);
    let (shape, _) = backend.register_shape(&vec![
        triangle_r(TessDrawType::Color, 0),
        triangle_r(TessDrawType::Color, 3),
    ]);
    backend.push_mask();
    let mut out = Vec::new();
    backend.render_shape(shape, plain_r(), &mut out);
    assert_eq!(draw_calls_r(&out), vec![3]);
    let binds: Vec<&GlCommand> =
        out.iter().filter(|c| matches!(c, GlCommand::BindVertexArray(_))).collect();
    assert_eq!(binds, vec![&GlCommand::BindVertexArray(Some(VertexArrayId(9)))]);
}

#[test]
fn a_draw_without_indices_is_never_issued() {
    let mut backend = backend_r(100, 100);
    let mut empty = triangle_r(TessDrawType::Color, 0);
    empty.indices = vec![];
    let (shape, _) = backend.register_shape(&vec![empty]);
    let mut out = Vec::new();
    backend.render_shape(shape, plain_r(), &mut out);
    assert!(out.is_empty());
}

#[test]
fn a_shape_that_was_released_draws_nothing() {
    let mut backend = backend_r(100, 100);
    let (shape, _) = backend.register_shape(&vec![triangle_r(TessDrawType::Color, 3)]);
    backend.release_shape(shape);
    let mut out = Vec::new();
    backend.render_shape(shape, plain_r(), &mut out);
    assert!(out.is_empty());
    let mut out = Vec::new();
    backend.render_shape(
        ShapeHandle(ruffle_render_glow::arena::Handle { index: 99, generation: 0 }),
        plain_r(),
        &mut out,
    );
    assert!(out.is_empty());
}

#[test]
fn gradient_draw_hands_the_gradient_to_its_program() {
    let mut backend = backend_r(100, 100);
    let gradient = TessGradient {
        gradient_type: GradientType::Focal,
        repeat_mode: GradientSpread::Reflect,
        focal_point: 128,
        interpolation: GradientInterpolation::LinearRgb,
        records: vec![
            GradientRecord { ratio: 0, color: Rgba8 { r: 255, g: 0, b: 0, a: 255 } },
            GradientRecord { ratio: 255, color: Rgba8 { r: 0, g: 0, b: 255, a: 128 } },
        ],
    };
    let draw = triangle_r(TessDrawType::Gradient { matrix: unit_matrix_r(), gradient }, 3);
    let (shape, _) = backend.register_shape(&vec![draw]);
    let mut out = Vec::new();
    backend.render_shape(shape, plain_r(), &mut out);
    let first = GradientStop {
        ratio: 0,
        color: StopColor { rgba: Rgba8 { r: 255, g: 0, b: 0, a: 255 }, space: ColorSpace::Linear },
    };
    let last = GradientStop {
        ratio: 255,
        color: StopColor { rgba: Rgba8 { r: 0, g: 0, b: 255, a: 128 }, space: ColorSpace::Linear },
    };
    let mut stops = [last; 15];
    stops[0] = first;
    assert_eq!(
        out,
        vec![
            GlCommand::BindVertexArray(Some(VertexArrayId(6))),
            GlCommand::UseProgram(Pipeline::Gradient),
            GlCommand::UniformMatrix4 { location: 1, value: Mat4::Ortho { width: 100, height: 100 } },
            GlCommand::UniformMatrix4 { location: 0, value: Mat4::World(identity_r()) },
            GlCommand::UniformMultColor { location: 2, value: white_r() },
            GlCommand::UniformAddColor { location: 3, value: zero_r() },
            GlCommand::UniformMatrix3 { location: 4, value: unit_matrix_r() },
            GlCommand::Uniform1i { location: 5, value: 2 },
            GlCommand::UniformGradientRatios { location: 6, stops },
            GlCommand::UniformGradientColors { location: 7, stops },
            GlCommand::Uniform1i { location: 8, value: 2 },
            GlCommand::UniformFocalPoint { location: 9, value: 6400 },
            GlCommand::Uniform1i { location: 10, value: 1 },
            GlCommand::DrawElements { mode: Primitive::Triangles, count: 3 },
        ]
    );
}

#[test]
fn bitmap_draw_binds_its_texture() {
    let mut backend = backend_r(100, 100);
    let bitmap = register_bitmap_r(&mut backend, 4, 2);
    let fill = TessBitmap {
        matrix: unit_matrix_r(),
        handle: Some(bitmap),
        is_smoothed: false,
        is_repeating: true,
    };
    let (shape, _) = backend.register_shape(&vec![triangle_r(TessDrawType::Bitmap(fill), 3)]);
    let mut out = Vec::new();
    backend.render_shape(shape, plain_r(), &mut out);
    assert_eq!(
        out,
        vec![
            GlCommand::BindVertexArray(Some(VertexArrayId(7))),
            GlCommand::UseProgram(Pipeline::Bitmap),
            GlCommand::UniformMatrix4 { location: 1, value: Mat4::Ortho { width: 100, height: 100 } },
            GlCommand::UniformMatrix4 { location: 0, value: Mat4::World(identity_r()) },
            GlCommand::UniformMultColor { location: 2, value: white_r() },
            GlCommand::UniformAddColor { location: 3, value: zero_r() },
            GlCommand::UniformMatrix3 { location: 4, value: unit_matrix_r() },
            GlCommand::ActiveTexture(0),
            GlCommand::BindTexture(TextureId(6)),
            GlCommand::Uniform1i { location: 11, value: 0 },
            GlCommand::TexParameter { param: TextureParam::MagFilter, value: TextureValue::Nearest },
            GlCommand::TexParameter { param: TextureParam::MinFilter, value: TextureValue::Nearest },
            GlCommand::TexParameter { param: TextureParam::WrapS, value: TextureValue::Repeat },
            GlCommand::TexParameter { param: TextureParam::WrapT, value: TextureValue::Repeat },
            GlCommand::DrawElements { mode: Primitive::Triangles, count: 3 },
        ]
    );
}

#[test]
fn a_bitmap_draw_without_a_bitmap_is_set_up_but_not_issued() {
    let mut backend = backend_r(100, 100);
    let fill = TessBitmap {
        matrix: unit_matrix_r(),
        handle: None,
        is_smoothed: true,
        is_repeating: false,
    };
    let (shape, _) = backend.register_shape(&vec![
        triangle_r(TessDrawType::Bitmap(fill), 3),
        triangle_r(TessDrawType::Color, 3),
    ]);
    let mut out = Vec::new();
    backend.render_shape(shape, plain_r(), &mut out);
    assert_eq!(draw_calls_r(&out), vec![3]);
    assert_eq!(
        out[..6].to_vec(),
        vec![
            GlCommand::BindVertexArray(Some(VertexArrayId(6))),
            GlCommand::UseProgram(Pipeline::Bitmap),
            GlCommand::UniformMatrix4 { location: 1, value: Mat4::Ortho { width: 100, height: 100 } },
            GlCommand::UniformMatrix4 { location: 0, value: Mat4::World(identity_r()) },
            GlCommand::UniformMultColor { location: 2, value: white_r() },
            GlCommand::UniformAddColor { location: 3, value: zero_r() },
        ]
    );
    assert_eq!(out[6], GlCommand::BindVertexArray(Some(VertexArrayId(9))));
    assert_eq!(out[7], GlCommand::UseProgram(Pipeline::Color));
}

#[test]
fn render_bitmap_draws_the_quad_scaled_to_the_bitmap() {
    let mut backend = backend_r(100, 100);
    let bitmap = register_bitmap_r(&mut backend, 32, 16);
    let mut transform = plain_r();
    transform.matrix.tx = 21;
    transform.color_transform.a_multiply = 128;
    let mut out = Vec::new();
    backend.render_bitmap(bitmap, transform, true, PixelSnapping::Always, &mut out);
    assert_eq!(
        out,
        vec![
            GlCommand::BindVertexArray(Some(VertexArrayId(3))),
            GlCommand::UseProgram(Pipeline::Bitmap),
            GlCommand::UniformMatrix4 { location: 1, value: Mat4::Ortho { width: 100, height: 100 } },
            GlCommand::UniformMatrix4 {
                location: 0,
                value: Mat4::BitmapQuad {
                    matrix: transform.matrix,
                    snapping: PixelSnapping::Always,
                    width: 32,
                    height: 16,
                },
            },
            GlCommand::UniformMultColor {
                location: 2,
                value: ColorUnits { r: 256, g: 256, b: 256, a: 128 },
            },
            GlCommand::UniformAddColor { location: 3, value: zero_r() },
            GlCommand::UniformMatrix3 { location: 4, value: unit_matrix_r() },
            GlCommand::ActiveTexture(0),
            GlCommand::BindTexture(TextureId(6)),
            GlCommand::Uniform1i { location: 11, value: 0 },
            GlCommand::TexParameter { param: TextureParam::MagFilter, value: TextureValue::Linear },
            GlCommand::TexParameter { param: TextureParam::MinFilter, value: TextureValue::Linear },
            GlCommand::TexParameter { param: TextureParam::WrapS, value: TextureValue::ClampToEdge },
            GlCommand::TexParameter { param: TextureParam::WrapT, value: TextureValue::ClampToEdge },
            GlCommand::DrawElements { mode: Primitive::TriangleFan, count: 4 },
        ]
    );
    let mut unsmoothed = Vec::new();
    backend.render_bitmap(bitmap, transform, false, PixelSnapping::Never, &mut unsmoothed);
    assert_eq!(
        unsmoothed[6],
        GlCommand::TexParameter { param: TextureParam::MagFilter, value: TextureValue::Nearest }
    );
}

#[test]
fn render_bitmap_with_an_unknown_handle_draws_nothing() {
    let mut backend = backend_r(100, 100);
    let bitmap = register_bitmap_r(&mut backend, 2, 2);
    backend.release_bitmap(bitmap);
    let mut out = Vec::new();
    backend.render_bitmap(bitmap, plain_r(), true, PixelSnapping::Auto, &mut out);
    assert!(out.is_empty());
    assert_eq!(backend.state.active_program, None);
}

#[test]
fn draw_rect_fills_the_unit_quad() {
    let mut backend = backend_r(100, 100);
    let color = Rgba8 { r: 1, g: 2, b: 255, a: 0 };
    let mut out = Vec::new();
    backend.draw_rect(color, identity_r(), &mut out);
    assert_eq!(
        out,
        vec![
            GlCommand::UseProgram(Pipeline::Color),
            GlCommand::UniformMatrix4 { location: 1, value: Mat4::Ortho { width: 100, height: 100 } },
            GlCommand::UniformMatrix4 { location: 0, value: Mat4::World(identity_r()) },
            GlCommand::UniformMultColor {
                location: 2,
                value: ColorUnits { r: 65280, g: 130560, b: 16646400, a: 0 },
            },
            GlCommand::UniformAddColor { location: 3, value: zero_r() },
            GlCommand::BindVertexArray(Some(VertexArrayId(0))),
            GlCommand::DrawElements { mode: Primitive::TriangleFan, count: 4 },
        ]
    );
}

#[test]
fn lines_are_moved_by_half_a_pixel() {
    let mut backend = backend_r(100, 100);
    let color = Rgba8 { r: 0, g: 0, b: 0, a: 255 };
    let mut matrix = identity_r();
    matrix.tx = 100;
    matrix.ty = -5;
    let mut moved = matrix;
    moved.tx = 110;
    moved.ty = 5;
    let mut out = Vec::new();
    backend.draw_line(color, matrix, &mut out);
    assert_eq!(out[2], GlCommand::UniformMatrix4 { location: 0, value: Mat4::World(moved) });
    assert_eq!(out.last(), Some(&GlCommand::DrawElements { mode: Primitive::LineStrip, count: 2 }));
    let mut out = Vec::new();
    backend.draw_line_rect(color, matrix, &mut out);
    assert_eq!(
        out,
        vec![
            GlCommand::BindVertexArray(Some(VertexArrayId(0))),
            GlCommand::DrawElements { mode: Primitive::LineLoop, count: 4 },
        ]
    );
    matrix.ty = 15;
    moved.ty = 25;
    let mut out = Vec::new();
    backend.draw_line_rect(color, matrix, &mut out);
    assert_eq!(out[0], GlCommand::UniformMatrix4 { location: 0, value: Mat4::World(moved) });
}

#[test]
fn a_line_can_be_moved_unless_it_is_at_the_far_edge() {
    let mut matrix = identity_r();
    assert!(GlowRenderBackend::can_offset(&matrix));
    matrix.tx = i32::MAX - 10;
    assert!(GlowRenderBackend::can_offset(&matrix));
    matrix.tx = i32::MAX - 9;
    assert!(!GlowRenderBackend::can_offset(&matrix));
    matrix.tx = 0;
    matrix.ty = i32::MAX;
    assert!(!GlowRenderBackend::can_offset(&matrix));
}

#[test]
fn switching_pipelines_sets_the_view_matrix_and_the_colors_anew() {
    let mut backend = backend_r(100, 100);
    let bitmap = register_bitmap_r(&mut backend, 2, 2);
    let white = Rgba8 { r: 0, g: 0, b: 0, a: 0 };
    let mut out = Vec::new();
    backend.draw_rect(white, identity_r(), &mut out);
    backend.draw_rect(white, identity_r(), &mut out);
    let uses = out.iter().filter(|c| matches!(c, GlCommand::UseProgram(_))).count();
    assert_eq!(uses, 1);
    let mut out = Vec::new();
    backend.render_bitmap(bitmap, plain_r(), true, PixelSnapping::Auto, &mut out);
    backend.draw_rect(white, identity_r(), &mut out);
    let uses: Vec<&GlCommand> =
        out.iter().filter(|c| matches!(c, GlCommand::UseProgram(_))).collect();
    assert_eq!(
        uses,
        vec![&GlCommand::UseProgram(Pipeline::Bitmap), &GlCommand::UseProgram(Pipeline::Color)]
    );
    let views = out
        .iter()
        .filter(|c| matches!(c, GlCommand::UniformMatrix4 { location: 1, .. }))
        .count();
    assert_eq!(views, 2);
    let mults = out.iter().filter(|c| matches!(c, GlCommand::UniformMultColor { .. })).count();
    assert_eq!(mults, 2);
}

#[test]
fn uniforms_a_program_lacks_are_passed_over() {
    let mut link = link_r();
    link.uniforms[2] = None;
    link.uniforms[1] = None;
    let setup = DeviceSetup {
        color_vertex: true,
        texture_vertex: true,
        color_fragment: true,
        bitmap_fragment: true,
        gradient_fragment: true,
        color: Some(link),
        bitmap: Some(link_r()),
        gradient: Some(link_r()),
    };
    let mut backend = GlowRenderBackend::new(setup, false, StageQuality::High).unwrap().0;
    backend.begin_frame(Rgba8 { r: 0, g: 0, b: 0, a: 0 });
    let mut out = Vec::new();
    backend.draw_rect(Rgba8 { r: 1, g: 1, b: 1, a: 1 }, identity_r(), &mut out);
    assert_eq!(
        out,
        vec![
            GlCommand::UseProgram(Pipeline::Color),
            GlCommand::UniformMatrix4 { location: 0, value: Mat4::World(identity_r()) },
            GlCommand::UniformAddColor { location: 3, value: zero_r() },
            GlCommand::BindVertexArray(Some(VertexArrayId(0))),
            GlCommand::DrawElements { mode: Primitive::TriangleFan, count: 4 },
        ]
    );
    assert_eq!(
        backend.state.mult_color,
        Some(ColorUnits { r: 65280, g: 65280, b: 65280, a: 65280 })
    );
}

#[test]
fn blend_brackets_its_commands() {
    let mut backend = backend_r(100, 100);
    let color = Rgba8 { r: 0, g: 0, b: 0, a: 255 };
    let inner = CommandList { commands: vec![Command::DrawRect { color, matrix: identity_r() }] };
    let mut out = Vec::new();
    backend.blend(&inner, RenderBlendMode::Builtin(BlendMode::Add), &mut out);
    assert_eq!(
        out[..2].to_vec(),
        vec![
            GlCommand::BlendEquationSeparate { rgb: BlendEquation::Add, alpha: BlendEquation::Add },
            GlCommand::BlendFuncSeparate {
                src_rgb: BlendFactor::One,
                dst_rgb: BlendFactor::One,
                src_alpha: BlendFactor::One,
                dst_alpha: BlendFactor::OneMinusSrcAlpha,
            },
        ]
    );
    assert_eq!(
        out[out.len() - 2..].to_vec(),
        vec![
            GlCommand::BlendEquationSeparate { rgb: BlendEquation::Add, alpha: BlendEquation::Add },
            GlCommand::BlendFuncSeparate {
                src_rgb: BlendFactor::One,
                dst_rgb: BlendFactor::OneMinusSrcAlpha,
                src_alpha: BlendFactor::One,
                dst_alpha: BlendFactor::OneMinusSrcAlpha,
            },
        ]
    );
    assert_eq!(draw_calls_r(&out), vec![4]);
    assert_eq!(backend.blend_modes.modes.len(), 1);

    let mut out = Vec::new();
    backend.blend(&inner, RenderBlendMode::Builtin(BlendMode::Normal), &mut out);
    assert!(!out.iter().any(|c| matches!(c, GlCommand::BlendEquationSeparate { .. })));
}

#[test]
fn command_lists_leave_the_blend_stack_as_they_found_it() {
    let mut backend = backend_r(100, 100);
    let color = Rgba8 { r: 0, g: 0, b: 0, a: 255 };
    let shader = RenderBlendMode::Shader(5);
    let list = CommandList {
        commands: vec![
            Command::Blend(
                CommandList {
                    commands: vec![
                        Command::Blend(
                            CommandList {
                                commands: vec![Command::DrawRect { color, matrix: identity_r() }],
                            },
                            shader,
                        ),
                        Command::DrawRect { color, matrix: identity_r() },
                    ],
                },
                shader,
            ),
            Command::Blend(CommandList { commands: vec![] }, RenderBlendMode::Builtin(BlendMode::Add)),
        ],
    };
    let before = backend.blend_modes.modes.clone();
    let mut out = Vec::new();
    backend.execute(&list, &mut out);
    assert_eq!(backend.blend_modes.modes, before);
    // normal to shader, shader back to normal, normal to add, add back to normal: the
    // shader group inside the shader group changes nothing.
    let setups = out.iter().filter(|c| matches!(c, GlCommand::BlendEquationSeparate { .. })).count();
    assert_eq!(setups, 4);
    let entries: Vec<BitmapCacheEntry> = Vec::new();
    backend.submit_frame(color, &list, &entries);
    assert_eq!(backend.blend_modes.modes, before);
}

#[test]
fn alpha_mask_draws_the_maskee_and_not_the_mask() {
    let mut backend = backend_r(100, 100);
    let red = Rgba8 { r: 255, g: 0, b: 0, a: 255 };
    let blue = Rgba8 { r: 0, g: 0, b: 255, a: 255 };
    let maskee = CommandList { commands: vec![Command::DrawRect { color: red, matrix: identity_r() }] };
    let mask = CommandList {
        commands: vec![
            Command::DrawRect { color: blue, matrix: identity_r() },
            Command::DrawRect { color: blue, matrix: identity_r() },
        ],
    };
    let mut out = Vec::new();
    backend.render_alpha_mask(&maskee, &mask, &mut out);
    let mut expected = Vec::new();
    let mut other = backend_r(100, 100);
    other.draw_rect(red, identity_r(), &mut expected);
    assert_eq!(out, expected);
}

#[test]
fn execute_carries_out_nested_lists_in_order() {
    let mut backend = backend_r(100, 100);
    let (shape, _) = backend.register_shape(&vec![triangle_r(TessDrawType::Color, 3)]);
    let color = Rgba8 { r: 9, g: 9, b: 9, a: 9 };
    let list = CommandList {
        commands: vec![
            Command::PushMask,
            Command::RenderShape { shape, transform: plain_r() },
            Command::ActivateMask,
            Command::Blend(
                CommandList {
                    commands: vec![
                        Command::DrawRect { color, matrix: identity_r() },
                        Command::RenderAlphaMask {
                            maskee_commands: CommandList {
                                commands: vec![Command::DrawLine { color, matrix: identity_r() }],
                            },
                            mask_commands: CommandList { commands: vec![] },
                        },
                    ],
                },
                RenderBlendMode::Builtin(BlendMode::Subtract),
            ),
            Command::DeactivateMask,
            Command::RenderShape { shape, transform: plain_r() },
            Command::PopMask,
        ],
    };
    let mut out = Vec::new();
    backend.execute(&list, &mut out);

    let mut by_hand = backend_r(100, 100);
    let (shape2, _) = by_hand.register_shape(&vec![triangle_r(TessDrawType::Color, 3)]);
    assert_eq!(shape, shape2);
    let mut expected = Vec::new();
    by_hand.push_mask();
    by_hand.render_shape(shape, plain_r(), &mut expected);
    by_hand.activate_mask();
    by_hand.push_blend_mode(RenderBlendMode::Builtin(BlendMode::Subtract), &mut expected);
    by_hand.draw_rect(color, identity_r(), &mut expected);
    by_hand.draw_line(color, identity_r(), &mut expected);
    by_hand.pop_blend_mode(&mut expected);
    by_hand.deactivate_mask();
    by_hand.render_shape(shape, plain_r(), &mut expected);
    by_hand.pop_mask();
    assert_eq!(out, expected);
    assert_eq!(draw_calls_r(&out), vec![3, 4, 2, 3]);
    assert_eq!(backend.state, by_hand.state);
    assert_eq!(backend.state.mask.depth, 0);
}

#[test]
fn execute_passes_over_mask_commands_out_of_turn() {
    let mut backend = backend_r(100, 100);
    let list = CommandList {
        commands: vec![Command::PopMask, Command::ActivateMask, Command::DeactivateMask],
    };
    let state = backend.state;
    let mut out = Vec::new();
    backend.execute(&list, &mut out);
    assert!(out.is_empty());
    assert_eq!(backend.state, state);
    assert!(!backend.try_mask(MaskOp::Pop));
    assert!(backend.try_mask(MaskOp::Push));
    assert_eq!(backend.state.mask.depth, 1);
}

#[test]
fn execute_passes_over_lines_that_cannot_be_moved() {
    let mut backend = backend_r(100, 100);
    let mut matrix = identity_r();
    matrix.ty = i32::MAX;
    let color = Rgba8 { r: 9, g: 9, b: 9, a: 9 };
    let list = CommandList {
        commands: vec![
            Command::DrawLine { color, matrix },
            Command::DrawLineRect { color, matrix },
            Command::DrawRect { color, matrix },
        ],
    };
    let mut out = Vec::new();
    backend.execute(&list, &mut out);
    assert_eq!(draw_calls_r(&out), vec![4]);
}

#[test]
fn driving_a_mask_without_drawing_asks_nothing_of_the_gpu() {
    let mut backend = backend_r(100, 100);
    backend.push_mask();
    backend.activate_mask();
    backend.deactivate_mask();
    backend.pop_mask();
    assert_eq!(backend.state.mask.depth, 0);
    assert_eq!(backend.state.mask.state, MaskState::NoMask);
    let mut out = Vec::new();
    backend.set_stencil_state(&mut out);
    assert!(out.is_empty());
    backend.draw_rect(Rgba8 { r: 0, g: 0, b: 0, a: 0 }, identity_r(), &mut out);
    assert!(!out.iter().any(|c| matches!(
        c,
        GlCommand::Enable(_)
            | GlCommand::Disable(_)
            | GlCommand::StencilFunc { .. }
            | GlCommand::StencilOp { .. }
            | GlCommand::ColorMask(_)
    )));
}

#[test]
fn submit_frame_begins_draws_and_ends() {
    let mut backend = backend_r(100, 100);
    backend.end_frame();
    let color = Rgba8 { r: 9, g: 9, b: 9, a: 9 };
    let list = CommandList {
        commands: vec![
            Command::PushMask,
            Command::DrawRect { color, matrix: identity_r() },
        ],
    };
    let clear = Rgba8 { r: 255, g: 255, b: 255, a: 255 };
    let entries: Vec<BitmapCacheEntry> = Vec::new();
    let out = backend.submit_frame(clear, &list, &entries);

    let mut by_hand = backend_r(100, 100);
    let mut expected = by_hand.begin_frame(clear);
    by_hand.execute(&list, &mut expected);
    expected.extend(by_hand.end_frame());
    assert_eq!(out, expected);
    assert_eq!(out[0], GlCommand::Viewport { width: 100, height: 100 });
    assert_eq!(draw_calls_r(&out), vec![4]);
    assert_eq!(backend.state.mask.depth, 1);

    // The next frame starts with no mask open.
    let empty = CommandList { commands: vec![] };
    let next = backend.submit_frame(clear, &empty, &entries);
    assert_eq!(next.len(), 6);
    assert_eq!(backend.state.mask.depth, 0);
}

#[test]
fn what_the_backend_does_not_do_is_reported_as_unimplemented() {
    let mut backend = backend_r(100, 100);
    assert_eq!(backend.render_offscreen(), None);
    assert_eq!(
        backend.create_context3d().err(),
        Some(BitmapError::Unimplemented("createContext3D"))
    );
    assert_eq!(
        backend.compile_pixelbender_shader().err(),
        Some(BitmapError::Unimplemented("compile_pixelbender_shader"))
    );
    assert_eq!(
        backend.resolve_sync_handle(SyncHandle {}),
        Err(BitmapError::Unimplemented("Sync handle resolution"))
    );
    assert_eq!(
        backend.run_pixelbender_shader(PixelBenderShaderHandle {}).err(),
        Some(BitmapError::Unimplemented("run_pixelbender_shader"))
    );
}
