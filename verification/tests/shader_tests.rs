use ruffle_render_glow::error::Error;
use ruffle_render_glow::gl::{
    ColorUnits, GlCommand, Mat4, Pipeline, Scalar, ShaderSource,
};
use ruffle_render_glow::shader::{
    color_attribute_name, position_attribute_name, shader_build_commands, ProgramLink,
    ShaderProgram, ShaderUniform, Vec4Value, NO_ATTRIBUTE, NUM_UNIFORMS, NUM_VERTEX_ATTRIBUTES,
};

const ROLES: [ShaderUniform; 12] = [
    ShaderUniform::WorldMatrix,
    ShaderUniform::ViewMatrix,
    ShaderUniform::MultColor,
    ShaderUniform::AddColor,
    ShaderUniform::TextureMatrix,
    ShaderUniform::GradientType,
    ShaderUniform::GradientRatios,
    ShaderUniform::GradientColors,
    ShaderUniform::GradientRepeatMode,
    ShaderUniform::GradientFocalPoint,
    ShaderUniform::GradientInterpolation,
    ShaderUniform::BitmapTexture,
];

#[test]
fn uniform_roles_are_numbered_in_order() {
    assert_eq!(NUM_UNIFORMS, 12);
    assert_eq!(NUM_VERTEX_ATTRIBUTES, 2);
    for (i, role) in ROLES.iter().enumerate() {
        assert_eq!(role.index(), i);
        assert_eq!(ShaderUniform::from_index(i), Some(*role));
    }
    assert_eq!(ShaderUniform::from_index(12), None);
    assert_eq!(ShaderUniform::from_index(usize::MAX), None);
}

#[test]
fn uniform_names_match_the_shader_sources() {
    let names: Vec<&str> = ROLES.iter().map(|r| r.name()).collect();
    assert_eq!(
        names,
        vec![
            "world_matrix",
            "view_matrix",
            "mult_color",
            "add_color",
            "u_matrix",
            "u_gradient_type",
            "u_ratios",
            "u_colors",
            "u_repeat_mode",
            "u_focal_point",
            "u_interpolation",
            "u_texture",
        ]
    );
    assert_eq!(position_attribute_name(), "position");
    assert_eq!(color_attribute_name(), "color");
}

#[test]
fn three_programs_are_built_from_five_shaders() {
    assert_eq!(
        shader_build_commands(),
        vec![
            GlCommand::CompileShader(ShaderSource::ColorVertex),
            GlCommand::CompileShader(ShaderSource::TextureVertex),
            GlCommand::CompileShader(ShaderSource::ColorFragment),
            GlCommand::CompileShader(ShaderSource::BitmapFragment),
            GlCommand::CompileShader(ShaderSource::GradientFragment),
            GlCommand::LinkProgram {
                pipeline: Pipeline::Color,
                vertex: ShaderSource::ColorVertex,
                fragment: ShaderSource::ColorFragment,
            },
            GlCommand::LinkProgram {
                pipeline: Pipeline::Bitmap,
                vertex: ShaderSource::TextureVertex,
                fragment: ShaderSource::BitmapFragment,
            },
            GlCommand::LinkProgram {
                pipeline: Pipeline::Gradient,
                vertex: ShaderSource::TextureVertex,
                fragment: ShaderSource::GradientFragment,
            },
        ]
    );
}

#[test]
fn a_program_counts_the_attributes_it_has() {
    let mut uniforms = [None; 12];
    uniforms[4] = Some(40);
    for (position, color, count) in [
        (Some(0), Some(1), 2),
        (Some(7), None, 1),
        (None, Some(7), 1),
        (None, None, 0),
        (Some(NO_ATTRIBUTE), Some(3), 1),
    ] {
        let program =
            ShaderProgram::new(Pipeline::Bitmap, Some(ProgramLink { uniforms, position, color }))
                .unwrap();
        assert_eq!(program.pipeline, Pipeline::Bitmap);
        assert_eq!(program.uniforms, uniforms);
        assert_eq!(program.vertex_position_location, position.unwrap_or(NO_ATTRIBUTE));
        assert_eq!(program.vertex_color_location, color.unwrap_or(NO_ATTRIBUTE));
        assert_eq!(program.num_vertex_attributes, count);
        assert_eq!(program.location(ShaderUniform::TextureMatrix), Some(40));
        assert_eq!(program.location(ShaderUniform::WorldMatrix), None);
    }
}

#[test]
fn a_program_that_could_not_be_made_is_an_error() {
    assert_eq!(ShaderProgram::new(Pipeline::Color, None), Err(Error::UnableToCreateProgram));
}

#[test]
fn setting_a_uniform_the_program_lacks_is_a_no_op() {
    let program = ShaderProgram::new(
        Pipeline::Color,
        Some(ProgramLink { uniforms: [None; 12], position: None, color: None }),
    )
    .unwrap();
    let o = Scalar::one();
    let mut out = Vec::new();
    program.uniform1i(ShaderUniform::GradientType, 1, &mut out);
    program.uniform1f(ShaderUniform::GradientFocalPoint, 5, &mut out);
    program.uniform4fv(
        ShaderUniform::MultColor,
        Vec4Value::Mult(ColorUnits { r: 1, g: 1, b: 1, a: 1 }),
        &mut out,
    );
    program.uniform_matrix3fv(ShaderUniform::TextureMatrix, [[o; 3]; 3], &mut out);
    program.uniform_matrix4fv(ShaderUniform::ViewMatrix, Mat4::Identity, &mut out);
    assert!(out.is_empty());
}

#[test]
fn setting_a_uniform_uses_its_location() {
    let mut uniforms = [None; 12];
    for (i, slot) in uniforms.iter_mut().enumerate() {
        *slot = Some(100 + i as u32);
    }
    let program = ShaderProgram::new(
        Pipeline::Gradient,
        Some(ProgramLink { uniforms, position: Some(0), color: None }),
    )
    .unwrap();
    let o = Scalar::one();
    let units = ColorUnits { r: 1, g: 2, b: 3, a: 4 };
    let mut out = Vec::new();
    program.uniform1i(ShaderUniform::BitmapTexture, 0, &mut out);
    program.uniform1f(ShaderUniform::GradientFocalPoint, -12544, &mut out);
    program.uniform4fv(ShaderUniform::MultColor, Vec4Value::Mult(units), &mut out);
    program.uniform4fv(ShaderUniform::AddColor, Vec4Value::Add(units), &mut out);
    program.uniform_matrix3fv(ShaderUniform::TextureMatrix, [[o; 3]; 3], &mut out);
    program.uniform_matrix4fv(ShaderUniform::WorldMatrix, Mat4::ClipSpaceQuad, &mut out);
    assert_eq!(
        out,
        vec![
            GlCommand::Uniform1i { location: 111, value: 0 },
            GlCommand::UniformFocalPoint { location: 109, value: -12544 },
            GlCommand::UniformMultColor { location: 102, value: units },
            GlCommand::UniformAddColor { location: 103, value: units },
            GlCommand::UniformMatrix3 { location: 104, value: [[o; 3]; 3] },
            GlCommand::UniformMatrix4 { location: 100, value: Mat4::ClipSpaceQuad },
        ]
    );
}
