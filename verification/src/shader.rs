//! The three shader programs: what they are linked from, where their uniforms and
//! attributes are, and the calls that set a uniform.

use vstd::prelude::*;
use crate::error::Error;
use crate::gl::{ColorUnits, GlCommand, GradientStop, Mat4, Pipeline, Scalar, ShaderSource};

verus! {

/// The roles a uniform can play. Each program has some of them.
#[derive(Clone, Copy, Debug, PartialEq, Eq, Structural)]
pub enum ShaderUniform {
    WorldMatrix,
    ViewMatrix,
    MultColor,
    AddColor,
    TextureMatrix,
    GradientType,
    GradientRatios,
    GradientColors,
    GradientRepeatMode,
    GradientFocalPoint,
    GradientInterpolation,
    BitmapTexture,
}

/// How many roles there are.
pub const NUM_UNIFORMS: usize = 12;

/// How many vertex attributes a program can have: a position and a color.
pub const NUM_VERTEX_ATTRIBUTES: u32 = 2;

/// The attribute location that stands for "the program has no such attribute".
pub const NO_ATTRIBUTE: u32 = 0xffff_ffff;

impl ShaderUniform {
    /// The place of the role in a program's table of locations.
    pub open spec fn spec_index(self) -> int {
        match self {
            ShaderUniform::WorldMatrix => 0,
            ShaderUniform::ViewMatrix => 1,
            ShaderUniform::MultColor => 2,
            ShaderUniform::AddColor => 3,
            ShaderUniform::TextureMatrix => 4,
            ShaderUniform::GradientType => 5,
            ShaderUniform::GradientRatios => 6,
            ShaderUniform::GradientColors => 7,
            ShaderUniform::GradientRepeatMode => 8,
            ShaderUniform::GradientFocalPoint => 9,
            ShaderUniform::GradientInterpolation => 10,
            ShaderUniform::BitmapTexture => 11,
        }
    }

    /// The place of the role in a program's table of locations.
    pub fn index(self) -> (i: usize)
        ensures
            i == self.spec_index(),
            i < NUM_UNIFORMS,
    {
        match self {
            ShaderUniform::WorldMatrix => 0,
            ShaderUniform::ViewMatrix => 1,
            ShaderUniform::MultColor => 2,
            ShaderUniform::AddColor => 3,
            ShaderUniform::TextureMatrix => 4,
            ShaderUniform::GradientType => 5,
            ShaderUniform::GradientRatios => 6,
            ShaderUniform::GradientColors => 7,
            ShaderUniform::GradientRepeatMode => 8,
            ShaderUniform::GradientFocalPoint => 9,
            ShaderUniform::GradientInterpolation => 10,
            ShaderUniform::BitmapTexture => 11,
        }
    }

    /// The role at place `i`, if there is one.
    pub fn from_index(i: usize) -> (role: Option<ShaderUniform>)
        ensures
            i < NUM_UNIFORMS <==> role.is_some(),
            role matches Some(r) ==> r.spec_index() == i,
    {
        match i {
            0 => Some(ShaderUniform::WorldMatrix),
            1 => Some(ShaderUniform::ViewMatrix),
            2 => Some(ShaderUniform::MultColor),
            3 => Some(ShaderUniform::AddColor),
            4 => Some(ShaderUniform::TextureMatrix),
            5 => Some(ShaderUniform::GradientType),
            6 => Some(ShaderUniform::GradientRatios),
            7 => Some(ShaderUniform::GradientColors),
            8 => Some(ShaderUniform::GradientRepeatMode),
            9 => Some(ShaderUniform::GradientFocalPoint),
            10 => Some(ShaderUniform::GradientInterpolation),
            11 => Some(ShaderUniform::BitmapTexture),
            _ => None,
        }
    }

    /// The name of the uniform in the shader sources.
    pub fn name(self) -> (name: &'static str)
        ensures
            name@ == self.spec_name(),
    {
        match self {
            ShaderUniform::WorldMatrix => "world_matrix",
            ShaderUniform::ViewMatrix => "view_matrix",
            ShaderUniform::MultColor => "mult_color",
            ShaderUniform::AddColor => "add_color",
            ShaderUniform::TextureMatrix => "u_matrix",
            ShaderUniform::GradientType => "u_gradient_type",
            ShaderUniform::GradientRatios => "u_ratios",
            ShaderUniform::GradientColors => "u_colors",
            ShaderUniform::GradientRepeatMode => "u_repeat_mode",
            ShaderUniform::GradientFocalPoint => "u_focal_point",
            ShaderUniform::GradientInterpolation => "u_interpolation",
            ShaderUniform::BitmapTexture => "u_texture",
        }
    }

    /// The name of the uniform in the shader sources.
    pub open spec fn spec_name(self) -> Seq<char> {
        match self {
            ShaderUniform::WorldMatrix => "world_matrix"@,
            ShaderUniform::ViewMatrix => "view_matrix"@,
            ShaderUniform::MultColor => "mult_color"@,
            ShaderUniform::AddColor => "add_color"@,
            ShaderUniform::TextureMatrix => "u_matrix"@,
            ShaderUniform::GradientType => "u_gradient_type"@,
            ShaderUniform::GradientRatios => "u_ratios"@,
            ShaderUniform::GradientColors => "u_colors"@,
            ShaderUniform::GradientRepeatMode => "u_repeat_mode"@,
            ShaderUniform::GradientFocalPoint => "u_focal_point"@,
            ShaderUniform::GradientInterpolation => "u_interpolation"@,
            ShaderUniform::BitmapTexture => "u_texture"@,
        }
    }
}

/// The name of the position attribute in the vertex shaders.
pub fn position_attribute_name() -> (name: &'static str)
    ensures
        name@ == "position"@,
{
    "position"
}

/// The name of the color attribute in the vertex shaders.
pub fn color_attribute_name() -> (name: &'static str)
    ensures
        name@ == "color"@,
{
    "color"
}

/// The vertex and fragment source of a pipeline.
pub open spec fn pipeline_sources(pipeline: Pipeline) -> (ShaderSource, ShaderSource) {
    match pipeline {
        Pipeline::Color => (ShaderSource::ColorVertex, ShaderSource::ColorFragment),
        Pipeline::Bitmap => (ShaderSource::TextureVertex, ShaderSource::BitmapFragment),
        Pipeline::Gradient => (ShaderSource::TextureVertex, ShaderSource::GradientFragment),
    }
}

/// The link call of a pipeline.
pub open spec fn link_command(pipeline: Pipeline) -> GlCommand {
    GlCommand::LinkProgram {
        pipeline,
        vertex: pipeline_sources(pipeline).0,
        fragment: pipeline_sources(pipeline).1,
    }
}

/// What has to be built before a backend can be made: the five sources compiled, then
/// the programs of the color, the bitmap and the gradient pipeline linked.
pub open spec fn build_commands() -> Seq<GlCommand> {
    seq![
        GlCommand::CompileShader(ShaderSource::ColorVertex),
        GlCommand::CompileShader(ShaderSource::TextureVertex),
        GlCommand::CompileShader(ShaderSource::ColorFragment),
        GlCommand::CompileShader(ShaderSource::BitmapFragment),
        GlCommand::CompileShader(ShaderSource::GradientFragment),
        link_command(Pipeline::Color),
        link_command(Pipeline::Bitmap),
        link_command(Pipeline::Gradient),
    ]
}

/// The calls that compile the shaders and link the three programs.
pub fn shader_build_commands() -> (out: Vec<GlCommand>)
    ensures
        out@ == build_commands(),
{
    let mut out = Vec::new();
    out.push(GlCommand::CompileShader(ShaderSource::ColorVertex));
    out.push(GlCommand::CompileShader(ShaderSource::TextureVertex));
    out.push(GlCommand::CompileShader(ShaderSource::ColorFragment));
    out.push(GlCommand::CompileShader(ShaderSource::BitmapFragment));
    out.push(GlCommand::CompileShader(ShaderSource::GradientFragment));
    out.push(
        GlCommand::LinkProgram {
            pipeline: Pipeline::Color,
            vertex: ShaderSource::ColorVertex,
            fragment: ShaderSource::ColorFragment,
        },
    );
    out.push(
        GlCommand::LinkProgram {
            pipeline: Pipeline::Bitmap,
            vertex: ShaderSource::TextureVertex,
            fragment: ShaderSource::BitmapFragment,
        },
    );
    out.push(
        GlCommand::LinkProgram {
            pipeline: Pipeline::Gradient,
            vertex: ShaderSource::TextureVertex,
            fragment: ShaderSource::GradientFragment,
        },
    );
    out
}

/// What the driver said of a linked program: the location of each uniform role, in the
/// order of the roles, and of the two attributes. `None` is "the program has none".
#[derive(Clone, Copy, Debug, PartialEq, Eq)]
pub struct ProgramLink {
    pub uniforms: [Option<u32>; 12],
    pub position: Option<u32>,
    pub color: Option<u32>,
}

/// A linked program. It does not change once made.
#[derive(Clone, Copy, Debug, PartialEq, Eq)]
pub struct ShaderProgram {
    pub pipeline: Pipeline,
    pub uniforms: [Option<u32>; 12],
    pub vertex_position_location: u32,
    pub vertex_color_location: u32,
    pub num_vertex_attributes: u32,
}

/// The attribute location kept for what the driver said.
pub open spec fn attribute_location(found: Option<u32>) -> u32 {
    match found {
        Some(location) => location,
        None => NO_ATTRIBUTE,
    }
}

/// One if the location is that of an attribute, else zero.
pub open spec fn attribute_count(location: u32) -> int {
    if location != NO_ATTRIBUTE {
        1
    } else {
        0
    }
}

/// The program of `pipeline` that the driver linked as `link` says.
pub open spec fn linked_program(pipeline: Pipeline, link: ProgramLink) -> ShaderProgram {
    ShaderProgram {
        pipeline,
        uniforms: link.uniforms,
        vertex_position_location: attribute_location(link.position),
        vertex_color_location: attribute_location(link.color),
        num_vertex_attributes: (attribute_count(attribute_location(link.position))
            + attribute_count(attribute_location(link.color))) as u32,
    }
}

impl ShaderProgram {
    /// The attribute count is that of the attributes the program has.
    pub open spec fn wf(self) -> bool {
        self.num_vertex_attributes == attribute_count(self.vertex_position_location)
            + attribute_count(self.vertex_color_location)
    }

    /// The location of `uniform` in this program, if it has that uniform.
    pub open spec fn spec_location(self, uniform: ShaderUniform) -> Option<u32> {
        self.uniforms@[uniform.spec_index()]
    }

    /// The program of `pipeline` as the driver linked it, or the error for a program
    /// object that could not be made, which is what `None` stands for.
    pub fn new(pipeline: Pipeline, link: Option<ProgramLink>) -> (made: Result<ShaderProgram, Error>)
        ensures
            link.is_none() <==> made.is_err(),
            link.is_none() ==> made == Err::<ShaderProgram, Error>(Error::UnableToCreateProgram),
            link matches Some(l) ==> made matches Ok(p) && p == linked_program(pipeline, l)
                && p.wf(),
    {
        match link {
            None => Err(Error::UnableToCreateProgram),
            Some(l) => {
                let vertex_position_location = match l.position {
                    Some(location) => location,
                    None => NO_ATTRIBUTE,
                };
                let vertex_color_location = match l.color {
                    Some(location) => location,
                    None => NO_ATTRIBUTE,
                };
                let positions: u32 = if vertex_position_location != NO_ATTRIBUTE {
                    1
                } else {
                    0
                };
                let colors: u32 = if vertex_color_location != NO_ATTRIBUTE {
                    1
                } else {
                    0
                };
                Ok(
                    ShaderProgram {
                        pipeline,
                        uniforms: l.uniforms,
                        vertex_position_location,
                        vertex_color_location,
                        num_vertex_attributes: positions + colors,
                    },
                )
            },
        }
    }

    /// The location of `uniform` in this program, if it has that uniform.
    pub fn location(&self, uniform: ShaderUniform) -> (found: Option<u32>)
        ensures
            found == self.spec_location(uniform),
    {
        self.uniforms[uniform.index()]
    }

    /// Sets an integer uniform. Nothing is asked of the GPU if the program has no such
    /// uniform.
    pub fn uniform1i(&self, uniform: ShaderUniform, value: i32, out: &mut Vec<GlCommand>)
        ensures
            final(out)@ == old(out)@ + set_uniform(
                self.spec_location(uniform),
                UniformValue::Int(value),
            ),
    {
        if let Some(location) = self.location(uniform) {
            out.push(GlCommand::Uniform1i { location, value });
        }
    }

    /// Sets a gradient's focal point, in 12800ths. Nothing is asked of the GPU if the
    /// program has no such uniform.
    pub fn uniform1f(&self, uniform: ShaderUniform, value: i32, out: &mut Vec<GlCommand>)
        ensures
            final(out)@ == old(out)@ + set_uniform(
                self.spec_location(uniform),
                UniformValue::FocalPoint(value),
            ),
    {
        if let Some(location) = self.location(uniform) {
            out.push(GlCommand::UniformFocalPoint { location, value });
        }
    }

    /// Sets the positions of a gradient's stops. Nothing is asked of the GPU if the
    /// program has no such uniform.
    pub fn uniform1fv(
        &self,
        uniform: ShaderUniform,
        stops: [GradientStop; 15],
        out: &mut Vec<GlCommand>,
    )
        ensures
            final(out)@ == old(out)@ + set_uniform(
                self.spec_location(uniform),
                UniformValue::Ratios(stops),
            ),
    {
        if let Some(location) = self.location(uniform) {
            out.push(GlCommand::UniformGradientRatios { location, stops });
        }
    }

    /// Sets a color uniform or the colors of a gradient's stops. Nothing is asked of the
    /// GPU if the program has no such uniform.
    pub fn uniform4fv(&self, uniform: ShaderUniform, value: Vec4Value, out: &mut Vec<GlCommand>)
        ensures
            final(out)@ == old(out)@ + set_uniform(
                self.spec_location(uniform),
                UniformValue::Vec4(value),
            ),
    {
        if let Some(location) = self.location(uniform) {
            match value {
                Vec4Value::Mult(value) => out.push(GlCommand::UniformMultColor { location, value }),
                Vec4Value::Add(value) => out.push(GlCommand::UniformAddColor { location, value }),
                Vec4Value::Stops(stops) => out.push(
                    GlCommand::UniformGradientColors { location, stops },
                ),
            }
        }
    }

    /// Sets a 3x3 matrix uniform. Nothing is asked of the GPU if the program has no such
    /// uniform.
    pub fn uniform_matrix3fv(
        &self,
        uniform: ShaderUniform,
        value: [[Scalar; 3]; 3],
        out: &mut Vec<GlCommand>,
    )
        ensures
            final(out)@ == old(out)@ + set_uniform(
                self.spec_location(uniform),
                UniformValue::Matrix3(value),
            ),
    {
        if let Some(location) = self.location(uniform) {
            out.push(GlCommand::UniformMatrix3 { location, value });
        }
    }

    /// Sets a 4x4 matrix uniform. Nothing is asked of the GPU if the program has no such
    /// uniform.
    pub fn uniform_matrix4fv(&self, uniform: ShaderUniform, value: Mat4, out: &mut Vec<GlCommand>)
        ensures
            final(out)@ == old(out)@ + set_uniform(
                self.spec_location(uniform),
                UniformValue::Matrix4(value),
            ),
    {
        if let Some(location) = self.location(uniform) {
            out.push(GlCommand::UniformMatrix4 { location, value });
        }
    }
}

/// A group of four-component values, by what it is for.
#[derive(Clone, Copy, Debug, PartialEq, Eq)]
pub enum Vec4Value {
    /// A multiply color in 256ths.
    Mult(ColorUnits),
    /// An add color in 255ths.
    Add(ColorUnits),
    /// The colors of a gradient's stops.
    Stops([GradientStop; 15]),
}

/// What a uniform can be set to.
#[derive(Clone, Copy, Debug, PartialEq, Eq)]
pub enum UniformValue {
    Int(i32),
    FocalPoint(i32),
    /// The positions of a gradient's stops.
    Ratios([GradientStop; 15]),
    Vec4(Vec4Value),
    Matrix3([[Scalar; 3]; 3]),
    Matrix4(Mat4),
}

/// The driver call that sets the uniform at `location` to `value`.
pub open spec fn uniform_command(location: u32, value: UniformValue) -> GlCommand {
    match value {
        UniformValue::Int(value) => GlCommand::Uniform1i { location, value },
        UniformValue::FocalPoint(value) => GlCommand::UniformFocalPoint { location, value },
        UniformValue::Ratios(stops) => GlCommand::UniformGradientRatios { location, stops },
        UniformValue::Vec4(Vec4Value::Mult(value)) => GlCommand::UniformMultColor {
            location,
            value,
        },
        UniformValue::Vec4(Vec4Value::Add(value)) => GlCommand::UniformAddColor {
            location,
            value,
        },
        UniformValue::Vec4(Vec4Value::Stops(stops)) => GlCommand::UniformGradientColors {
            location,
            stops,
        },
        UniformValue::Matrix3(value) => GlCommand::UniformMatrix3 { location, value },
        UniformValue::Matrix4(value) => GlCommand::UniformMatrix4 { location, value },
    }
}

/// The driver calls for setting a uniform: one where the program has the uniform, none
/// where it has not.
pub open spec fn set_uniform(location: Option<u32>, value: UniformValue) -> Seq<GlCommand> {
    match location {
        Some(location) => seq![uniform_command(location, value)],
        None => seq![],
    }
}

} // verus!
