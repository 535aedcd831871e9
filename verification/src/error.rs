//! What can go wrong while a backend is set up or a GPU object is made.

use vstd::prelude::*;
use crate::text::{decimal, decimal_string, join};

verus! {

/// A failure of the backend.
#[derive(Debug, PartialEq, Eq)]
pub enum Error {
    CantCreateGLContext,
    UnableToCreateFrameBuffer,
    UnableToCreateProgram,
    UnableToCreateTexture,
    UnableToCreateShader,
    UnableToCreateRenderBuffer,
    UnableToCreateVAO,
    UnableToCreateBuffer,
    OESExtensionNotFound,
    VAOExtensionNotFound,
    /// The linker's words.
    LinkingShaderProgram(String),
    /// The place and the driver's error code.
    GLError(&'static str, u32),
}

impl Error {
    /// The failure in words.
    pub open spec fn spec_message(&self) -> Seq<char> {
        match self {
            Error::CantCreateGLContext => "Couldn't create GL context"@,
            Error::UnableToCreateFrameBuffer => "Couldn't create frame buffer"@,
            Error::UnableToCreateProgram => "Couldn't create program"@,
            Error::UnableToCreateTexture => "Couldn't create texture"@,
            Error::UnableToCreateShader => "Couldn't compile shader"@,
            Error::UnableToCreateRenderBuffer => "Couldn't create render buffer"@,
            Error::UnableToCreateVAO => "Couldn't create vertex array object"@,
            Error::UnableToCreateBuffer => "Couldn't create buffer"@,
            Error::OESExtensionNotFound => "OES_element_index_uint extension not available"@,
            Error::VAOExtensionNotFound => "VAO extension not found"@,
            Error::LinkingShaderProgram(log) => "Couldn't link shader program: "@ + log@,
            Error::GLError(place, code) => "GL Error in "@ + place@ + ": "@ + decimal(*code as nat),
        }
    }

    /// The failure in words.
    pub fn message(&self) -> (text: String)
        ensures
            text@ == self.spec_message(),
    {
        match self {
            Error::CantCreateGLContext => "Couldn't create GL context".to_owned(),
            Error::UnableToCreateFrameBuffer => "Couldn't create frame buffer".to_owned(),
            Error::UnableToCreateProgram => "Couldn't create program".to_owned(),
            Error::UnableToCreateTexture => "Couldn't create texture".to_owned(),
            Error::UnableToCreateShader => "Couldn't compile shader".to_owned(),
            Error::UnableToCreateRenderBuffer => "Couldn't create render buffer".to_owned(),
            Error::UnableToCreateVAO => "Couldn't create vertex array object".to_owned(),
            Error::UnableToCreateBuffer => "Couldn't create buffer".to_owned(),
            Error::OESExtensionNotFound => "OES_element_index_uint extension not available".to_owned(),
            Error::VAOExtensionNotFound => "VAO extension not found".to_owned(),
            Error::LinkingShaderProgram(log) => join(
                "Couldn't link shader program: ",
                log.as_str(),
            ),
            Error::GLError(place, code) => {
                let head = join("GL Error in ", place);
                let placed = join(head.as_str(), ": ");
                let number = decimal_string(*code);
                join(placed.as_str(), number.as_str())
            },
        }
    }
}

} // verus!
