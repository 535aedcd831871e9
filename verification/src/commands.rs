//! The display list: the drawing commands of a frame, in the order they are carried
//! out.

use vstd::prelude::*;
use crate::blend::RenderBlendMode;
use crate::gl::{Matrix, PixelSnapping, Rgba8, Transform};
use crate::mesh::{BitmapHandle, ShapeHandle};

verus! {

/// One drawing command.
#[derive(Debug, PartialEq, Eq)]
pub enum Command {
    RenderBitmap {
        bitmap: BitmapHandle,
        transform: Transform,
        smoothing: bool,
        pixel_snapping: PixelSnapping,
    },
    RenderShape { shape: ShapeHandle, transform: Transform },
    /// A filled unit square under `matrix`.
    DrawRect { color: Rgba8, matrix: Matrix },
    /// A hairline from the origin to the unit point under `matrix`.
    DrawLine { color: Rgba8, matrix: Matrix },
    /// The outline of the unit square under `matrix`, as hairlines.
    DrawLineRect { color: Rgba8, matrix: Matrix },
    PushMask,
    ActivateMask,
    DeactivateMask,
    PopMask,
    /// The commands of the list, drawn in a blend mode.
    Blend(CommandList, RenderBlendMode),
    /// Commands to be seen through the alpha of what other commands draw.
    RenderAlphaMask { maskee_commands: CommandList, mask_commands: CommandList },
}

/// A list of drawing commands.
#[derive(Debug, PartialEq, Eq)]
pub struct CommandList {
    pub commands: Vec<Command>,
}

/// A display object whose picture is to be kept as a bitmap.
#[derive(Debug, PartialEq, Eq)]
pub struct BitmapCacheEntry {
    pub handle: BitmapHandle,
    pub commands: CommandList,
    pub clear: Rgba8,
}

impl View for CommandList {
    type V = Seq<Command>;

    open spec fn view(&self) -> Seq<Command> {
        self.commands@
    }
}

} // verus!
