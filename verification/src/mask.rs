//! Nested clipping masks on the stencil buffer.
//!
//! A mask goes through four calls: push it and paint its silhouette into the stencil
//! buffer, activate it and paint what it clips, deactivate it and paint the silhouette
//! once more to take it out of the stencil buffer, pop it. Masks nest: a push is also
//! legal while the content of an outer mask is painted.

use vstd::prelude::*;
use crate::gl::{Capability, CompareFunc, GlCommand, StencilAction};

verus! {

/// The phase of the innermost mask.
#[derive(Clone, Copy, Debug, PartialEq, Eq, Structural)]
pub enum MaskState {
    NoMask,
    DrawingMaskStencil,
    DrawingMaskedContent,
    ClearingMaskStencil,
}

/// One of the four calls that drive a mask.
#[derive(Clone, Copy, Debug, PartialEq, Eq, Structural)]
pub enum MaskOp {
    Push,
    Activate,
    Deactivate,
    Pop,
}

/// The stencil setup that belongs to a phase at a nesting depth.
#[derive(Clone, Copy, Debug, PartialEq, Eq, Structural)]
pub struct StencilProgram {
    /// Whether fragments are held against the stencil buffer at all.
    pub test: bool,
    pub func: CompareFunc,
    pub reference: u32,
    /// What a passing fragment does to the stencil value.
    pub pass: StencilAction,
    pub color_writes: bool,
}

/// The bits of a stencil value that take part in a comparison.
pub const STENCIL_VALUE_MASK: u32 = 0xff;

/// The stencil setup for `state` with `depth` masks open.
///
/// With no mask the test is off and color is written. While a silhouette is painted no
/// fragment is rejected, each one increments the stencil value, and color is not
/// written. Masked content is written where the stencil value equals the depth. While a
/// silhouette is taken out, fragments where the value equals the depth decrement it.
pub open spec fn stencil_program(state: MaskState, depth: u32) -> StencilProgram {
    match state {
        MaskState::NoMask => StencilProgram {
            test: false,
            func: CompareFunc::Always,
            reference: 0,
            pass: StencilAction::Keep,
            color_writes: true,
        },
        MaskState::DrawingMaskStencil => StencilProgram {
            test: false,
            func: CompareFunc::Always,
            reference: if depth > 0 { (depth - 1) as u32 } else { 0 },
            pass: StencilAction::Increment,
            color_writes: false,
        },
        MaskState::DrawingMaskedContent => StencilProgram {
            test: true,
            func: CompareFunc::Equal,
            reference: depth,
            pass: StencilAction::Keep,
            color_writes: true,
        },
        MaskState::ClearingMaskStencil => StencilProgram {
            test: true,
            func: CompareFunc::Equal,
            reference: depth,
            pass: StencilAction::Decrement,
            color_writes: false,
        },
    }
}

/// The driver calls that install `program` for `state`: the test switch, then, in any
/// phase but `NoMask`, the comparison and the actions, then the color mask.
pub open spec fn stencil_commands(state: MaskState, program: StencilProgram) -> Seq<GlCommand> {
    let switch = if program.test {
        GlCommand::Enable(Capability::StencilTest)
    } else {
        GlCommand::Disable(Capability::StencilTest)
    };
    if state == MaskState::NoMask {
        seq![switch, GlCommand::ColorMask(program.color_writes)]
    } else {
        seq![
            switch,
            GlCommand::StencilFunc {
                func: program.func,
                reference: program.reference,
                mask: STENCIL_VALUE_MASK,
            },
            GlCommand::StencilOp {
                fail: StencilAction::Keep,
                depth_fail: StencilAction::Keep,
                pass: program.pass,
            },
            GlCommand::ColorMask(program.color_writes),
        ]
    }
}

/// The mask state machine: the phase, the number of open masks, and the phase and depth
/// whose stencil setup the GPU holds, if that is known.
#[derive(Clone, Copy, Debug, PartialEq, Eq)]
pub struct MaskTracker {
    pub state: MaskState,
    pub depth: u32,
    pub programmed: Option<(MaskState, u32)>,
}

impl MaskTracker {
    /// No mask is open exactly in `NoMask`.
    pub open spec fn wf(self) -> bool {
        (self.depth == 0) <==> (self.state == MaskState::NoMask)
    }

    /// The GPU's stencil setup is not known to be the one of the current phase and depth.
    pub open spec fn dirty(self) -> bool {
        self.programmed != Some((self.state, self.depth))
    }

    /// Whether `op` may come next.
    pub open spec fn legal(self, op: MaskOp) -> bool {
        match op {
            MaskOp::Push => (self.state == MaskState::NoMask || self.state
                == MaskState::DrawingMaskedContent) && self.depth < u32::MAX,
            MaskOp::Activate => self.state == MaskState::DrawingMaskStencil && self.depth > 0,
            MaskOp::Deactivate => self.state == MaskState::DrawingMaskedContent && self.depth > 0,
            MaskOp::Pop => self.state == MaskState::ClearingMaskStencil && self.depth > 0,
        }
    }

    /// The tracker after a legal `op`. The GPU is not touched.
    pub open spec fn step(self, op: MaskOp) -> MaskTracker {
        match op {
            MaskOp::Push => MaskTracker {
                state: MaskState::DrawingMaskStencil,
                depth: (self.depth + 1) as u32,
                programmed: self.programmed,
            },
            MaskOp::Activate => MaskTracker {
                state: MaskState::DrawingMaskedContent,
                depth: self.depth,
                programmed: self.programmed,
            },
            MaskOp::Deactivate => MaskTracker {
                state: MaskState::ClearingMaskStencil,
                depth: self.depth,
                programmed: self.programmed,
            },
            MaskOp::Pop => MaskTracker {
                state: if self.depth == 1 {
                    MaskState::NoMask
                } else {
                    MaskState::DrawingMaskedContent
                },
                depth: (self.depth - 1) as u32,
                programmed: self.programmed,
            },
        }
    }

    /// Whether each of `ops` is legal when its turn comes.
    pub open spec fn legal_run(self, ops: Seq<MaskOp>) -> bool
        decreases ops.len(),
    {
        ops.len() == 0 || (self.legal(ops[0]) && self.step(ops[0]).legal_run(ops.drop_first()))
    }

    /// The tracker after `ops`, one after the other.
    pub open spec fn run(self, ops: Seq<MaskOp>) -> MaskTracker
        decreases ops.len(),
    {
        if ops.len() == 0 {
            self
        } else {
            self.step(ops[0]).run(ops.drop_first())
        }
    }

    /// The tracker after the GPU has been brought up to date.
    pub open spec fn flushed(self) -> MaskTracker {
        MaskTracker { state: self.state, depth: self.depth, programmed: Some((self.state, self.depth)) }
    }

    /// The driver calls that bring the GPU up to date: none unless `dirty`.
    pub open spec fn flush_commands(self) -> Seq<GlCommand> {
        if self.dirty() {
            stencil_commands(self.state, stencil_program(self.state, self.depth))
        } else {
            seq![]
        }
    }

    /// A tracker with no mask open and nothing known of the GPU.
    pub fn new() -> (t: MaskTracker)
        ensures
            t.state == MaskState::NoMask,
            t.depth == 0,
            t.programmed.is_none(),
            t.wf(),
            t.dirty(),
    {
        MaskTracker { state: MaskState::NoMask, depth: 0, programmed: None }
    }

    /// Whether `op` may come next.
    pub fn is_legal(&self, op: MaskOp) -> (ok: bool)
        ensures
            ok == self.legal(op),
    {
        match op {
            MaskOp::Push => (self.state == MaskState::NoMask || self.state
                == MaskState::DrawingMaskedContent) && self.depth < u32::MAX,
            MaskOp::Activate => self.state == MaskState::DrawingMaskStencil && self.depth > 0,
            MaskOp::Deactivate => self.state == MaskState::DrawingMaskedContent && self.depth > 0,
            MaskOp::Pop => self.state == MaskState::ClearingMaskStencil && self.depth > 0,
        }
    }

    /// Makes the transition `op`.
    pub fn apply(&mut self, op: MaskOp)
        requires
            old(self).wf(),
            old(self).legal(op),
        ensures
            *final(self) == old(self).step(op),
            final(self).wf(),
    {
        match op {
            MaskOp::Push => self.push_mask(),
            MaskOp::Activate => self.activate_mask(),
            MaskOp::Deactivate => self.deactivate_mask(),
            MaskOp::Pop => self.pop_mask(),
        }
    }

    /// Opens a mask: one level deeper, its silhouette comes next.
    pub fn push_mask(&mut self)
        requires
            old(self).wf(),
            old(self).legal(MaskOp::Push),
        ensures
            *final(self) == old(self).step(MaskOp::Push),
            final(self).state == MaskState::DrawingMaskStencil,
            final(self).depth == old(self).depth + 1,
            final(self).wf(),
    {
        self.depth = self.depth + 1;
        self.state = MaskState::DrawingMaskStencil;
    }

    /// The silhouette is done: what the mask clips comes next.
    pub fn activate_mask(&mut self)
        requires
            old(self).wf(),
            old(self).legal(MaskOp::Activate),
        ensures
            *final(self) == old(self).step(MaskOp::Activate),
            final(self).state == MaskState::DrawingMaskedContent,
            final(self).depth == old(self).depth,
            final(self).wf(),
    {
        self.state = MaskState::DrawingMaskedContent;
    }

    /// The content is done: the silhouette comes once more, to be taken out.
    pub fn deactivate_mask(&mut self)
        requires
            old(self).wf(),
            old(self).legal(MaskOp::Deactivate),
        ensures
            *final(self) == old(self).step(MaskOp::Deactivate),
            final(self).state == MaskState::ClearingMaskStencil,
            final(self).depth == old(self).depth,
            final(self).wf(),
    {
        self.state = MaskState::ClearingMaskStencil;
    }

    /// Closes the mask: one level up, back in the content of the mask around it or in
    /// no mask at all.
    pub fn pop_mask(&mut self)
        requires
            old(self).wf(),
            old(self).legal(MaskOp::Pop),
        ensures
            *final(self) == old(self).step(MaskOp::Pop),
            final(self).depth == old(self).depth - 1,
            final(self).state == (if old(self).depth == 1 {
                MaskState::NoMask
            } else {
                MaskState::DrawingMaskedContent
            }),
            final(self).wf(),
    {
        self.depth = self.depth - 1;
        self.state = if self.depth == 0 {
            MaskState::NoMask
        } else {
            MaskState::DrawingMaskedContent
        };
    }

    /// Forgets what the GPU holds and closes every mask, as at the start of a frame.
    pub fn reset(&mut self)
        ensures
            final(self).state == MaskState::NoMask,
            final(self).depth == 0,
            final(self).programmed.is_none(),
            final(self).wf(),
            final(self).dirty(),
    {
        self.state = MaskState::NoMask;
        self.depth = 0;
        self.programmed = None;
    }

    /// Whether draws in this phase paint a silhouette, so that only a draw's mask
    /// indices count.
    pub fn paints_stencil(&self) -> (b: bool)
        ensures
            b == (self.state == MaskState::DrawingMaskStencil || self.state
                == MaskState::ClearingMaskStencil),
    {
        self.state == MaskState::DrawingMaskStencil || self.state == MaskState::ClearingMaskStencil
    }

    /// The stencil setup of the current phase and depth.
    pub fn program(&self) -> (p: StencilProgram)
        requires
            self.wf(),
        ensures
            p == stencil_program(self.state, self.depth),
            self.state == MaskState::DrawingMaskedContent ==> p.reference == self.depth,
    {
        match self.state {
            MaskState::NoMask => StencilProgram {
                test: false,
                func: CompareFunc::Always,
                reference: 0,
                pass: StencilAction::Keep,
                color_writes: true,
            },
            MaskState::DrawingMaskStencil => StencilProgram {
                test: false,
                func: CompareFunc::Always,
                reference: self.depth - 1,
                pass: StencilAction::Increment,
                color_writes: false,
            },
            MaskState::DrawingMaskedContent => StencilProgram {
                test: true,
                func: CompareFunc::Equal,
                reference: self.depth,
                pass: StencilAction::Keep,
                color_writes: true,
            },
            MaskState::ClearingMaskStencil => StencilProgram {
                test: true,
                func: CompareFunc::Equal,
                reference: self.depth,
                pass: StencilAction::Decrement,
                color_writes: false,
            },
        }
    }

    /// Brings the GPU's stencil setup up to date, adding the calls for it to `out`.
    /// Nothing is added when the setup of the current phase and depth is already there.
    pub fn flush(&mut self, out: &mut Vec<GlCommand>)
        requires
            old(self).wf(),
        ensures
            *final(self) == old(self).flushed(),
            final(out)@ == old(out)@ + old(self).flush_commands(),
            !final(self).dirty(),
            final(self).wf(),
    {
        let clean = match self.programmed {
            Some((state, depth)) => state == self.state && depth == self.depth,
            None => false,
        };
        if !clean {
            let program = self.program();
            if program.test {
                out.push(GlCommand::Enable(Capability::StencilTest));
            } else {
                out.push(GlCommand::Disable(Capability::StencilTest));
            }
            if self.state != MaskState::NoMask {
                out.push(
                    GlCommand::StencilFunc {
                        func: program.func,
                        reference: program.reference,
                        mask: STENCIL_VALUE_MASK,
                    },
                );
                out.push(
                    GlCommand::StencilOp {
                        fail: StencilAction::Keep,
                        depth_fail: StencilAction::Keep,
                        pass: program.pass,
                    },
                );
            }
            out.push(GlCommand::ColorMask(program.color_writes));
            self.programmed = Some((self.state, self.depth));
        }
    }
}

/// How many of `ops` are `op`.
pub open spec fn count_op(ops: Seq<MaskOp>, op: MaskOp) -> int
    decreases ops.len(),
{
    if ops.len() == 0 {
        0
    } else {
        (if ops[0] == op { 1int } else { 0int }) + count_op(ops.drop_first(), op)
    }
}

/// A legal run keeps the tracker well formed and moves the depth by its pushes less its
/// pops. So a run with as many pops as pushes ends at the depth it began at.
pub proof fn lemma_run_depth(t: MaskTracker, ops: Seq<MaskOp>)
    requires
        t.wf(),
        t.legal_run(ops),
    ensures
        t.run(ops).wf(),
        t.run(ops).depth == t.depth + count_op(ops, MaskOp::Push) - count_op(ops, MaskOp::Pop),
        count_op(ops, MaskOp::Push) == count_op(ops, MaskOp::Pop) ==> t.run(ops).depth == t.depth,
    decreases ops.len(),
{
    if ops.len() > 0 {
        lemma_run_depth(t.step(ops[0]), ops.drop_first());
    }
}

/// Whatever legal run led there: while masked content is painted, the stencil reference
/// is the nesting depth, and that depth is not zero.
pub proof fn lemma_content_reference_is_depth(t: MaskTracker, ops: Seq<MaskOp>)
    requires
        t.wf(),
        t.legal_run(ops),
        t.run(ops).state == MaskState::DrawingMaskedContent,
    ensures
        stencil_program(t.run(ops).state, t.run(ops).depth).reference == t.run(ops).depth,
        stencil_program(t.run(ops).state, t.run(ops).depth).func == CompareFunc::Equal,
        t.run(ops).depth > 0,
{
    lemma_run_depth(t, ops);
}

} // verus!
