//! The stack of blend modes. Its bottom entry is the normal mode and stays. The GPU's
//! blend setup is touched only when the mode on top changes in value.

use vstd::prelude::*;
use crate::gl::{BlendEquation, BlendFactor, GlCommand};

verus! {

/// The blend modes a display object can ask for.
#[derive(Clone, Copy, Debug, PartialEq, Eq, Structural)]
pub enum BlendMode {
    Normal,
    Layer,
    Multiply,
    Screen,
    Lighten,
    Darken,
    Difference,
    Add,
    Subtract,
    Invert,
    Alpha,
    Erase,
    Overlay,
    HardLight,
}

/// A blend mode as a command names it: a built-in one, or a shader by its number.
#[derive(Clone, Copy, Debug, PartialEq, Eq, Structural)]
pub enum RenderBlendMode {
    Builtin(BlendMode),
    Shader(u32),
}

/// One call on the stack.
#[derive(Clone, Copy, Debug, PartialEq, Eq, Structural)]
pub enum BlendOp {
    Push(RenderBlendMode),
    Pop,
}

/// The mode at the bottom of every stack.
pub open spec fn base_mode() -> RenderBlendMode {
    RenderBlendMode::Builtin(BlendMode::Normal)
}

/// Whether going from `first` to `second` leaves the GPU's blend setup as it is: the two
/// are the same mode. Modes are compared by value, built-in ones and shaders alike.
pub open spec fn same_blend_mode_spec(
    first: Option<RenderBlendMode>,
    second: RenderBlendMode,
) -> bool {
    first == Some(second)
}

/// The blend equation and the color factors of source and destination for `mode`.
/// Normal is source over destination, add is their sum, subtract is destination less
/// source. Every other mode is drawn as normal.
pub open spec fn blend_setup(mode: RenderBlendMode) -> (BlendEquation, BlendFactor, BlendFactor) {
    match mode {
        RenderBlendMode::Builtin(BlendMode::Add) => (
            BlendEquation::Add,
            BlendFactor::One,
            BlendFactor::One,
        ),
        RenderBlendMode::Builtin(BlendMode::Subtract) => (
            BlendEquation::ReverseSubtract,
            BlendFactor::One,
            BlendFactor::One,
        ),
        _ => (BlendEquation::Add, BlendFactor::One, BlendFactor::OneMinusSrcAlpha),
    }
}

/// The two driver calls that install `mode`. Alpha is always blended source over
/// destination.
pub open spec fn blend_commands(mode: RenderBlendMode) -> Seq<GlCommand> {
    let setup = blend_setup(mode);
    seq![
        GlCommand::BlendEquationSeparate { rgb: setup.0, alpha: BlendEquation::Add },
        GlCommand::BlendFuncSeparate {
            src_rgb: setup.1,
            dst_rgb: setup.2,
            src_alpha: BlendFactor::One,
            dst_alpha: BlendFactor::OneMinusSrcAlpha,
        },
    ]
}

/// A stack is never empty and its bottom is the normal mode.
pub open spec fn stack_wf(modes: Seq<RenderBlendMode>) -> bool {
    modes.len() >= 1 && modes[0] == base_mode()
}

/// The stack after `op`. A pop leaves a stack of one entry as it is.
pub open spec fn stack_step(modes: Seq<RenderBlendMode>, op: BlendOp) -> Seq<RenderBlendMode> {
    match op {
        BlendOp::Push(mode) => modes.push(mode),
        BlendOp::Pop => if modes.len() > 1 {
            modes.drop_last()
        } else {
            modes
        },
    }
}

/// Whether `op` changes the value on top of the stack, so that the GPU is set up anew.
pub open spec fn step_changes(modes: Seq<RenderBlendMode>, op: BlendOp) -> bool {
    !same_blend_mode_spec(Some(modes.last()), stack_step(modes, op).last())
}

/// The driver calls `op` asks for: the setup of the new top if the top changed in value,
/// else none.
pub open spec fn step_commands(modes: Seq<RenderBlendMode>, op: BlendOp) -> Seq<GlCommand> {
    if step_changes(modes, op) {
        blend_commands(stack_step(modes, op).last())
    } else {
        seq![]
    }
}

/// The stack after `ops`, one after the other.
pub open spec fn stack_run(modes: Seq<RenderBlendMode>, ops: Seq<BlendOp>) -> Seq<RenderBlendMode>
    decreases ops.len(),
{
    if ops.len() == 0 {
        modes
    } else {
        stack_run(stack_step(modes, ops[0]), ops.drop_first())
    }
}

/// All driver calls that `ops` ask for, in order.
pub open spec fn run_commands(modes: Seq<RenderBlendMode>, ops: Seq<BlendOp>) -> Seq<GlCommand>
    decreases ops.len(),
{
    if ops.len() == 0 {
        seq![]
    } else {
        step_commands(modes, ops[0]) + run_commands(stack_step(modes, ops[0]), ops.drop_first())
    }
}

/// The mode on top after each of `ops`.
pub open spec fn tops_after(modes: Seq<RenderBlendMode>, ops: Seq<BlendOp>) -> Seq<RenderBlendMode>
    decreases ops.len(),
{
    if ops.len() == 0 {
        seq![]
    } else {
        seq![stack_step(modes, ops[0]).last()] + tops_after(
            stack_step(modes, ops[0]),
            ops.drop_first(),
        )
    }
}

/// How many neighbours in `tops` differ in value.
pub open spec fn value_transitions(tops: Seq<RenderBlendMode>) -> int
    decreases tops.len(),
{
    if tops.len() < 2 {
        0
    } else {
        (if same_blend_mode_spec(Some(tops[0]), tops[1]) { 0int } else { 1int })
            + value_transitions(tops.drop_first())
    }
}

/// The driver calls that pushing `mode` on `modes` asks for: none if `mode` is the mode
/// on top, else the setup of `mode`.
pub open spec fn push_commands(
    modes: Seq<RenderBlendMode>,
    mode: RenderBlendMode,
) -> Seq<GlCommand> {
    if mode == modes.last() {
        seq![]
    } else {
        blend_commands(mode)
    }
}

/// The driver calls that popping `modes` asks for: none if there is nothing to pop or
/// the mode that comes to the top is the one taken away, else the setup of the mode
/// that comes to the top.
pub open spec fn pop_commands(modes: Seq<RenderBlendMode>) -> Seq<GlCommand> {
    if modes.len() < 2 || modes[modes.len() - 2] == modes.last() {
        seq![]
    } else {
        blend_commands(modes[modes.len() - 2])
    }
}

/// The blend stack.
#[derive(Debug)]
pub struct BlendStack {
    pub modes: Vec<RenderBlendMode>,
}

impl View for BlendStack {
    type V = Seq<RenderBlendMode>;

    open spec fn view(&self) -> Seq<RenderBlendMode> {
        self.modes@
    }
}

impl BlendStack {
    pub open spec fn wf(&self) -> bool {
        stack_wf(self@)
    }

    /// A stack that holds the normal mode and nothing else.
    pub fn new() -> (stack: BlendStack)
        ensures
            stack@ == seq![base_mode()],
            stack.wf(),
    {
        let mut modes = Vec::new();
        modes.push(RenderBlendMode::Builtin(BlendMode::Normal));
        BlendStack { modes }
    }

    /// The mode on top.
    pub fn current(&self) -> (mode: RenderBlendMode)
        requires
            self.wf(),
        ensures
            mode == self@.last(),
    {
        self.modes[self.modes.len() - 1]
    }

    /// Puts `mode` on top. The calls that set the GPU up for it are added to `out`
    /// unless the mode under it is the same.
    pub fn push_blend_mode(&mut self, mode: RenderBlendMode, out: &mut Vec<GlCommand>)
        requires
            old(self).wf(),
        ensures
            final(self)@ == stack_step(old(self)@, BlendOp::Push(mode)),
            final(self)@ == old(self)@.push(mode),
            final(out)@ == old(out)@ + step_commands(old(self)@, BlendOp::Push(mode)),
            final(out)@ == old(out)@ + push_commands(old(self)@, mode),
            mode == old(self)@.last() ==> final(out)@ == old(out)@,
            final(self).wf(),
    {
        let top = self.current();
        if !same_blend_mode(Some(&top), &mode) {
            apply_blend_mode(mode, out);
        }
        self.modes.push(mode);
    }

    /// Takes the mode on top away, unless it is the only one. The calls that set the
    /// GPU up for the mode that comes to the top are added to `out` unless that mode is
    /// the same as the one taken away.
    pub fn pop_blend_mode(&mut self, out: &mut Vec<GlCommand>)
        requires
            old(self).wf(),
        ensures
            final(self)@ == stack_step(old(self)@, BlendOp::Pop),
            final(out)@ == old(out)@ + step_commands(old(self)@, BlendOp::Pop),
            final(out)@ == old(out)@ + pop_commands(old(self)@),
            old(self)@.len() >= 2 && old(self)@[old(self)@.len() - 2] == old(self)@.last()
                ==> final(out)@ == old(out)@,
            final(self)@[0] == old(self)@[0],
            final(self).wf(),
    {
        if self.modes.len() > 1 {
            let old_top = self.current();
            self.modes.pop();
            let current = self.current();
            if !same_blend_mode(Some(&old_top), &current) {
                apply_blend_mode(current, out);
            }
        }
    }
}

/// Whether going from `first` to `second` leaves the GPU's blend setup as it is.
pub fn same_blend_mode(first: Option<&RenderBlendMode>, second: &RenderBlendMode) -> (same: bool)
    ensures
        same == same_blend_mode_spec(
            match first {
                Some(mode) => Some(*mode),
                None => None,
            },
            *second,
        ),
{
    match first {
        Some(mode) => *mode == *second,
        None => false,
    }
}

/// Adds to `out` the two driver calls that install `mode`.
pub fn apply_blend_mode(mode: RenderBlendMode, out: &mut Vec<GlCommand>)
    ensures
        final(out)@ == old(out)@ + blend_commands(mode),
{
    let (rgb, src_rgb, dst_rgb) = match mode {
        RenderBlendMode::Builtin(BlendMode::Add) => (
            BlendEquation::Add,
            BlendFactor::One,
            BlendFactor::One,
        ),
        RenderBlendMode::Builtin(BlendMode::Subtract) => (
            BlendEquation::ReverseSubtract,
            BlendFactor::One,
            BlendFactor::One,
        ),
        _ => (BlendEquation::Add, BlendFactor::One, BlendFactor::OneMinusSrcAlpha),
    };
    out.push(GlCommand::BlendEquationSeparate { rgb, alpha: BlendEquation::Add });
    out.push(
        GlCommand::BlendFuncSeparate {
            src_rgb,
            dst_rgb,
            src_alpha: BlendFactor::One,
            dst_alpha: BlendFactor::OneMinusSrcAlpha,
        },
    );
}

/// How many of `ops` change the value on top when their turn comes.
pub open spec fn change_count(modes: Seq<RenderBlendMode>, ops: Seq<BlendOp>) -> int
    decreases ops.len(),
{
    if ops.len() == 0 {
        0
    } else {
        (if step_changes(modes, ops[0]) { 1int } else { 0int }) + change_count(
            stack_step(modes, ops[0]),
            ops.drop_first(),
        )
    }
}

/// No run of pushes and pops takes the bottom entry away: the stack stays well formed
/// and its bottom is the one it had.
pub proof fn lemma_bottom_stays(modes: Seq<RenderBlendMode>, ops: Seq<BlendOp>)
    requires
        stack_wf(modes),
    ensures
        stack_wf(stack_run(modes, ops)),
        stack_run(modes, ops)[0] == modes[0],
    decreases ops.len(),
{
    if ops.len() > 0 {
        lemma_bottom_stays(stack_step(modes, ops[0]), ops.drop_first());
    }
}

/// The GPU's blend setup is installed once for each change of value in the sequence of
/// modes on top, however many pushes and pops there were: a run asks for two driver
/// calls per change, and the changes are the value transitions of the tops, the first
/// top being the one before the run.
pub proof fn lemma_changes_are_value_transitions(modes: Seq<RenderBlendMode>, ops: Seq<BlendOp>)
    requires
        stack_wf(modes),
    ensures
        run_commands(modes, ops).len() == 2 * change_count(modes, ops),
        change_count(modes, ops) == value_transitions(seq![modes.last()] + tops_after(modes, ops)),
    decreases ops.len(),
{
    if ops.len() == 0 {
        assert(seq![modes.last()] + tops_after(modes, ops) =~= seq![modes.last()]);
    } else {
        let next = stack_step(modes, ops[0]);
        let rest = ops.drop_first();
        lemma_changes_are_value_transitions(next, rest);
        let tops = seq![modes.last()] + tops_after(modes, ops);
        assert(tops.drop_first() =~= seq![next.last()] + tops_after(next, rest));
        assert(tops[0] == modes.last());
        assert(tops[1] == next.last());
    }
}

/// Pushing the mode that is on top again, any number of times, asks nothing of the GPU.
pub proof fn lemma_repeated_push_is_silent(modes: Seq<RenderBlendMode>, n: nat)
    requires
        stack_wf(modes),
    ensures
        run_commands(modes, Seq::new(n, |i: int| BlendOp::Push(modes.last()))).len() == 0,
    decreases n,
{
    let ops = Seq::new(n, |i: int| BlendOp::Push(modes.last()));
    if n > 0 {
        let next = stack_step(modes, ops[0]);
        lemma_repeated_push_is_silent(next, (n - 1) as nat);
        assert(ops.drop_first() =~= Seq::new((n - 1) as nat, |i: int| BlendOp::Push(next.last())));
    }
}

} // verus!
