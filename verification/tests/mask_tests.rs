use ruffle_render_glow::gl::{Capability, CompareFunc, GlCommand, StencilAction};
use ruffle_render_glow::mask::{MaskOp, MaskState, MaskTracker, StencilProgram};

fn is_stencil_call(command: &GlCommand) -> bool {
    matches!(
        command,
        GlCommand::Enable(Capability::StencilTest)
            | GlCommand::Disable(Capability::StencilTest)
            | GlCommand::StencilFunc { .. }
            | GlCommand::StencilOp { .. }
            | GlCommand::ColorMask(_)
    )
}

#[test]
fn new_tracker_has_no_mask() {
    let t = MaskTracker::new();
    assert_eq!(t.state, MaskState::NoMask);
    assert_eq!(t.depth, 0);
    assert_eq!(t.programmed, None);
}

#[test]
fn full_cycle_returns_to_no_mask() {
    let mut t = MaskTracker::new();
    t.push_mask();
    assert_eq!((t.state, t.depth), (MaskState::DrawingMaskStencil, 1));
    t.activate_mask();
    assert_eq!((t.state, t.depth), (MaskState::DrawingMaskedContent, 1));
    t.deactivate_mask();
    assert_eq!((t.state, t.depth), (MaskState::ClearingMaskStencil, 1));
    t.pop_mask();
    assert_eq!((t.state, t.depth), (MaskState::NoMask, 0));
}

#[test]
fn nested_masks_resume_the_parent_content() {
    let mut t = MaskTracker::new();
    t.push_mask();
    t.activate_mask();
    t.push_mask();
    assert_eq!((t.state, t.depth), (MaskState::DrawingMaskStencil, 2));
    t.activate_mask();
    t.deactivate_mask();
    t.pop_mask();
    assert_eq!((t.state, t.depth), (MaskState::DrawingMaskedContent, 1));
    t.deactivate_mask();
    t.pop_mask();
    assert_eq!((t.state, t.depth), (MaskState::NoMask, 0));
}

#[test]
fn balanced_run_restores_depth_from_inside_a_mask() {
    let mut t = MaskTracker::new();
    t.push_mask();
    t.activate_mask();
    let before = t.depth;
    for op in [MaskOp::Push, MaskOp::Activate, MaskOp::Deactivate, MaskOp::Pop] {
        assert!(t.is_legal(op));
        t.apply(op);
    }
    assert_eq!(t.depth, before);
    assert_eq!(t.state, MaskState::DrawingMaskedContent);
}

#[test]
fn legality_follows_the_four_phases() {
    let mut t = MaskTracker::new();
    assert!(t.is_legal(MaskOp::Push));
    assert!(!t.is_legal(MaskOp::Activate));
    assert!(!t.is_legal(MaskOp::Deactivate));
    assert!(!t.is_legal(MaskOp::Pop));
    t.push_mask();
    assert!(!t.is_legal(MaskOp::Push));
    assert!(t.is_legal(MaskOp::Activate));
    t.activate_mask();
    assert!(t.is_legal(MaskOp::Push));
    assert!(t.is_legal(MaskOp::Deactivate));
    assert!(!t.is_legal(MaskOp::Pop));
    t.deactivate_mask();
    assert!(!t.is_legal(MaskOp::Push));
    assert!(t.is_legal(MaskOp::Pop));
}

#[test]
fn push_is_not_legal_at_the_deepest_depth() {
    let t = MaskTracker {
        state: MaskState::DrawingMaskedContent,
        depth: u32::MAX,
        programmed: None,
    };
    assert!(!t.is_legal(MaskOp::Push));
    assert!(t.is_legal(MaskOp::Deactivate));
}

#[test]
fn stencil_setup_of_each_phase() {
    let mut t = MaskTracker::new();
    assert_eq!(
        t.program(),
        StencilProgram {
            test: false,
            func: CompareFunc::Always,
            reference: 0,
            pass: StencilAction::Keep,
            color_writes: true,
        }
    );
    t.push_mask();
    assert_eq!(
        t.program(),
        StencilProgram {
            test: false,
            func: CompareFunc::Always,
            reference: 0,
            pass: StencilAction::Increment,
            color_writes: false,
        }
    );
    t.activate_mask();
    assert_eq!(
        t.program(),
        StencilProgram {
            test: true,
            func: CompareFunc::Equal,
            reference: 1,
            pass: StencilAction::Keep,
            color_writes: true,
        }
    );
    t.deactivate_mask();
    assert_eq!(
        t.program(),
        StencilProgram {
            test: true,
            func: CompareFunc::Equal,
            reference: 1,
            pass: StencilAction::Decrement,
            color_writes: false,
        }
    );
}

#[test]
fn flush_of_masked_content_uses_depth_as_reference() {
    let mut t = MaskTracker::new();
    t.push_mask();
    t.activate_mask();
    t.push_mask();
    t.activate_mask();
    let mut out = Vec::new();
    t.flush(&mut out);
    assert_eq!(
        out,
        vec![
            GlCommand::Enable(Capability::StencilTest),
            GlCommand::StencilFunc { func: CompareFunc::Equal, reference: 2, mask: 0xff },
            GlCommand::StencilOp {
                fail: StencilAction::Keep,
                depth_fail: StencilAction::Keep,
                pass: StencilAction::Keep,
            },
            GlCommand::ColorMask(true),
        ]
    );
    let mut again = Vec::new();
    t.flush(&mut again);
    assert!(again.is_empty());
}

#[test]
fn flush_with_no_mask_switches_the_test_off() {
    let mut t = MaskTracker::new();
    let mut out = Vec::new();
    t.flush(&mut out);
    assert_eq!(
        out,
        vec![GlCommand::Disable(Capability::StencilTest), GlCommand::ColorMask(true)]
    );
    assert_eq!(t.programmed, Some((MaskState::NoMask, 0)));
}

#[test]
fn flush_while_a_silhouette_is_painted() {
    let mut t = MaskTracker::new();
    t.push_mask();
    let mut out = Vec::new();
    t.flush(&mut out);
    assert_eq!(
        out,
        vec![
            GlCommand::Disable(Capability::StencilTest),
            GlCommand::StencilFunc { func: CompareFunc::Always, reference: 0, mask: 0xff },
            GlCommand::StencilOp {
                fail: StencilAction::Keep,
                depth_fail: StencilAction::Keep,
                pass: StencilAction::Increment,
            },
            GlCommand::ColorMask(false),
        ]
    );
}

#[test]
fn mask_cycle_without_draws_leaves_the_stencil_setup_alone() {
    // Each transition is followed by nothing that draws: the GPU is asked for nothing
    // while the mask is driven, and for nothing afterwards, since the phase is back
    // where the GPU's setup already is.
    let mut t = MaskTracker::new();
    let mut out = Vec::new();
    t.flush(&mut out);
    let programmed = out.len();
    t.push_mask();
    t.activate_mask();
    t.deactivate_mask();
    t.pop_mask();
    assert_eq!(t.depth, 0);
    assert_eq!(t.state, MaskState::NoMask);
    t.flush(&mut out);
    assert_eq!(out.len(), programmed);
    assert_eq!(out.iter().filter(|c| is_stencil_call(c)).count(), 2);
}

#[test]
fn mask_cycle_with_a_draw_after_each_transition_reprograms_each_time() {
    let mut t = MaskTracker::new();
    let mut out = Vec::new();
    t.flush(&mut out);
    let mut reprograms = 0;
    for op in [MaskOp::Push, MaskOp::Activate, MaskOp::Deactivate] {
        t.apply(op);
        let before = out.len();
        t.flush(&mut out);
        if out.len() > before {
            reprograms += 1;
        }
        let before = out.len();
        t.flush(&mut out);
        assert_eq!(out.len(), before);
    }
    assert_eq!(reprograms, 3);
    t.apply(MaskOp::Pop);
    assert_eq!((t.state, t.depth), (MaskState::NoMask, 0));
    let before = out.len();
    t.flush(&mut out);
    assert_eq!(out.len() - before, 2);
}

#[test]
fn mask_cycle_is_reproducible() {
    let run = || {
        let mut t = MaskTracker::new();
        let mut out = Vec::new();
        for op in [MaskOp::Push, MaskOp::Activate, MaskOp::Deactivate, MaskOp::Pop] {
            t.apply(op);
            t.flush(&mut out);
        }
        (t, out)
    };
    assert_eq!(run(), run());
}

#[test]
fn reset_closes_every_mask_and_forgets_the_gpu() {
    let mut t = MaskTracker::new();
    t.push_mask();
    t.activate_mask();
    let mut out = Vec::new();
    t.flush(&mut out);
    t.reset();
    assert_eq!(t, MaskTracker { state: MaskState::NoMask, depth: 0, programmed: None });
}

#[test]
fn paints_stencil_in_the_two_silhouette_phases() {
    let mut t = MaskTracker::new();
    assert!(!t.paints_stencil());
    t.push_mask();
    assert!(t.paints_stencil());
    t.activate_mask();
    assert!(!t.paints_stencil());
    t.deactivate_mask();
    assert!(t.paints_stencil());
}

fn run_all_legal_runs(
    length: usize,
    tracker: MaskTracker,
    pushes: u32,
    pops: u32,
    start_depth: u32,
    checked: &mut usize,
) {
    assert_eq!(tracker.depth, start_depth + pushes - pops);
    assert_eq!(tracker.depth == 0, tracker.state == MaskState::NoMask);
    if tracker.state == MaskState::DrawingMaskedContent {
        assert_eq!(tracker.program().reference, tracker.depth);
        assert_eq!(tracker.program().func, CompareFunc::Equal);
    }
    if pushes == pops {
        assert_eq!(tracker.depth, start_depth);
    }
    *checked += 1;
    if length == 0 {
        return;
    }
    for op in [MaskOp::Push, MaskOp::Activate, MaskOp::Deactivate, MaskOp::Pop] {
        if tracker.is_legal(op) {
            let mut next = tracker;
            next.apply(op);
            let (pushes, pops) = match op {
                MaskOp::Push => (pushes + 1, pops),
                MaskOp::Pop => (pushes, pops + 1),
                _ => (pushes, pops),
            };
            run_all_legal_runs(length - 1, next, pushes, pops, start_depth, checked);
        }
    }
}

#[test]
fn every_legal_run_moves_the_depth_by_pushes_less_pops() {
    let mut checked = 0;
    run_all_legal_runs(14, MaskTracker::new(), 0, 0, 0, &mut checked);
    assert!(checked > 100);
    let inside = MaskTracker { state: MaskState::DrawingMaskedContent, depth: 3, programmed: None };
    run_all_legal_runs(12, inside, 0, 0, 3, &mut checked);
}
