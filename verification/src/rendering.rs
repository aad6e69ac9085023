use crate::render_steps::RenderSteps;
use crate::render_steps::StepSet;
use crate::step_map::StepMap;
use vstd::prelude::*;

verus! {

/// A writable view of the off-screen texture behind one pass: which of the
/// process's textures it writes to, and that texture's size in pixels.
#[derive(Clone, Copy, Debug, PartialEq, Eq, Structural)]
pub struct RenderTarget {
    pub slot: usize,
    pub width: u32,
    pub height: u32,
}

/// How a draw combines what it writes with what the target holds.
#[derive(Clone, Copy, Debug, PartialEq, Eq, Structural)]
pub enum Blend {
    /// What is written replaces what was there.
    Replace,
    /// What is written is laid over what was there, by its alpha.
    Alpha,
}

/// How a texture is sampled where it is drawn larger than it is.
#[derive(Clone, Copy, Debug, PartialEq, Eq, Structural)]
pub enum Filter {
    /// The nearest texel, which keeps pixel art crisp.
    Nearest,
    /// A blend of the texels around.
    Linear,
}

/// What owns the textures behind the passes and hands out a view of each.
pub trait RenderTargets {
    /// The size in pixels that every target has.
    spec fn resolution(&self) -> (u32, u32);

    /// The target behind `step`.
    spec fn target_of(&self, step: RenderSteps) -> RenderTarget;

    /// Every target has the common resolution, and no two passes share a
    /// texture.
    proof fn lemma_targets(&self, first: RenderSteps, second: RenderSteps)
        ensures
            self.target_of(first).width == self.resolution().0,
            self.target_of(first).height == self.resolution().1,
            first != second ==> self.target_of(first).slot != self.target_of(second).slot,
    ;

    /// A fresh view of the target behind `target`.
    fn get_render_target(&self, target: &RenderSteps) -> (surface: RenderTarget)
        ensures
            surface == self.target_of(*target),
    ;
}

/// One thing to do in the course of a frame.
#[derive(Clone, Copy, Debug, PartialEq, Eq, Structural)]
pub enum FrameAction {
    /// Clear the target of a pass.
    Clear(RenderSteps),
    /// Draw everything that takes part in a pass into its target.
    Draw(RenderSteps),
    /// Combine the targets of all passes into the frame that is shown.
    Composite,
}

/// What a frame over the passes `walk` does, in order: it clears the target
/// of each pass, then draws each pass, then composites.
pub open spec fn frame_of(walk: Seq<RenderSteps>) -> Seq<FrameAction> {
    Seq::new(
        2 * walk.len() + 1,
        |i: int|
            if i < walk.len() {
                FrameAction::Clear(walk[i])
            } else if i < 2 * walk.len() {
                FrameAction::Draw(walk[i - walk.len()])
            } else {
                FrameAction::Composite
            },
    )
}

/// A fixed set of passes with the targets behind them.
pub struct RenderProcess<U: RenderTargets> {
    steps: StepSet,
    uniforms: U,
}

impl<U: RenderTargets> RenderProcess<U> {
    /// The passes that the process was made with.
    pub closed spec fn steps(&self) -> StepSet {
        self.steps
    }

    /// The owner of the targets that the process was made with.
    pub closed spec fn uniforms(&self) -> U {
        self.uniforms
    }

    /// The target that `get_targets` gives for each pass of the process.
    pub open spec fn targets(&self) -> Map<RenderSteps, RenderTarget> {
        Map::new(
            |step: RenderSteps| self.steps()@.contains(step),
            |step: RenderSteps| self.uniforms().target_of(step),
        )
    }

    /// A process over the passes `steps`, whose targets `uniforms` owns.
    pub fn new(steps: StepSet, uniforms: U) -> (process: RenderProcess<U>)
        ensures
            process.steps() == steps,
            process.uniforms() == uniforms,
    {
        RenderProcess { steps, uniforms }
    }

    /// One target for each pass of the process, and none besides.
    pub fn get_targets(&self) -> (targets: StepMap<RenderTarget>)
        ensures
            targets@ == self.targets(),
            targets@.dom() == self.steps()@,
            targets@.dom().finite(),
            targets@.dom().len() == self.steps()@.len(),
    {
        let walk = self.steps.to_vec();
        let mut targets: StepMap<RenderTarget> = StepMap::new();
        let mut i: usize = 0;
        proof {
            self.steps.lemma_walk();
        }
        while i < walk.len()
            invariant
                i <= walk.len(),
                walk@ == self.steps.walk(),
                walk@.to_set() == self.steps@,
                forall|step: RenderSteps|
                    targets@.dom().contains(step) <==> walk@.take(i as int).contains(step),
                forall|step: RenderSteps|
                    targets@.dom().contains(step) ==> targets@[step] == self.uniforms.target_of(
                        step,
                    ),
            decreases walk.len() - i,
        {
            let step = walk[i];
            let surface = self.uniforms.get_render_target(&step);
            targets.insert(step, surface);
            proof {
                let before = walk@.take(i as int);
                let after = walk@.take(i + 1);
                assert(after =~= before.push(step));
                assert forall|other: RenderSteps|
                    targets@.dom().contains(other) <==> after.contains(other) by {
                    if after.contains(other) {
                        let j = choose|j: int| 0 <= j < after.len() && after[j] == other;
                        if j < i {
                            assert(before[j] == other);
                        }
                    }
                    if before.contains(other) {
                        let j = choose|j: int| 0 <= j < before.len() && before[j] == other;
                        assert(after[j] == other);
                    }
                    if other == step {
                        assert(after[i as int] == step);
                    }
                }
            }
            i = i + 1;
        }
        proof {
            assert(walk@.take(i as int) =~= walk@);
            assert(targets@.dom() =~= self.steps@);
            assert(targets@ =~= self.targets());
        }
        targets
    }

    /// What to do for one frame, in order: clear the target of each pass,
    /// draw each pass, then composite.
    pub fn frame_plan(&self) -> (plan: Vec<FrameAction>)
        ensures
            plan@ == frame_of(self.steps().walk()),
    {
        let walk = self.steps.to_vec();
        let mut plan: Vec<FrameAction> = Vec::new();
        let mut i: usize = 0;
        while i < walk.len()
            invariant
                i <= walk.len(),
                plan@.len() == i,
                forall|k: int| 0 <= k < i ==> plan@[k] == FrameAction::Clear(walk@[k]),
            decreases walk.len() - i,
        {
            plan.push(FrameAction::Clear(walk[i]));
            i = i + 1;
        }
        let mut j: usize = 0;
        while j < walk.len()
            invariant
                j <= walk.len(),
                plan@.len() == walk.len() + j,
                forall|k: int| 0 <= k < walk.len() ==> plan@[k] == FrameAction::Clear(walk@[k]),
                forall|k: int|
                    walk.len() <= k < walk.len() + j ==> plan@[k] == FrameAction::Draw(
                        walk@[k - walk.len()],
                    ),
            decreases walk.len() - j,
        {
            plan.push(FrameAction::Draw(walk[j]));
            j = j + 1;
        }
        plan.push(FrameAction::Composite);
        assert(plan@ =~= frame_of(self.steps().walk()));
        plan
    }

    /// In a frame, every pass of the process is cleared before it is drawn
    /// and drawn before the composite, which comes last; nothing else is
    /// cleared or drawn.
    pub proof fn lemma_frame_order(&self, step: RenderSteps)
        ensures
            ({
                let plan = frame_of(self.steps().walk());
                &&& plan.last() == FrameAction::Composite
                &&& self.steps()@.contains(step) ==> exists|c: int, d: int|
                    0 <= c < d < plan.len() - 1 && plan[c] == FrameAction::Clear(step) && plan[d]
                        == FrameAction::Draw(step)
                &&& !self.steps()@.contains(step) ==> !plan.contains(FrameAction::Clear(step))
                    && !plan.contains(FrameAction::Draw(step))
            }),
    {
        let walk = self.steps().walk();
        let plan = frame_of(walk);
        self.steps().lemma_walk();
        if self.steps()@.contains(step) {
            assert(walk.to_set().contains(step));
            let k = choose|k: int| 0 <= k < walk.len() && walk[k] == step;
            assert(plan[k] == FrameAction::Clear(step));
            assert(plan[k + walk.len()] == FrameAction::Draw(step));
        } else {
            assert(!walk.to_set().contains(step));
            assert forall|i: int| 0 <= i < plan.len() implies plan[i] != FrameAction::Clear(step)
                && plan[i] != FrameAction::Draw(step) by {
                if i < walk.len() {
                    assert(walk.contains(walk[i]));
                } else if i < 2 * walk.len() {
                    assert(walk.contains(walk[i - walk.len()]));
                }
            }
        }
    }

    /// No two passes of a process are given the same texture, and every
    /// target has the resolution that the owner of the targets was made for.
    pub proof fn lemma_targets_apart(&self, first: RenderSteps, second: RenderSteps)
        requires
            self.targets().dom().contains(first),
            self.targets().dom().contains(second),
            first != second,
        ensures
            self.targets()[first].slot != self.targets()[second].slot,
            self.targets()[first].width == self.uniforms().resolution().0,
            self.targets()[first].height == self.uniforms().resolution().1,
    {
        self.uniforms().lemma_targets(first, second);
    }
}

} // verus!
