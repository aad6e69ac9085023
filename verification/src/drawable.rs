use crate::render_steps::RenderSteps;
use crate::rendering::RenderTarget;
use vstd::prelude::*;

verus! {

/// Something that takes part in rendering: asked for one pass and one target,
/// it says what to draw there, if anything.
pub trait Drawable {
    /// The description of one draw.
    type Call;

    /// The draw that is asked for in pass `step` on `target`; none where
    /// nothing is drawn in that pass.
    spec fn draw_of(&self, target: RenderTarget, step: RenderSteps) -> Option<Self::Call>;

    /// What to draw in pass `step` on `target`, if anything.
    fn draw(&self, target: &RenderTarget, step: &RenderSteps) -> (call: Option<Self::Call>)
        ensures
            call == self.draw_of(*target, *step),
    ;
}

} // verus!
