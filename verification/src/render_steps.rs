use crate::rendering::Blend;
use crate::rendering::RenderTarget;
use crate::rendering::RenderTargets;
use vstd::prelude::*;

verus! {

/// The passes that a frame is rendered in. Each pass draws into a target of
/// its own; the composite pass reads them all.
#[derive(Clone, Copy, Debug, PartialEq, Eq, Hash, Structural)]
pub enum RenderSteps {
    Diffuse,
    Emissive,
}

/// A set of render passes, kept in the order in which a frame walks them:
/// `Diffuse` before `Emissive`.
#[derive(Clone, Copy, Debug, PartialEq, Eq, Structural)]
pub struct StepSet {
    diffuse: bool,
    emissive: bool,
}

/// The order in which a frame walks the passes of `set`: `Diffuse` before
/// `Emissive`.
pub open spec fn walk_of(set: Set<RenderSteps>) -> Seq<RenderSteps> {
    let first = if set.contains(RenderSteps::Diffuse) {
        seq![RenderSteps::Diffuse]
    } else {
        Seq::empty()
    };
    if set.contains(RenderSteps::Emissive) {
        first.push(RenderSteps::Emissive)
    } else {
        first
    }
}

impl RenderSteps {
    /// The name under which the composite shader samples this pass's target.
    pub open spec fn spec_uniform_name(self) -> Seq<char> {
        match self {
            RenderSteps::Diffuse => "diffuse_texture"@,
            RenderSteps::Emissive => "emissive_texture"@,
        }
    }

    /// The name under which the composite shader samples this pass's target.
    pub fn uniform_name(&self) -> (name: &'static str)
        ensures
            name@ == self.spec_uniform_name(),
    {
        match *self {
            RenderSteps::Diffuse => "diffuse_texture",
            RenderSteps::Emissive => "emissive_texture",
        }
    }

    /// The set of all passes.
    pub fn get_hash_set() -> (set: StepSet)
        ensures
            set@ == Set::<RenderSteps>::empty().insert(RenderSteps::Diffuse).insert(
                RenderSteps::Emissive,
            ),
            forall|step: RenderSteps| set@.contains(step),
            set.walk() == seq![RenderSteps::Diffuse, RenderSteps::Emissive],
    {
        let mut set = StepSet::new();
        set.insert(RenderSteps::Diffuse);
        set.insert(RenderSteps::Emissive);
        assert(set.walk() =~= seq![RenderSteps::Diffuse, RenderSteps::Emissive]);
        set
    }
}

impl StepSet {
    /// The passes in the set.
    pub closed spec fn view(&self) -> Set<RenderSteps> {
        Set::new(
            |step: RenderSteps|
                match step {
                    RenderSteps::Diffuse => self.diffuse,
                    RenderSteps::Emissive => self.emissive,
                },
        )
    }

    /// The passes in the set, in the order in which a frame walks them.
    pub open spec fn walk(&self) -> Seq<RenderSteps> {
        walk_of(self@)
    }

    /// The walk holds each pass of the set once, and nothing else.
    pub proof fn lemma_walk(&self)
        ensures
            self.walk().no_duplicates(),
            self.walk().to_set() == self@,
            self@.finite(),
            self@.len() == self.walk().len(),
    {
        let walk = self.walk();
        assert forall|step: RenderSteps| walk.contains(step) == self@.contains(step) by {
            if self@.contains(step) {
                if step == RenderSteps::Diffuse {
                    assert(walk[0] == step);
                } else {
                    assert(walk[walk.len() - 1] == step);
                }
            }
        }
        assert(walk.to_set() =~= self@);
        walk.unique_seq_to_set();
    }

    /// The empty set.
    pub fn new() -> (set: StepSet)
        ensures
            set@ == Set::<RenderSteps>::empty(),
            set.walk() == Seq::<RenderSteps>::empty(),
    {
        let set = StepSet { diffuse: false, emissive: false };
        assert(set@ =~= Set::<RenderSteps>::empty());
        set
    }

    /// Puts `step` into the set. Returns whether it was missing before.
    pub fn insert(&mut self, step: RenderSteps) -> (added: bool)
        ensures
            added == !old(self)@.contains(step),
            final(self)@ == old(self)@.insert(step),
    {
        let added = !self.contains(&step);
        match step {
            RenderSteps::Diffuse => {
                self.diffuse = true;
            },
            RenderSteps::Emissive => {
                self.emissive = true;
            },
        }
        assert(self@ =~= old(self)@.insert(step));
        added
    }

    /// Whether `step` is in the set.
    pub fn contains(&self, step: &RenderSteps) -> (found: bool)
        ensures
            found == self@.contains(*step),
    {
        match *step {
            RenderSteps::Diffuse => self.diffuse,
            RenderSteps::Emissive => self.emissive,
        }
    }

    /// The number of passes in the set.
    pub fn len(&self) -> (n: usize)
        ensures
            self@.finite(),
            n == self@.len(),
            n == self.walk().len(),
    {
        proof {
            self.lemma_walk();
        }
        let mut n: usize = 0;
        if self.diffuse {
            n = n + 1;
        }
        if self.emissive {
            n = n + 1;
        }
        n
    }

    /// Whether the set holds no pass.
    pub fn is_empty(&self) -> (empty: bool)
        ensures
            empty == (self@ == Set::<RenderSteps>::empty()),
    {
        let empty = !self.diffuse && !self.emissive;
        proof {
            if empty {
                assert(self@ =~= Set::<RenderSteps>::empty());
            } else if self.diffuse {
                assert(self@.contains(RenderSteps::Diffuse));
            } else {
                assert(self@.contains(RenderSteps::Emissive));
            }
        }
        empty
    }

    /// The passes of the set, in the order in which a frame walks them.
    pub fn to_vec(&self) -> (steps: Vec<RenderSteps>)
        ensures
            steps@ == self.walk(),
    {
        let mut steps: Vec<RenderSteps> = Vec::new();
        if self.diffuse {
            steps.push(RenderSteps::Diffuse);
        }
        if self.emissive {
            steps.push(RenderSteps::Emissive);
        }
        assert(steps@ =~= self.walk());
        steps
    }
}

/// The owner of the targets of the two passes: one texture for each, both of
/// one resolution.
#[derive(Clone, Copy, Debug, PartialEq, Eq, Structural)]
pub struct RenderParameters {
    width: u32,
    height: u32,
}

/// One input of the composite shader: the name it is bound under, and the
/// texture that is bound.
#[derive(Clone, Copy, Debug)]
pub struct SamplerBinding {
    pub name: &'static str,
    pub slot: usize,
}

impl RenderParameters {
    /// The texture that backs `step`, among the textures of the owner.
    pub open spec fn slot_of(step: RenderSteps) -> usize {
        match step {
            RenderSteps::Diffuse => 0,
            RenderSteps::Emissive => 1,
        }
    }

    /// The owner of two targets of `resolution` pixels each.
    pub fn new(resolution: (u32, u32)) -> (parameters: RenderParameters)
        ensures
            parameters.resolution() == resolution,
    {
        RenderParameters { width: resolution.0, height: resolution.1 }
    }
}

impl RenderTargets for RenderParameters {
    closed spec fn resolution(&self) -> (u32, u32) {
        (self.width, self.height)
    }

    open spec fn target_of(&self, step: RenderSteps) -> RenderTarget {
        RenderTarget {
            slot: Self::slot_of(step),
            width: self.resolution().0,
            height: self.resolution().1,
        }
    }

    proof fn lemma_targets(&self, first: RenderSteps, second: RenderSteps) {
    }

    fn get_render_target(&self, target: &RenderSteps) -> (surface: RenderTarget) {
        let slot: usize = match *target {
            RenderSteps::Diffuse => 0,
            RenderSteps::Emissive => 1,
        };
        RenderTarget { slot, width: self.width, height: self.height }
    }
}

/// The draw of the composite pass: what the shader samples, and how the
/// draw is laid over the frame.
#[derive(Clone, Debug)]
pub struct CompositeDraw {
    pub samplers: Vec<SamplerBinding>,
    pub blend: Blend,
}

/// The draw of the default composite pass: it samples the target of each
/// pass under the pass's uniform name, `Diffuse` first, and is blended by
/// alpha.
pub fn default_composite(uniforms: &RenderParameters) -> (draw: CompositeDraw)
    ensures
        draw.blend == Blend::Alpha,
        draw.samplers@.len() == 2,
        draw.samplers@[0].name@ == RenderSteps::Diffuse.spec_uniform_name(),
        draw.samplers@[0].slot == uniforms.target_of(RenderSteps::Diffuse).slot,
        draw.samplers@[1].name@ == RenderSteps::Emissive.spec_uniform_name(),
        draw.samplers@[1].slot == uniforms.target_of(RenderSteps::Emissive).slot,
{
    let mut samplers: Vec<SamplerBinding> = Vec::new();
    let diffuse = RenderSteps::Diffuse;
    let emissive = RenderSteps::Emissive;
    samplers.push(
        SamplerBinding {
            name: diffuse.uniform_name(),
            slot: uniforms.get_render_target(&diffuse).slot,
        },
    );
    samplers.push(
        SamplerBinding {
            name: emissive.uniform_name(),
            slot: uniforms.get_render_target(&emissive).slot,
        },
    );
    CompositeDraw { samplers, blend: Blend::Alpha }
}

} // verus!
