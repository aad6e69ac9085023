use crate::render_steps::RenderSteps;
use crate::render_steps::StepSet;
use vstd::prelude::*;

verus! {

/// A map from render passes to values, with one slot for each pass.
#[derive(Clone, Debug)]
pub struct StepMap<V> {
    diffuse: Option<V>,
    emissive: Option<V>,
}

impl<V> StepMap<V> {
    spec fn slot(&self, step: RenderSteps) -> Option<V> {
        match step {
            RenderSteps::Diffuse => self.diffuse,
            RenderSteps::Emissive => self.emissive,
        }
    }

    /// The passes that have a value, each with its value.
    pub closed spec fn view(&self) -> Map<RenderSteps, V> {
        Map::new(|step: RenderSteps| self.slot(step) is Some, |step: RenderSteps| self.slot(step)->0)
    }

    /// The map without any value.
    pub fn new() -> (map: StepMap<V>)
        ensures
            map@ == Map::<RenderSteps, V>::empty(),
    {
        let map = StepMap { diffuse: None, emissive: None };
        assert(map@ =~= Map::<RenderSteps, V>::empty());
        map
    }

    /// Gives `step` the value `value`. Returns the value that it had before.
    pub fn insert(&mut self, step: RenderSteps, value: V) -> (previous: Option<V>)
        ensures
            final(self)@ == old(self)@.insert(step, value),
            previous == (if old(self)@.dom().contains(step) {
                Some(old(self)@[step])
            } else {
                None
            }),
    {
        let previous = match step {
            RenderSteps::Diffuse => {
                let previous = self.diffuse.take();
                self.diffuse = Some(value);
                previous
            },
            RenderSteps::Emissive => {
                let previous = self.emissive.take();
                self.emissive = Some(value);
                previous
            },
        };
        assert(self@ =~= old(self)@.insert(step, value));
        previous
    }

    /// The value of `step`, if it has one.
    pub fn get(&self, step: &RenderSteps) -> (value: Option<&V>)
        ensures
            value == (if self@.dom().contains(*step) {
                Some(&self@[*step])
            } else {
                None
            }),
    {
        match *step {
            RenderSteps::Diffuse => self.diffuse.as_ref(),
            RenderSteps::Emissive => self.emissive.as_ref(),
        }
    }

    /// Whether `step` has a value.
    pub fn contains_key(&self, step: &RenderSteps) -> (found: bool)
        ensures
            found == self@.dom().contains(*step),
    {
        match *step {
            RenderSteps::Diffuse => self.diffuse.is_some(),
            RenderSteps::Emissive => self.emissive.is_some(),
        }
    }

    /// The passes that have a value.
    pub fn keys(&self) -> (keys: StepSet)
        ensures
            keys@ == self@.dom(),
    {
        let mut keys = StepSet::new();
        if self.diffuse.is_some() {
            keys.insert(RenderSteps::Diffuse);
        }
        if self.emissive.is_some() {
            keys.insert(RenderSteps::Emissive);
        }
        assert(keys@ =~= self@.dom());
        keys
    }

    /// The number of passes that have a value.
    pub fn len(&self) -> (n: usize)
        ensures
            self@.dom().finite(),
            n == self@.dom().len(),
    {
        self.keys().len()
    }
}

} // verus!
