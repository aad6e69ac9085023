use crate::drawable::Drawable;
use crate::render_steps::RenderSteps;
use crate::rendering::Blend;
use crate::rendering::Filter;
use crate::rendering::RenderTarget;
use crate::step_map::StepMap;
use vstd::prelude::*;

verus! {

/// A texture that was loaded for drawing: the handle that it is found by, and
/// its size in pixels.
#[derive(Clone, Copy, Debug, PartialEq, Eq, Structural)]
pub struct TextureHandle {
    pub id: u64,
    pub width: u32,
    pub height: u32,
}

/// What a sprite shows: a texture for each pass that it takes part in. Its
/// size is that of the texture it was made with.
#[derive(Clone, Debug)]
pub struct Sprite {
    textures: StepMap<TextureHandle>,
    texture_width: u32,
    texture_height: u32,
}

/// One draw of a textured quad: the texture to sample and how, the size of
/// the sprite in pixels before scaling, the size of the target drawn into,
/// and how the draw is laid over what the target holds.
#[derive(Clone, Copy, Debug, PartialEq, Eq, Structural)]
pub struct SpriteDraw {
    pub texture: TextureHandle,
    pub magnify: Filter,
    pub texture_width: u32,
    pub texture_height: u32,
    pub target_width: u32,
    pub target_height: u32,
    pub blend: Blend,
}

impl Sprite {
    /// The texture that the sprite shows in each pass that it takes part in.
    pub closed spec fn textures(&self) -> Map<RenderSteps, TextureHandle> {
        self.textures@
    }

    /// The size in pixels of the texture that the sprite was made with.
    pub closed spec fn texture_size(&self) -> (u32, u32) {
        (self.texture_width, self.texture_height)
    }

    /// A sprite that shows `texture` in the diffuse pass and nothing in any
    /// other.
    pub fn new(texture: TextureHandle) -> (sprite: Sprite)
        ensures
            sprite.textures() == Map::<RenderSteps, TextureHandle>::empty().insert(
                RenderSteps::Diffuse,
                texture,
            ),
            sprite.texture_size() == (texture.width, texture.height),
    {
        let mut textures: StepMap<TextureHandle> = StepMap::new();
        textures.insert(RenderSteps::Diffuse, texture);
        Sprite { textures, texture_width: texture.width, texture_height: texture.height }
    }

    /// Makes the sprite show `texture` in pass `step`. Its size stays that of
    /// the texture it was made with.
    pub fn set_additional_texture(&mut self, step: RenderSteps, texture: TextureHandle)
        ensures
            final(self).textures() == old(self).textures().insert(step, texture),
            final(self).texture_size() == old(self).texture_size(),
    {
        self.textures.insert(step, texture);
    }

    /// The size in pixels of the texture that the sprite was made with.
    pub fn get_texture_size(&self) -> (size: (u32, u32))
        ensures
            size == self.texture_size(),
    {
        (self.texture_width, self.texture_height)
    }

    /// A sprite that has a texture for one pass only draws nothing in any
    /// other pass, whatever the target.
    pub proof fn lemma_step_isolation(
        &self,
        bound: RenderSteps,
        target: RenderTarget,
        step: RenderSteps,
    )
        requires
            self.textures().dom() == Set::<RenderSteps>::empty().insert(bound),
            step != bound,
        ensures
            self.draw_of(target, step) is None,
            self.draw_of(target, bound) is Some,
    {
    }

    /// Binding a texture for one pass changes no other pass's draw.
    pub proof fn lemma_binding_is_per_step(
        before: Sprite,
        after: Sprite,
        bound: RenderSteps,
        texture: TextureHandle,
        target: RenderTarget,
        step: RenderSteps,
    )
        requires
            after.textures() == before.textures().insert(bound, texture),
            after.texture_size() == before.texture_size(),
            step != bound,
        ensures
            after.draw_of(target, step) == before.draw_of(target, step),
    {
    }
}

impl Drawable for Sprite {
    type Call = SpriteDraw;

    /// The draw that the sprite asks for in pass `step` on `target`: none where
    /// it has no texture for that pass, else a quad with that texture, sampled
    /// by the nearest texel and blended by alpha.
    open spec fn draw_of(&self, target: RenderTarget, step: RenderSteps) -> Option<SpriteDraw> {
        if self.textures().dom().contains(step) {
            Some(
                SpriteDraw {
                    texture: self.textures()[step],
                    magnify: Filter::Nearest,
                    texture_width: self.texture_size().0,
                    texture_height: self.texture_size().1,
                    target_width: target.width,
                    target_height: target.height,
                    blend: Blend::Alpha,
                },
            )
        } else {
            None
        }
    }

    /// What to draw of the sprite in pass `step` on `target`. In a pass that
    /// the sprite has no texture for there is nothing to draw.
    fn draw(&self, target: &RenderTarget, step: &RenderSteps) -> (call: Option<SpriteDraw>) {
        match self.textures.get(step) {
            Some(texture) => Some(
                SpriteDraw {
                    texture: *texture,
                    magnify: Filter::Nearest,
                    texture_width: self.texture_width,
                    texture_height: self.texture_height,
                    target_width: target.width,
                    target_height: target.height,
                    blend: Blend::Alpha,
                },
            ),
            None => None,
        }
    }
}

} // verus!
