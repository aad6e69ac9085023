use render_core::drawable::Drawable;
use render_core::quad::fullscreen_quad;
use render_core::quad::unit_quad;
use render_core::quad::Corner;
use render_core::render_steps::RenderSteps;
use render_core::rendering::Blend;
use render_core::rendering::Filter;
use render_core::rendering::RenderTarget;
use render_core::sprite::Sprite;
use render_core::sprite::SpriteDraw;
use render_core::sprite::TextureHandle;

fn lamp() -> TextureHandle {
    TextureHandle { id: 3, width: 100, height: 100 }
}

fn glow() -> TextureHandle {
    TextureHandle { id: 4, width: 64, height: 32 }
}

fn target() -> RenderTarget {
    RenderTarget { slot: 0, width: 100, height: 50 }
}

#[test]
fn new_sprite_draws_its_texture_in_the_diffuse_pass() {
    let sprite = Sprite::new(lamp());
    assert_eq!(sprite.get_texture_size(), (100, 100));
    assert_eq!(
        sprite.draw(&target(), &RenderSteps::Diffuse),
        Some(SpriteDraw {
            texture: lamp(),
            magnify: Filter::Nearest,
            texture_width: 100,
            texture_height: 100,
            target_width: 100,
            target_height: 50,
            blend: Blend::Alpha,
        })
    );
}

#[test]
fn sprite_without_emissive_texture_draws_nothing_in_that_pass() {
    let sprite = Sprite::new(lamp());
    assert_eq!(sprite.draw(&target(), &RenderSteps::Emissive), None);
}

#[test]
fn additional_texture_is_drawn_in_its_pass_only() {
    let mut sprite = Sprite::new(lamp());
    sprite.set_additional_texture(RenderSteps::Emissive, glow());
    let emissive = sprite.draw(&target(), &RenderSteps::Emissive).unwrap();
    assert_eq!(emissive.texture, glow());
    assert_eq!((emissive.magnify, emissive.blend), (Filter::Nearest, Blend::Alpha));
    assert_eq!((emissive.texture_width, emissive.texture_height), (100, 100));
    let diffuse = sprite.draw(&target(), &RenderSteps::Diffuse).unwrap();
    assert_eq!(diffuse.texture, lamp());
    assert_eq!(sprite.get_texture_size(), (100, 100));
}

#[test]
fn additional_texture_replaces_the_one_of_its_pass() {
    let mut sprite = Sprite::new(lamp());
    sprite.set_additional_texture(RenderSteps::Diffuse, glow());
    let diffuse = sprite.draw(&target(), &RenderSteps::Diffuse).unwrap();
    assert_eq!(diffuse.texture, glow());
    assert_eq!((diffuse.texture_width, diffuse.texture_height), (100, 100));
    assert_eq!(sprite.draw(&target(), &RenderSteps::Emissive), None);
}

#[test]
fn draw_reports_the_size_of_the_target() {
    let sprite = Sprite::new(glow());
    let wide = RenderTarget { slot: 1, width: 1024, height: 768 };
    let call = sprite.draw(&wide, &RenderSteps::Diffuse).unwrap();
    assert_eq!((call.target_width, call.target_height), (1024, 768));
    assert_eq!((call.texture_width, call.texture_height), (64, 32));
}

#[test]
fn unit_quad_spans_the_unit_square() {
    assert_eq!(
        unit_quad(),
        vec![
            Corner { x: 0, y: 0, u: 0, v: 0 },
            Corner { x: 0, y: 1, u: 0, v: 1 },
            Corner { x: 1, y: 0, u: 1, v: 0 },
            Corner { x: 0, y: 1, u: 0, v: 1 },
            Corner { x: 1, y: 1, u: 1, v: 1 },
            Corner { x: 1, y: 0, u: 1, v: 0 },
        ]
    );
}

#[test]
fn fullscreen_quad_spans_device_space() {
    assert_eq!(
        fullscreen_quad(),
        vec![
            Corner { x: -1, y: -1, u: 0, v: 0 },
            Corner { x: -1, y: 1, u: 0, v: 1 },
            Corner { x: 1, y: -1, u: 1, v: 0 },
            Corner { x: -1, y: 1, u: 0, v: 1 },
            Corner { x: 1, y: 1, u: 1, v: 1 },
            Corner { x: 1, y: -1, u: 1, v: 0 },
        ]
    );
}

#[test]
fn fullscreen_quad_is_the_unit_quad_stretched() {
    let unit = unit_quad();
    let full = fullscreen_quad();
    assert_eq!(unit.len(), full.len());
    for i in 0..unit.len() {
        assert_eq!(full[i].x, 2 * unit[i].x - 1);
        assert_eq!(full[i].y, 2 * unit[i].y - 1);
        assert_eq!((full[i].u, full[i].v), (unit[i].u, unit[i].v));
    }
}
