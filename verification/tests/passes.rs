use render_core::render_steps::default_composite;
use render_core::render_steps::RenderParameters;
use render_core::render_steps::RenderSteps;
use render_core::render_steps::StepSet;
use render_core::rendering::Blend;
use render_core::rendering::FrameAction;
use render_core::rendering::RenderProcess;
use render_core::rendering::RenderTarget;
use render_core::rendering::RenderTargets;
use render_core::step_map::StepMap;

#[test]
fn hash_set_holds_both_steps_in_order() {
    let set = RenderSteps::get_hash_set();
    assert!(set.contains(&RenderSteps::Diffuse));
    assert!(set.contains(&RenderSteps::Emissive));
    assert_eq!(set.len(), 2);
    assert_eq!(set.to_vec(), vec![RenderSteps::Diffuse, RenderSteps::Emissive]);
}

#[test]
fn empty_step_set_holds_nothing() {
    let set = StepSet::new();
    assert!(set.is_empty());
    assert_eq!(set.len(), 0);
    assert!(!set.contains(&RenderSteps::Diffuse));
    assert!(!set.contains(&RenderSteps::Emissive));
    assert_eq!(set.to_vec(), Vec::<RenderSteps>::new());
}

#[test]
fn step_set_insert_reports_new_members() {
    let mut set = StepSet::new();
    assert!(set.insert(RenderSteps::Emissive));
    assert!(!set.insert(RenderSteps::Emissive));
    assert_eq!(set.len(), 1);
    assert!(!set.is_empty());
    assert!(set.contains(&RenderSteps::Emissive));
    assert!(!set.contains(&RenderSteps::Diffuse));
    assert!(set.insert(RenderSteps::Diffuse));
    assert_eq!(set.to_vec(), vec![RenderSteps::Diffuse, RenderSteps::Emissive]);
    assert_eq!(set, RenderSteps::get_hash_set());
}

#[test]
fn uniform_names_match_the_composite_shader() {
    assert_eq!(RenderSteps::Diffuse.uniform_name(), "diffuse_texture");
    assert_eq!(RenderSteps::Emissive.uniform_name(), "emissive_texture");
}

#[test]
fn step_map_starts_empty() {
    let map: StepMap<u32> = StepMap::new();
    assert_eq!(map.len(), 0);
    assert_eq!(map.get(&RenderSteps::Diffuse), None);
    assert!(!map.contains_key(&RenderSteps::Emissive));
    assert!(map.keys().is_empty());
}

#[test]
fn step_map_insert_replaces_and_returns_previous() {
    let mut map: StepMap<u32> = StepMap::new();
    assert_eq!(map.insert(RenderSteps::Emissive, 7), None);
    assert_eq!(map.insert(RenderSteps::Emissive, 9), Some(7));
    assert_eq!(map.get(&RenderSteps::Emissive), Some(&9));
    assert_eq!(map.get(&RenderSteps::Diffuse), None);
    assert_eq!(map.len(), 1);
    assert_eq!(map.insert(RenderSteps::Diffuse, 1), None);
    assert_eq!(map.len(), 2);
    assert_eq!(map.get(&RenderSteps::Diffuse), Some(&1));
    assert_eq!(map.keys(), RenderSteps::get_hash_set());
}

#[test]
fn render_parameters_give_each_step_its_own_target() {
    let parameters = RenderParameters::new((1024, 768));
    let diffuse = parameters.get_render_target(&RenderSteps::Diffuse);
    let emissive = parameters.get_render_target(&RenderSteps::Emissive);
    assert_eq!(diffuse, RenderTarget { slot: 0, width: 1024, height: 768 });
    assert_eq!(emissive, RenderTarget { slot: 1, width: 1024, height: 768 });
    assert_ne!(diffuse.slot, emissive.slot);
}

#[test]
fn default_composite_binds_each_target_under_its_name() {
    let parameters = RenderParameters::new((640, 480));
    let draw = default_composite(&parameters);
    assert_eq!(draw.blend, Blend::Alpha);
    assert_eq!(draw.samplers.len(), 2);
    assert_eq!(draw.samplers[0].name, "diffuse_texture");
    assert_eq!(draw.samplers[0].slot, 0);
    assert_eq!(draw.samplers[1].name, "emissive_texture");
    assert_eq!(draw.samplers[1].slot, 1);
}

#[test]
fn default_composite_is_the_same_on_every_call() {
    let parameters = RenderParameters::new((640, 480));
    let first = default_composite(&parameters);
    let second = default_composite(&parameters);
    assert_eq!(first.blend, second.blend);
    assert_eq!(first.samplers.len(), second.samplers.len());
    for (one, other) in first.samplers.iter().zip(second.samplers.iter()) {
        assert_eq!((one.name, one.slot), (other.name, other.slot));
    }
}

#[test]
fn get_targets_gives_one_target_per_declared_step() {
    let process = RenderProcess::new(RenderSteps::get_hash_set(), RenderParameters::new((800, 600)));
    let targets = process.get_targets();
    assert_eq!(targets.len(), 2);
    assert_eq!(
        targets.get(&RenderSteps::Diffuse),
        Some(&RenderTarget { slot: 0, width: 800, height: 600 })
    );
    assert_eq!(
        targets.get(&RenderSteps::Emissive),
        Some(&RenderTarget { slot: 1, width: 800, height: 600 })
    );
}

#[test]
fn get_targets_of_no_steps_is_empty() {
    let process = RenderProcess::new(StepSet::new(), RenderParameters::new((800, 600)));
    let targets = process.get_targets();
    assert_eq!(targets.len(), 0);
    assert_eq!(targets.get(&RenderSteps::Diffuse), None);
    assert_eq!(targets.get(&RenderSteps::Emissive), None);
    assert_eq!(process.frame_plan(), vec![FrameAction::Composite]);
}

#[test]
fn get_targets_leaves_out_undeclared_steps() {
    let mut steps = StepSet::new();
    steps.insert(RenderSteps::Emissive);
    let process = RenderProcess::new(steps, RenderParameters::new((32, 16)));
    let targets = process.get_targets();
    assert_eq!(targets.len(), 1);
    assert_eq!(targets.get(&RenderSteps::Diffuse), None);
    assert_eq!(
        targets.get(&RenderSteps::Emissive),
        Some(&RenderTarget { slot: 1, width: 32, height: 16 })
    );
}

#[test]
fn get_targets_twice_gives_the_same_targets() {
    let process = RenderProcess::new(RenderSteps::get_hash_set(), RenderParameters::new((8, 8)));
    let first = process.get_targets();
    let second = process.get_targets();
    assert_eq!(first.get(&RenderSteps::Diffuse), second.get(&RenderSteps::Diffuse));
    assert_eq!(first.get(&RenderSteps::Emissive), second.get(&RenderSteps::Emissive));
}

#[test]
fn frame_plan_clears_then_draws_then_composites() {
    let process = RenderProcess::new(RenderSteps::get_hash_set(), RenderParameters::new((8, 8)));
    assert_eq!(
        process.frame_plan(),
        vec![
            FrameAction::Clear(RenderSteps::Diffuse),
            FrameAction::Clear(RenderSteps::Emissive),
            FrameAction::Draw(RenderSteps::Diffuse),
            FrameAction::Draw(RenderSteps::Emissive),
            FrameAction::Composite,
        ]
    );
}

#[test]
fn frame_plan_of_one_step() {
    let mut steps = StepSet::new();
    steps.insert(RenderSteps::Diffuse);
    let process = RenderProcess::new(steps, RenderParameters::new((8, 8)));
    assert_eq!(
        process.frame_plan(),
        vec![
            FrameAction::Clear(RenderSteps::Diffuse),
            FrameAction::Draw(RenderSteps::Diffuse),
            FrameAction::Composite,
        ]
    );
}
