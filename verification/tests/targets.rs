use andromeda::targets::{OutputChange, RenderTargets, SizeGroup, TargetError, TargetSize, UpscaleQuality};

fn names(list: Vec<String>) -> Vec<String> {
    list
}

#[test]
fn new_targets_are_empty() {
    let targets = RenderTargets::new();
    assert_eq!(targets.size_group_resolution(SizeGroup::OutputResolution), TargetSize::new(0, 0));
    assert_eq!(targets.size_group_resolution(SizeGroup::RenderResolution), TargetSize::default());
    assert_eq!(targets.upscale_quality(), UpscaleQuality::Quality);
    assert_eq!(targets.target_size(&"depth".to_owned()), Err(TargetError::NotFound));
}

#[test]
fn output_resolution_change_lists_output_targets() {
    let mut targets = RenderTargets::new();
    targets.register_target("ui".to_owned(), SizeGroup::OutputResolution);
    targets.register_target("depth".to_owned(), SizeGroup::RenderResolution);
    targets.register_target("lut".to_owned(), SizeGroup::Custom(TargetSize::new(32, 32)));
    match targets.set_output_resolution(1200, 900) {
        OutputChange::Resized { targets } => assert_eq!(names(targets), vec!["ui".to_owned()]),
        OutputChange::Unchanged => panic!("resolution changed"),
    }
    assert!(matches!(targets.set_output_resolution(1200, 900), OutputChange::Unchanged));
    assert_eq!(targets.target_size(&"ui".to_owned()), Ok(TargetSize::new(1200, 900)));
    assert_eq!(targets.target_size(&"lut".to_owned()), Ok(TargetSize::new(32, 32)));
}

#[test]
fn render_resolution_cannot_exceed_output() {
    let mut targets = RenderTargets::new();
    targets.register_target("depth".to_owned(), SizeGroup::RenderResolution);
    let _ = targets.set_output_resolution(800, 600);
    assert_eq!(targets.set_render_resolution(801, 400), Err(TargetError::RenderAboveOutput));
    assert_eq!(targets.set_render_resolution(400, 601), Err(TargetError::RenderAboveOutput));
    assert_eq!(targets.size_group_resolution(SizeGroup::RenderResolution), TargetSize::new(0, 0));
    assert_eq!(targets.set_render_resolution(400, 300), Ok(vec!["depth".to_owned()]));
    assert_eq!(targets.target_size(&"depth".to_owned()), Ok(TargetSize::new(400, 300)));
}

#[test]
fn render_resolution_shortcut_compares_render_width_and_output_height() {
    let mut targets = RenderTargets::new();
    targets.register_target("depth".to_owned(), SizeGroup::RenderResolution);
    let _ = targets.set_output_resolution(800, 600);
    assert!(targets.set_render_resolution(400, 300).is_ok());
    // Same render width and a height equal to the output height: nothing happens.
    assert_eq!(targets.set_render_resolution(400, 600), Ok(vec![]));
    assert_eq!(targets.size_group_resolution(SizeGroup::RenderResolution), TargetSize::new(400, 300));
}

#[test]
fn reregistering_changes_the_group() {
    let mut targets = RenderTargets::new();
    let _ = targets.set_output_resolution(100, 50);
    targets.register_target("color".to_owned(), SizeGroup::RenderResolution);
    targets.register_target("color".to_owned(), SizeGroup::OutputResolution);
    assert_eq!(targets.target_size(&"color".to_owned()), Ok(TargetSize::new(100, 50)));
    targets.set_upscale_quality(UpscaleQuality::Performance);
    assert_eq!(targets.upscale_quality(), UpscaleQuality::Performance);
}
