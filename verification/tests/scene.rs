use frame_capture::scene::SceneInfo;

#[test]
fn new_keeps_the_given_dimensions() {
    let info = SceneInfo::new(1920, 1080);
    assert_eq!(info.dimensions(), (1920, 1080));
}

#[test]
fn zero_dimensions_are_allowed() {
    let info = SceneInfo::new(0, 0);
    assert_eq!(info.dimensions(), (0, 0));
}

#[test]
fn largest_dimensions_are_allowed() {
    let info = SceneInfo::new(u32::MAX, u32::MAX);
    assert_eq!(info.dimensions(), (u32::MAX, u32::MAX));
}

#[test]
fn default_scene_is_zero_by_zero() {
    let info = SceneInfo::default();
    assert_eq!(info.dimensions(), (0, 0));
}
