use pathtracer::config::RenderConfig;

#[test]
fn final_preset_values() {
    let c = RenderConfig::new();
    assert_eq!(c.image_width, 800);
    assert_eq!((c.aspect_num, c.aspect_den), (3, 2));
    assert_eq!(c.samples_per_pixel, 500);
    assert_eq!(c.max_depth, 50);
}

#[test]
fn quick_preset_values() {
    let c = RenderConfig::quick();
    assert_eq!(c.image_width, 400);
    assert_eq!((c.aspect_num, c.aspect_den), (3, 2));
    assert_eq!(c.samples_per_pixel, 100);
    assert_eq!(c.max_depth, 20);
}

#[test]
fn default_is_quick_preset() {
    let d = RenderConfig::default();
    let q = RenderConfig::quick();
    assert_eq!(d.image_width, q.image_width);
    assert_eq!(d.aspect_num, q.aspect_num);
    assert_eq!(d.aspect_den, q.aspect_den);
    assert_eq!(d.samples_per_pixel, q.samples_per_pixel);
    assert_eq!(d.max_depth, q.max_depth);
}

#[test]
fn height_is_truncated() {
    assert_eq!(RenderConfig::new().image_height(), 533);
    assert_eq!(RenderConfig::quick().image_height(), 266);
}

#[test]
fn height_of_exact_and_portrait_ratios() {
    let mut c = RenderConfig::quick();
    c.image_width = 20;
    c.aspect_num = 16;
    c.aspect_den = 9;
    assert_eq!(c.image_height(), 11);
    c.image_width = 300;
    c.aspect_num = 2;
    c.aspect_den = 3;
    assert_eq!(c.image_height(), 450);
    c.image_width = 0;
    assert_eq!(c.image_height(), 0);
}

#[test]
fn height_with_large_width() {
    let mut c = RenderConfig::quick();
    c.image_width = usize::MAX;
    c.aspect_num = 3;
    c.aspect_den = 2;
    assert_eq!(c.image_height(), ((usize::MAX as u128) * 2 / 3) as usize);
}
