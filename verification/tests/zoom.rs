use mapnav::zoom::{
    total_pixels, InvalidZoom, Scale, Zoom, DEFAULT_ZOOM, MAX_TOTAL_PIXELS, MAX_ZOOM,
    MAX_ZOOM_LEVEL, TILE_SIZE, ZOOM_STEP,
};

#[test]
fn default_zoom_is_sixteen() {
    assert_eq!(Zoom::default().level(), 16_000);
    assert_eq!(DEFAULT_ZOOM, 16_000);
}

#[test]
fn new_accepts_the_closed_range() {
    assert_eq!(Zoom::new(0).unwrap().level(), 0);
    assert_eq!(Zoom::new(MAX_ZOOM).unwrap().level(), 20_000);
    assert_eq!(Zoom::new(12_345).unwrap().level(), 12_345);
}

#[test]
fn new_rejects_what_lies_outside() {
    assert_eq!(Zoom::new(-1), Err(InvalidZoom));
    assert_eq!(Zoom::new(MAX_ZOOM + 1), Err(InvalidZoom));
    assert_eq!(Zoom::new(i64::MIN), Err(InvalidZoom));
    assert_eq!(Zoom::new(i64::MAX), Err(InvalidZoom));
}

#[test]
fn whole_levels() {
    assert_eq!(Zoom::whole(0).unwrap().level(), 0);
    assert_eq!(Zoom::whole(7).unwrap().level(), 7_000);
    assert_eq!(Zoom::whole(MAX_ZOOM_LEVEL).unwrap().level(), 20_000);
    assert_eq!(Zoom::whole(21), Err(InvalidZoom));
    assert_eq!(Zoom::whole(255), Err(InvalidZoom));
}

#[test]
fn zoom_in_steps_by_one_level() {
    let mut zoom = Zoom::new(3_250).unwrap();
    assert_eq!(zoom.zoom_in(), Ok(()));
    assert_eq!(zoom.level(), 4_250);
}

#[test]
fn zoom_out_steps_by_one_level() {
    let mut zoom = Zoom::new(3_250).unwrap();
    assert_eq!(zoom.zoom_out(), Ok(()));
    assert_eq!(zoom.level(), 2_250);
}

#[test]
fn zoom_in_fails_at_the_maximum_and_changes_nothing() {
    let mut zoom = Zoom::default();
    let mut steps = 0;
    while zoom.zoom_in().is_ok() {
        steps += 1;
        assert!(steps <= 20);
    }
    assert_eq!(steps, 4);
    assert_eq!(zoom.level(), 20_000);
    assert_eq!(zoom.zoom_in(), Err(InvalidZoom));
    assert_eq!(zoom.level(), 20_000);
}

#[test]
fn zoom_out_fails_at_the_minimum_and_changes_nothing() {
    let mut zoom = Zoom::default();
    let mut steps = 0;
    while zoom.zoom_out().is_ok() {
        steps += 1;
        assert!(steps <= 20);
    }
    assert_eq!(steps, 16);
    assert_eq!(zoom.level(), 0);
    assert_eq!(zoom.zoom_out(), Err(InvalidZoom));
    assert_eq!(zoom.level(), 0);
}

#[test]
fn zoom_in_fails_just_below_the_maximum() {
    let mut zoom = Zoom::new(19_001).unwrap();
    assert_eq!(zoom.zoom_in(), Err(InvalidZoom));
    assert_eq!(zoom.level(), 19_001);
    let mut zoom = Zoom::new(19_000).unwrap();
    assert_eq!(zoom.zoom_in(), Ok(()));
    assert_eq!(zoom.level(), 20_000);
}

#[test]
fn zoom_out_fails_just_above_the_minimum() {
    let mut zoom = Zoom::new(999).unwrap();
    assert_eq!(zoom.zoom_out(), Err(InvalidZoom));
    assert_eq!(zoom.level(), 999);
    let mut zoom = Zoom::new(1_000).unwrap();
    assert_eq!(zoom.zoom_out(), Ok(()));
    assert_eq!(zoom.level(), 0);
}

#[test]
fn zoom_by_changes_the_level_by_the_delta() {
    let mut zoom = Zoom::new(10_000).unwrap();
    assert_eq!(zoom.zoom_by(37), Ok(()));
    assert_eq!(zoom.level(), 10_037);
    assert_eq!(zoom.zoom_by(-10_037), Ok(()));
    assert_eq!(zoom.level(), 0);
    assert_eq!(zoom.zoom_by(20_000), Ok(()));
    assert_eq!(zoom.level(), 20_000);
    assert_eq!(zoom.zoom_by(0), Ok(()));
    assert_eq!(zoom.level(), 20_000);
}

#[test]
fn zoom_by_fails_outside_the_range_and_changes_nothing() {
    let mut zoom = Zoom::new(10_000).unwrap();
    assert_eq!(zoom.zoom_by(10_001), Err(InvalidZoom));
    assert_eq!(zoom.level(), 10_000);
    assert_eq!(zoom.zoom_by(-10_001), Err(InvalidZoom));
    assert_eq!(zoom.level(), 10_000);
    assert_eq!(zoom.zoom_by(i64::MAX), Err(InvalidZoom));
    assert_eq!(zoom.zoom_by(i64::MIN), Err(InvalidZoom));
    assert_eq!(zoom.level(), 10_000);
}

#[test]
fn round_floor_and_ceil() {
    let zoom = Zoom::new(15_499).unwrap();
    assert_eq!((zoom.floor(), zoom.round(), zoom.ceil()), (15, 15, 16));
    let zoom = Zoom::new(15_500).unwrap();
    assert_eq!((zoom.floor(), zoom.round(), zoom.ceil()), (15, 16, 16));
    let zoom = Zoom::new(16_000).unwrap();
    assert_eq!((zoom.floor(), zoom.round(), zoom.ceil()), (16, 16, 16));
    let zoom = Zoom::new(0).unwrap();
    assert_eq!((zoom.floor(), zoom.round(), zoom.ceil()), (0, 0, 0));
    let zoom = Zoom::new(20_000).unwrap();
    assert_eq!((zoom.floor(), zoom.round(), zoom.ceil()), (20, 20, 20));
}

#[test]
fn total_pixels_is_the_tile_size_times_two_to_the_zoom() {
    assert_eq!(total_pixels(0), 256);
    assert_eq!(total_pixels(1), 512);
    assert_eq!(total_pixels(2), 1024);
    assert_eq!(total_pixels(16), 16_777_216);
    assert_eq!(total_pixels(20), MAX_TOTAL_PIXELS);
    for level in 0..=MAX_ZOOM_LEVEL {
        assert_eq!(total_pixels(level), (TILE_SIZE as u64) << level);
    }
}

#[test]
fn zoom_step_is_one_level() {
    assert_eq!(ZOOM_STEP, 1000);
    assert_eq!(MAX_ZOOM, MAX_ZOOM_LEVEL as i64 * ZOOM_STEP);
}

#[test]
fn exact_scale_at_whole_levels() {
    for level in 0..=MAX_ZOOM_LEVEL {
        let zoom = Zoom::whole(level).unwrap();
        let scale = Scale::exact(zoom).unwrap();
        assert_eq!(scale.total_pixels(), total_pixels(level));
        assert_eq!(scale.zoom(), zoom);
    }
}

#[test]
fn no_exact_scale_between_whole_levels() {
    assert_eq!(Scale::exact(Zoom::new(1).unwrap()), None);
    assert_eq!(Scale::exact(Zoom::new(15_999).unwrap()), None);
    assert_eq!(Scale::exact(Zoom::new(16_500).unwrap()), None);
}

#[test]
fn scale_at_a_whole_level_has_one_width() {
    let zoom = Zoom::whole(16).unwrap();
    assert!(Scale::new(zoom, 16_777_216).is_some());
    assert_eq!(Scale::new(zoom, 16_777_215), None);
    assert_eq!(Scale::new(zoom, 16_777_217), None);
    assert_eq!(Scale::new(zoom, 0), None);
}

#[test]
fn scale_between_whole_levels_lies_between_their_widths() {
    let zoom = Zoom::new(16_500).unwrap();
    let width = (256.0 * 2f64.powf(16.5)).round() as u64;
    assert_eq!(width, 23_726_566);
    let scale = Scale::new(zoom, width).unwrap();
    assert_eq!(scale.total_pixels(), 23_726_566);
    assert_eq!(scale.zoom().level(), 16_500);
    assert!(Scale::new(zoom, total_pixels(16)).is_some());
    assert!(Scale::new(zoom, total_pixels(17)).is_some());
    assert_eq!(Scale::new(zoom, total_pixels(16) - 1), None);
    assert_eq!(Scale::new(zoom, total_pixels(17) + 1), None);
    assert_eq!(Scale::new(zoom, u64::MAX), None);
}

#[test]
fn scale_of_the_rounded_power_is_accepted_at_every_zoom() {
    let mut level = 0;
    while level <= MAX_ZOOM {
        let zoom = Zoom::new(level).unwrap();
        let width = (256.0 * 2f64.powf(level as f64 / 1000.0)).round() as u64;
        let scale = Scale::new(zoom, width);
        assert!(scale.is_some(), "level {}", level);
        if level % 1000 == 0 {
            assert_eq!(Scale::exact(zoom), scale);
        }
        level += 125;
    }
}

#[test]
fn the_bounds_error_in_words() {
    assert_eq!(InvalidZoom.to_string(), "zoom out of bounds");
    assert_eq!(Zoom::new(-1).unwrap_err().to_string(), "zoom out of bounds");
}
