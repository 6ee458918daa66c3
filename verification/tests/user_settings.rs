use mandelbrot_gpu::scalar::Scalar;
use mandelbrot_gpu::uniforms::{FractalColorScheme, FractalType};
use mandelbrot_gpu::user_settings::{
    UserSettings, DEFAULT_CHANNEL_BITS, DEFAULT_ESCAPE_THRESHOLD_BITS, DEFAULT_MAX_ITER,
    DEFAULT_ZOOM_BITS, HOME_CENTER_X_BITS, ONE_BITS, ZOOM_MAX_BITS, ZOOM_MIN_BITS,
};

fn scalar(value: f32) -> Scalar {
    Scalar::from_bits(value.to_bits())
}

fn number(s: Scalar) -> f32 {
    f32::from_bits(s.to_bits())
}

#[test]
fn constants_are_the_bits_of_their_numbers() {
    assert_eq!(DEFAULT_MAX_ITER, 125);
    assert_eq!(DEFAULT_ZOOM_BITS, 0.75f32.to_bits());
    assert_eq!(HOME_CENTER_X_BITS, (-0.33f32).to_bits());
    assert_eq!(DEFAULT_CHANNEL_BITS, 0.8f32.to_bits());
    assert_eq!(ONE_BITS, 1.0f32.to_bits());
    assert_eq!(DEFAULT_ESCAPE_THRESHOLD_BITS, 4.0f32.to_bits());
    assert_eq!(ZOOM_MIN_BITS, 0.2f32.to_bits());
    assert_eq!(ZOOM_MAX_BITS, f32::MAX.to_bits());
}

#[test]
fn initial_settings() {
    let s = UserSettings::new();
    assert_eq!(s.max_iter, 125);
    assert_eq!(number(s.zoom), 0.75);
    assert_eq!(number(s.center_x), -0.33);
    assert_eq!(number(s.center_y), 0.0);
    assert_eq!(number(s.initial_value_x), 0.0);
    assert_eq!(number(s.initial_value_y), 0.0);
    assert_eq!(s.color_scheme, FractalColorScheme::hsv());
    assert_eq!(number(s.rgb_green), 0.8);
    assert_eq!(number(s.rgb_blue), 0.8);
    assert_eq!(number(s.hsv_saturation), 1.0);
    assert_eq!(number(s.hsv_brightness), 1.0);
    assert!(s.show_settings);
    assert!(!s.show_axis);
    assert_eq!(number(s.escape_threshold), 4.0);
    assert_eq!(s.fractal_type, FractalType::mandelbrot());
    assert!(s.is_valid());
}

#[test]
fn panel_toggles() {
    let mut s = UserSettings::new();
    let before = s;
    s.toggle_settings();
    assert!(!s.show_settings);
    s.toggle_settings();
    assert!(s.show_settings);
    assert_eq!(s, before);
}

#[test]
fn resets_touch_their_own_fields_only() {
    let mut s = UserSettings::new();
    s.center_x = scalar(1.5);
    s.center_y = scalar(-0.5);
    s.zoom = scalar(40.0);
    s.initial_value_x = scalar(0.3);
    s.initial_value_y = scalar(0.6);
    s.max_iter = 77;
    let moved = s;

    s.reset_center();
    let mut expected = moved;
    expected.center_x = scalar(-0.33);
    expected.center_y = scalar(0.0);
    assert_eq!(s, expected);

    s.reset_zoom();
    expected.zoom = scalar(1.0);
    assert_eq!(s, expected);

    s.reset_initial_value();
    expected.initial_value_x = scalar(0.0);
    expected.initial_value_y = scalar(0.0);
    assert_eq!(s, expected);
    assert!(s.is_valid());
}

#[test]
fn zoom_is_held_at_the_least_zoom() {
    let cases: [(f32, f32); 13] = [
        (0.75, 0.75),
        (0.2, 0.2),
        (0.199_999, 0.2),
        (0.02, 0.2),
        (0.0, 0.2),
        (-0.0, 0.2),
        (-3.0, 0.2),
        (f32::NEG_INFINITY, 0.2),
        (f32::NAN, 0.2),
        (1.0e-40, 0.2),
        (100_000.0, 100_000.0),
        (f32::MAX, f32::MAX),
        (f32::INFINITY, f32::MAX),
    ];
    for (zoom, expected) in cases {
        let mut s = UserSettings::new();
        s.zoom = scalar(zoom);
        let before = s;
        s.clamp_zoom();
        assert_eq!(s.zoom, scalar(expected), "zoom {zoom}");
        let mut rest = s;
        rest.zoom = before.zoom;
        assert_eq!(rest, before);
    }
}

#[test]
fn clamped_zoom_agrees_with_the_hardware() {
    let mut state: u32 = 0x0BAD_5EED;
    for _ in 0..2000 {
        state = state.wrapping_mul(1_664_525).wrapping_add(1_013_904_223);
        let mut s = UserSettings::new();
        s.zoom = Scalar::from_bits(state);
        s.clamp_zoom();
        let expected = f32::from_bits(state).max(0.2).min(f32::MAX);
        assert_eq!(s.zoom.to_bits(), expected.to_bits(), "zoom bits {state:#x}");
        assert!(number(s.zoom) >= 0.2);
        assert!(number(s.zoom).is_finite());
    }
}

#[test]
fn scroll_never_takes_the_zoom_to_zero() {
    // The host scrolls in floating point and asks for what comes out; the
    // settings keep a zoom that is at least the least zoom.
    for zoom in [0.2f32, 0.75, 1.0, 250.0, 3.0e38] {
        for scroll in [-100_000.0f32, -380.0, -1.0, 0.0, 1.0, 380.0, 100_000.0] {
            let scrolled = zoom + zoom * (scroll / 380.0).max(-0.9);
            let mut want = UserSettings::new();
            want.zoom = scalar(scrolled);
            let mut held = UserSettings::new();
            held.zoom = scalar(zoom);
            held.commit(want);
            assert!(number(held.zoom) > 0.0);
            assert!(number(held.zoom) >= 0.2);
            assert!(held.is_valid());
            if scrolled >= 0.2 && scrolled.is_finite() {
                assert_eq!(held.zoom, scalar(scrolled));
            }
        }
    }
}

#[test]
fn validity_of_settings() {
    let good = UserSettings::new();
    assert!(good.is_valid());

    let mut s = good;
    s.center_x = scalar(f32::INFINITY);
    assert!(!s.is_valid());
    let mut s = good;
    s.center_y = scalar(f32::NAN);
    assert!(!s.is_valid());
    let mut s = good;
    s.initial_value_x = scalar(f32::NEG_INFINITY);
    assert!(!s.is_valid());
    let mut s = good;
    s.initial_value_y = scalar(f32::NAN);
    assert!(!s.is_valid());
    let mut s = good;
    s.zoom = scalar(0.1);
    assert!(!s.is_valid());
    let mut s = good;
    s.zoom = scalar(-1.0);
    assert!(!s.is_valid());
    let mut s = good;
    s.zoom = scalar(f32::INFINITY);
    assert!(!s.is_valid());
    let mut s = good;
    s.zoom = scalar(0.2);
    assert!(s.is_valid());
    let mut s = good;
    s.escape_threshold = scalar(0.0);
    assert!(!s.is_valid());
    let mut s = good;
    s.escape_threshold = scalar(-4.0);
    assert!(!s.is_valid());
    let mut s = good;
    s.escape_threshold = scalar(-0.0);
    assert!(!s.is_valid());
    let mut s = good;
    s.escape_threshold = scalar(f32::MIN_POSITIVE);
    assert!(s.is_valid());
    let mut s = good;
    s.center_x = scalar(-1.0e30);
    s.max_iter = 0;
    assert!(s.is_valid());
}

fn asked() -> UserSettings {
    let mut s = UserSettings::new();
    s.max_iter = 200;
    s.center_x = scalar(0.5);
    s.center_y = scalar(-0.25);
    s.initial_value_x = scalar(0.1);
    s.initial_value_y = scalar(0.2);
    s.zoom = scalar(12.0);
    s.color_scheme = FractalColorScheme::all();
    s.rgb_green = scalar(0.3);
    s.rgb_blue = scalar(0.4);
    s.hsv_saturation = scalar(0.5);
    s.hsv_brightness = scalar(0.6);
    s.show_settings = false;
    s.show_axis = true;
    s.escape_threshold = scalar(9.0);
    s.fractal_type = FractalType::julia();
    s
}

#[test]
fn commit_takes_valid_settings_as_they_are() {
    let mut held = UserSettings::new();
    held.commit(asked());
    assert_eq!(held, asked());
    assert!(held.is_valid());
}

#[test]
fn commit_does_not_move_to_a_point_that_is_not_finite() {
    for bad in [f32::NAN, f32::INFINITY, f32::NEG_INFINITY] {
        let mut want = asked();
        want.center_x = scalar(bad);
        let mut held = UserSettings::new();
        held.commit(want);
        let mut expected = asked();
        expected.center_x = scalar(-0.33);
        expected.center_y = scalar(0.0);
        assert_eq!(held, expected);

        let mut want = asked();
        want.center_y = scalar(bad);
        let mut held = UserSettings::new();
        held.commit(want);
        assert_eq!(held, expected);

        let mut want = asked();
        want.initial_value_y = scalar(bad);
        let mut held = UserSettings::new();
        held.commit(want);
        let mut expected = asked();
        expected.initial_value_x = scalar(0.0);
        expected.initial_value_y = scalar(0.0);
        assert_eq!(held, expected);

        let mut want = asked();
        want.initial_value_x = scalar(bad);
        let mut held = UserSettings::new();
        held.commit(want);
        assert_eq!(held, expected);
    }
}

#[test]
fn commit_keeps_the_escape_threshold_above_zero() {
    for bad in [0.0f32, -0.0, -4.0, f32::NAN, f32::INFINITY, f32::NEG_INFINITY] {
        let mut want = asked();
        want.escape_threshold = scalar(bad);
        let mut held = UserSettings::new();
        held.commit(want);
        let mut expected = asked();
        expected.escape_threshold = scalar(4.0);
        assert_eq!(held, expected, "threshold {bad}");
    }
    let mut want = asked();
    want.escape_threshold = scalar(1.0e-30);
    let mut held = UserSettings::new();
    held.commit(want);
    assert_eq!(held, want);
}

#[test]
fn commit_brings_the_zoom_into_its_range() {
    let cases: [(f32, f32); 8] = [
        (0.05, 0.2),
        (0.0, 0.2),
        (-7.0, 0.2),
        (f32::NAN, 0.2),
        (f32::NEG_INFINITY, 0.2),
        (f32::INFINITY, f32::MAX),
        (0.2, 0.2),
        (5.0e9, 5.0e9),
    ];
    for (zoom, expected_zoom) in cases {
        let mut want = asked();
        want.zoom = scalar(zoom);
        let mut held = UserSettings::new();
        held.commit(want);
        let mut expected = asked();
        expected.zoom = scalar(expected_zoom);
        assert_eq!(held, expected, "zoom {zoom}");
        assert!(held.is_valid());
    }
}

#[test]
fn commit_keeps_valid_settings_valid() {
    let mut state: u32 = 0xC0FF_EE00;
    let mut next = || {
        state = state.wrapping_mul(1_664_525).wrapping_add(1_013_904_223);
        state
    };
    let mut held = UserSettings::new();
    for _ in 0..500 {
        let mut want = held;
        want.center_x = Scalar::from_bits(next());
        want.center_y = Scalar::from_bits(next());
        want.initial_value_x = Scalar::from_bits(next());
        want.initial_value_y = Scalar::from_bits(next());
        want.zoom = Scalar::from_bits(next());
        want.escape_threshold = Scalar::from_bits(next());
        want.max_iter = next();
        want.show_axis = next() % 2 == 0;
        held.commit(want);
        assert!(held.is_valid());
        assert!(number(held.zoom) >= 0.2);
        assert!(number(held.zoom) > 0.0);
        assert_eq!(held.max_iter, want.max_iter);
        assert_eq!(held.show_axis, want.show_axis);
    }
}
