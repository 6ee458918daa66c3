//! The user's settings: where the view stands and how the fractal is drawn.
use crate::scalar::{lemma_rank_orders_numbers, Scalar};
use crate::uniforms::{
    color_bits, color_modes, fractal_kinds, kind_bits, lemma_color_scheme_by_members,
    lemma_color_scheme_round_trip, lemma_fractal_type_by_members, lemma_fractal_type_round_trip,
    ColorMode, FractalColorScheme, FractalKind, FractalType, Uniforms,
};
use vstd::arithmetic::power2::{lemma2_to64, lemma_pow2_adds, pow2};
use vstd::prelude::*;

verus! {

/// The iteration limit of a fresh session.
pub const DEFAULT_MAX_ITER: u32 = 125;

/// The bits of 0.75, the zoom of a fresh session.
pub const DEFAULT_ZOOM_BITS: u32 = 0x3F40_0000;

/// The bits of -0.33, the real part of the centre that a session starts at
/// and that a reset of the centre returns to.
pub const HOME_CENTER_X_BITS: u32 = 0xBEA8_F5C3;

/// The bits of 0.8, the weight of the green and of the blue channel in a
/// fresh session.
pub const DEFAULT_CHANNEL_BITS: u32 = 0x3F4C_CCCD;

/// The bits of 1.0: the saturation and the brightness of a fresh session, and
/// the zoom after a reset.
pub const ONE_BITS: u32 = 0x3F80_0000;

/// The bits of 4.0, the escape threshold of a fresh session.
pub const DEFAULT_ESCAPE_THRESHOLD_BITS: u32 = 0x4080_0000;

/// The bits of 0.2, the least zoom. Below it the scale of the view
/// degenerates.
pub const ZOOM_MIN_BITS: u32 = 0x3E4C_CCCD;

/// The bits of the greatest finite number, the greatest zoom.
pub const ZOOM_MAX_BITS: u32 = 0x7F7F_FFFF;

/// The settings of one session. The user changes them through the panel and
/// with the pointer; once per frame a uniform block is made from them.
#[derive(Clone, Copy, Debug, PartialEq, Eq, Structural)]
pub struct UserSettings {
    pub max_iter: u32,
    pub center_x: Scalar,
    pub center_y: Scalar,
    pub initial_value_x: Scalar,
    pub initial_value_y: Scalar,
    pub zoom: Scalar,
    pub color_scheme: FractalColorScheme,
    pub rgb_green: Scalar,
    pub rgb_blue: Scalar,
    pub hsv_saturation: Scalar,
    pub hsv_brightness: Scalar,
    pub show_settings: bool,
    pub show_axis: bool,
    pub escape_threshold: Scalar,
    pub fractal_type: FractalType,
}

impl UserSettings {
    /// The settings that a session starts with.
    pub open spec fn initial() -> UserSettings {
        UserSettings {
            max_iter: DEFAULT_MAX_ITER,
            center_x: Scalar { bits: HOME_CENTER_X_BITS },
            center_y: Scalar { bits: 0 },
            initial_value_x: Scalar { bits: 0 },
            initial_value_y: Scalar { bits: 0 },
            zoom: Scalar { bits: DEFAULT_ZOOM_BITS },
            color_scheme: FractalColorScheme { rgb: false, hsv: true },
            rgb_green: Scalar { bits: DEFAULT_CHANNEL_BITS },
            rgb_blue: Scalar { bits: DEFAULT_CHANNEL_BITS },
            hsv_saturation: Scalar { bits: ONE_BITS },
            hsv_brightness: Scalar { bits: ONE_BITS },
            show_settings: true,
            show_axis: false,
            escape_threshold: Scalar { bits: DEFAULT_ESCAPE_THRESHOLD_BITS },
            fractal_type: FractalType { mandelbrot: true, julia: false },
        }
    }

    /// What holds of the settings between frames: the centre and the initial
    /// value are finite, the zoom is finite and not below the least zoom, and
    /// the escape threshold is finite and above zero.
    pub open spec fn valid(self) -> bool {
        &&& self.center_x.finite()
        &&& self.center_y.finite()
        &&& self.initial_value_x.finite()
        &&& self.initial_value_y.finite()
        &&& self.zoom.finite()
        &&& self.zoom.at_least(Scalar { bits: ZOOM_MIN_BITS })
        &&& self.escape_threshold.finite()
        &&& self.escape_threshold.rank() > 0
    }

    /// The zoom that is kept where `zoom` is asked for.
    pub open spec fn held_zoom(zoom: Scalar) -> Scalar {
        if !zoom.at_least(Scalar { bits: ZOOM_MIN_BITS }) {
            Scalar { bits: ZOOM_MIN_BITS }
        } else if !zoom.finite() {
            Scalar { bits: ZOOM_MAX_BITS }
        } else {
            zoom
        }
    }

    /// The settings that follow on `self` where `asked` is asked for.
    pub open spec fn committed(self, asked: UserSettings) -> UserSettings {
        let move_center = asked.center_x.finite() && asked.center_y.finite();
        let move_initial_value = asked.initial_value_x.finite() && asked.initial_value_y.finite();
        let take_threshold = asked.escape_threshold.finite() && asked.escape_threshold.rank() > 0;
        UserSettings {
            center_x: if move_center { asked.center_x } else { self.center_x },
            center_y: if move_center { asked.center_y } else { self.center_y },
            initial_value_x: if move_initial_value {
                asked.initial_value_x
            } else {
                self.initial_value_x
            },
            initial_value_y: if move_initial_value {
                asked.initial_value_y
            } else {
                self.initial_value_y
            },
            zoom: Self::held_zoom(asked.zoom),
            escape_threshold: if take_threshold {
                asked.escape_threshold
            } else {
                self.escape_threshold
            },
            ..asked
        }
    }

    /// The uniform block of these settings. The two points fill the first two
    /// scalars of their slots, the flag sets are stored by their bits, the
    /// axis switch as 0 or 1. The settings hold no exponent, so that slot and
    /// the padding are zero.
    pub open spec fn block(self) -> Uniforms {
        Uniforms {
            center: [self.center_x, self.center_y, Scalar { bits: 0 }, Scalar { bits: 0 }],
            initial_value: [
                self.initial_value_x,
                self.initial_value_y,
                Scalar { bits: 0 },
                Scalar { bits: 0 },
            ],
            max_iter: self.max_iter,
            zoom: self.zoom,
            rgb_green: self.rgb_green,
            rgb_blue: self.rgb_blue,
            color_scheme: color_bits(self.color_scheme@),
            hsv_saturation: self.hsv_saturation,
            hsv_brightness: self.hsv_brightness,
            show_axis: if self.show_axis { 1 } else { 0 },
            escape_threshold: self.escape_threshold,
            fractal_type: kind_bits(self.fractal_type@),
            pow: 0,
            pad: [0u8, 0u8, 0u8, 0u8],
        }
    }

    /// The settings that a session starts with: the Mandelbrot set in HSV
    /// colours, seen from a little left of the origin.
    pub fn new() -> (r: Self)
        ensures
            r == Self::initial(),
            r.valid(),
            r.color_scheme@ == set![ColorMode::Hsv],
            r.fractal_type@ == set![FractalKind::Mandelbrot],
    {
        let color_scheme = FractalColorScheme::hsv();
        let fractal_type = FractalType::mandelbrot();
        proof {
            assert(Self::initial().color_scheme@ =~= set![ColorMode::Hsv]);
            assert(Self::initial().fractal_type@ =~= set![FractalKind::Mandelbrot]);
            lemma_color_scheme_by_members(color_scheme, Self::initial().color_scheme);
            lemma_fractal_type_by_members(fractal_type, Self::initial().fractal_type);
        }
        Self {
            max_iter: DEFAULT_MAX_ITER,
            zoom: Scalar::from_bits(DEFAULT_ZOOM_BITS),
            center_x: Scalar::from_bits(HOME_CENTER_X_BITS),
            center_y: Scalar::zero(),
            initial_value_x: Scalar::zero(),
            initial_value_y: Scalar::zero(),
            color_scheme,
            rgb_green: Scalar::from_bits(DEFAULT_CHANNEL_BITS),
            rgb_blue: Scalar::from_bits(DEFAULT_CHANNEL_BITS),
            hsv_saturation: Scalar::from_bits(ONE_BITS),
            hsv_brightness: Scalar::from_bits(ONE_BITS),
            show_settings: true,
            show_axis: false,
            escape_threshold: Scalar::from_bits(DEFAULT_ESCAPE_THRESHOLD_BITS),
            fractal_type,
        }
    }

    /// Tells whether the settings are as they should be between frames.
    pub fn is_valid(&self) -> (r: bool)
        ensures
            r == self.valid(),
    {
        self.center_x.is_finite() && self.center_y.is_finite() && self.initial_value_x.is_finite()
            && self.initial_value_y.is_finite() && self.zoom.is_finite() && self.zoom.is_at_least(
            Scalar::from_bits(ZOOM_MIN_BITS),
        ) && self.escape_threshold.is_finite() && !self.escape_threshold.is_sign_negative()
            && self.escape_threshold.to_bits() != 0
    }

    /// Shows the settings panel if it is hidden and hides it if it is shown.
    pub fn toggle_settings(&mut self)
        ensures
            *final(self) == (UserSettings { show_settings: !old(self).show_settings, ..*old(self) }),
    {
        self.show_settings = !self.show_settings;
    }

    /// Moves the centre back to where a session starts.
    pub fn reset_center(&mut self)
        ensures
            *final(self) == (UserSettings {
                center_x: Scalar { bits: HOME_CENTER_X_BITS },
                center_y: Scalar { bits: 0 },
                ..*old(self)
            }),
            old(self).valid() ==> final(self).valid(),
    {
        self.center_x = Scalar::from_bits(HOME_CENTER_X_BITS);
        self.center_y = Scalar::zero();
    }

    /// Sets the zoom to one.
    pub fn reset_zoom(&mut self)
        ensures
            *final(self) == (UserSettings { zoom: Scalar { bits: ONE_BITS }, ..*old(self) }),
            old(self).valid() ==> final(self).valid(),
    {
        self.zoom = Scalar::from_bits(ONE_BITS);
    }

    /// Moves the initial value back to the origin.
    pub fn reset_initial_value(&mut self)
        ensures
            *final(self) == (UserSettings {
                initial_value_x: Scalar { bits: 0 },
                initial_value_y: Scalar { bits: 0 },
                ..*old(self)
            }),
            old(self).valid() ==> final(self).valid(),
    {
        self.initial_value_x = Scalar::zero();
        self.initial_value_y = Scalar::zero();
    }

    /// Brings the zoom into the finite numbers from the least zoom up: a zoom
    /// below the least zoom, or no number, becomes the least zoom, and a zoom
    /// beyond every finite number becomes the greatest one. A zoom in between
    /// stays as it is.
    pub fn clamp_zoom(&mut self)
        ensures
            *final(self) == (UserSettings { zoom: Self::held_zoom(old(self).zoom), ..*old(self) }),
            final(self).zoom.finite(),
            final(self).zoom.at_least(Scalar { bits: ZOOM_MIN_BITS }),
    {
        let least = Scalar::from_bits(ZOOM_MIN_BITS);
        if !self.zoom.is_at_least(least) {
            self.zoom = least;
        } else if !self.zoom.is_finite() {
            self.zoom = Scalar::from_bits(ZOOM_MAX_BITS);
        }
    }

    /// Takes over the settings that the panel and the pointer ask for, as far
    /// as they may stand. A move of the centre or of the initial value to a
    /// point that is not finite is not made, an escape threshold that is not
    /// finite and above zero is not taken, and the zoom is brought into its
    /// range. All else is taken as asked. Valid settings stay valid.
    pub fn commit(&mut self, asked: UserSettings)
        ensures
            *final(self) == old(self).committed(asked),
            old(self).valid() ==> final(self).valid(),
    {
        if asked.center_x.is_finite() && asked.center_y.is_finite() {
            self.center_x = asked.center_x;
            self.center_y = asked.center_y;
        }
        if asked.initial_value_x.is_finite() && asked.initial_value_y.is_finite() {
            self.initial_value_x = asked.initial_value_x;
            self.initial_value_y = asked.initial_value_y;
        }
        if asked.escape_threshold.is_finite() && !asked.escape_threshold.is_sign_negative()
            && asked.escape_threshold.to_bits() != 0 {
            self.escape_threshold = asked.escape_threshold;
        }
        self.zoom = asked.zoom;
        self.clamp_zoom();
        self.max_iter = asked.max_iter;
        self.color_scheme = asked.color_scheme;
        self.rgb_green = asked.rgb_green;
        self.rgb_blue = asked.rgb_blue;
        self.hsv_saturation = asked.hsv_saturation;
        self.hsv_brightness = asked.hsv_brightness;
        self.show_settings = asked.show_settings;
        self.show_axis = asked.show_axis;
        self.fractal_type = asked.fractal_type;
    }

    /// Makes the uniform block of one frame from the settings.
    pub fn uniforms(&self) -> (r: Uniforms)
        ensures
            r == self.block(),
    {
        let r = Uniforms {
            max_iter: self.max_iter,
            zoom: self.zoom,
            center: [self.center_x, self.center_y, Scalar::zero(), Scalar::zero()],
            rgb_green: self.rgb_green,
            rgb_blue: self.rgb_blue,
            color_scheme: self.color_scheme.bits(),
            hsv_saturation: self.hsv_saturation,
            hsv_brightness: self.hsv_brightness,
            show_axis: if self.show_axis { 1 } else { 0 },
            escape_threshold: self.escape_threshold,
            initial_value: [
                self.initial_value_x,
                self.initial_value_y,
                Scalar::zero(),
                Scalar::zero(),
            ],
            fractal_type: self.fractal_type.bits(),
            pow: 0,
            pad: [0; 4],
        };
        assert(r.center =~= self.block().center);
        assert(r.initial_value =~= self.block().initial_value);
        assert(r.pad =~= self.block().pad);
        r
    }
}

/// The block is a function of the settings: settings that are equal give
/// blocks that are equal, byte for byte.
pub proof fn lemma_same_settings_same_bytes(first: UserSettings, second: UserSettings)
    requires
        first == second,
    ensures
        first.block() == second.block(),
        first.block().bytes() == second.block().bytes(),
{
}

/// Of all settings only the switch of the panel stays out of the block:
/// settings that differ in nothing else give the same bytes.
pub proof fn lemma_bytes_ignore_panel(settings: UserSettings, show_settings: bool)
    ensures
        (UserSettings { show_settings, ..settings }).block().bytes() == settings.block().bytes(),
{
}

/// The two flag sets pass through their slots of the block unharmed: read
/// back from the block's integers, each is the set that the settings held.
pub proof fn lemma_flags_survive_block(settings: UserSettings)
    ensures
        color_modes(settings.block().color_scheme) == settings.color_scheme@,
        fractal_kinds(settings.block().fractal_type) == settings.fractal_type@,
{
    lemma_color_scheme_round_trip(settings.color_scheme);
    lemma_fractal_type_round_trip(settings.fractal_type);
}

/// The numbers behind the constants. Those that binary32 can hold are met
/// exactly: 3/4 for the first zoom, 1, and 4 for the escape threshold. Of the
/// others the constant is the binary32 number next to the decimal: -33/100
/// for the home of the centre, 4/5 for the channels, 1/5 for the least zoom.
pub proof fn lemma_numbers_of_constants()
    ensures
        (Scalar { bits: 0 }).is_exactly(0, 1),
        (Scalar { bits: ONE_BITS }).is_exactly(1, 1),
        (Scalar { bits: DEFAULT_ZOOM_BITS }).is_exactly(3, 4),
        (Scalar { bits: DEFAULT_ESCAPE_THRESHOLD_BITS }).is_exactly(4, 1),
        (Scalar { bits: HOME_CENTER_X_BITS }).is_within_half_step_of(-33, 100),
        (Scalar { bits: DEFAULT_CHANNEL_BITS }).is_within_half_step_of(4, 5),
        (Scalar { bits: ZOOM_MIN_BITS }).is_within_half_step_of(1, 5),
{
    lemma2_to64();
    let unit = pow2(149);
    assert(unit == pow2(23) * pow2(126)) by {
        lemma_pow2_adds(23, 126);
    }
    assert(pow2(126) == 2 * pow2(125)) by {
        lemma_pow2_adds(1, 125);
    }
    assert(pow2(125) == 2 * pow2(124)) by {
        lemma_pow2_adds(1, 124);
    }
    assert(pow2(124) == 2 * pow2(123)) by {
        lemma_pow2_adds(1, 123);
    }
    assert(pow2(128) == 4 * pow2(126)) by {
        lemma_pow2_adds(2, 126);
    }
    let p = pow2(123) as int;

    let one = Scalar { bits: ONE_BITS };
    assert(one.exponent() == 127 && one.fraction() == 0);
    assert(one.quanta() == 8388608 * (8 * p));

    let zoom = Scalar { bits: DEFAULT_ZOOM_BITS };
    assert(zoom.exponent() == 126 && zoom.fraction() == 4194304);
    assert(zoom.quanta() == 12582912 * (4 * p));

    let threshold = Scalar { bits: DEFAULT_ESCAPE_THRESHOLD_BITS };
    assert(threshold.exponent() == 129 && threshold.fraction() == 0);
    assert(threshold.quanta() == 8388608 * (32 * p));

    let home = Scalar { bits: HOME_CENTER_X_BITS };
    assert(home.sign_negative() && home.exponent() == 125 && home.fraction() == 2684355);
    assert(home.step() == 2 * p);
    assert(home.quanta() == -(11072963 * (2 * p)));

    let channel = Scalar { bits: DEFAULT_CHANNEL_BITS };
    assert(channel.exponent() == 126 && channel.fraction() == 5033165);
    assert(channel.step() == 4 * p);
    assert(channel.quanta() == 13421773 * (4 * p));

    let least = Scalar { bits: ZOOM_MIN_BITS };
    assert(least.exponent() == 124 && least.fraction() == 5033165);
    assert(least.step() == p);
    assert(least.quanta() == 13421773 * p);
}

/// The zoom never collapses: whatever zoom is asked for, the zoom that is
/// kept is a finite number, no smaller than the least zoom and so above zero.
pub proof fn lemma_held_zoom_is_positive(zoom: Scalar)
    ensures
        UserSettings::held_zoom(zoom).finite(),
        UserSettings::held_zoom(zoom).quanta() >= (Scalar { bits: ZOOM_MIN_BITS }).quanta() > 0,
{
    let least = Scalar { bits: ZOOM_MIN_BITS };
    lemma_rank_orders_numbers(UserSettings::held_zoom(zoom), least);
    lemma_rank_orders_numbers(least, Scalar { bits: 0 });
    assert((Scalar { bits: 0 }).quanta() == 0);
}

/// Settings that are asked for and may stand are taken over as they are.
pub proof fn lemma_valid_settings_are_taken(held: UserSettings, asked: UserSettings)
    requires
        asked.valid(),
    ensures
        held.committed(asked) == asked,
{
}

} // verus!
