//! The uniform block that the fractal shader reads, and the two flag sets
//! that it carries.
use crate::scalar::Scalar;
use vstd::prelude::*;
use vstd::string::StringExecFns;

verus! {

/// One way of colouring a point by its escape time.
#[derive(Clone, Copy, Debug, PartialEq, Eq, Hash, Structural)]
pub enum ColorMode {
    Rgb,
    Hsv,
}

/// One member of the family of fractals that the shader can draw.
#[derive(Clone, Copy, Debug, PartialEq, Eq, Hash, Structural)]
pub enum FractalKind {
    Mandelbrot,
    Julia,
}

/// The bit that stands for RGB colouring in the block.
pub const RGB_BIT: u32 = 1;

/// The bit that stands for HSV colouring in the block.
pub const HSV_BIT: u32 = 2;

/// The bit that stands for the Mandelbrot set in the block.
pub const MANDELBROT_BIT: u32 = 1;

/// The bit that stands for the Julia set in the block.
pub const JULIA_BIT: u32 = 2;

/// The bit of a colouring mode.
pub open spec fn color_bit(mode: ColorMode) -> u32 {
    match mode {
        ColorMode::Rgb => RGB_BIT,
        ColorMode::Hsv => HSV_BIT,
    }
}

/// The bit of a fractal kind.
pub open spec fn kind_bit(kind: FractalKind) -> u32 {
    match kind {
        FractalKind::Mandelbrot => MANDELBROT_BIT,
        FractalKind::Julia => JULIA_BIT,
    }
}

/// The integer that encodes a set of colouring modes: the sum of their bits.
pub open spec fn color_bits(modes: Set<ColorMode>) -> u32 {
    let rgb: u32 = if modes.contains(ColorMode::Rgb) { RGB_BIT } else { 0 };
    let hsv: u32 = if modes.contains(ColorMode::Hsv) { HSV_BIT } else { 0 };
    (rgb + hsv) as u32
}

/// The colouring modes whose bits are set in `bits`; other bits are ignored.
pub open spec fn color_modes(bits: u32) -> Set<ColorMode> {
    Set::new(|mode: ColorMode| bits & color_bit(mode) != 0)
}

/// The integer that encodes a set of fractal kinds: the sum of their bits.
pub open spec fn kind_bits(kinds: Set<FractalKind>) -> u32 {
    let mandelbrot: u32 = if kinds.contains(FractalKind::Mandelbrot) { MANDELBROT_BIT } else { 0 };
    let julia: u32 = if kinds.contains(FractalKind::Julia) { JULIA_BIT } else { 0 };
    (mandelbrot + julia) as u32
}

/// The fractal kinds whose bits are set in `bits`; other bits are ignored.
pub open spec fn fractal_kinds(bits: u32) -> Set<FractalKind> {
    Set::new(|kind: FractalKind| bits & kind_bit(kind) != 0)
}

/// The names in `parts`, with `separator` between each two of them.
pub open spec fn joined(parts: Seq<Seq<char>>, separator: Seq<char>) -> Seq<char>
    decreases parts.len(),
{
    if parts.len() == 0 {
        Seq::empty()
    } else if parts.len() == 1 {
        parts[0]
    } else {
        joined(parts.drop_last(), separator) + separator + parts.last()
    }
}

/// What a flag set shows for itself: its members' names with a bar between
/// them, or a placeholder where it has no member.
pub open spec fn set_label(names: Seq<Seq<char>>) -> Seq<char> {
    if names.len() == 0 {
        "(none)"@
    } else {
        joined(names, " | "@)
    }
}

/// The names of the colouring modes in `modes`, in the order of display.
pub open spec fn color_names(modes: Set<ColorMode>) -> Seq<Seq<char>> {
    let rgb: Seq<Seq<char>> = if modes.contains(ColorMode::Rgb) { seq!["RGB"@] } else { seq![] };
    let hsv: Seq<Seq<char>> = if modes.contains(ColorMode::Hsv) { seq!["HSV"@] } else { seq![] };
    rgb + hsv
}

/// The names of the fractal kinds in `kinds`, in the order of display.
pub open spec fn kind_names(kinds: Set<FractalKind>) -> Seq<Seq<char>> {
    let julia: Seq<Seq<char>> = if kinds.contains(FractalKind::Julia) {
        seq!["Джулиа"@]
    } else {
        seq![]
    };
    let mandelbrot: Seq<Seq<char>> = if kinds.contains(FractalKind::Mandelbrot) {
        seq!["Мандельброт"@]
    } else {
        seq![]
    };
    julia + mandelbrot
}

/// A set of colouring modes. Any combination may be chosen: none, one, or
/// both at once.
#[derive(Clone, Copy, Debug, PartialEq, Eq, Hash, Structural)]
pub struct FractalColorScheme {
    pub rgb: bool,
    pub hsv: bool,
}

impl View for FractalColorScheme {
    type V = Set<ColorMode>;

    open spec fn view(&self) -> Set<ColorMode> {
        Set::new(
            |mode: ColorMode|
                match mode {
                    ColorMode::Rgb => self.rgb,
                    ColorMode::Hsv => self.hsv,
                },
        )
    }
}

impl FractalColorScheme {
    /// The set with no mode.
    pub fn empty() -> (r: Self)
        ensures
            r@ == Set::<ColorMode>::empty(),
    {
        let r = FractalColorScheme { rgb: false, hsv: false };
        assert(r@ =~= Set::<ColorMode>::empty());
        r
    }

    /// The set with both modes.
    pub fn all() -> (r: Self)
        ensures
            r@ == Set::<ColorMode>::full(),
    {
        let r = FractalColorScheme { rgb: true, hsv: true };
        assert(r@ =~= Set::<ColorMode>::full());
        r
    }

    /// The set that holds RGB colouring alone.
    pub fn rgb() -> (r: Self)
        ensures
            r@ == set![ColorMode::Rgb],
    {
        let r = FractalColorScheme { rgb: true, hsv: false };
        assert(r@ =~= set![ColorMode::Rgb]);
        r
    }

    /// The set that holds HSV colouring alone.
    pub fn hsv() -> (r: Self)
        ensures
            r@ == set![ColorMode::Hsv],
    {
        let r = FractalColorScheme { rgb: false, hsv: true };
        assert(r@ =~= set![ColorMode::Hsv]);
        r
    }

    /// The integer that stands for this set in the block.
    pub fn bits(&self) -> (r: u32)
        ensures
            r == color_bits(self@),
    {
        let rgb: u32 = if self.rgb { RGB_BIT } else { 0 };
        let hsv: u32 = if self.hsv { HSV_BIT } else { 0 };
        rgb + hsv
    }

    /// The set that `bits` stands for, or nothing where a bit is set that
    /// stands for no mode.
    pub fn from_bits(bits: u32) -> (r: Option<Self>)
        ensures
            r is Some <==> bits <= RGB_BIT + HSV_BIT,
            r matches Some(s) ==> s@ == color_modes(bits) && color_bits(s@) == bits,
    {
        if bits > RGB_BIT + HSV_BIT {
            None
        } else {
            let s = Self::from_bits_truncate(bits);
            proof {
                assert(bits <= 3 ==> ((bits & 1 != 0) <==> (bits == 1 || bits == 3)) && ((bits & 2
                    != 0) <==> (bits == 2 || bits == 3))) by (bit_vector);
                assert(s@.contains(ColorMode::Rgb) == (bits & color_bit(ColorMode::Rgb) != 0));
                assert(s@.contains(ColorMode::Hsv) == (bits & color_bit(ColorMode::Hsv) != 0));
            }
            Some(s)
        }
    }

    /// The set of the modes whose bits are set in `bits`. Bits that stand for
    /// no mode are dropped.
    pub fn from_bits_truncate(bits: u32) -> (r: Self)
        ensures
            r@ == color_modes(bits),
    {
        let r = FractalColorScheme { rgb: bits & RGB_BIT != 0, hsv: bits & HSV_BIT != 0 };
        assert(r@ =~= color_modes(bits));
        r
    }

    /// Tells whether the set has no mode.
    pub fn is_empty(&self) -> (r: bool)
        ensures
            r == (self@ == Set::<ColorMode>::empty()),
    {
        proof {
            if !self.rgb && !self.hsv {
                assert(self@ =~= Set::<ColorMode>::empty());
            } else {
                assert(self@.contains(ColorMode::Rgb) || self@.contains(ColorMode::Hsv));
            }
        }
        !self.rgb && !self.hsv
    }

    /// Tells whether every mode of `other` is in this set.
    pub fn contains(&self, other: Self) -> (r: bool)
        ensures
            r == other@.subset_of(self@),
    {
        proof {
            if (!other.rgb || self.rgb) && (!other.hsv || self.hsv) {
                assert(other@.subset_of(self@));
            } else if other.rgb && !self.rgb {
                assert(other@.contains(ColorMode::Rgb) && !self@.contains(ColorMode::Rgb));
            } else {
                assert(other@.contains(ColorMode::Hsv) && !self@.contains(ColorMode::Hsv));
            }
        }
        (!other.rgb || self.rgb) && (!other.hsv || self.hsv)
    }

    /// The modes that are in this set or in `other`.
    pub fn union(self, other: Self) -> (r: Self)
        ensures
            r@ == self@.union(other@),
    {
        let r = FractalColorScheme { rgb: self.rgb || other.rgb, hsv: self.hsv || other.hsv };
        assert(r@ =~= self@.union(other@));
        r
    }

    /// The modes that are in this set and in `other`.
    pub fn intersection(self, other: Self) -> (r: Self)
        ensures
            r@ == self@.intersect(other@),
    {
        let r = FractalColorScheme { rgb: self.rgb && other.rgb, hsv: self.hsv && other.hsv };
        assert(r@ =~= self@.intersect(other@));
        r
    }

    /// The modes of this set that are not in `other`.
    pub fn difference(self, other: Self) -> (r: Self)
        ensures
            r@ == self@.difference(other@),
    {
        let r = FractalColorScheme { rgb: self.rgb && !other.rgb, hsv: self.hsv && !other.hsv };
        assert(r@ =~= self@.difference(other@));
        r
    }

    /// Adds the modes of `other` to this set.
    pub fn insert(&mut self, other: Self)
        ensures
            final(self)@ == old(self)@.union(other@),
    {
        *self = self.union(other);
    }

    /// Takes the modes of `other` out of this set.
    pub fn remove(&mut self, other: Self)
        ensures
            final(self)@ == old(self)@.difference(other@),
    {
        *self = self.difference(other);
    }

    /// The text that shows this set to the user.
    pub fn to_string(&self) -> (r: String)
        ensures
            r@ == set_label(color_names(self@)),
    {
        let mut out = String::new();
        let mut any = false;
        if self.rgb {
            out.append("RGB");
            any = true;
        }
        if self.hsv {
            if any {
                out.append(" | ");
            }
            out.append("HSV");
            any = true;
        }
        if !any {
            out.append("(none)");
        }
        proof {
            let names = color_names(self@);
            if self.rgb && self.hsv {
                assert(names =~= seq!["RGB"@, "HSV"@]);
                assert(names.drop_last() =~= seq!["RGB"@]);
                reveal_with_fuel(joined, 3);
            } else if self.rgb {
                assert(names =~= seq!["RGB"@]);
            } else if self.hsv {
                assert(names =~= seq!["HSV"@]);
            } else {
                assert(names =~= Seq::<Seq<char>>::empty());
            }
            assert(out@ =~= set_label(names));
        }
        out
    }
}

/// Two sets of colouring modes with the same members are the same value.
pub proof fn lemma_color_scheme_by_members(a: FractalColorScheme, b: FractalColorScheme)
    ensures
        a@ == b@ <==> a == b,
{
    if a@ == b@ {
        assert(a@.contains(ColorMode::Rgb) == b@.contains(ColorMode::Rgb));
        assert(a@.contains(ColorMode::Hsv) == b@.contains(ColorMode::Hsv));
    }
}

/// A set of fractal kinds. Any combination may be chosen: none, one, or both
/// at once.
#[derive(Clone, Copy, Debug, PartialEq, Eq, Hash, Structural)]
pub struct FractalType {
    pub mandelbrot: bool,
    pub julia: bool,
}

impl View for FractalType {
    type V = Set<FractalKind>;

    open spec fn view(&self) -> Set<FractalKind> {
        Set::new(
            |kind: FractalKind|
                match kind {
                    FractalKind::Mandelbrot => self.mandelbrot,
                    FractalKind::Julia => self.julia,
                },
        )
    }
}

impl FractalType {
    /// The set with no kind.
    pub fn empty() -> (r: Self)
        ensures
            r@ == Set::<FractalKind>::empty(),
    {
        let r = FractalType { mandelbrot: false, julia: false };
        assert(r@ =~= Set::<FractalKind>::empty());
        r
    }

    /// The set with both kinds.
    pub fn all() -> (r: Self)
        ensures
            r@ == Set::<FractalKind>::full(),
    {
        let r = FractalType { mandelbrot: true, julia: true };
        assert(r@ =~= Set::<FractalKind>::full());
        r
    }

    /// The set that holds the Mandelbrot set alone.
    pub fn mandelbrot() -> (r: Self)
        ensures
            r@ == set![FractalKind::Mandelbrot],
    {
        let r = FractalType { mandelbrot: true, julia: false };
        assert(r@ =~= set![FractalKind::Mandelbrot]);
        r
    }

    /// The set that holds the Julia set alone.
    pub fn julia() -> (r: Self)
        ensures
            r@ == set![FractalKind::Julia],
    {
        let r = FractalType { mandelbrot: false, julia: true };
        assert(r@ =~= set![FractalKind::Julia]);
        r
    }

    /// The integer that stands for this set in the block.
    pub fn bits(&self) -> (r: u32)
        ensures
            r == kind_bits(self@),
    {
        let mandelbrot: u32 = if self.mandelbrot { MANDELBROT_BIT } else { 0 };
        let julia: u32 = if self.julia { JULIA_BIT } else { 0 };
        mandelbrot + julia
    }

    /// The set that `bits` stands for, or nothing where a bit is set that
    /// stands for no kind.
    pub fn from_bits(bits: u32) -> (r: Option<Self>)
        ensures
            r is Some <==> bits <= MANDELBROT_BIT + JULIA_BIT,
            r matches Some(s) ==> s@ == fractal_kinds(bits) && kind_bits(s@) == bits,
    {
        if bits > MANDELBROT_BIT + JULIA_BIT {
            None
        } else {
            let s = Self::from_bits_truncate(bits);
            proof {
                assert(bits <= 3 ==> ((bits & 1 != 0) <==> (bits == 1 || bits == 3)) && ((bits & 2
                    != 0) <==> (bits == 2 || bits == 3))) by (bit_vector);
                assert(s@.contains(FractalKind::Mandelbrot) == (bits & kind_bit(
                    FractalKind::Mandelbrot,
                ) != 0));
                assert(s@.contains(FractalKind::Julia) == (bits & kind_bit(FractalKind::Julia)
                    != 0));
            }
            Some(s)
        }
    }

    /// The set of the kinds whose bits are set in `bits`. Bits that stand for
    /// no kind are dropped.
    pub fn from_bits_truncate(bits: u32) -> (r: Self)
        ensures
            r@ == fractal_kinds(bits),
    {
        let r = FractalType {
            mandelbrot: bits & MANDELBROT_BIT != 0,
            julia: bits & JULIA_BIT != 0,
        };
        assert(r@ =~= fractal_kinds(bits));
        r
    }

    /// Tells whether the set has no kind.
    pub fn is_empty(&self) -> (r: bool)
        ensures
            r == (self@ == Set::<FractalKind>::empty()),
    {
        proof {
            if !self.mandelbrot && !self.julia {
                assert(self@ =~= Set::<FractalKind>::empty());
            } else {
                assert(self@.contains(FractalKind::Mandelbrot) || self@.contains(
                    FractalKind::Julia,
                ));
            }
        }
        !self.mandelbrot && !self.julia
    }

    /// Tells whether every kind of `other` is in this set.
    pub fn contains(&self, other: Self) -> (r: bool)
        ensures
            r == other@.subset_of(self@),
    {
        proof {
            if (!other.mandelbrot || self.mandelbrot) && (!other.julia || self.julia) {
                assert(other@.subset_of(self@));
            } else if other.mandelbrot && !self.mandelbrot {
                assert(other@.contains(FractalKind::Mandelbrot) && !self@.contains(
                    FractalKind::Mandelbrot,
                ));
            } else {
                assert(other@.contains(FractalKind::Julia) && !self@.contains(FractalKind::Julia));
            }
        }
        (!other.mandelbrot || self.mandelbrot) && (!other.julia || self.julia)
    }

    /// The kinds that are in this set or in `other`.
    pub fn union(self, other: Self) -> (r: Self)
        ensures
            r@ == self@.union(other@),
    {
        let r = FractalType {
            mandelbrot: self.mandelbrot || other.mandelbrot,
            julia: self.julia || other.julia,
        };
        assert(r@ =~= self@.union(other@));
        r
    }

    /// The kinds that are in this set and in `other`.
    pub fn intersection(self, other: Self) -> (r: Self)
        ensures
            r@ == self@.intersect(other@),
    {
        let r = FractalType {
            mandelbrot: self.mandelbrot && other.mandelbrot,
            julia: self.julia && other.julia,
        };
        assert(r@ =~= self@.intersect(other@));
        r
    }

    /// The kinds of this set that are not in `other`.
    pub fn difference(self, other: Self) -> (r: Self)
        ensures
            r@ == self@.difference(other@),
    {
        let r = FractalType {
            mandelbrot: self.mandelbrot && !other.mandelbrot,
            julia: self.julia && !other.julia,
        };
        assert(r@ =~= self@.difference(other@));
        r
    }

    /// Adds the kinds of `other` to this set.
    pub fn insert(&mut self, other: Self)
        ensures
            final(self)@ == old(self)@.union(other@),
    {
        *self = self.union(other);
    }

    /// Takes the kinds of `other` out of this set.
    pub fn remove(&mut self, other: Self)
        ensures
            final(self)@ == old(self)@.difference(other@),
    {
        *self = self.difference(other);
    }

    /// The text that shows this set to the user. The Julia set comes first.
    pub fn to_string(&self) -> (r: String)
        ensures
            r@ == set_label(kind_names(self@)),
    {
        let mut out = String::new();
        let mut any = false;
        if self.julia {
            out.append("Джулиа");
            any = true;
        }
        if self.mandelbrot {
            if any {
                out.append(" | ");
            }
            out.append("Мандельброт");
            any = true;
        }
        if !any {
            out.append("(none)");
        }
        proof {
            let names = kind_names(self@);
            if self.julia && self.mandelbrot {
                assert(names =~= seq!["Джулиа"@, "Мандельброт"@]);
                assert(names.drop_last() =~= seq!["Джулиа"@]);
                reveal_with_fuel(joined, 3);
            } else if self.julia {
                assert(names =~= seq!["Джулиа"@]);
            } else if self.mandelbrot {
                assert(names =~= seq!["Мандельброт"@]);
            } else {
                assert(names =~= Seq::<Seq<char>>::empty());
            }
            assert(out@ =~= set_label(names));
        }
        out
    }
}

/// Two sets of fractal kinds with the same members are the same value.
pub proof fn lemma_fractal_type_by_members(a: FractalType, b: FractalType)
    ensures
        a@ == b@ <==> a == b,
{
    if a@ == b@ {
        assert(a@.contains(FractalKind::Mandelbrot) == b@.contains(FractalKind::Mandelbrot));
        assert(a@.contains(FractalKind::Julia) == b@.contains(FractalKind::Julia));
    }
}

/// A set of colouring modes comes back from its integer as it went in,
/// whichever modes it holds: none, one, or both at once.
pub proof fn lemma_color_scheme_round_trip(scheme: FractalColorScheme)
    ensures
        color_bits(scheme@) <= RGB_BIT + HSV_BIT,
        color_modes(color_bits(scheme@)) == scheme@,
{
    let bits = color_bits(scheme@);
    assert(bits <= 3 ==> ((bits & 1 != 0) <==> (bits == 1 || bits == 3)) && ((bits & 2 != 0) <==> (
    bits == 2 || bits == 3))) by (bit_vector);
    assert forall|mode: ColorMode| color_modes(bits).contains(mode) == scheme@.contains(mode) by {
        assert(color_modes(bits).contains(mode) == (bits & color_bit(mode) != 0));
    }
    assert(color_modes(bits) =~= scheme@);
}

/// A set of fractal kinds comes back from its integer as it went in,
/// whichever kinds it holds: none, one, or both at once.
pub proof fn lemma_fractal_type_round_trip(kinds: FractalType)
    ensures
        kind_bits(kinds@) <= MANDELBROT_BIT + JULIA_BIT,
        fractal_kinds(kind_bits(kinds@)) == kinds@,
{
    let bits = kind_bits(kinds@);
    assert(bits <= 3 ==> ((bits & 1 != 0) <==> (bits == 1 || bits == 3)) && ((bits & 2 != 0) <==> (
    bits == 2 || bits == 3))) by (bit_vector);
    assert forall|kind: FractalKind| fractal_kinds(bits).contains(kind) == kinds@.contains(kind) by {
        assert(fractal_kinds(bits).contains(kind) == (bits & kind_bit(kind) != 0));
    }
    assert(fractal_kinds(bits) =~= kinds@);
}

/// The size of the block in bytes, as the shader declares it.
pub const UNIFORMS_SIZE: usize = 80;

/// The number of four-byte slots that the block's fields fill.
pub const SLOT_COUNT: usize = 19;

/// The number of padding bytes after the last slot.
pub const PAD_LEN: usize = 4;

/// The four bytes of a slot, least significant first.
pub open spec fn word_bytes(word: u32) -> Seq<u8> {
    seq![
        (word % 256) as u8,
        (word / 256 % 256) as u8,
        (word / 65536 % 256) as u8,
        (word / 16777216) as u8,
    ]
}

/// The values that the shader needs for one frame, in the order and the
/// widths in which it reads them.
///
/// Every field but `pad` fills one or four slots of four bytes. `center` and
/// `initial_value` are points of the complex plane, real part first, widened
/// to four scalars. `color_scheme` and `fractal_type` hold the bits of a flag
/// set, `show_axis` holds 0 or 1.
#[derive(Clone, Copy, Debug, PartialEq, Eq)]
pub struct Uniforms {
    pub center: [Scalar; 4],
    pub initial_value: [Scalar; 4],
    pub max_iter: u32,
    pub zoom: Scalar,
    pub rgb_green: Scalar,
    pub rgb_blue: Scalar,
    pub color_scheme: u32,
    pub hsv_saturation: Scalar,
    pub hsv_brightness: Scalar,
    pub show_axis: u32,
    pub escape_threshold: Scalar,
    pub fractal_type: u32,
    pub pow: u32,
    pub pad: [u8; 4],
}

impl Uniforms {
    /// The slots of the block in the order of the layout.
    pub open spec fn slots(self) -> Seq<u32> {
        seq![
            self.center[0].bits,
            self.center[1].bits,
            self.center[2].bits,
            self.center[3].bits,
            self.initial_value[0].bits,
            self.initial_value[1].bits,
            self.initial_value[2].bits,
            self.initial_value[3].bits,
            self.max_iter,
            self.zoom.bits,
            self.rgb_green.bits,
            self.rgb_blue.bits,
            self.color_scheme,
            self.hsv_saturation.bits,
            self.hsv_brightness.bits,
            self.show_axis,
            self.escape_threshold.bits,
            self.fractal_type,
            self.pow,
        ]
    }

    /// The bytes that the GPU buffer receives: slot after slot, each with its
    /// least significant byte first, then the padding.
    pub open spec fn bytes(self) -> Seq<u8> {
        Seq::new(
            UNIFORMS_SIZE as nat,
            |i: int|
                if i < 4 * SLOT_COUNT {
                    word_bytes(self.slots()[i / 4])[i % 4]
                } else {
                    self.pad[i - 4 * SLOT_COUNT]
                },
        )
    }

    /// Writes the block out as the bytes of the GPU buffer.
    pub fn to_bytes(&self) -> (out: Vec<u8>)
        ensures
            out@ == self.bytes(),
            out@.len() == UNIFORMS_SIZE,
    {
        let slots: [u32; 19] = [
            self.center[0].bits,
            self.center[1].bits,
            self.center[2].bits,
            self.center[3].bits,
            self.initial_value[0].bits,
            self.initial_value[1].bits,
            self.initial_value[2].bits,
            self.initial_value[3].bits,
            self.max_iter,
            self.zoom.bits,
            self.rgb_green.bits,
            self.rgb_blue.bits,
            self.color_scheme,
            self.hsv_saturation.bits,
            self.hsv_brightness.bits,
            self.show_axis,
            self.escape_threshold.bits,
            self.fractal_type,
            self.pow,
        ];
        assert(slots@ =~= self.slots());
        let mut out: Vec<u8> = Vec::with_capacity(UNIFORMS_SIZE);
        let mut k: usize = 0;
        while k < SLOT_COUNT
            invariant
                k <= SLOT_COUNT,
                slots@ == self.slots(),
                out@.len() == 4 * k,
                forall|i: int| 0 <= i < 4 * k ==> out@[i] == self.bytes()[i],
            decreases SLOT_COUNT - k,
        {
            push_word(&mut out, slots[k]);
            k += 1;
        }
        let mut j: usize = 0;
        while j < PAD_LEN
            invariant
                j <= PAD_LEN,
                out@.len() == 4 * SLOT_COUNT + j,
                forall|i: int| 0 <= i < 4 * SLOT_COUNT + j ==> out@[i] == self.bytes()[i],
            decreases PAD_LEN - j,
        {
            out.push(self.pad[j]);
            j += 1;
        }
        assert(out@ =~= self.bytes());
        out
    }
}

/// Appends the four bytes of `word` to `out`, least significant first.
fn push_word(out: &mut Vec<u8>, word: u32)
    ensures
        final(out)@ == old(out)@ + word_bytes(word),
{
    let b0: u8 = (word & 0xff) as u8;
    let b1: u8 = ((word >> 8) & 0xff) as u8;
    let b2: u8 = ((word >> 16) & 0xff) as u8;
    let b3: u8 = (word >> 24) as u8;
    proof {
        assert(word & 0xff == word % 256) by (bit_vector);
        assert((word >> 8) & 0xff == word / 256 % 256) by (bit_vector);
        assert((word >> 16) & 0xff == word / 65536 % 256) by (bit_vector);
        assert(word >> 24 == word / 16777216 && word >> 24 < 256) by (bit_vector);
    }
    out.push(b0);
    out.push(b1);
    out.push(b2);
    out.push(b3);
    assert(out@ =~= old(out)@ + word_bytes(word));
}

/// A slot can be read back from its four bytes.
pub proof fn lemma_word_bytes_fix_word(a: u32, b: u32)
    requires
        word_bytes(a) == word_bytes(b),
    ensures
        a == b,
{
    assert(word_bytes(a)[0] == word_bytes(b)[0]);
    assert(word_bytes(a)[1] == word_bytes(b)[1]);
    assert(word_bytes(a)[2] == word_bytes(b)[2]);
    assert(word_bytes(a)[3] == word_bytes(b)[3]);
}

/// The layout loses nothing: two blocks with the same bytes are the same
/// block.
pub proof fn lemma_bytes_fix_block(a: Uniforms, b: Uniforms)
    requires
        a.bytes() == b.bytes(),
    ensures
        a == b,
{
    assert forall|k: int| 0 <= k < SLOT_COUNT implies a.slots()[k] == b.slots()[k] by {
        assert forall|j: int| 0 <= j < 4 implies word_bytes(a.slots()[k])[j] == word_bytes(
            b.slots()[k],
        )[j] by {
            let i = 4 * k + j;
            assert(a.bytes()[i] == word_bytes(a.slots()[i / 4])[i % 4]);
            assert(b.bytes()[i] == word_bytes(b.slots()[i / 4])[i % 4]);
        }
        assert(word_bytes(a.slots()[k]) =~= word_bytes(b.slots()[k]));
        lemma_word_bytes_fix_word(a.slots()[k], b.slots()[k]);
    }
    assert forall|j: int| 0 <= j < PAD_LEN implies a.pad[j] == b.pad[j] by {
        let i = 4 * SLOT_COUNT + j;
        assert(a.bytes()[i] == a.pad[i - 4 * SLOT_COUNT]);
        assert(b.bytes()[i] == b.pad[i - 4 * SLOT_COUNT]);
    }
    assert(a.center =~= b.center);
    assert(a.initial_value =~= b.initial_value);
    assert(a.pad =~= b.pad);
}

} // verus!
