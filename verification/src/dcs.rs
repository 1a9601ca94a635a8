//! The COLMOD ("set pixel format") command and the DCS command interface.
use vstd::prelude::*;
use embedded_graphics_core::pixelcolor::{Rgb565, RgbColor};
use crate::options::{ColorOrder, ModelOptions, Orientation};

verus! {

/// A command of the MIPI Display Command Set: an instruction byte followed by parameter bytes.
pub trait DcsCommand {
    /// The instruction byte of the command.
    spec fn instruction_spec(&self) -> u8;

    /// The parameter bytes that follow the instruction.
    spec fn params_spec(&self) -> Seq<u8>;

    /// Returns the instruction byte.
    fn instruction(&self) -> (r: u8)
        ensures
            r == self.instruction_spec(),
    ;

    /// Writes the parameters to the front of `buffer` and returns how many were written.
    fn fill_params_buf(&self, buffer: &mut [u8]) -> (n: usize)
        requires
            self.params_spec().len() <= old(buffer)@.len(),
        ensures
            n == self.params_spec().len(),
            final(buffer)@.len() == old(buffer)@.len(),
            final(buffer)@.take(n as int) == self.params_spec(),
            final(buffer)@.skip(n as int) == old(buffer)@.skip(n as int),
    ;
}

/// Bits per pixel for the DPI and DBI fields of a [PixelFormat].
#[derive(Debug, Clone, Copy, PartialEq, Eq, Structural)]
pub enum BitsPerPixel {
    /// 3 bits per pixel.
    Three,
    /// 8 bits per pixel.
    Eight,
    /// 12 bits per pixel.
    Twelve,
    /// 16 bits per pixel.
    Sixteen,
    /// 18 bits per pixel.
    Eighteen,
    /// 24 bits per pixel.
    TwentyFour,
}

/// Number of consecutive one bits at the low end of `x`.
pub open spec fn trailing_ones(x: nat) -> nat
    decreases x,
{
    if x % 2 == 1 {
        1 + trailing_ones(x / 2)
    } else {
        0
    }
}

impl BitsPerPixel {
    /// The three-bit field value that encodes this depth.
    pub open spec fn spec_code(self) -> u8 {
        match self {
            BitsPerPixel::Three => 0b001,
            BitsPerPixel::Eight => 0b010,
            BitsPerPixel::Twelve => 0b011,
            BitsPerPixel::Sixteen => 0b101,
            BitsPerPixel::Eighteen => 0b110,
            BitsPerPixel::TwentyFour => 0b111,
        }
    }

    /// The number of bits per pixel.
    pub open spec fn spec_bit_count(self) -> nat {
        match self {
            BitsPerPixel::Three => 3,
            BitsPerPixel::Eight => 8,
            BitsPerPixel::Twelve => 12,
            BitsPerPixel::Sixteen => 16,
            BitsPerPixel::Eighteen => 18,
            BitsPerPixel::TwentyFour => 24,
        }
    }

    /// The depth with `bits` bits per pixel, if there is one.
    pub open spec fn spec_from_bit_count(bits: nat) -> Option<BitsPerPixel> {
        if bits == 3 {
            Some(BitsPerPixel::Three)
        } else if bits == 8 {
            Some(BitsPerPixel::Eight)
        } else if bits == 12 {
            Some(BitsPerPixel::Twelve)
        } else if bits == 16 {
            Some(BitsPerPixel::Sixteen)
        } else if bits == 18 {
            Some(BitsPerPixel::Eighteen)
        } else if bits == 24 {
            Some(BitsPerPixel::TwentyFour)
        } else {
            None
        }
    }

    /// Returns the three-bit field value that encodes this depth.
    pub fn code(&self) -> (r: u8)
        ensures
            r == self.spec_code(),
            r < 8,
    {
        match self {
            BitsPerPixel::Three => 0b001,
            BitsPerPixel::Eight => 0b010,
            BitsPerPixel::Twelve => 0b011,
            BitsPerPixel::Sixteen => 0b101,
            BitsPerPixel::Eighteen => 0b110,
            BitsPerPixel::TwentyFour => 0b111,
        }
    }

    /// Returns the depth with `bits` bits per pixel, or `None` where no depth has that many.
    pub fn from_bit_count(bits: u32) -> (r: Option<BitsPerPixel>)
        ensures
            r == Self::spec_from_bit_count(bits as nat),
    {
        if bits == 3 {
            Some(BitsPerPixel::Three)
        } else if bits == 8 {
            Some(BitsPerPixel::Eight)
        } else if bits == 12 {
            Some(BitsPerPixel::Twelve)
        } else if bits == 16 {
            Some(BitsPerPixel::Sixteen)
        } else if bits == 18 {
            Some(BitsPerPixel::Eighteen)
        } else if bits == 24 {
            Some(BitsPerPixel::TwentyFour)
        } else {
            None
        }
    }

    /// Returns the depth of a color whose channels reach the given maxima, counting the one
    /// bits at the low end of each maximum; `None` where the total is no supported depth.
    pub fn from_channel_maxima(max_r: u8, max_g: u8, max_b: u8) -> (r: Option<BitsPerPixel>)
        ensures
            r == Self::spec_from_bit_count(
                trailing_ones(max_r as nat) + trailing_ones(max_g as nat) + trailing_ones(
                    max_b as nat,
                ),
            ),
    {
        let total: u32 = count_trailing_ones(max_r) + count_trailing_ones(max_g)
            + count_trailing_ones(max_b);
        Self::from_bit_count(total)
    }

    /// The depth of the `Rgb565` color format of `embedded-graphics`.
    pub fn from_rgb565() -> (r: BitsPerPixel)
        ensures
            r == BitsPerPixel::Sixteen,
    {
        let (max_r, max_g, max_b) = rgb565_channel_maxima();
        assert(trailing_ones(31) == 5 && trailing_ones(63) == 6) by {
            reveal_with_fuel(trailing_ones, 7);
        }
        match Self::from_channel_maxima(max_r, max_g, max_b) {
            Some(bpp) => bpp,
            None => BitsPerPixel::Sixteen,
        }
    }
}

/// Two to the power `k`.
pub open spec fn two_pow(k: nat) -> nat
    decreases k,
{
    if k == 0 {
        1
    } else {
        2 * two_pow((k - 1) as nat)
    }
}

/// A number below `2^k` has at most `k` trailing one bits.
proof fn lemma_trailing_ones_bound(x: nat, k: nat)
    requires
        x < two_pow(k),
    ensures
        trailing_ones(x) <= k,
    decreases k,
{
    if k > 0 && x % 2 == 1 {
        lemma_trailing_ones_bound(x / 2, (k - 1) as nat);
    }
}

/// Counts the one bits at the low end of `x`.
fn count_trailing_ones(x: u8) -> (r: u32)
    ensures
        r == trailing_ones(x as nat),
        r <= 8,
{
    proof {
        reveal_with_fuel(two_pow, 9);
        lemma_trailing_ones_bound(x as nat, 8);
    }
    let mut v: u8 = x;
    let mut count: u32 = 0;
    while v % 2 == 1
        invariant
            count + trailing_ones(v as nat) == trailing_ones(x as nat),
            trailing_ones(x as nat) <= 8,
        decreases v,
    {
        count = count + 1;
        v = v / 2;
    }
    count
}

/// The maximal red, green and blue channel values of `embedded_graphics_core`'s `Rgb565`:
/// its `RgbColor::MAX_R`, `MAX_G` and `MAX_B`, which the crate derives from 5, 6 and 5 bits.
#[verifier::external_body]
fn rgb565_channel_maxima() -> (r: (u8, u8, u8))
    ensures
        r == (31u8, 63u8, 31u8),
{
    (Rgb565::MAX_R, Rgb565::MAX_G, Rgb565::MAX_B)
}

/// The COLMOD byte for the given DPI and DBI depths: DPI in the high nibble, DBI in the low one.
pub open spec fn colmod_byte(dpi: BitsPerPixel, dbi: BitsPerPixel) -> u8 {
    (dpi.spec_code() * 16 + dbi.spec_code()) as u8
}

/// The COLMOD byte holds both depths: its high nibble is the DPI code and its low nibble
/// the DBI code, so the byte determines both depths.
pub proof fn lemma_colmod_byte_fields(dpi: BitsPerPixel, dbi: BitsPerPixel)
    ensures
        colmod_byte(dpi, dbi) / 16 == dpi.spec_code(),
        colmod_byte(dpi, dbi) % 16 == dbi.spec_code(),
        forall|dpi2: BitsPerPixel, dbi2: BitsPerPixel|
            #[trigger] colmod_byte(dpi2, dbi2) == colmod_byte(dpi, dbi) ==> dpi2 == dpi && dbi2
                == dbi,
{
    assert forall|dpi2: BitsPerPixel, dbi2: BitsPerPixel|
        #[trigger] colmod_byte(dpi2, dbi2) == colmod_byte(dpi, dbi) implies dpi2 == dpi && dbi2
            == dbi by {
        assert(colmod_byte(dpi2, dbi2) / 16 == dpi2.spec_code());
        assert(colmod_byte(dpi2, dbi2) % 16 == dbi2.spec_code());
    }
}

/// Pixel format as a combination of DPI and DBI depths.
#[derive(Debug, Clone, Copy, PartialEq, Eq, Structural)]
pub struct PixelFormat {
    dpi: BitsPerPixel,
    dbi: BitsPerPixel,
}

impl View for PixelFormat {
    /// The DPI and DBI depths, in that order.
    type V = (BitsPerPixel, BitsPerPixel);

    closed spec fn view(&self) -> (BitsPerPixel, BitsPerPixel) {
        (self.dpi, self.dbi)
    }
}

impl PixelFormat {
    /// Constructs a [PixelFormat] with the given DPI and DBI depths.
    pub fn new(dpi: BitsPerPixel, dbi: BitsPerPixel) -> (r: Self)
        ensures
            r@ == (dpi, dbi),
    {
        PixelFormat { dpi, dbi }
    }

    /// Constructs a [PixelFormat] with the same depth for DPI and DBI.
    pub fn with_all(bpp: BitsPerPixel) -> (r: Self)
        ensures
            r@ == (bpp, bpp),
    {
        PixelFormat { dpi: bpp, dbi: bpp }
    }

    /// Returns the byte that holds both the DPI and the DBI bits.
    pub fn as_u8(&self) -> (r: u8)
        ensures
            r == colmod_byte(self@.0, self@.1),
    {
        let hi = self.dpi.code();
        let lo = self.dbi.code();
        assert((hi << 4u8) | lo == hi * 16 + lo) by (bit_vector)
            requires
                hi < 8,
                lo < 8,
        ;
        (hi << 4u8) | lo
    }
}

/// The Set Pixel Format (COLMOD) command.
#[derive(Debug, Clone, Copy, PartialEq, Eq, Structural)]
pub struct SetPixelFormat(PixelFormat);

impl View for SetPixelFormat {
    type V = (BitsPerPixel, BitsPerPixel);

    closed spec fn view(&self) -> (BitsPerPixel, BitsPerPixel) {
        self.0@
    }
}

impl SetPixelFormat {
    /// Creates a Set Pixel Format command.
    pub fn new(pixel_format: PixelFormat) -> (r: Self)
        ensures
            r@ == pixel_format@,
    {
        SetPixelFormat(pixel_format)
    }
}

impl DcsCommand for SetPixelFormat {
    open spec fn instruction_spec(&self) -> u8 {
        0x3A
    }

    open spec fn params_spec(&self) -> Seq<u8> {
        seq![colmod_byte(self@.0, self@.1)]
    }

    fn instruction(&self) -> (r: u8) {
        0x3A
    }

    fn fill_params_buf(&self, buffer: &mut [u8]) -> (n: usize) {
        buffer[0] = self.0.as_u8();
        assert(buffer@.skip(1) =~= old(buffer)@.skip(1));
        assert(buffer@.take(1) =~= seq![colmod_byte(self@.0, self@.1)]);
        1
    }
}

/// The orientation bits (MY, MX, MV) of the MADCTL byte.
pub open spec fn orientation_bits(orientation: Orientation) -> u8 {
    match orientation {
        Orientation::Portrait(false) => 0b0000_0000,
        Orientation::Portrait(true) => 0b0100_0000,
        Orientation::PortraitInverted(false) => 0b1100_0000,
        Orientation::PortraitInverted(true) => 0b1000_0000,
        Orientation::Landscape(false) => 0b0010_0000,
        Orientation::Landscape(true) => 0b0110_0000,
        Orientation::LandscapeInverted(false) => 0b1110_0000,
        Orientation::LandscapeInverted(true) => 0b1010_0000,
    }
}

/// The MADCTL byte for the given options: the orientation bits, and the BGR bit where the
/// panel expects blue first.
pub open spec fn address_mode_byte(options: ModelOptions) -> u8 {
    (orientation_bits(options.orientation) + match options.color_order {
        ColorOrder::Rgb => 0u8,
        ColorOrder::Bgr => 0b0000_1000u8,
    }) as u8
}

/// The Set Address Mode (MADCTL) command.
#[derive(Debug, Clone, Copy, PartialEq, Eq, Structural)]
pub struct SetAddressMode(u8);

impl View for SetAddressMode {
    /// The MADCTL byte.
    type V = u8;

    closed spec fn view(&self) -> u8 {
        self.0
    }
}

impl SetAddressMode {
    /// The Set Address Mode command for the given options.
    pub fn from_options(options: &ModelOptions) -> (r: Self)
        ensures
            r@ == address_mode_byte(*options),
    {
        let orientation: u8 = match options.orientation {
            Orientation::Portrait(false) => 0b0000_0000,
            Orientation::Portrait(true) => 0b0100_0000,
            Orientation::PortraitInverted(false) => 0b1100_0000,
            Orientation::PortraitInverted(true) => 0b1000_0000,
            Orientation::Landscape(false) => 0b0010_0000,
            Orientation::Landscape(true) => 0b0110_0000,
            Orientation::LandscapeInverted(false) => 0b1110_0000,
            Orientation::LandscapeInverted(true) => 0b1010_0000,
        };
        let color: u8 = match options.color_order {
            ColorOrder::Rgb => 0,
            ColorOrder::Bgr => 0b0000_1000,
        };
        assert(orientation | color == orientation + color) by (bit_vector)
            requires
                orientation == 0x00 || orientation == 0x20 || orientation == 0x40 || orientation
                    == 0x60 || orientation == 0x80 || orientation == 0xA0 || orientation == 0xC0
                    || orientation == 0xE0,
                color == 0 || color == 8,
        ;
        SetAddressMode(orientation | color)
    }

    /// Returns the MADCTL byte.
    pub fn value(&self) -> (r: u8)
        ensures
            r == self@,
    {
        self.0
    }
}

impl DcsCommand for SetAddressMode {
    open spec fn instruction_spec(&self) -> u8 {
        0x36
    }

    open spec fn params_spec(&self) -> Seq<u8> {
        seq![self@]
    }

    fn instruction(&self) -> (r: u8) {
        0x36
    }

    fn fill_params_buf(&self, buffer: &mut [u8]) -> (n: usize) {
        buffer[0] = self.0;
        assert(buffer@.skip(1) =~= old(buffer)@.skip(1));
        assert(buffer@.take(1) =~= seq![self@]);
        1
    }
}

} // verus!
