//! Options of a display model: orientation, color order, color inversion, sizes and the
//! offset of the visible window within the frame buffer.
use vstd::prelude::*;

verus! {

/// Display orientation; the flag tells whether the image is mirrored.
#[derive(Debug, Clone, Copy, PartialEq, Eq, Structural)]
pub enum Orientation {
    /// Portrait orientation.
    Portrait(bool),
    /// Landscape orientation.
    Landscape(bool),
    /// Portrait orientation, upside down.
    PortraitInverted(bool),
    /// Landscape orientation, upside down.
    LandscapeInverted(bool),
}

/// Order of the color components that the panel expects.
#[derive(Debug, Clone, Copy, PartialEq, Eq, Structural)]
pub enum ColorOrder {
    /// Red, green, blue.
    Rgb,
    /// Blue, green, red.
    Bgr,
}

/// How the visible window of a display is offset within its frame buffer, by orientation.
#[derive(Debug, Clone, Copy, PartialEq, Eq, Structural)]
pub enum WindowOffset {
    /// No offset in any orientation.
    Zero,
    /// The offsets of the ST7789 "pico1" variant, a 135x240 panel cropped from a larger one.
    Pico1,
    /// An offset of 80 pixels for a 240x240 panel in a 240x320 frame buffer.
    Y80,
}

/// The pico1 window offset `(x, y)` for each orientation.
pub open spec fn pico1_offset_spec(orientation: Orientation) -> (u16, u16) {
    match orientation {
        Orientation::Portrait(false) => (52, 40),
        Orientation::Portrait(true) => (53, 40),
        Orientation::Landscape(false) => (40, 52),
        Orientation::Landscape(true) => (40, 53),
        Orientation::PortraitInverted(false) => (53, 40),
        Orientation::PortraitInverted(true) => (52, 40),
        Orientation::LandscapeInverted(false) => (40, 53),
        Orientation::LandscapeInverted(true) => (40, 52),
    }
}

/// The 80-pixel window offset `(x, y)` for each orientation.
pub open spec fn y80_offset_spec(orientation: Orientation) -> (u16, u16) {
    match orientation {
        Orientation::Portrait(_) => (0, 0),
        Orientation::Landscape(_) => (0, 0),
        Orientation::PortraitInverted(_) => (0, 80),
        Orientation::LandscapeInverted(_) => (80, 0),
    }
}

/// The window offset `(x, y)` that `offset` gives in `orientation`.
pub open spec fn window_offset_spec(offset: WindowOffset, orientation: Orientation) -> (u16, u16) {
    match offset {
        WindowOffset::Zero => (0, 0),
        WindowOffset::Pico1 => pico1_offset_spec(orientation),
        WindowOffset::Y80 => y80_offset_spec(orientation),
    }
}

/// The orientation turned a quarter: portrait becomes landscape, keeping inversion and mirroring.
pub open spec fn quarter_turn(orientation: Orientation) -> Orientation {
    match orientation {
        Orientation::Portrait(m) => Orientation::Landscape(m),
        Orientation::Landscape(m) => Orientation::Portrait(m),
        Orientation::PortraitInverted(m) => Orientation::LandscapeInverted(m),
        Orientation::LandscapeInverted(m) => Orientation::PortraitInverted(m),
    }
}

/// The orientation upside down with the mirroring toggled.
pub open spec fn flipped(orientation: Orientation) -> Orientation {
    match orientation {
        Orientation::Portrait(m) => Orientation::PortraitInverted(!m),
        Orientation::Landscape(m) => Orientation::LandscapeInverted(!m),
        Orientation::PortraitInverted(m) => Orientation::Portrait(!m),
        Orientation::LandscapeInverted(m) => Orientation::Landscape(!m),
    }
}

/// Returns the window offset of the ST7789 pico1 variant in `orientation`.
pub fn pico1_offset(orientation: Orientation) -> (r: (u16, u16))
    ensures
        r == pico1_offset_spec(orientation),
{
    match orientation {
        Orientation::Portrait(false) => (52, 40),
        Orientation::Portrait(true) => (53, 40),
        Orientation::Landscape(false) => (40, 52),
        Orientation::Landscape(true) => (40, 53),
        Orientation::PortraitInverted(false) => (53, 40),
        Orientation::PortraitInverted(true) => (52, 40),
        Orientation::LandscapeInverted(false) => (40, 53),
        Orientation::LandscapeInverted(true) => (40, 52),
    }
}

/// Returns the window offset of a 240x240 ST7789 panel in a 240x320 frame buffer in
/// `orientation`.
pub fn y80_offset(orientation: Orientation) -> (r: (u16, u16))
    ensures
        r == y80_offset_spec(orientation),
{
    match orientation {
        Orientation::Portrait(false) => (0, 0),
        Orientation::Portrait(true) => (0, 0),
        Orientation::Landscape(false) => (0, 0),
        Orientation::Landscape(true) => (0, 0),
        Orientation::PortraitInverted(false) => (0, 80),
        Orientation::PortraitInverted(true) => (0, 80),
        Orientation::LandscapeInverted(false) => (80, 0),
        Orientation::LandscapeInverted(true) => (80, 0),
    }
}

/// Turning the display a quarter swaps the axes of its window offset: for every offset rule
/// and orientation, the offset in the turned orientation is the offset with `x` and `y`
/// exchanged.
pub proof fn lemma_quarter_turn_swaps_offset(offset: WindowOffset, orientation: Orientation)
    ensures
        window_offset_spec(offset, quarter_turn(orientation)) == (
            window_offset_spec(offset, orientation).1,
            window_offset_spec(offset, orientation).0,
        ),
{
}

/// Turning the pico1 panel upside down while toggling the mirroring keeps its window offset.
pub proof fn lemma_pico1_offset_flip(orientation: Orientation)
    ensures
        pico1_offset_spec(flipped(orientation)) == pico1_offset_spec(orientation),
{
}

/// Options of a display model.
#[derive(Debug, Clone, Copy)]
pub struct ModelOptions {
    /// Color component order.
    pub color_order: ColorOrder,
    /// Display orientation.
    pub orientation: Orientation,
    /// Whether colors are inverted.
    pub invert_colors: bool,
    /// Size of the visible display in pixels, `(width, height)`.
    pub display_size: (u16, u16),
    /// Size of the controller's frame buffer in pixels, `(width, height)`.
    pub framebuffer_size: (u16, u16),
    /// Offset of the visible window within the frame buffer.
    pub window_offset: WindowOffset,
}

/// Options for a display of `display_size` in a frame buffer of `framebuffer_size` with
/// the window offset `window_offset`: RGB order, portrait orientation, no inversion.
pub open spec fn options_with_all(
    display_size: (u16, u16),
    framebuffer_size: (u16, u16),
    window_offset: WindowOffset,
) -> ModelOptions {
    ModelOptions {
        color_order: ColorOrder::Rgb,
        orientation: Orientation::Portrait(false),
        invert_colors: false,
        display_size,
        framebuffer_size,
        window_offset,
    }
}

/// Options for a display of `width` by `height` whose frame buffer has the same size, with
/// no window offset.
pub open spec fn options_with_display_size(width: u16, height: u16) -> ModelOptions {
    options_with_all((width, height), (width, height), WindowOffset::Zero)
}

impl ModelOptions {
    /// Options for a display of the given size whose frame buffer has the same size: RGB
    /// order, portrait orientation, no inversion, no window offset.
    pub fn with_display_size(width: u16, height: u16) -> (r: Self)
        ensures
            r == options_with_display_size(width, height),
    {
        ModelOptions {
            color_order: ColorOrder::Rgb,
            orientation: Orientation::Portrait(false),
            invert_colors: false,
            display_size: (width, height),
            framebuffer_size: (width, height),
            window_offset: WindowOffset::Zero,
        }
    }

    /// Options with the given display size, frame buffer size and window offset, and
    /// otherwise as [ModelOptions::with_display_size].
    pub fn with_all(
        display_size: (u16, u16),
        framebuffer_size: (u16, u16),
        window_offset: WindowOffset,
    ) -> (r: Self)
        ensures
            r == options_with_all(display_size, framebuffer_size, window_offset),
    {
        ModelOptions {
            color_order: ColorOrder::Rgb,
            orientation: Orientation::Portrait(false),
            invert_colors: false,
            display_size,
            framebuffer_size,
            window_offset,
        }
    }

    /// Returns the offset `(x, y)` of the visible window in the current orientation.
    pub fn window_offset(&self) -> (r: (u16, u16))
        ensures
            r == window_offset_spec(self.window_offset, self.orientation),
    {
        match self.window_offset {
            WindowOffset::Zero => (0, 0),
            WindowOffset::Pico1 => pico1_offset(self.orientation),
            WindowOffset::Y80 => y80_offset(self.orientation),
        }
    }
}

/// Whether the orientation is landscape, where the long side of the panel is horizontal.
pub open spec fn is_landscape(orientation: Orientation) -> bool {
    orientation matches Orientation::Landscape(_) || orientation matches Orientation::LandscapeInverted(_)
}

/// Whether the orientation is upside down.
pub open spec fn is_inverted(orientation: Orientation) -> bool {
    orientation matches Orientation::PortraitInverted(_) || orientation matches Orientation::LandscapeInverted(_)
}

/// Each window-offset rule gives the offset of its panel variant: none for `Zero`, the pico1
/// offsets for `Pico1` and the 80-pixel offsets for `Y80`, in every orientation.
pub proof fn lemma_window_offset_rules(orientation: Orientation)
    ensures
        window_offset_spec(WindowOffset::Zero, orientation) == (0u16, 0u16),
        window_offset_spec(WindowOffset::Pico1, orientation) == pico1_offset_spec(orientation),
        window_offset_spec(WindowOffset::Y80, orientation) == y80_offset_spec(orientation),
{
}

/// The `Y80` rule places a 240x240 window in a 240x320 frame buffer: the frame buffer is 320
/// pixels long along the panel's long side (vertical in portrait, horizontal in landscape).
/// There is no offset across that side; along it, the window sits at the far end
/// (offset 320 - 240) when the orientation is upside down, and at the start otherwise.
pub proof fn lemma_y80_window_placement(orientation: Orientation)
    ensures
        ({
            let (x, y) = window_offset_spec(WindowOffset::Y80, orientation);
            let along: int = if is_inverted(orientation) { 320 - 240 } else { 0 };
            if is_landscape(orientation) {
                x == along && y == 0
            } else {
                x == 0 && y == along
            }
        }),
{
}

/// The `Pico1` rule keeps the 135x240 window of the pico1 panel inside the ST7789's 240x320
/// frame buffer in every orientation, with the long side of the window along the long side of
/// the frame buffer.
pub proof fn lemma_pico1_window_inside(orientation: Orientation)
    ensures
        ({
            let (x, y) = window_offset_spec(WindowOffset::Pico1, orientation);
            if is_landscape(orientation) {
                x + 240 <= 320 && y + 135 <= 240
            } else {
                x + 135 <= 240 && y + 240 <= 320
            }
        }),
{
}

/// Options built from sizes and an offset rule take exactly those sizes and that rule, and
/// are otherwise the defaults, whatever the rule: RGB order, portrait orientation without
/// mirroring, no color inversion. Options built from a display size are those of a frame
/// buffer of the same size and no offset.
pub proof fn lemma_option_defaults(
    display_size: (u16, u16),
    framebuffer_size: (u16, u16),
    window_offset: WindowOffset,
    width: u16,
    height: u16,
)
    ensures
        options_with_all(display_size, framebuffer_size, window_offset).color_order == ColorOrder::Rgb,
        options_with_all(display_size, framebuffer_size, window_offset).orientation
            == Orientation::Portrait(false),
        !options_with_all(display_size, framebuffer_size, window_offset).invert_colors,
        options_with_all(display_size, framebuffer_size, window_offset).display_size == display_size,
        options_with_all(display_size, framebuffer_size, window_offset).framebuffer_size
            == framebuffer_size,
        options_with_all(display_size, framebuffer_size, window_offset).window_offset
            == window_offset,
        options_with_display_size(width, height).color_order == ColorOrder::Rgb,
        options_with_display_size(width, height).orientation == Orientation::Portrait(false),
        !options_with_display_size(width, height).invert_colors,
        options_with_display_size(width, height).display_size == (width, height),
        options_with_display_size(width, height).framebuffer_size == (width, height),
        options_with_display_size(width, height).window_offset == WindowOffset::Zero,
{
}

} // verus!
