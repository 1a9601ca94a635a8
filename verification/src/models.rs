//! Display models and their initialization sequences. Each sequence is a list of steps, a
//! delay or a command with its parameters, that a driver performs in order, stopping at the
//! first error.
use vstd::prelude::*;
use crate::dcs::{
    address_mode_byte, colmod_byte, BitsPerPixel, DcsCommand, PixelFormat, SetAddressMode,
    SetPixelFormat,
};
use crate::options::ModelOptions;

verus! {

/// One step of an initialization sequence.
#[derive(Debug)]
pub enum InitAction {
    /// Wait for the given number of microseconds.
    Delay(u32),
    /// Send the instruction byte with the parameter bytes.
    Command(u8, Vec<u8>),
}

/// What a driver does next while it initializes a display.
#[derive(Debug)]
pub enum InitProgress<E> {
    /// Perform this step, then report how it went.
    Perform(InitAction),
    /// All steps succeeded; the display is set to this address mode.
    Done(SetAddressMode),
    /// A step failed with this error; initialization stops here.
    Failed(E),
}

/// The mathematical value of an [InitAction].
pub ghost enum InitStep {
    /// Wait for the given number of microseconds.
    Delay(u32),
    /// Send the instruction byte with the parameter bytes.
    Command(u8, Seq<u8>),
}

impl View for InitAction {
    type V = InitStep;

    open spec fn view(&self) -> InitStep {
        match self {
            InitAction::Delay(us) => InitStep::Delay(*us),
            InitAction::Command(instruction, params) => InitStep::Command(*instruction, params@),
        }
    }
}

/// A command without parameters.
pub open spec fn bare(instruction: u8) -> InitStep {
    InitStep::Command(instruction, Seq::empty())
}

/// Exit Sleep Mode.
pub open spec fn exit_sleep_step() -> InitStep {
    bare(0x11)
}

/// Enter Normal Mode.
pub open spec fn enter_normal_step() -> InitStep {
    bare(0x13)
}

/// Set Display On.
pub open spec fn display_on_step() -> InitStep {
    bare(0x29)
}

/// Enter (0x21) or exit (0x20) color inversion mode.
pub open spec fn invert_step(invert: bool) -> InitStep {
    bare(if invert { 0x21u8 } else { 0x20u8 })
}

/// Set Address Mode (MADCTL) for the options.
pub open spec fn address_mode_step(options: ModelOptions) -> InitStep {
    InitStep::Command(0x36, seq![address_mode_byte(options)])
}

/// Set Pixel Format (COLMOD) for 16-bit RGB565 pixels on both interfaces.
pub open spec fn rgb565_pixel_format_step() -> InitStep {
    InitStep::Command(0x3A, seq![colmod_byte(BitsPerPixel::Sixteen, BitsPerPixel::Sixteen)])
}

/// Returns a delay step.
fn delay(us: u32) -> (r: InitAction)
    ensures
        r@ == InitStep::Delay(us),
{
    InitAction::Delay(us)
}

/// Returns a command step with the given raw parameters.
fn raw(instruction: u8, params: Vec<u8>) -> (r: InitAction)
    ensures
        r@ == InitStep::Command(instruction, params@),
{
    InitAction::Command(instruction, params)
}

/// Returns the step that sends the DCS command `command`.
fn dcs<C: DcsCommand>(command: &C) -> (r: InitAction)
    requires
        command.params_spec().len() <= 16,
    ensures
        r@ == InitStep::Command(command.instruction_spec(), command.params_spec()),
{
    let mut params: Vec<u8> = vec![0u8; 16];
    let n = command.fill_params_buf(params.as_mut_slice());
    params.truncate(n);
    InitAction::Command(command.instruction(), params)
}

/// Returns the step that enters or exits color inversion mode.
fn invert(invert_colors: bool) -> (r: InitAction)
    ensures
        r@ == invert_step(invert_colors),
{
    if invert_colors {
        raw(0x21, Vec::new())
    } else {
        raw(0x20, Vec::new())
    }
}

/// Returns the Set Pixel Format step for 16-bit RGB565 pixels.
fn rgb565_pixel_format() -> (r: InitAction)
    ensures
        r@ == rgb565_pixel_format_step(),
{
    let pf = PixelFormat::with_all(BitsPerPixel::from_rgb565());
    dcs(&SetPixelFormat::new(pf))
}

/// Returns the Set Address Mode step for the options.
fn address_mode(options: &ModelOptions) -> (r: InitAction)
    ensures
        r@ == address_mode_step(*options),
{
    dcs(&SetAddressMode::from_options(options))
}

/// GC9107 display in RGB565 color mode.
pub struct GC9107;

/// Step `k` of the GC9107 initialization sequence, or `None` past its end.
pub open spec fn gc9107_step(options: ModelOptions, k: int) -> Option<InitStep> {
    if k == 0 {
        Some(InitStep::Delay(200_000))
    } else if k == 1 {
        Some(address_mode_step(options))
    } else if k == 2 {
        Some(InitStep::Command(0xB0, seq![0xC0]))
    } else if k == 3 {
        Some(InitStep::Command(0xB2, seq![0x2F]))
    } else if k == 4 {
        Some(InitStep::Command(0xB3, seq![0x03]))
    } else if k == 5 {
        Some(InitStep::Command(0xB6, seq![0x19]))
    } else if k == 6 {
        Some(InitStep::Command(0xB7, seq![0x01]))
    } else if k == 7 {
        Some(InitStep::Command(0xAC, seq![0xCB]))
    } else if k == 8 {
        Some(InitStep::Command(0xAB, seq![0x0E]))
    } else if k == 9 {
        Some(InitStep::Command(0xB4, seq![0x04]))
    } else if k == 10 {
        Some(InitStep::Command(0xA8, seq![0x19]))
    } else if k == 11 {
        Some(rgb565_pixel_format_step())
    } else if k == 12 {
        Some(InitStep::Command(0xB8, seq![0x08]))
    } else if k == 13 {
        Some(InitStep::Command(0xE8, seq![0x24]))
    } else if k == 14 {
        Some(InitStep::Command(0xE9, seq![0x48]))
    } else if k == 15 {
        Some(InitStep::Command(0xEA, seq![0x22]))
    } else if k == 16 {
        Some(InitStep::Command(0xC6, seq![0x30]))
    } else if k == 17 {
        Some(InitStep::Command(0xC7, seq![0x18]))
    } else if k == 18 {
        Some(InitStep::Command(0xF0, seq![0x1F, 0x28, 0x04, 0x3E, 0x2A, 0x2E, 0x20, 0x00, 0x0C, 0x06, 0x00, 0x1C, 0x1F, 0x0F]))
    } else if k == 19 {
        Some(InitStep::Command(0xF1, seq![0x00, 0x2D, 0x2F, 0x3C, 0x6F, 0x1C, 0x0B, 0x00, 0x00, 0x00, 0x07, 0x0D, 0x11, 0x0F]))
    } else if k == 20 {
        Some(invert_step(options.invert_colors))
    } else if k == 21 {
        Some(exit_sleep_step())
    } else if k == 22 {
        Some(InitStep::Delay(120_000))
    } else if k == 23 {
        Some(display_on_step())
    } else {
        None
    }
}

impl GC9107 {
    /// The next thing to do while initializing with `options`, where steps `0..step` have
    /// been performed and `last` is how step `step - 1` went (`Ok(())` before the first step):
    /// stop with its error where it failed, else perform step `step`, else finish with the
    /// address mode of `options`.
    pub fn init_next<E>(&self, options: &ModelOptions, step: usize, last: Result<(), E>) -> (r:
        InitProgress<E>)
        ensures
            match last {
                Err(e) => r == InitProgress::<E>::Failed(e),
                Ok(()) => match gc9107_step(*options, step as int) {
                    Some(s) => r matches InitProgress::Perform(a) && a@ == s,
                    None => r matches InitProgress::Done(m) && m@ == address_mode_byte(*options),
                },
            },
    {
        match last {
            Err(e) => InitProgress::Failed(e),
            Ok(()) => match self.init_action(options, step) {
                Some(a) => InitProgress::Perform(a),
                None => InitProgress::Done(SetAddressMode::from_options(options)),
            },
        }
    }

    /// Returns the size of the frame buffer, `(width, height)`.
    pub fn framebuffer_size(&self) -> (r: (u16, u16))
        ensures
            r == (128u16, 160u16),
    {
        (128, 160)
    }

    /// Returns step `step` of the initialization sequence for `options`, or `None` past its
    /// end; the sequence has 24 steps.
    pub fn init_action(&self, options: &ModelOptions, step: usize) -> (r: Option<InitAction>)
        ensures
            match r {
                Some(a) => gc9107_step(*options, step as int) == Some(a@),
                None => gc9107_step(*options, step as int) is None,
            },
            r is Some <==> step < 24,
    {
        if step == 0 {
            Some(delay(200_000))
        } else if step == 1 {
            Some(address_mode(options))
        } else if step == 2 {
            let params: Vec<u8> = vec![0xC0];
            assert(params@ =~= seq![0xC0]);
            Some(raw(0xB0, params))
        } else if step == 3 {
            let params: Vec<u8> = vec![0x2F];
            assert(params@ =~= seq![0x2F]);
            Some(raw(0xB2, params))
        } else if step == 4 {
            let params: Vec<u8> = vec![0x03];
            assert(params@ =~= seq![0x03]);
            Some(raw(0xB3, params))
        } else if step == 5 {
            let params: Vec<u8> = vec![0x19];
            assert(params@ =~= seq![0x19]);
            Some(raw(0xB6, params))
        } else if step == 6 {
            let params: Vec<u8> = vec![0x01];
            assert(params@ =~= seq![0x01]);
            Some(raw(0xB7, params))
        } else if step == 7 {
            let params: Vec<u8> = vec![0xCB];
            assert(params@ =~= seq![0xCB]);
            Some(raw(0xAC, params))
        } else if step == 8 {
            let params: Vec<u8> = vec![0x0E];
            assert(params@ =~= seq![0x0E]);
            Some(raw(0xAB, params))
        } else if step == 9 {
            let params: Vec<u8> = vec![0x04];
            assert(params@ =~= seq![0x04]);
            Some(raw(0xB4, params))
        } else if step == 10 {
            let params: Vec<u8> = vec![0x19];
            assert(params@ =~= seq![0x19]);
            Some(raw(0xA8, params))
        } else if step == 11 {
            Some(rgb565_pixel_format())
        } else if step == 12 {
            let params: Vec<u8> = vec![0x08];
            assert(params@ =~= seq![0x08]);
            Some(raw(0xB8, params))
        } else if step == 13 {
            let params: Vec<u8> = vec![0x24];
            assert(params@ =~= seq![0x24]);
            Some(raw(0xE8, params))
        } else if step == 14 {
            let params: Vec<u8> = vec![0x48];
            assert(params@ =~= seq![0x48]);
            Some(raw(0xE9, params))
        } else if step == 15 {
            let params: Vec<u8> = vec![0x22];
            assert(params@ =~= seq![0x22]);
            Some(raw(0xEA, params))
        } else if step == 16 {
            let params: Vec<u8> = vec![0x30];
            assert(params@ =~= seq![0x30]);
            Some(raw(0xC6, params))
        } else if step == 17 {
            let params: Vec<u8> = vec![0x18];
            assert(params@ =~= seq![0x18]);
            Some(raw(0xC7, params))
        } else if step == 18 {
            let params: Vec<u8> = vec![0x1F, 0x28, 0x04, 0x3E, 0x2A, 0x2E, 0x20, 0x00, 0x0C, 0x06, 0x00, 0x1C, 0x1F, 0x0F];
            assert(params@ =~= seq![0x1F, 0x28, 0x04, 0x3E, 0x2A, 0x2E, 0x20, 0x00, 0x0C, 0x06, 0x00, 0x1C, 0x1F, 0x0F]);
            Some(raw(0xF0, params))
        } else if step == 19 {
            let params: Vec<u8> = vec![0x00, 0x2D, 0x2F, 0x3C, 0x6F, 0x1C, 0x0B, 0x00, 0x00, 0x00, 0x07, 0x0D, 0x11, 0x0F];
            assert(params@ =~= seq![0x00, 0x2D, 0x2F, 0x3C, 0x6F, 0x1C, 0x0B, 0x00, 0x00, 0x00, 0x07, 0x0D, 0x11, 0x0F]);
            Some(raw(0xF1, params))
        } else if step == 20 {
            Some(invert(options.invert_colors))
        } else if step == 21 {
            Some(raw(0x11, Vec::new()))
        } else if step == 22 {
            Some(delay(120_000))
        } else if step == 23 {
            Some(raw(0x29, Vec::new()))
        } else {
            None
        }
    }
}

/// ST7735s display in RGB565 color mode.
pub struct ST7735s;

/// Step `k` of the ST7735s initialization sequence, or `None` past its end.
pub open spec fn st7735s_step(options: ModelOptions, k: int) -> Option<InitStep> {
    if k == 0 {
        Some(InitStep::Delay(200_000))
    } else if k == 1 {
        Some(exit_sleep_step())
    } else if k == 2 {
        Some(InitStep::Delay(120_000))
    } else if k == 3 {
        Some(invert_step(options.invert_colors))
    } else if k == 4 {
        Some(InitStep::Command(0xB1, seq![0x05, 0x3A, 0x3A]))
    } else if k == 5 {
        Some(InitStep::Command(0xB2, seq![0x05, 0x3A, 0x3A]))
    } else if k == 6 {
        Some(InitStep::Command(0xB3, seq![0x05, 0x3A, 0x3A, 0x05, 0x3A, 0x3A]))
    } else if k == 7 {
        Some(InitStep::Command(0xB4, seq![0x03]))
    } else if k == 8 {
        Some(InitStep::Command(0xC0, seq![0x62, 0x02, 0x04]))
    } else if k == 9 {
        Some(InitStep::Command(0xC1, seq![0xC0]))
    } else if k == 10 {
        Some(InitStep::Command(0xC2, seq![0x0D, 0x00]))
    } else if k == 11 {
        Some(InitStep::Command(0xC3, seq![0x8D, 0x6A]))
    } else if k == 12 {
        Some(InitStep::Command(0xC4, seq![0x8D, 0xEE]))
    } else if k == 13 {
        Some(InitStep::Command(0xC5, seq![0x0E]))
    } else if k == 14 {
        Some(InitStep::Command(0xE0, seq![0x10, 0x0E, 0x02, 0x03, 0x0E, 0x07, 0x02, 0x07, 0x0A, 0x12, 0x27, 0x37, 0x00, 0x0D, 0x0E, 0x10]))
    } else if k == 15 {
        Some(InitStep::Command(0xE1, seq![0x10, 0x0E, 0x03, 0x03, 0x0F, 0x06, 0x02, 0x08, 0x0A, 0x13, 0x26, 0x36, 0x00, 0x0D, 0x0E, 0x10]))
    } else if k == 16 {
        Some(rgb565_pixel_format_step())
    } else if k == 17 {
        Some(address_mode_step(options))
    } else if k == 18 {
        Some(display_on_step())
    } else {
        None
    }
}

impl ST7735s {
    /// The next thing to do while initializing with `options`, where steps `0..step` have
    /// been performed and `last` is how step `step - 1` went (`Ok(())` before the first step):
    /// stop with its error where it failed, else perform step `step`, else finish with the
    /// address mode of `options`.
    pub fn init_next<E>(&self, options: &ModelOptions, step: usize, last: Result<(), E>) -> (r:
        InitProgress<E>)
        ensures
            match last {
                Err(e) => r == InitProgress::<E>::Failed(e),
                Ok(()) => match st7735s_step(*options, step as int) {
                    Some(s) => r matches InitProgress::Perform(a) && a@ == s,
                    None => r matches InitProgress::Done(m) && m@ == address_mode_byte(*options),
                },
            },
    {
        match last {
            Err(e) => InitProgress::Failed(e),
            Ok(()) => match self.init_action(options, step) {
                Some(a) => InitProgress::Perform(a),
                None => InitProgress::Done(SetAddressMode::from_options(options)),
            },
        }
    }

    /// Returns the size of the frame buffer, `(width, height)`.
    pub fn framebuffer_size(&self) -> (r: (u16, u16))
        ensures
            r == (132u16, 162u16),
    {
        (132, 162)
    }

    /// Returns step `step` of the initialization sequence for `options`, or `None` past its
    /// end; the sequence has 19 steps.
    pub fn init_action(&self, options: &ModelOptions, step: usize) -> (r: Option<InitAction>)
        ensures
            match r {
                Some(a) => st7735s_step(*options, step as int) == Some(a@),
                None => st7735s_step(*options, step as int) is None,
            },
            r is Some <==> step < 19,
    {
        if step == 0 {
            Some(delay(200_000))
        } else if step == 1 {
            Some(raw(0x11, Vec::new()))
        } else if step == 2 {
            Some(delay(120_000))
        } else if step == 3 {
            Some(invert(options.invert_colors))
        } else if step == 4 {
            let params: Vec<u8> = vec![0x05, 0x3A, 0x3A];
            assert(params@ =~= seq![0x05, 0x3A, 0x3A]);
            Some(raw(0xB1, params))
        } else if step == 5 {
            let params: Vec<u8> = vec![0x05, 0x3A, 0x3A];
            assert(params@ =~= seq![0x05, 0x3A, 0x3A]);
            Some(raw(0xB2, params))
        } else if step == 6 {
            let params: Vec<u8> = vec![0x05, 0x3A, 0x3A, 0x05, 0x3A, 0x3A];
            assert(params@ =~= seq![0x05, 0x3A, 0x3A, 0x05, 0x3A, 0x3A]);
            Some(raw(0xB3, params))
        } else if step == 7 {
            let params: Vec<u8> = vec![0x03];
            assert(params@ =~= seq![0x03]);
            Some(raw(0xB4, params))
        } else if step == 8 {
            let params: Vec<u8> = vec![0x62, 0x02, 0x04];
            assert(params@ =~= seq![0x62, 0x02, 0x04]);
            Some(raw(0xC0, params))
        } else if step == 9 {
            let params: Vec<u8> = vec![0xC0];
            assert(params@ =~= seq![0xC0]);
            Some(raw(0xC1, params))
        } else if step == 10 {
            let params: Vec<u8> = vec![0x0D, 0x00];
            assert(params@ =~= seq![0x0D, 0x00]);
            Some(raw(0xC2, params))
        } else if step == 11 {
            let params: Vec<u8> = vec![0x8D, 0x6A];
            assert(params@ =~= seq![0x8D, 0x6A]);
            Some(raw(0xC3, params))
        } else if step == 12 {
            let params: Vec<u8> = vec![0x8D, 0xEE];
            assert(params@ =~= seq![0x8D, 0xEE]);
            Some(raw(0xC4, params))
        } else if step == 13 {
            let params: Vec<u8> = vec![0x0E];
            assert(params@ =~= seq![0x0E]);
            Some(raw(0xC5, params))
        } else if step == 14 {
            let params: Vec<u8> = vec![0x10, 0x0E, 0x02, 0x03, 0x0E, 0x07, 0x02, 0x07, 0x0A, 0x12, 0x27, 0x37, 0x00, 0x0D, 0x0E, 0x10];
            assert(params@ =~= seq![0x10, 0x0E, 0x02, 0x03, 0x0E, 0x07, 0x02, 0x07, 0x0A, 0x12, 0x27, 0x37, 0x00, 0x0D, 0x0E, 0x10]);
            Some(raw(0xE0, params))
        } else if step == 15 {
            let params: Vec<u8> = vec![0x10, 0x0E, 0x03, 0x03, 0x0F, 0x06, 0x02, 0x08, 0x0A, 0x13, 0x26, 0x36, 0x00, 0x0D, 0x0E, 0x10];
            assert(params@ =~= seq![0x10, 0x0E, 0x03, 0x03, 0x0F, 0x06, 0x02, 0x08, 0x0A, 0x13, 0x26, 0x36, 0x00, 0x0D, 0x0E, 0x10]);
            Some(raw(0xE1, params))
        } else if step == 16 {
            Some(rgb565_pixel_format())
        } else if step == 17 {
            Some(address_mode(options))
        } else if step == 18 {
            Some(raw(0x29, Vec::new()))
        } else {
            None
        }
    }
}

/// ST7789V display in RGB565 color mode; may need inverted colors.
pub struct ST7789V;

/// Step `k` of the ST7789V initialization sequence, or `None` past its end.
pub open spec fn st7789v_step(options: ModelOptions, k: int) -> Option<InitStep> {
    if k == 0 {
        Some(InitStep::Delay(150_000))
    } else if k == 1 {
        Some(exit_sleep_step())
    } else if k == 2 {
        Some(InitStep::Delay(120_000))
    } else if k == 3 {
        Some(address_mode_step(options))
    } else if k == 4 {
        Some(InitStep::Command(0x3A, seq![0x55]))
    } else if k == 5 {
        Some(InitStep::Delay(10_000))
    } else if k == 6 {
        Some(InitStep::Command(0xB2, seq![0x0C, 0x0C, 0x00, 0x33, 0x33]))
    } else if k == 7 {
        Some(InitStep::Command(0xB7, seq![0x75]))
    } else if k == 8 {
        Some(InitStep::Command(0xBB, seq![0x1A]))
    } else if k == 9 {
        Some(InitStep::Command(0xC0, seq![0x2C]))
    } else if k == 10 {
        Some(InitStep::Command(0xC2, seq![0x01]))
    } else if k == 11 {
        Some(InitStep::Command(0xC3, seq![0x13]))
    } else if k == 12 {
        Some(InitStep::Command(0xC4, seq![0x20]))
    } else if k == 13 {
        Some(InitStep::Command(0xC6, seq![0x0F]))
    } else if k == 14 {
        Some(InitStep::Command(0xD0, seq![0xA4, 0xA1]))
    } else if k == 15 {
        Some(InitStep::Command(0xE0, seq![0xD0, 0x0D, 0x14, 0x0D, 0x0D, 0x09, 0x38, 0x44, 0x4E, 0x3A, 0x17, 0x18, 0x2F, 0x30]))
    } else if k == 16 {
        Some(InitStep::Command(0xE1, seq![0xD0, 0x09, 0x0F, 0x08, 0x07, 0x14, 0x37, 0x44, 0x4D, 0x38, 0x15, 0x16, 0x2C, 0x3E]))
    } else if k == 17 {
        Some(invert_step(options.invert_colors))
    } else if k == 18 {
        Some(InitStep::Command(0x2A, seq![0x00, 0x00, 0x00, 0xEF]))
    } else if k == 19 {
        Some(InitStep::Command(0x2B, seq![0x00, 0x00, 0x01, 0x3F]))
    } else if k == 20 {
        Some(rgb565_pixel_format_step())
    } else if k == 21 {
        Some(InitStep::Delay(10_000))
    } else if k == 22 {
        Some(enter_normal_step())
    } else if k == 23 {
        Some(InitStep::Delay(120_000))
    } else if k == 24 {
        Some(display_on_step())
    } else if k == 25 {
        Some(InitStep::Delay(120_000))
    } else {
        None
    }
}

impl ST7789V {
    /// The next thing to do while initializing with `options`, where steps `0..step` have
    /// been performed and `last` is how step `step - 1` went (`Ok(())` before the first step):
    /// stop with its error where it failed, else perform step `step`, else finish with the
    /// address mode of `options`.
    pub fn init_next<E>(&self, options: &ModelOptions, step: usize, last: Result<(), E>) -> (r:
        InitProgress<E>)
        ensures
            match last {
                Err(e) => r == InitProgress::<E>::Failed(e),
                Ok(()) => match st7789v_step(*options, step as int) {
                    Some(s) => r matches InitProgress::Perform(a) && a@ == s,
                    None => r matches InitProgress::Done(m) && m@ == address_mode_byte(*options),
                },
            },
    {
        match last {
            Err(e) => InitProgress::Failed(e),
            Ok(()) => match self.init_action(options, step) {
                Some(a) => InitProgress::Perform(a),
                None => InitProgress::Done(SetAddressMode::from_options(options)),
            },
        }
    }

    /// Returns the size of the frame buffer, `(width, height)`.
    pub fn framebuffer_size(&self) -> (r: (u16, u16))
        ensures
            r == (240u16, 320u16),
    {
        (240, 320)
    }

    /// Returns step `step` of the initialization sequence for `options`, or `None` past its
    /// end; the sequence has 26 steps.
    pub fn init_action(&self, options: &ModelOptions, step: usize) -> (r: Option<InitAction>)
        ensures
            match r {
                Some(a) => st7789v_step(*options, step as int) == Some(a@),
                None => st7789v_step(*options, step as int) is None,
            },
            r is Some <==> step < 26,
    {
        if step == 0 {
            Some(delay(150_000))
        } else if step == 1 {
            Some(raw(0x11, Vec::new()))
        } else if step == 2 {
            Some(delay(120_000))
        } else if step == 3 {
            Some(address_mode(options))
        } else if step == 4 {
            let params: Vec<u8> = vec![0x55];
            assert(params@ =~= seq![0x55]);
            Some(raw(0x3A, params))
        } else if step == 5 {
            Some(delay(10_000))
        } else if step == 6 {
            let params: Vec<u8> = vec![0x0C, 0x0C, 0x00, 0x33, 0x33];
            assert(params@ =~= seq![0x0C, 0x0C, 0x00, 0x33, 0x33]);
            Some(raw(0xB2, params))
        } else if step == 7 {
            let params: Vec<u8> = vec![0x75];
            assert(params@ =~= seq![0x75]);
            Some(raw(0xB7, params))
        } else if step == 8 {
            let params: Vec<u8> = vec![0x1A];
            assert(params@ =~= seq![0x1A]);
            Some(raw(0xBB, params))
        } else if step == 9 {
            let params: Vec<u8> = vec![0x2C];
            assert(params@ =~= seq![0x2C]);
            Some(raw(0xC0, params))
        } else if step == 10 {
            let params: Vec<u8> = vec![0x01];
            assert(params@ =~= seq![0x01]);
            Some(raw(0xC2, params))
        } else if step == 11 {
            let params: Vec<u8> = vec![0x13];
            assert(params@ =~= seq![0x13]);
            Some(raw(0xC3, params))
        } else if step == 12 {
            let params: Vec<u8> = vec![0x20];
            assert(params@ =~= seq![0x20]);
            Some(raw(0xC4, params))
        } else if step == 13 {
            let params: Vec<u8> = vec![0x0F];
            assert(params@ =~= seq![0x0F]);
            Some(raw(0xC6, params))
        } else if step == 14 {
            let params: Vec<u8> = vec![0xA4, 0xA1];
            assert(params@ =~= seq![0xA4, 0xA1]);
            Some(raw(0xD0, params))
        } else if step == 15 {
            let params: Vec<u8> = vec![0xD0, 0x0D, 0x14, 0x0D, 0x0D, 0x09, 0x38, 0x44, 0x4E, 0x3A, 0x17, 0x18, 0x2F, 0x30];
            assert(params@ =~= seq![0xD0, 0x0D, 0x14, 0x0D, 0x0D, 0x09, 0x38, 0x44, 0x4E, 0x3A, 0x17, 0x18, 0x2F, 0x30]);
            Some(raw(0xE0, params))
        } else if step == 16 {
            let params: Vec<u8> = vec![0xD0, 0x09, 0x0F, 0x08, 0x07, 0x14, 0x37, 0x44, 0x4D, 0x38, 0x15, 0x16, 0x2C, 0x3E];
            assert(params@ =~= seq![0xD0, 0x09, 0x0F, 0x08, 0x07, 0x14, 0x37, 0x44, 0x4D, 0x38, 0x15, 0x16, 0x2C, 0x3E]);
            Some(raw(0xE1, params))
        } else if step == 17 {
            Some(invert(options.invert_colors))
        } else if step == 18 {
            let params: Vec<u8> = vec![0x00, 0x00, 0x00, 0xEF];
            assert(params@ =~= seq![0x00, 0x00, 0x00, 0xEF]);
            Some(raw(0x2A, params))
        } else if step == 19 {
            let params: Vec<u8> = vec![0x00, 0x00, 0x01, 0x3F];
            assert(params@ =~= seq![0x00, 0x00, 0x01, 0x3F]);
            Some(raw(0x2B, params))
        } else if step == 20 {
            Some(rgb565_pixel_format())
        } else if step == 21 {
            Some(delay(10_000))
        } else if step == 22 {
            Some(raw(0x13, Vec::new()))
        } else if step == 23 {
            Some(delay(120_000))
        } else if step == 24 {
            Some(raw(0x29, Vec::new()))
        } else if step == 25 {
            Some(delay(120_000))
        } else {
            None
        }
    }
}

/// Step `step` sends `instruction` with exactly the parameters `params`.
pub open spec fn sends(step: Option<InitStep>, instruction: u8, params: Seq<u8>) -> bool {
    step == Some(InitStep::Command(instruction, params))
}

/// Step `step` sends `instruction`, with any parameters.
pub open spec fn sends_instruction(step: Option<InitStep>, instruction: u8) -> bool {
    step matches Some(InitStep::Command(i, _)) && i == instruction
}

/// What an initialization sequence `steps` (step `k` is `steps(k)`) does for `options`:
/// it takes the panel out of sleep (Exit Sleep Mode, 0x11) and later turns the display on
/// (Set Display On, 0x29), and never puts it to sleep (Enter Sleep Mode, 0x10); it enters
/// color inversion (0x21) exactly where `options.invert_colors` asks for it, and exits it
/// (0x20) otherwise, never sending the other one; it sets the address mode (0x36) of the
/// options and the 16-bit pixel format (0x3A with 0x55); and it has no steps before step 0.
pub open spec fn initializes(steps: spec_fn(int) -> Option<InitStep>, options: ModelOptions) -> bool {
    &&& exists|a: int, b: int|
        #![trigger steps(a), steps(b)]
        0 <= a < b && sends(steps(a), 0x11, Seq::empty()) && sends(steps(b), 0x29, Seq::empty())
    &&& forall|k: int| !sends_instruction(#[trigger] steps(k), 0x10)
    &&& exists|k: int|
        #![trigger steps(k)]
        sends(steps(k), if options.invert_colors { 0x21u8 } else { 0x20u8 }, Seq::empty())
    &&& forall|k: int|
        !sends_instruction(#[trigger] steps(k), if options.invert_colors { 0x20u8 } else { 0x21u8 })
    &&& exists|k: int| #![trigger steps(k)] sends(steps(k), 0x36, seq![address_mode_byte(options)])
    &&& exists|k: int| #![trigger steps(k)] sends(steps(k), 0x3A, seq![0x55u8])
    &&& forall|k: int| k < 0 ==> #[trigger] steps(k) is None
}

/// For every options, the GC9107 sequence wakes the panel before turning it on and never puts
/// it to sleep, follows the color-inversion option, and sets the address mode of the options
/// and 16-bit pixels.
pub proof fn lemma_gc9107_initializes(options: ModelOptions)
    ensures
        initializes(|k: int| gc9107_step(options, k), options),
{
    let steps = |k: int| gc9107_step(options, k);
    assert(colmod_byte(BitsPerPixel::Sixteen, BitsPerPixel::Sixteen) == 0x55);
    assert(sends(steps(21), 0x11, Seq::empty()) && sends(steps(23), 0x29, Seq::empty()));
    assert(sends(steps(20), if options.invert_colors { 0x21u8 } else { 0x20u8 }, Seq::empty()));
    assert(sends(steps(1), 0x36, seq![address_mode_byte(options)]));
    assert(sends(steps(11), 0x3A, seq![0x55u8]));
}

/// For every options, the ST7735s sequence wakes the panel before turning it on and never
/// puts it to sleep, follows the color-inversion option, and sets the address mode of the
/// options and 16-bit pixels.
pub proof fn lemma_st7735s_initializes(options: ModelOptions)
    ensures
        initializes(|k: int| st7735s_step(options, k), options),
{
    let steps = |k: int| st7735s_step(options, k);
    assert(colmod_byte(BitsPerPixel::Sixteen, BitsPerPixel::Sixteen) == 0x55);
    assert(sends(steps(1), 0x11, Seq::empty()) && sends(steps(18), 0x29, Seq::empty()));
    assert(sends(steps(3), if options.invert_colors { 0x21u8 } else { 0x20u8 }, Seq::empty()));
    assert(sends(steps(17), 0x36, seq![address_mode_byte(options)]));
    assert(sends(steps(16), 0x3A, seq![0x55u8]));
}

/// For every options, the ST7789V sequence starts with a delay and then takes the panel out
/// of sleep (Exit Sleep Mode: 0x11 without parameters) at step 1; it turns the display on
/// later and never puts it to sleep, follows the color-inversion option, and sets the
/// address mode of the options and 16-bit pixels.
pub proof fn lemma_st7789v_initializes(options: ModelOptions)
    ensures
        st7789v_step(options, 0) matches Some(InitStep::Delay(_)),
        sends(st7789v_step(options, 1), 0x11, Seq::empty()),
        initializes(|k: int| st7789v_step(options, k), options),
{
    let steps = |k: int| st7789v_step(options, k);
    assert(colmod_byte(BitsPerPixel::Sixteen, BitsPerPixel::Sixteen) == 0x55);
    assert(sends(steps(1), 0x11, Seq::empty()) && sends(steps(24), 0x29, Seq::empty()));
    assert(sends(steps(17), if options.invert_colors { 0x21u8 } else { 0x20u8 }, Seq::empty()));
    assert(sends(steps(3), 0x36, seq![address_mode_byte(options)]));
    assert(sends(steps(4), 0x3A, seq![0x55u8]));
}

} // verus!
