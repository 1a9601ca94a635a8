//! Display builders, and the ST7789 model with its panel variants.
use vstd::prelude::*;
use crate::options::{options_with_all, options_with_display_size, ModelOptions, WindowOffset};

verus! {

/// ST7789 display in RGB565 color mode.
pub struct ST7789;

impl ST7789 {
    /// Returns the size of the frame buffer, `(width, height)`.
    pub fn framebuffer_size(&self) -> (r: (u16, u16))
        ensures
            r == (240u16, 320u16),
    {
        (240, 320)
    }
}

/// Builder of a display: the interface to talk to it, its model and the model's options.
pub struct DisplayBuilder<DI, MODEL> {
    di: DI,
    model: MODEL,
    options: ModelOptions,
}

impl<DI, MODEL> DisplayBuilder<DI, MODEL> {
    /// The interface to the display.
    pub closed spec fn interface(&self) -> DI {
        self.di
    }

    /// The display model.
    pub closed spec fn model_spec(&self) -> MODEL {
        self.model
    }

    /// The model options.
    pub closed spec fn options_spec(&self) -> ModelOptions {
        self.options
    }

    /// Creates a builder for a display of `model` behind the interface `di`.
    pub fn new(di: DI, model: MODEL, options: ModelOptions) -> (r: Self)
        ensures
            r.interface() == di,
            r.model_spec() == model,
            r.options_spec() == options,
    {
        DisplayBuilder { di, model, options }
    }

    /// Returns the model options.
    pub fn options(&self) -> (r: &ModelOptions)
        ensures
            *r == self.options_spec(),
    {
        &self.options
    }

    /// Returns the interface, the model and the options.
    pub fn into_parts(self) -> (r: (DI, MODEL, ModelOptions))
        ensures
            r == (self.interface(), self.model_spec(), self.options_spec()),
    {
        (self.di, self.model, self.options)
    }
}

impl<DI> DisplayBuilder<DI, ST7789> {
    /// A builder for the general ST7789 variant with a 240x320 display.
    pub fn st7789(di: DI) -> (r: Self)
        ensures
            r.interface() == di,
            r.model_spec() == ST7789,
            r.options_spec() == options_with_display_size(240, 320),
    {
        Self::new(di, ST7789, ModelOptions::with_display_size(240, 320))
    }

    /// A builder for the general ST7789 variant with a 240x240 display.
    pub fn st7789_240x240(di: DI) -> (r: Self)
        ensures
            r.interface() == di,
            r.model_spec() == ST7789,
            r.options_spec() == options_with_display_size(240, 240),
    {
        Self::new(di, ST7789, ModelOptions::with_display_size(240, 240))
    }

    /// A builder for the ST7789 with a 240x240 display in a 240x320 frame buffer, whose
    /// window is offset by 80 pixels where the orientation is inverted.
    pub fn st7789_240x240_b240x320(di: DI) -> (r: Self)
        ensures
            r.interface() == di,
            r.model_spec() == ST7789,
            r.options_spec() == options_with_all((240, 240), (240, 320), WindowOffset::Y80),
    {
        Self::new(di, ST7789, ModelOptions::with_all((240, 240), (240, 320), WindowOffset::Y80))
    }

    /// A builder for the ST7789 pico1 variant: a 135x240 display cropped with an offset.
    pub fn st7789_pico1(di: DI) -> (r: Self)
        ensures
            r.interface() == di,
            r.model_spec() == ST7789,
            r.options_spec() == options_with_all((135, 240), (135, 240), WindowOffset::Pico1),
    {
        Self::new(di, ST7789, ModelOptions::with_all((135, 240), (135, 240), WindowOffset::Pico1))
    }
}

} // verus!
