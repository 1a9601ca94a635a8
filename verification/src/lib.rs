//! Driver logic for MIPI DCS displays: the COLMOD and MADCTL commands, the options of a
//! display model, the initialization sequences of the GC9107, ST7735s and ST7789V
//! controllers, the ST7789 panel variants, and an interface that buffers pixel data until
//! it is flushed.
pub mod buffered;
pub mod builder;
pub mod dcs;
pub mod models;
pub mod options;

pub use buffered::{BufferedInterface, FlushingError};
pub use builder::{DisplayBuilder, ST7789};
pub use dcs::{BitsPerPixel, DcsCommand, PixelFormat, SetAddressMode, SetPixelFormat};
pub use models::{InitAction, InitProgress, GC9107, ST7735s, ST7789V};
pub use options::{pico1_offset, y80_offset, ColorOrder, ModelOptions, Orientation, WindowOffset};
