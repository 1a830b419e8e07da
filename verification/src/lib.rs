//! A writer for the VGA text-mode display.
//!
//! The display is a grid of 25 rows of 80 character cells in device memory.
//! Text is appended on the bottom row; a full row or a newline scrolls the
//! grid up by one row.

pub mod buffer;
pub mod color;
pub mod console;
pub mod screen;
pub mod writer;

pub use crate::buffer::Buffer;
pub use crate::buffer::ScreenChar;
pub use crate::buffer::BUFFER_HEIGHT;
pub use crate::buffer::BUFFER_WIDTH;
pub use crate::color::Color;
pub use crate::color::ColorCode;
pub use crate::console::_print;
pub use crate::console::print_to;
pub use crate::screen::Screen;
pub use crate::writer::Writer;
