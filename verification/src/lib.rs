//! Named colour palettes: colour values with 8-bit channels, a hexadecimal
//! notation for them, a small declaration grammar for whole palettes, and the
//! queryable palette that a declaration compiles to.

pub mod color;
pub mod color32;
pub mod decl;
pub mod doc;
pub mod error;
pub mod hex;
pub mod names;
pub mod palette;
pub mod text;
pub mod token;
pub mod written;

pub use color::Color;
pub use error::Error;
pub use palette::{palette, Palette};
pub use names::{normalize_color_name, to_lower_snake_case, to_upper_snake_case};
