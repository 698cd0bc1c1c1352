pub mod brick;
pub mod color;
pub mod font;
pub mod h0;
pub mod hex;
pub mod laws;
pub mod layout;
pub mod numfmt;
pub mod raster;
pub mod types;

pub use brick::BaseBrick;
pub use color::ColorScheme;
pub use font::FontHandle;
pub use h0::BrickH0;
pub use hex::{parse_hex_color, Rgba};
pub use layout::{parse_content, render};
pub use numfmt::fmt_milli;
pub use raster::{pixmap_plan, RasterError};
pub use types::{brick_type_description, brick_type_name, BrickType};
