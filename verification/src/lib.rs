//! A hexadecimal and ASCII dump of a byte buffer, laid out sixteen bytes to a
//! row and rendered one frame at a time for the rows that the host scrolls
//! into view.
//!
//! The crate computes; it does not paint. Every coordinate is a whole number
//! of layout units, and one frame is a list of positioned text runs that the
//! host hands to its drawing surface.

pub mod glyph;
pub mod label;
pub mod layout;
pub mod render;
pub mod source;
pub mod state;

pub use crate::glyph::{ascii_glyph, hex_glyph, hex_tone, HexGlyph, Tone};
pub use crate::label::address_label;
pub use crate::layout::{row_count, scroll_layout, HexConfig, Pos, ScrollLayout};
pub use crate::render::{byte_pos, draw_scroll, CellDraw, Frame, RowDraw};
pub use crate::source::ByteProvider;
pub use crate::state::{refresh_galleys, HexState};
