//! Nested clipping regions over a terminal's cell grid, width-aware text
//! clipping, and the bookkeeping of terminal-wide modes.
mod geom;
mod slice;
mod term;
mod width;

pub use crate::geom::{ivec2, u16vec2, uvec2, IVec2, TermRect, U16Vec2, UVec2};
pub use crate::slice::{clip_measured, clip_text, TermSlice};
pub use crate::term::{Mode, ModeChange, Term};
pub use crate::width::{char_width, text_widths};
