//! Font previews: descriptors of the installed fonts, and each font's family name drawn
//! in its own glyphs as a compact SVG path.
//!
//! - `text`: exact decimal text of rational coordinates.
//! - `path`: glyph outline programs and the builder that scales and flips them.
//! - `preview`: lays glyphs out along a baseline and frames them in an SVG document.
//! - `catalog`: the descriptor list (unique identifiers) and the preview map.
//! - `fonts`: descriptors from what the font registry reports, the served-font lookup,
//!   and content-type sniffing.

pub mod catalog;
pub mod fonts;
pub mod path;
pub mod preview;
pub mod text;
