//! An icon-glyph view: resolves a declarative icon description (glyph,
//! solid preference, optional size and color overrides) against ambient
//! styling, selects the right icon font family, and drives the retained
//! render state across frames.

pub mod color;
pub mod engine;
pub mod font;
pub mod glyph;
pub mod space;
pub mod style;
pub mod view;

pub use color::Color;
pub use font::IconFont;
pub use glyph::IconCode;
pub use space::{Size, Space};
pub use engine::ShapedRun;
pub use style::{IconStyle, RebuildFlags, StyleContext};
pub use view::{icon, Icon, IconContext, IconState, ShapeRequest};
