//! Rendering of the report: icons, colours and the text layout.

pub mod footer;
pub mod formatter;
pub mod icons;
