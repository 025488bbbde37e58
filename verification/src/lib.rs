//! Renders a hierarchical investment portfolio — a tree of asset groups and
//! individual stock holdings — as an indented, colorized text report that
//! compares current, target and expected allocation at every level.

pub mod decimal;
pub mod text;
pub mod style;
pub mod portfolio;
pub mod formatting;
