//! The footers of a container.

pub mod main_footer;

pub use main_footer::{MainFooter, MainFooterView};
