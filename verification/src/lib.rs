//! Configuration, theming and query helpers of the rink unit calculator.

pub mod config;
pub mod fetch;
pub mod helpers;
pub mod search;
pub mod style;
pub mod text;
pub mod themes;
