//! Point-free inspection and modification of values in expression chains.
pub mod fallible;
pub mod tap;

pub use fallible::{Branch, Outcome, TapFallible};
pub use tap::Tap;
