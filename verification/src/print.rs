//! Print configuration: the orientation, background and page ranges of a printed page.
//!
//! Sizes, margins and the scale are measured in centimetres as floating-point numbers; they are
//! checked and sent by the client.
pub use crate::wd::{PageRangeParam, PrintBackground, PrintOrientation, PrintPageRange};
