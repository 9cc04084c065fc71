//! Default values of the engine's tuning parameters.

use vstd::prelude::*;

verus! {

/// Namespace of the default tuning parameters.
#[non_exhaustive]
pub struct TesseractDefaultConstants;

impl TesseractDefaultConstants {
    /// Advisory time budget of one recognition, in seconds.
    pub const DEFAULT_TIMEOUT: i32 = 30;

    /// Source resolution in dots per inch.
    pub const DEFAULT_DPI: i32 = 300;

    /// Page segmentation mode.
    pub const DEFAULT_PSM: u32 = 4;

    /// Engine mode.
    pub const DEFAULT_OEM: u32 = 3;
}

} // verus!
