//! The error taxonomy of the rendering core.

use vstd::prelude::*;

verus! {

/// Every failure the rendering core can report. All of them are fatal: the
/// caller is expected to stop rendering and tear the backend down; nothing in
/// the core retries.
///
/// Variants that carry a `code` wrap an underlying graphics-API result code,
/// propagated uninterpreted.
#[derive(Clone, Copy, Debug, PartialEq, Eq, Structural)]
pub enum RendererError {
    /// The graphics API could not create an instance, device or swapchain
    /// (for example a missing driver or a missing requested layer).
    ApiInitialization { code: i32 },
    /// Device enumeration returned no physical device at all.
    NoSuitableDevice,
    /// No queue family is both graphics-capable and able to present to the
    /// surface, or no queue family offers transfer capability.
    NoSuitableQueueFamily,
    /// Swapchain construction failed part-way; the whole renderer must be
    /// torn down, nothing is cleaned up incrementally.
    SwapchainCreation { code: i32 },
    /// A fence wait or an image acquisition exceeded the one-second frame
    /// budget.
    FrameTimeout,
    /// Command recording or queue submission failed.
    Submission { code: i32 },
    /// Image acquisition or presentation failed.
    Present { code: i32 },
}

} // verus!
