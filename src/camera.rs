//! The settings of a camera that cannot produce an image.

use vstd::prelude::*;

verus! {

/// Why a camera's settings are refused.
#[derive(Debug, Clone, Copy, PartialEq, Eq, Structural)]
pub enum CameraError {
    /// The image is zero pixels wide.
    ZeroWidth,
    /// The camera looks at its own position, so it has no viewing direction.
    DegenerateView,
    /// No sample is taken per pixel.
    ZeroSamples,
}

/// Checks the settings of a camera before any viewport arithmetic is done on
/// them: the image width, whether the look-at point is the camera position,
/// and the number of samples per pixel. The first of these that is degenerate
/// is reported.
pub fn check_settings(img_w: u32, look_at_self: bool, samples_per_pixel: usize) -> (r: Result<
    (),
    CameraError,
>)
    ensures
        r == Ok::<(), CameraError>(()) <==> img_w > 0 && !look_at_self && samples_per_pixel > 0,
        r == Err::<(), CameraError>(CameraError::ZeroWidth) <==> img_w == 0,
        r == Err::<(), CameraError>(CameraError::DegenerateView) <==> img_w > 0 && look_at_self,
        r == Err::<(), CameraError>(CameraError::ZeroSamples) <==> img_w > 0 && !look_at_self
            && samples_per_pixel == 0,
{
    if img_w == 0 {
        Err(CameraError::ZeroWidth)
    } else if look_at_self {
        Err(CameraError::DegenerateView)
    } else if samples_per_pixel == 0 {
        Err(CameraError::ZeroSamples)
    } else {
        Ok(())
    }
}

} // verus!
