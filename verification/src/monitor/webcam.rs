//! The camera: in use while some process holds the video device open.
use vstd::prelude::*;

verus! {

/// Whether the camera is in use, from what `lsof` printed for the video
/// device: it lists the processes that hold the device open, so the camera
/// is in use exactly when it printed anything.
pub fn is_webcam_in_use(lsof_output: &[u8]) -> (in_use: bool)
    ensures
        in_use == (lsof_output@.len() > 0),
{
    lsof_output.len() > 0
}

} // verus!
