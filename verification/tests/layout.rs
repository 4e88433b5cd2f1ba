//! Compiler packing validation.
//!
//! These checks ensure that the compiler settings being used will be
//! compatible with the pre-built dynamic library provided with the runtime.

use std::mem::size_of;

use ovr_sys::{
    ovrBool, ovrDetectResult, ovrEyeType, ovrHmdCaps, ovrHmdType, ovrInitFlags, ovrLogLevel,
    ovrRecti, ovrSessionStatus, ovrSizei, ovrStatusBits, ovrTrackingCaps, ovrVector2i,
};

#[test]
pub fn test() {
    assert!(size_of::<ovrBool>() == 1, "ovrBool size mismatch");
    assert!(size_of::<ovrVector2i>() == 4 * 2, "ovrVector2i size mismatch");
    assert!(size_of::<ovrSizei>() == 4 * 2, "ovrSizei size mismatch");
    assert!(
        size_of::<ovrRecti>() == size_of::<ovrVector2i>() + size_of::<ovrSizei>(),
        "ovrRecti size mismatch"
    );

    assert!(size_of::<ovrHmdCaps>() == 4, "ovrHmdCaps size mismatch");
    assert!(size_of::<ovrTrackingCaps>() == 4, "ovrTrackingCaps size mismatch");
    assert!(size_of::<ovrEyeType>() == 4, "ovrEyeType size mismatch");
    assert!(size_of::<ovrHmdType>() == 4, "ovrHmdType size mismatch");

    assert!(size_of::<ovrStatusBits>() == 4, "ovrStatusBits size mismatch");

    assert!(size_of::<ovrSessionStatus>() == 6, "ovrSessionStatus size mismatch");

    assert!(size_of::<ovrInitFlags>() == 4, "ovrInitFlags size mismatch");
    assert!(size_of::<ovrLogLevel>() == 4, "ovrLogLevel size mismatch");
}

#[test]
fn test_detect_result() {
    assert!(size_of::<ovrDetectResult>() == 8, "ovrDetectResult size mismatch");
}
