//! Behaviour of the result-code predicates and the values of the named
//! constants of the API.

use ovr_sys::{
    ovrButton_A, ovrButton_B, ovrButton_Enter, ovrButton_Home, ovrButton_LMask,
    ovrButton_LShoulder, ovrButton_LThumb, ovrButton_Private, ovrButton_RMask,
    ovrButton_RShoulder, ovrButton_RThumb, ovrButton_VolDown, ovrButton_VolUp, ovrButton_X,
    ovrButton_Y, ovrError_DisplayLost, ovrError_InvalidParameter, ovrError_InvalidSession,
    ovrError_MemoryAllocationFailure, ovrError_MisformattedBlock, ovrError_NotInitialized,
    ovrError_RuntimeException, ovrError_Timeout, ovrFalse, ovrSuccess,
    ovrSuccess_BoundaryInvalid, ovrSuccess_DeviceUnavailable, ovrSuccess_NotVisible,
    ovrTouch_LButtonMask, ovrTouch_LPoseMask, ovrTouch_RButtonMask, ovrTouch_RPoseMask, ovrTrue,
    OVR_BUILD_VERSION, OVR_FAILURE, OVR_MAJOR_VERSION, OVR_MINOR_VERSION, OVR_PRODUCT_VERSION,
    OVR_SUCCESS, OVR_UNQUALIFIED_SUCCESS,
};

#[test]
fn success_holds_on_zero_and_positive_results() {
    assert!(OVR_SUCCESS(ovrSuccess));
    assert!(OVR_SUCCESS(ovrSuccess_NotVisible));
    assert!(OVR_SUCCESS(ovrSuccess_BoundaryInvalid));
    assert!(OVR_SUCCESS(ovrSuccess_DeviceUnavailable));
    assert!(OVR_SUCCESS(1));
    assert!(OVR_SUCCESS(i32::MAX));
}

#[test]
fn success_fails_on_negative_results() {
    assert!(!OVR_SUCCESS(-1));
    assert!(!OVR_SUCCESS(ovrError_MemoryAllocationFailure));
    assert!(!OVR_SUCCESS(i32::MIN));
}

#[test]
fn unqualified_success_holds_only_on_zero() {
    assert!(OVR_UNQUALIFIED_SUCCESS(ovrSuccess));
    assert!(!OVR_UNQUALIFIED_SUCCESS(ovrSuccess_NotVisible));
    assert!(!OVR_UNQUALIFIED_SUCCESS(ovrSuccess_BoundaryInvalid));
    assert!(!OVR_UNQUALIFIED_SUCCESS(ovrSuccess_DeviceUnavailable));
    assert!(!OVR_UNQUALIFIED_SUCCESS(1));
    assert!(!OVR_UNQUALIFIED_SUCCESS(-1));
}

#[test]
fn failure_is_the_negation_of_success() {
    for r in [i32::MIN, -9002, -1000, -1, 0, 1, 1000, i32::MAX] {
        assert_eq!(OVR_FAILURE(r), !OVR_SUCCESS(r));
    }
}

#[test]
fn error_constants_classify_as_failures() {
    assert!(OVR_FAILURE(ovrError_MemoryAllocationFailure));
    assert!(OVR_FAILURE(ovrError_InvalidSession));
    assert!(OVR_FAILURE(ovrError_Timeout));
    assert!(OVR_FAILURE(ovrError_NotInitialized));
    assert!(OVR_FAILURE(ovrError_InvalidParameter));
    assert!(OVR_FAILURE(ovrError_DisplayLost));
    assert!(OVR_FAILURE(ovrError_RuntimeException));
    assert!(OVR_FAILURE(ovrError_MisformattedBlock));
}

#[test]
fn error_constants_hold_their_documented_values() {
    assert_eq!(ovrError_MemoryAllocationFailure, -1000);
    assert_eq!(ovrError_InvalidSession, -1002);
    assert_eq!(ovrError_Timeout, -1003);
    assert_eq!(ovrError_NotInitialized, -1004);
    assert_eq!(ovrError_DisplayLost, -6000);
    assert_eq!(ovrError_RuntimeException, -7000);
    assert_eq!(ovrError_MisformattedBlock, -9002);
    assert_eq!(ovrSuccess, 0);
    assert_eq!(ovrSuccess_NotVisible, 1000);
    assert_eq!(ovrSuccess_BoundaryInvalid, 1001);
    assert_eq!(ovrSuccess_DeviceUnavailable, 1002);
}

#[test]
fn version_constants() {
    assert_eq!(OVR_PRODUCT_VERSION, 1);
    assert_eq!(OVR_MAJOR_VERSION, 1);
    assert_eq!(OVR_MINOR_VERSION, 15);
    assert_eq!(OVR_BUILD_VERSION, 0);
}

#[test]
fn bool_constants() {
    assert_eq!(ovrFalse, 0);
    assert_eq!(ovrTrue, 1);
}

#[test]
fn button_masks_combine_their_buttons() {
    assert_eq!(
        ovrButton_RMask,
        ovrButton_A | ovrButton_B | ovrButton_RThumb | ovrButton_RShoulder
    );
    assert_eq!(ovrButton_RMask, 0x0000000f);
    assert_eq!(
        ovrButton_LMask,
        ovrButton_X | ovrButton_Y | ovrButton_LThumb | ovrButton_LShoulder | ovrButton_Enter
    );
    assert_eq!(ovrButton_LMask, 0x00100f00);
    assert_eq!(
        ovrButton_Private,
        ovrButton_VolUp | ovrButton_VolDown | ovrButton_Home
    );
    assert_eq!(ovrButton_Private, 0x01c00000);
}

#[test]
fn touch_masks_combine_their_touches() {
    assert_eq!(ovrTouch_RButtonMask, 0x0000001f);
    assert_eq!(ovrTouch_LButtonMask, 0x00001f00);
    assert_eq!(ovrTouch_RPoseMask, 0x00000060);
    assert_eq!(ovrTouch_LPoseMask, 0x00006000);
}
