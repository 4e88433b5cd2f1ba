//! Construction and field access of the integer-valued structures.

use ovr_sys::{
    ovrDetectResult, ovrErrorInfo, ovrError_InvalidSession, ovrFalse, ovrGraphicsLuid,
    ovrLayerFlag_HighQuality, ovrLayerHeader, ovrLayerType_EyeFov, ovrMirrorTextureDesc,
    ovrRecti, ovrSessionStatus, ovrSizei, ovrTextureBind_None, ovrTextureSwapChainDesc,
    ovrTexture_2D, ovrTrue, ovrVector2i, OVR_FORMAT_R8G8B8A8_UNORM_SRGB,
};

#[test]
fn rectangle_carries_position_and_size() {
    let r = ovrRecti {
        _align: [],
        Pos: ovrVector2i { _align: [], x: 10, y: -20 },
        Size: ovrSizei { _align: [], w: 640, h: 480 },
    };
    assert_eq!(r.Pos.x, 10);
    assert_eq!(r.Pos.y, -20);
    assert_eq!(r.Size.w, 640);
    assert_eq!(r.Size.h, 480);
}

#[test]
fn session_status_flags_round_trip() {
    let status = ovrSessionStatus {
        IsVisible: ovrTrue,
        HmdPresent: ovrTrue,
        HmdMounted: ovrFalse,
        DisplayLost: ovrFalse,
        ShouldQuit: ovrFalse,
        ShouldRecenter: ovrTrue,
    };
    assert_eq!(status.IsVisible, 1);
    assert_eq!(status.HmdMounted, 0);
    assert_eq!(status.ShouldRecenter, 1);
}

#[test]
fn detect_result_copies() {
    let detect = ovrDetectResult {
        _align: [],
        IsOculusServiceRunning: ovrTrue,
        IsOculusHMDConnected: ovrFalse,
        _pad0: [0; 6],
    };
    let copy = detect;
    assert_eq!(copy.IsOculusServiceRunning, ovrTrue);
    assert_eq!(copy.IsOculusHMDConnected, ovrFalse);
}

#[test]
fn error_info_keeps_the_result_code() {
    let info = ovrErrorInfo { Result: ovrError_InvalidSession, ErrorString: [0; 512] };
    let copy = info.clone();
    assert_eq!(copy.Result, ovrError_InvalidSession);
    assert_eq!(copy.ErrorString[0], 0);
}

#[test]
fn error_info_string_stops_at_the_nul_terminator() {
    let mut buffer = [0i8; 512];
    for (i, b) in b"Invalid session".iter().enumerate() {
        buffer[i] = *b as i8;
    }
    let info = ovrErrorInfo { Result: ovrError_InvalidSession, ErrorString: buffer };
    let bytes: Vec<u8> = info.error_string_bytes().iter().map(|b| *b as u8).collect();
    assert_eq!(bytes, b"Invalid session".to_vec());
}

#[test]
fn error_info_string_of_a_full_buffer_is_the_whole_buffer() {
    let info = ovrErrorInfo { Result: ovrError_InvalidSession, ErrorString: [65; 512] };
    let bytes = info.error_string_bytes();
    assert_eq!(bytes.len(), 512);
    assert!(bytes.iter().all(|b| *b == 65));
}

#[test]
fn graphics_luid_reserves_eight_bytes() {
    let luid = ovrGraphicsLuid { _align: [], Reserved: [1, 2, 3, 4, 5, 6, 7, 8] };
    assert_eq!(luid.Reserved.len(), 8);
    assert_eq!(luid.Reserved[7], 8);
}

#[test]
fn texture_descriptions_carry_their_fields() {
    let desc = ovrTextureSwapChainDesc {
        Type: ovrTexture_2D,
        Format: OVR_FORMAT_R8G8B8A8_UNORM_SRGB,
        ArraySize: 1,
        Width: 1024,
        Height: 768,
        MipLevels: 1,
        SampleCount: 1,
        StaticImage: ovrFalse,
        MiscFlags: 0,
        BindFlags: ovrTextureBind_None as u32,
    };
    assert_eq!(desc.Width, 1024);
    assert_eq!(desc.Format, 5);

    let mirror = ovrMirrorTextureDesc {
        Format: OVR_FORMAT_R8G8B8A8_UNORM_SRGB,
        Width: 800,
        Height: 600,
        MiscFlags: 0,
    };
    assert_eq!(mirror.Height, 600);
}

#[test]
fn layer_header_carries_type_and_flags() {
    let header = ovrLayerHeader {
        _align: [],
        Type: ovrLayerType_EyeFov,
        Flags: ovrLayerFlag_HighQuality as u32,
    };
    assert_eq!(header.Type, 1);
    assert_eq!(header.Flags, 0x01);
}
