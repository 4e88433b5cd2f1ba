//! Types, constants and result-code predicates of the LibOVR C API,
//! the Oculus Rift runtime library.
//!
//! The currently targeted version of LibOVR is 1.15.0.
//!
//! The operations of the runtime itself live in a closed vendor binary that a
//! verifier cannot see.  What this crate holds is the part of the API surface
//! that is plain data: the result-code scheme with its success and error
//! constants, the integer-valued enumerations and bit flags, and the
//! structures whose fields are all integers.  The result-code predicates
//! carry contracts that pin down the documented classification exactly, and
//! proof functions state the documented facts about the constants: every
//! success code is non-negative and every error code is negative.
//!
//! Conventions kept from the C headers:
//!
//!  * Each C enum is a type definition (defined to be `i32`) and a collection
//!    of constants.  This preserves the ability to easily use them as bitflags.
//!  * Dummy zero-sized array fields mark the alignment the native layout
//!    expects.  When initialising these fields, the value `[]` will suffice.

#![allow(non_camel_case_types, non_upper_case_globals, non_snake_case)]

use vstd::prelude::*;

verus! {

pub const OVR_PRODUCT_VERSION: u32 = 1;
pub const OVR_MAJOR_VERSION: u32 = 1;
pub const OVR_MINOR_VERSION: u32 = 15;
pub const OVR_BUILD_VERSION: u32 = 0;

/// API call results are represented at the highest level by a single `ovrResult`.
///
/// Success is a value greater or equal to 0, while all error types are
/// negative values.
pub type ovrResult = i32;

/// Holds whenever a result code reports success, qualified or not.
pub open spec fn result_is_success(r: ovrResult) -> bool {
    r >= ovrSuccess
}

/// Holds exactly on the result codes that report an error.
pub open spec fn result_is_error(r: ovrResult) -> bool {
    r < ovrSuccess
}

/// Indicates if an `ovrResult` indicates success.
///
/// Some functions return additional successful values other than `ovrSuccess`
/// and require usage of this function to indicate success.
#[inline]
pub fn OVR_SUCCESS(r: ovrResult) -> (b: bool)
    ensures
        b == result_is_success(r),
{
    r >= 0
}

/// Indicates if an `ovrResult` indicates an unqualified success.
///
/// This is useful for indicating that the code intentionally wants to
/// check for `result == ovrSuccess` as opposed to `OVR_SUCCESS()`, which
/// checks for `result >= ovrSuccess`.
#[inline]
pub fn OVR_UNQUALIFIED_SUCCESS(r: ovrResult) -> (b: bool)
    ensures
        b == (r == ovrSuccess),
{
    r == ovrSuccess
}

/// Indicates if an `ovrResult` indicates failure.
#[inline]
pub fn OVR_FAILURE(r: ovrResult) -> (b: bool)
    ensures
        b == result_is_error(r),
{
    !OVR_SUCCESS(r)
}

/// Every result code is either a success or an error, never both: failure is
/// exactly the negation of success, and an unqualified success is in
/// particular a success.
pub proof fn lemma_result_classification(r: ovrResult)
    ensures
        result_is_success(r) <==> !result_is_error(r),
        r == ovrSuccess ==> result_is_success(r),
{
}

// Success is a value greater or equal to 0, while all error types are negative values.
/// This is a general success result. Use `OVR_SUCCESS` to test for success.
pub type ovrSuccessType = i32;
pub const ovrSuccess: ovrSuccessType = 0;

// Public success types
/// Success is a value greater or equal to 0, while all error types are negative values.
pub type ovrSuccessTypes = i32;
/// Returned from a call to SubmitFrame. The call succeeded, but what the app
/// rendered will not be visible on the HMD. Ideally the app should continue
/// calling SubmitFrame, but not do any rendering. When the result becomes
/// `ovrSuccess`, rendering should continue as usual.
pub const ovrSuccess_NotVisible: ovrSuccessTypes                 = 1000;
/// Boundary is invalid due to sensor change or was not setup.
pub const ovrSuccess_BoundaryInvalid: ovrSuccessTypes            = 1001;
/// Device is not available for the requested operation.
pub const ovrSuccess_DeviceUnavailable: ovrSuccessTypes          = 1002;

/// Every named success code of the API satisfies `result_is_success`.
pub proof fn lemma_success_codes_are_successes()
    ensures
        result_is_success(ovrSuccess),
        result_is_success(ovrSuccess_NotVisible),
        result_is_success(ovrSuccess_BoundaryInvalid),
        result_is_success(ovrSuccess_DeviceUnavailable),
{
}

/// Public error types
pub type ovrErrorType = i32;
/* General errors */
/// Failure to allocate memory.
pub const ovrError_MemoryAllocationFailure: ovrErrorType    = -1000;
/// Invalid `ovrSession` parameter provided.
pub const ovrError_InvalidSession: ovrErrorType             = -1002;
/// The operation timed out.
pub const ovrError_Timeout: ovrErrorType                    = -1003;
/// The system or component has not been initialized.
pub const ovrError_NotInitialized: ovrErrorType             = -1004;
/// Invalid parameter provided. See error info or log for details.
pub const ovrError_InvalidParameter: ovrErrorType           = -1005;
/// Generic service error. See error info or log for details.
pub const ovrError_ServiceError: ovrErrorType               = -1006;
/// The given HMD doesn't exist.
pub const ovrError_NoHmd: ovrErrorType                      = -1007;
/// Function call is not supported on this hardware/software
pub const ovrError_Unsupported: ovrErrorType                = -1009;
/// Specified device type isn't available.
pub const ovrError_DeviceUnavailable: ovrErrorType          = -1010;
/// The headset was in an invalid orientation for the requested operation (e.g. vertically oriented during `ovr_RecenterPose`).
pub const ovrError_InvalidHeadsetOrientation: ovrErrorType  = -1011;
/// The client failed to call `ovr_Destroy` on an active session before calling `ovr_Shutdown`. Or the client crashed.
pub const ovrError_ClientSkippedDestroy: ovrErrorType       = -1012;
/// The client failed to call `ovr_Shutdown` or the client crashed.
pub const ovrError_ClientSkippedShutdown: ovrErrorType      = -1013;
/// The service watchdog discovered a deadlock.
pub const ovrError_ServiceDeadlockDetected: ovrErrorType    = -1014;
/// Function call is invalid for object's current state
pub const ovrError_InvalidOperation: ovrErrorType           = -1015;

/* Audio error range, reserved for Audio errors. */
/// Failure to find the specified audio device.
pub const ovrError_AudioDeviceNotFound: ovrErrorType        = -2001;
/// Generic COM error.
pub const ovrError_AudioComError: ovrErrorType              = -2002;

/* Initialization errors. */
/// Generic initialization error.
pub const ovrError_Initialize: ovrErrorType                 = -3000;
/// Couldn't load LibOVRRT.
pub const ovrError_LibLoad: ovrErrorType                    = -3001;
/// LibOVRRT version incompatibility.
pub const ovrError_LibVersion: ovrErrorType                 = -3002;
/// Couldn't connect to the OVR Service.
pub const ovrError_ServiceConnection: ovrErrorType          = -3003;
/// OVR Service version incompatibility.
pub const ovrError_ServiceVersion: ovrErrorType             = -3004;
/// The operating system version is incompatible.
pub const ovrError_IncompatibleOS: ovrErrorType             = -3005;
/// Unable to initialize the HMD display.
pub const ovrError_DisplayInit: ovrErrorType                = -3006;
/// Unable to start the server. Is it already running?
pub const ovrError_ServerStart: ovrErrorType                = -3007;
/// Attempting to re-initialize with a different version.
pub const ovrError_Reinitialization: ovrErrorType           = -3008;
/// Chosen rendering adapters between client and service do not match
pub const ovrError_MismatchedAdapters: ovrErrorType         = -3009;
/// Calling application has leaked resources
pub const ovrError_LeakingResources: ovrErrorType           = -3010;
/// Client version too old to connect to service
pub const ovrError_ClientVersion: ovrErrorType              = -3011;
/// The operating system is out of date.
pub const ovrError_OutOfDateOS: ovrErrorType                = -3012;
/// The graphics driver is out of date.
pub const ovrError_OutOfDateGfxDriver: ovrErrorType         = -3013;
/// The graphics hardware is not supported
pub const ovrError_IncompatibleGPU: ovrErrorType            = -3014;
/// No valid VR display system found.
pub const ovrError_NoValidVRDisplaySystem: ovrErrorType     = -3015;
/// Feature or API is obsolete and no longer supported.
pub const ovrError_Obsolete: ovrErrorType                   = -3016;
/// No supported VR display system found, but disabled or driverless adapter found.
pub const ovrError_DisabledOrDefaultAdapter: ovrErrorType   = -3017;
/// The system is using hybrid graphics (Optimus, etc...), which is not support.
pub const ovrError_HybridGraphicsNotSupported: ovrErrorType = -3018;
/// Initialization of the DisplayManager failed.
pub const ovrError_DisplayManagerInit: ovrErrorType         = -3019;
/// Failed to get the interface for an attached tracker
pub const ovrError_TrackerDriverInit: ovrErrorType          = -3020;
/// LibOVRRT signature check failure.
pub const ovrError_LibSignCheck: ovrErrorType               = -3021;
/// LibOVRRT path failure.
pub const ovrError_LibPath: ovrErrorType                    = -3022;
/// LibOVRRT symbol resolution failure.
pub const ovrError_LibSymbols: ovrErrorType                 = -3023;
/// Failed to connect to the service because remote connections to the service are not allowed.
pub const ovrError_RemoteSession: ovrErrorType              = -3024;

/* Rendering errors */
/// In the event of a system-wide graphics reset or cable unplug this is returned to the app.
pub const ovrError_DisplayLost: ovrErrorType                = -6000;
/// `ovr_CommitTextureSwapChain` was called too many times on a texture swapchain without calling submit to use the chain.
pub const ovrError_TextureSwapChainFull: ovrErrorType       = -6001;
/// The `ovrTextureSwapChain` is in an incomplete or inconsistent state. Ensure `ovr_CommitTextureSwapChain` was called at least once first.
pub const ovrError_TextureSwapChainInvalid: ovrErrorType    = -6002;
/// Graphics device has been reset (TDR, etc...)
pub const ovrError_GraphicsDeviceReset: ovrErrorType        = -6003;
/// HMD removed from the display adapter
pub const ovrError_DisplayRemoved: ovrErrorType             = -6004;
/// Content protection is not available for the display
pub const ovrError_ContentProtectionNotAvailable: ovrErrorType = -6005;
/// Application declared itself as an invisible type and is not allowed to submit frames.
pub const ovrError_ApplicationInvisible: ovrErrorType       = -6006;
/// The given request is disallowed under the current conditions.
pub const ovrError_Disallowed: ovrErrorType                 = -6007;
/// Display portion of HMD is plugged into an incompatible port (ex: IGP)
pub const ovrError_DisplayPluggedIncorrectly: ovrErrorType  = -6008;

/* Fatal errors */
/// A runtime exception occurred. The application is required to shutdown LibOVR and re-initialize it before this error state will be cleared.
pub const ovrError_RuntimeException: ovrErrorType           = -7000;

/* Calibration errors */
/// Result of a missing calibration block
pub const ovrError_NoCalibration: ovrErrorType              = -9000;
/// Result of an old calibration block
pub const ovrError_OldVersion: ovrErrorType                 = -9001;
/// Result of a bad calibration block due to lengths
pub const ovrError_MisformattedBlock: ovrErrorType          = -9002;

/// Every named error code of the API satisfies `result_is_error`, as the
/// result-code scheme documents: all error types are negative values.
pub proof fn lemma_error_codes_are_failures()
    ensures
        result_is_error(ovrError_MemoryAllocationFailure),
        result_is_error(ovrError_InvalidSession),
        result_is_error(ovrError_Timeout),
        result_is_error(ovrError_NotInitialized),
        result_is_error(ovrError_InvalidParameter),
        result_is_error(ovrError_ServiceError),
        result_is_error(ovrError_NoHmd),
        result_is_error(ovrError_Unsupported),
        result_is_error(ovrError_DeviceUnavailable),
        result_is_error(ovrError_InvalidHeadsetOrientation),
        result_is_error(ovrError_ClientSkippedDestroy),
        result_is_error(ovrError_ClientSkippedShutdown),
        result_is_error(ovrError_ServiceDeadlockDetected),
        result_is_error(ovrError_InvalidOperation),
        result_is_error(ovrError_AudioDeviceNotFound),
        result_is_error(ovrError_AudioComError),
        result_is_error(ovrError_Initialize),
        result_is_error(ovrError_LibLoad),
        result_is_error(ovrError_LibVersion),
        result_is_error(ovrError_ServiceConnection),
        result_is_error(ovrError_ServiceVersion),
        result_is_error(ovrError_IncompatibleOS),
        result_is_error(ovrError_DisplayInit),
        result_is_error(ovrError_ServerStart),
        result_is_error(ovrError_Reinitialization),
        result_is_error(ovrError_MismatchedAdapters),
        result_is_error(ovrError_LeakingResources),
        result_is_error(ovrError_ClientVersion),
        result_is_error(ovrError_OutOfDateOS),
        result_is_error(ovrError_OutOfDateGfxDriver),
        result_is_error(ovrError_IncompatibleGPU),
        result_is_error(ovrError_NoValidVRDisplaySystem),
        result_is_error(ovrError_Obsolete),
        result_is_error(ovrError_DisabledOrDefaultAdapter),
        result_is_error(ovrError_HybridGraphicsNotSupported),
        result_is_error(ovrError_DisplayManagerInit),
        result_is_error(ovrError_TrackerDriverInit),
        result_is_error(ovrError_LibSignCheck),
        result_is_error(ovrError_LibPath),
        result_is_error(ovrError_LibSymbols),
        result_is_error(ovrError_RemoteSession),
        result_is_error(ovrError_DisplayLost),
        result_is_error(ovrError_TextureSwapChainFull),
        result_is_error(ovrError_TextureSwapChainInvalid),
        result_is_error(ovrError_GraphicsDeviceReset),
        result_is_error(ovrError_DisplayRemoved),
        result_is_error(ovrError_ContentProtectionNotAvailable),
        result_is_error(ovrError_ApplicationInvisible),
        result_is_error(ovrError_Disallowed),
        result_is_error(ovrError_DisplayPluggedIncorrectly),
        result_is_error(ovrError_RuntimeException),
        result_is_error(ovrError_NoCalibration),
        result_is_error(ovrError_OldVersion),
        result_is_error(ovrError_MisformattedBlock),
{
}

/// Provides information about the last error.
///
/// see `ovr_GetLastErrorInfo`
#[derive(Copy, Clone)]
pub struct ovrErrorInfo {
    /// The result from the last API call that generated an error `ovrResult`.
    pub Result: ovrResult,
    /// A UTF8-encoded null-terminated English string describing the problem. The format of this string is subject to change in future versions.
    pub ErrorString: [i8; 512],
}

impl ovrErrorInfo {
    /// The description the runtime stored in `ErrorString`: the longest
    /// prefix of the buffer that holds no NUL terminator, as raw C `char`
    /// values.
    pub fn error_string_bytes(&self) -> (r: Vec<i8>)
        ensures
            r@.len() <= 512,
            forall|i: int| 0 <= i < r@.len() ==> r@[i] == self.ErrorString@[i] && r@[i] != 0,
            r@.len() < 512 ==> self.ErrorString@[r@.len() as int] == 0,
    {
        let mut out: Vec<i8> = Vec::new();
        let mut i: usize = 0;
        while i < 512
            invariant
                i <= 512,
                out@.len() == i,
                forall|j: int| 0 <= j < i ==> out@[j] == self.ErrorString@[j] && out@[j] != 0,
            decreases 512 - i,
        {
            let b = self.ErrorString[i];
            if b == 0 {
                return out;
            }
            out.push(b);
            i = i + 1;
        }
        out
    }
}

//-----------------------------------------------------------------------------------
// ***** ovrBool

/// Boolean type, an 8-bit value as the C API declares it.
pub type ovrBool = i8;
/// `ovrBool` value of false.
pub const ovrFalse: ovrBool = 0;
/// `ovrBool` value of true.
pub const ovrTrue: ovrBool = 1;

//-----------------------------------------------------------------------------------
// ***** Simple Math Structures

/// A 2D vector with integer components.
#[derive(Debug, Copy, Clone)]
pub struct ovrVector2i {
    pub _align: [u32; 0],
    pub x: i32,
    pub y: i32,
}

/// A 2D size with integer components.
#[derive(Debug, Copy, Clone)]
pub struct ovrSizei {
    pub _align: [u32; 0],
    pub w: i32,
    pub h: i32,
}

/// A 2D rectangle with a position and size.
/// All components are integers.
#[derive(Debug, Copy, Clone)]
pub struct ovrRecti {
    pub _align: [u32; 0],
    pub Pos: ovrVector2i,
    pub Size: ovrSizei,
}

//-----------------------------------------------------------------------------------
// ***** HMD Types

/// Enumerates all HMD types that we support.
///
/// The currently released developer kits are `ovrHmd_DK1` and `ovrHmd_DK2`. The other enumerations are for internal use only.
pub type ovrHmdType = i32;
pub const ovrHmd_None: ovrHmdType      = 0;
pub const ovrHmd_DK1: ovrHmdType       = 3;
pub const ovrHmd_DKHD: ovrHmdType      = 4;
pub const ovrHmd_DK2: ovrHmdType       = 6;
pub const ovrHmd_CB: ovrHmdType        = 8;
pub const ovrHmd_Other: ovrHmdType     = 9;
pub const ovrHmd_E3_2015: ovrHmdType   = 10;
pub const ovrHmd_ES06: ovrHmdType      = 11;
pub const ovrHmd_ES09: ovrHmdType      = 12;
pub const ovrHmd_ES11: ovrHmdType      = 13;
pub const ovrHmd_CV1: ovrHmdType       = 14;

/// HMD capability bits reported by device.
pub type ovrHmdCaps = i32;
// Read-only flags
/// <B>(read only)</B> Specifies that the HMD is a virtual debug device.
pub const ovrHmdCap_DebugDevice: ovrHmdCaps             = 0x0010;

/// Tracking capability bits reported by the device.
/// Used with `ovr_GetTrackingCaps`.
pub type ovrTrackingCaps = i32;
/// Supports orientation tracking (IMU).
pub const ovrTrackingCap_Orientation: ovrTrackingCaps      = 0x0010;
/// Supports yaw drift correction via a magnetometer or other means.
pub const ovrTrackingCap_MagYawCorrection: ovrTrackingCaps = 0x0020;
/// Supports positional tracking.
pub const ovrTrackingCap_Position: ovrTrackingCaps         = 0x0040;

/// Specifies which eye is being used for rendering.
/// This type explicitly does not hold a third "NoStereo" monoscopic option, as such is
/// not required for an HMD-centered API.
pub type ovrEyeType = i32;
/// The left eye, from the viewer's perspective.
pub const ovrEye_Left: ovrEyeType     = 0;
/// The right eye, from the viewer's perspective.
pub const ovrEye_Right: ovrEyeType    = 1;
/// \internal Count of enumerated elements.
pub const ovrEye_Count: ovrEyeType    = 2;

/// Specifies the coordinate system `ovrTrackingState` returns tracking poses in.
/// Used with `ovr_SetTrackingOriginType()`
pub type ovrTrackingOrigin = i32;
/// Tracking system origin reported at eye (HMD) height
///
/// Prefer using this origin when your application requires
/// matching user's current physical head pose to a virtual head pose
/// without any regards to the height of the floor.
pub const ovrTrackingOrigin_EyeLevel: ovrTrackingOrigin = 0;
/// Tracking system origin reported at floor height
///
/// Prefer using this origin when your application requires the
/// physical floor height to match the virtual floor height, such as
/// standing experiences.
pub const ovrTrackingOrigin_FloorLevel: ovrTrackingOrigin = 1;
/// \internal Count of enumerated elements.
pub const ovrTrackingOrigin_Count: ovrTrackingOrigin = 2;

/// Identifies a graphics device in a platform-specific way.
/// For Windows this is a LUID type.
#[derive(Debug, Copy, Clone)]
pub struct ovrGraphicsLuid {
    pub _align: [isize; 0],
    /// Public definition reserves space for graphics API-specific implementation
    pub Reserved: [i8; 8],
}

/// Identifies a process on the host system.
pub type ovrProcessId = i32;

/// Opaque type standing behind a session handle of the runtime; its contents
/// are never exposed.
pub enum ovrHmdStruct { Opaque }

/// Bit flags describing the current status of sensor tracking.
///
/// The values must be the same as in enum StatusBits
///
/// see `ovrTrackingState`
pub type ovrStatusBits = i32;
/// Orientation is currently tracked (connected and in use).
pub const ovrStatus_OrientationTracked: ovrStatusBits    = 0x0001;
/// Position is currently tracked (false if out of range).
pub const ovrStatus_PositionTracked: ovrStatusBits       = 0x0002;

/// Specifies sensor flags.
///
/// see `ovrTrackerPose`
pub type ovrTrackerFlags = i32;
/// The sensor is present, else the sensor is absent or offline.
pub const ovrTracker_Connected: ovrTrackerFlags   = 0x0020;
/// The sensor has a valid pose, else the pose is unavailable. This will only be set if `ovrTracker_Connected` is set.
pub const ovrTracker_PoseTracked: ovrTrackerFlags = 0x0004;

//-----------------------------------------------------------------------------------
// ***** Platform-independent Rendering Configuration

/// The type of texture resource.
///
/// see `ovrTextureSwapChainDesc`
pub type ovrTextureType = i32;
/// 2D textures.
pub const ovrTexture_2D: ovrTextureType = 0;
/// External 2D texture. Not used on PC
pub const ovrTexture_2D_External: ovrTextureType = 1;
/// Cube maps. Not currently supported on PC.
pub const ovrTexture_Cube: ovrTextureType = 2;
pub const ovrTexture_Count: ovrTextureType = 3;

/// The bindings required for texture swap chain.
///
/// All texture swap chains are automatically bindable as shader
/// input resources since the Oculus runtime needs this to read them.
///
/// see `ovrTextureSwapChainDesc`
pub type ovrTextureBindFlags = i32;
pub const ovrTextureBind_None: ovrTextureBindFlags = 0;
/// The application can write into the chain with pixel shader
pub const ovrTextureBind_DX_RenderTarget: ovrTextureBindFlags = 0x0001;
/// The application can write to the chain with compute shader
pub const ovrTextureBind_DX_UnorderedAccess: ovrTextureBindFlags = 0x0002;
/// The chain buffers can be bound as depth and/or stencil buffers
pub const ovrTextureBind_DX_DepthStencil: ovrTextureBindFlags = 0x0004;

/// The format of a texture.
///
/// see `ovrTextureSwapChainDesc`
pub type ovrTextureFormat = i32;
pub const OVR_FORMAT_UNKNOWN: ovrTextureFormat              = 0;
/// Not currently supported on PC. Would require a DirectX 11.1 device.
pub const OVR_FORMAT_B5G6R5_UNORM: ovrTextureFormat         = 1;
/// Not currently supported on PC. Would require a DirectX 11.1 device.
pub const OVR_FORMAT_B5G5R5A1_UNORM: ovrTextureFormat       = 2;
/// Not currently supported on PC. Would require a DirectX 11.1 device.
pub const OVR_FORMAT_B4G4R4A4_UNORM: ovrTextureFormat       = 3;
pub const OVR_FORMAT_R8G8B8A8_UNORM: ovrTextureFormat       = 4;
pub const OVR_FORMAT_R8G8B8A8_UNORM_SRGB: ovrTextureFormat  = 5;
pub const OVR_FORMAT_B8G8R8A8_UNORM: ovrTextureFormat       = 6;
/// Not supported for OpenGL applications
pub const OVR_FORMAT_B8G8R8A8_UNORM_SRGB: ovrTextureFormat  = 7;
/// Not supported for OpenGL applications
pub const OVR_FORMAT_B8G8R8X8_UNORM: ovrTextureFormat       = 8;
/// Not supported for OpenGL applications
pub const OVR_FORMAT_B8G8R8X8_UNORM_SRGB: ovrTextureFormat  = 9;
pub const OVR_FORMAT_R16G16B16A16_FLOAT: ovrTextureFormat   = 10;
/// Introduced in v1.10
pub const OVR_FORMAT_R11G11B10_FLOAT: ovrTextureFormat      = 25;

// Depth formats
pub const OVR_FORMAT_D16_UNORM: ovrTextureFormat            = 11;
pub const OVR_FORMAT_D24_UNORM_S8_UINT: ovrTextureFormat    = 12;
pub const OVR_FORMAT_D32_FLOAT: ovrTextureFormat            = 13;
pub const OVR_FORMAT_D32_FLOAT_S8X24_UINT: ovrTextureFormat = 14;

// Added in 1.5 compressed formats can be used for static layers
pub const OVR_FORMAT_BC1_UNORM: ovrTextureFormat            = 15;
pub const OVR_FORMAT_BC1_UNORM_SRGB: ovrTextureFormat       = 16;
pub const OVR_FORMAT_BC2_UNORM: ovrTextureFormat            = 17;
pub const OVR_FORMAT_BC2_UNORM_SRGB: ovrTextureFormat       = 18;
pub const OVR_FORMAT_BC3_UNORM: ovrTextureFormat            = 19;
pub const OVR_FORMAT_BC3_UNORM_SRGB: ovrTextureFormat       = 20;
pub const OVR_FORMAT_BC6H_UF16: ovrTextureFormat            = 21;
pub const OVR_FORMAT_BC6H_SF16: ovrTextureFormat            = 22;
pub const OVR_FORMAT_BC7_UNORM: ovrTextureFormat            = 23;
pub const OVR_FORMAT_BC7_UNORM_SRGB: ovrTextureFormat       = 24;

/// Misc flags overriding particular behaviors of a texture swap chain
///
/// see `ovrTextureSwapChainDesc`
pub type ovrTextureMiscFlags = i32;
pub const ovrTextureMisc_None: ovrTextureMiscFlags = 0;
/// DX only: The underlying texture is created with a TYPELESS equivalent of the
/// format specified in the texture desc. The SDK will still access the
/// texture using the format specified in the texture desc, but the app can
/// create views with different formats if this is specified.
pub const ovrTextureMisc_DX_Typeless: ovrTextureMiscFlags = 0x0001;
/// DX only: Allow generation of the mip chain on the GPU via the GenerateMips
/// call. This flag requires that RenderTarget binding also be specified.
pub const ovrTextureMisc_AllowGenerateMips: ovrTextureMiscFlags = 0x0002;
/// Texture swap chain contains protected content, and requires
/// HDCP connection in order to display to HMD. Also prevents
/// mirroring or other redirection of any frame containing this contents
pub const ovrTextureMisc_ProtectedContent: ovrTextureMiscFlags = 0x0004;

/// Description used to create a texture swap chain.
///
/// see `ovr_CreateTextureSwapChainDX`, `ovr_CreateTextureSwapChainGL`, `ovr_CreateTextureSwapChainVk`
#[derive(Debug, Copy, Clone)]
pub struct ovrTextureSwapChainDesc {
    pub Type: ovrTextureType,
    pub Format: ovrTextureFormat,
    /// Only supported with `ovrTexture_2D`. Not supported on PC at this time.
    pub ArraySize: i32,
    pub Width: i32,
    pub Height: i32,
    pub MipLevels: i32,
    /// Current only supported on depth textures
    pub SampleCount: i32,
    /// Not buffered in a chain. For images that don't change
    pub StaticImage: ovrBool,
    /// `ovrTextureFlags`
    pub MiscFlags: u32,
    /// `ovrTextureBindFlags`. Not used for GL.
    pub BindFlags: u32,
}

/// Description used to create a mirror texture.
///
/// see `ovr_CreateMirrorTextureDX`, `ovr_CreateMirrorTextureGL`, `ovr_CreateMirrorTextureVk`
#[derive(Debug, Copy, Clone)]
pub struct ovrMirrorTextureDesc {
    pub Format: ovrTextureFormat,
    pub Width: i32,
    pub Height: i32,
    /// `ovrTextureFlags`
    pub MiscFlags: u32,
}

/// Opaque type standing behind a texture swap chain handle of the runtime;
/// its contents are never exposed.
pub enum ovrTextureSwapChainData { Opaque }

/// Opaque type standing behind a mirror texture handle of the runtime; its
/// contents are never exposed.
pub enum ovrMirrorTextureData { Opaque }

//-----------------------------------------------------------------------------------

/// Describes button input types.
/// Button inputs are combined; that is they will be reported as pressed if they are
/// pressed on either one of the two devices.
/// The `ovrButton_Up`/Down/Left/Right map to both XBox D-Pad and directional buttons.
/// The `ovrButton_Enter` and `ovrButton_Return` map to Start and Back controller buttons, respectively.
pub type ovrButton = i32;
/// A button on XBox controllers and right Touch controller. Select button on Oculus Remote.
pub const ovrButton_A: ovrButton         = 0x00000001;
/// B button on XBox controllers and right Touch controller. Back button on Oculus Remote.
pub const ovrButton_B: ovrButton         = 0x00000002;
/// Right thumbstick on XBox controllers and Touch controllers. Not present on Oculus Remote.
pub const ovrButton_RThumb: ovrButton    = 0x00000004;
/// Right shoulder button on XBox controllers. Not present on Touch controllers or Oculus Remote.
pub const ovrButton_RShoulder: ovrButton = 0x00000008;

/// X button on XBox controllers and left Touch controller. Not present on Oculus Remote.
pub const ovrButton_X: ovrButton         = 0x00000100;
/// Y button on XBox controllers and left Touch controller. Not present on Oculus Remote.
pub const ovrButton_Y: ovrButton         = 0x00000200;
/// Left thumbstick on XBox controllers and Touch controllers. Not present on Oculus Remote.
pub const ovrButton_LThumb: ovrButton    = 0x00000400;
/// Left shoulder button on XBox controllers. Not present on Touch controllers or Oculus Remote.
pub const ovrButton_LShoulder: ovrButton = 0x00000800;

/// Up button on XBox controllers and Oculus Remote. Not present on Touch controllers.
pub const ovrButton_Up: ovrButton        = 0x00010000;
/// Down button on XBox controllers and Oculus Remote. Not present on Touch controllers.
pub const ovrButton_Down: ovrButton      = 0x00020000;
/// Left button on XBox controllers and Oculus Remote. Not present on Touch controllers.
pub const ovrButton_Left: ovrButton      = 0x00040000;
/// Right button on XBox controllers and Oculus Remote. Not present on Touch controllers.
pub const ovrButton_Right: ovrButton     = 0x00080000;
/// Start on XBox 360 controller. Menu on XBox One controller and Left Touch controller. Should be referred to as the Menu button in user-facing documentation.
pub const ovrButton_Enter: ovrButton     = 0x00100000;
/// Back on Xbox 360 controller. View button on XBox One controller. Not present on Touch controllers or Oculus Remote.
pub const ovrButton_Back: ovrButton      = 0x00200000;
/// Volume button on Oculus Remote. Not present on XBox or Touch controllers.
pub const ovrButton_VolUp: ovrButton     = 0x00400000;
/// Volume button on Oculus Remote. Not present on XBox or Touch controllers.
pub const ovrButton_VolDown: ovrButton   = 0x00800000;
/// Home button on XBox controllers. Oculus button on Touch controllers and Oculus Remote.
pub const ovrButton_Home: ovrButton      = 0x01000000;

/// Bit mask of all buttons that are for private usage by Oculus
pub const ovrButton_Private: ovrButton   = ovrButton_VolUp | ovrButton_VolDown | ovrButton_Home;

/// Bit mask of all buttons on the right Touch controller
pub const ovrButton_RMask: ovrButton = ovrButton_A | ovrButton_B | ovrButton_RThumb | ovrButton_RShoulder;

/// Bit mask of all buttons on the left Touch controller
pub const ovrButton_LMask: ovrButton = ovrButton_X | ovrButton_Y | ovrButton_LThumb | ovrButton_LShoulder |
    ovrButton_Enter;

/// Describes touch input types.
/// These values map to capacitive touch values reported `ovrInputState`::Touch.
/// Some of these values are mapped to button bits for consistency.
pub type ovrTouch = i32;
pub const ovrTouch_A: ovrTouch              = ovrButton_A;
pub const ovrTouch_B: ovrTouch              = ovrButton_B;
pub const ovrTouch_RThumb: ovrTouch         = ovrButton_RThumb;
pub const ovrTouch_RThumbRest: ovrTouch     = 0x00000008;
pub const ovrTouch_RIndexTrigger: ovrTouch  = 0x00000010;

/// Bit mask of all the button touches on the right controller
pub const ovrTouch_RButtonMask: ovrTouch    = ovrTouch_A | ovrTouch_B | ovrTouch_RThumb | ovrTouch_RThumbRest | ovrTouch_RIndexTrigger;

pub const ovrTouch_X: ovrTouch              = ovrButton_X;
pub const ovrTouch_Y: ovrTouch              = ovrButton_Y;
pub const ovrTouch_LThumb: ovrTouch         = ovrButton_LThumb;
pub const ovrTouch_LThumbRest: ovrTouch     = 0x00000800;
pub const ovrTouch_LIndexTrigger: ovrTouch  = 0x00001000;

/// Bit mask of all the button touches on the left controller
pub const ovrTouch_LButtonMask: ovrTouch    = ovrTouch_X | ovrTouch_Y | ovrTouch_LThumb | ovrTouch_LThumbRest | ovrTouch_LIndexTrigger;

/// Finger pose state
/// Derived internally based on distance, proximity to sensors and filtering.
pub const ovrTouch_RIndexPointing: ovrTouch = 0x00000020;
pub const ovrTouch_RThumbUp: ovrTouch       = 0x00000040;
pub const ovrTouch_LIndexPointing: ovrTouch = 0x00002000;
pub const ovrTouch_LThumbUp: ovrTouch       = 0x00004000;

/// Bit mask of all right controller poses
pub const ovrTouch_RPoseMask: ovrTouch      = ovrTouch_RIndexPointing | ovrTouch_RThumbUp;

/// Bit mask of all left controller poses
pub const ovrTouch_LPoseMask: ovrTouch      = ovrTouch_LIndexPointing | ovrTouch_LThumbUp;

/// Describes the Touch Haptics engine.
/// Currently, those values will NOT change during a session.
#[derive(Debug, Copy, Clone)]
pub struct ovrTouchHapticsDesc {
    pub _align: [isize; 0],
    /// Haptics engine frequency/sample-rate, sample time in seconds equals 1.0/sampleRateHz
    pub SampleRateHz: i32,
    /// Size of each Haptics sample, sample value range is `[0, 2^(Bytes*8)-1]`
    pub SampleSizeInBytes: i32,

    /// Queue size that would guarantee Haptics engine would not starve for data
    /// Make sure size doesn't drop below it for best results
    pub QueueMinSizeToAvoidStarvation: i32,

    /// Minimum, Maximum and Optimal number of samples that can be sent to Haptics through `ovr_SubmitControllerVibration`
    pub SubmitMinSamples: i32,
    pub SubmitMaxSamples: i32,
    pub SubmitOptimalSamples: i32,
}

/// Specifies which controller is connected; multiple can be connected at once.
pub type ovrControllerType = i32;
pub const ovrControllerType_None: ovrControllerType      = 0x00;
pub const ovrControllerType_LTouch: ovrControllerType    = 0x01;
pub const ovrControllerType_RTouch: ovrControllerType    = 0x02;
pub const ovrControllerType_Touch: ovrControllerType     = 0x03;
pub const ovrControllerType_Remote: ovrControllerType    = 0x04;
pub const ovrControllerType_XBox: ovrControllerType      = 0x10;
/// Operate on or query whichever controller is active.
pub const ovrControllerType_Active: ovrControllerType    = 0xff;

/// Haptics buffer submit mode
pub type ovrHapticsBufferSubmitMode = i32;
/// Enqueue buffer for later playback
pub const ovrHapticsBufferSubmit_Enqueue: ovrHapticsBufferSubmitMode = 0;

/// State of the Haptics playback for Touch vibration
#[derive(Debug, Copy, Clone)]
pub struct ovrHapticsPlaybackState {
    /// Remaining space available to queue more samples
    pub RemainingQueueSpace: i32,

    /// Number of samples currently queued
    pub SamplesQueued: i32,
}

/// Position tracked devices
pub type ovrTrackedDeviceType = i32;
pub const ovrTrackedDevice_HMD: ovrTrackedDeviceType        = 0x0001;
pub const ovrTrackedDevice_LTouch: ovrTrackedDeviceType     = 0x0002;
pub const ovrTrackedDevice_RTouch: ovrTrackedDeviceType     = 0x0004;
pub const ovrTrackedDevice_Touch: ovrTrackedDeviceType      = 0x0006;
pub const ovrTrackedDevice_All: ovrTrackedDeviceType        = 0xFFFF;

/// Boundary types that specified while using the boundary system
pub type ovrBoundaryType = i32;
/// Outer boundary - closely represents user setup walls
pub const ovrBoundary_Outer: ovrBoundaryType           = 0x0001;

/// Play area - safe rectangular area inside outer boundary which can optionally be used to restrict user interactions and motion.
pub const ovrBoundary_PlayArea: ovrBoundaryType        = 0x0100;

/// Provides names for the left and right hand array indexes.
///
/// see `ovrInputState`, `ovrTrackingState`
pub type ovrHandType = i32;
pub const ovrHand_Left: ovrHandType  = 0;
pub const ovrHand_Right: ovrHandType = 1;
pub const ovrHand_Count: ovrHandType = 2;

//-----------------------------------------------------------------------------------
// ***** Initialize structures

/// Initialization flags.
///
/// see `ovrInitParams`, `ovr_Initialize`
pub type ovrInitFlags = i32;
/// When a debug library is requested, a slower debugging version of the library will
/// run which can be used to help solve problems in the library and debug application code.
pub const ovrInit_Debug: ovrInitFlags          = 0x00000001;
/// When a version is requested, the LibOVR runtime respects the RequestedMinorVersion
/// field and verifies that the RequestedMinorVersion is supported. Normally when you
/// specify this flag you simply use `OVR_MINOR_VERSION` for `ovrInitParams`::RequestedMinorVersion,
/// though you could use a lower version than `OVR_MINOR_VERSION` to specify previous
/// version behavior.
pub const ovrInit_RequestVersion: ovrInitFlags = 0x00000004;

/// These bits are writable by user code.
pub const ovrinit_WritableBits: ovrInitFlags   = 0x00ffffff;

/// Logging levels
///
/// see `ovrInitParams`, `ovrLogCallback`
pub type ovrLogLevel = i32;
/// Debug-level log event.
pub const ovrLogLevel_Debug: ovrLogLevel    = 0;
/// Info-level log event.
pub const ovrLogLevel_Info: ovrLogLevel     = 1;
/// Error-level log event.
pub const ovrLogLevel_Error: ovrLogLevel    = 2;

/// Specifies status information for the current session.
///
/// see `ovr_GetSessionStatus`
#[derive(Debug, Copy, Clone)]
pub struct ovrSessionStatus {
    /// True if the process has VR focus and thus is visible in the HMD.
    pub IsVisible: ovrBool,
    /// True if an HMD is present.
    pub HmdPresent: ovrBool,
    /// True if the HMD is on the user's head.
    pub HmdMounted: ovrBool,
    /// True if the session is in a display-lost state. See `ovr_SubmitFrame`.
    pub DisplayLost: ovrBool,
    /// True if the application should initiate shutdown.
    pub ShouldQuit: ovrBool,
    /// True if UX has requested re-centering. Must call `ovr_ClearShouldRecenterFlag`, `ovr_RecenterTrackingOrigin` or `ovr_SpecifyTrackingOrigin`.
    pub ShouldRecenter: ovrBool,
}

//-----------------------------------------------------------------------------------
// ***** Layers

/// Describes layer types that can be passed to `ovr_SubmitFrame`.
/// Each layer type has an associated struct, such as `ovrLayerEyeFov`.
pub type ovrLayerType = i32;
/// Layer is disabled.
pub const ovrLayerType_Disabled: ovrLayerType    = 0;
/// Described by `ovrLayerEyeFov`.
pub const ovrLayerType_EyeFov: ovrLayerType      = 1;
/// Described by `ovrLayerQuad`. Previously called `ovrLayerType_QuadInWorld`.
pub const ovrLayerType_Quad: ovrLayerType        = 3;
/// Described by `ovrLayerEyeMatrix`.
pub const ovrLayerType_EyeMatrix: ovrLayerType   = 5;

/// Identifies flags used by `ovrLayerHeader` and which are passed to `ovr_SubmitFrame`.
///
/// see `ovrLayerHeader`
pub type ovrLayerFlags = i32;
/// `ovrLayerFlag_HighQuality` enables 4x anisotropic sampling during the composition of the layer.
///
/// The benefits are mostly visible at the periphery for high-frequency & high-contrast visuals.
pub const ovrLayerFlag_HighQuality: ovrLayerFlags               = 0x01;
/// `ovrLayerFlag_TextureOriginAtBottomLeft`: the opposite is TopLeft.
/// Generally this is false for D3D, true for OpenGL.
pub const ovrLayerFlag_TextureOriginAtBottomLeft: ovrLayerFlags = 0x02;
/// Mark this surface as "headlocked", which means it is specified
/// relative to the HMD and moves with it, rather than being specified
/// relative to sensor/torso space and remaining still while the head moves.
pub const ovrLayerFlag_HeadLocked: ovrLayerFlags                = 0x04;

/// Defines properties shared by all `ovrLayer` structs, such as `ovrLayerEyeFov`.
///
/// `ovrLayerHeader` is used as a base member in these larger structs.
///
/// This struct cannot be used by itself except for the case that Type is `ovrLayerType_Disabled`.
///
/// see `ovrLayerType`, `ovrLayerFlags`
#[derive(Debug, Copy, Clone)]
pub struct ovrLayerHeader {
    pub _align: [isize; 0],
    /// Described by `ovrLayerType`.
    pub Type: ovrLayerType,
    /// Described by `ovrLayerFlags`.
    pub Flags: u32,
}

/// Maximum number of frames of performance statistics provided back to the
/// caller of `ovr_GetPerfStats`.
pub const ovrMaxProvidedFrameStats: u32 = 5;

//-----------------------------------------------------------------------------------
// ***** HUD modes

/// Performance HUD enables the HMD user to see information critical to
/// the real-time operation of the VR application such as latency timing,
/// and CPU & GPU performance metrics
pub type ovrPerfHudMode = i32;
/// Turns off the performance HUD
pub const ovrPerfHud_Off: ovrPerfHudMode                = 0;
/// Shows performance summary and headroom
pub const ovrPerfHud_PerfSummary: ovrPerfHudMode        = 1;
/// Shows latency related timing info
pub const ovrPerfHud_LatencyTiming: ovrPerfHudMode      = 2;
/// Shows render timing info for application
pub const ovrPerfHud_AppRenderTiming: ovrPerfHudMode    = 3;
/// Shows render timing info for OVR compositor
pub const ovrPerfHud_CompRenderTiming: ovrPerfHudMode   = 4;
/// Shows SDK & HMD version Info
pub const ovrPerfHud_VersionInfo: ovrPerfHudMode        = 5;
/// \internal Count of enumerated elements.
pub const ovrPerfHud_Count: ovrPerfHudMode              = 6;

/// Layer HUD enables the HMD user to see information about a layer
pub type ovrLayerHudMode = i32;
/// Turns off the layer HUD
pub const ovrLayerHud_Off: ovrLayerHudMode = 0;
/// Shows info about a specific layer
pub const ovrLayerHud_Info: ovrLayerHudMode = 1;

/// Debug HUD is provided to help developers gauge and debug the fidelity of their app's
/// stereo rendering characteristics. Using the provided quad and crosshair guides,
/// the developer can verify various aspects such as VR tracking units (e.g. meters),
/// stereo camera-parallax properties (e.g. making sure objects at infinity are rendered
/// with the proper separation), measuring VR geometry sizes and distances and more.
pub type ovrDebugHudStereoMode = i32;
/// Turns off the Stereo Debug HUD
pub const ovrDebugHudStereo_Off: ovrDebugHudStereoMode                 = 0;
/// Renders Quad in world for Stereo Debugging
pub const ovrDebugHudStereo_Quad: ovrDebugHudStereoMode                = 1;
/// Renders Quad+crosshair in world for Stereo Debugging
pub const ovrDebugHudStereo_QuadWithCrosshair: ovrDebugHudStereoMode   = 2;
/// Renders screen-space crosshair at infinity for Stereo Debugging
pub const ovrDebugHudStereo_CrosshairAtInfinity: ovrDebugHudStereoMode = 3;
/// \internal Count of enumerated elements
pub const ovrDebugHudStereo_Count: ovrDebugHudStereoMode = 4;

//-----------------------------------------------------------------------------------
// ***** Projection and detection

/// Enumerates modifications to the projection matrix based on the application's needs.
///
/// see `ovrMatrix4f_Projection`
pub type ovrProjectionModifier = i32;
/// Use for generating a default projection matrix that is:
///
/// * Right-handed.
/// * Near depth values stored in the depth buffer are smaller than far depth values.
/// * Both near and far are explicitly defined.
/// * With a clipping range that is (0 to w).
pub const ovrProjection_None: ovrProjectionModifier = 0x00;

/// Enable if using left-handed transformations in your application.
pub const ovrProjection_LeftHanded: ovrProjectionModifier = 0x01;

/// After the projection transform is applied, far values stored in the depth buffer will be less than closer depth values.
/// NOTE: Enable only if the application is using a floating-point depth buffer for proper precision.
pub const ovrProjection_FarLessThanNear: ovrProjectionModifier = 0x02;

/// When this flag is used, the zfar value pushed into `ovrMatrix4f_Projection()` will be ignored
/// NOTE: Enable only if `ovrProjection_FarLessThanNear` is also enabled where the far clipping plane will be pushed to infinity.
pub const ovrProjection_FarClipAtInfinity: ovrProjectionModifier = 0x04;

/// Enable if the application is rendering with OpenGL and expects a projection matrix with a clipping range of (-w to w).
/// Ignore this flag if your application already handles the conversion from D3D range (0 to w) to OpenGL.
pub const ovrProjection_ClipRangeOpenGL: ovrProjectionModifier = 0x08;

/// Return values for `ovr_Detect`.
///
/// see `ovr_Detect`
#[derive(Copy, Clone, Debug)]
pub struct ovrDetectResult {
    pub _align: [u64; 0],
    /// Is `ovrFalse` when the Oculus Service is not running.
    ///   This means that the Oculus Service is either uninstalled or stopped.
    ///   `IsOculusHMDConnected` will be `ovrFalse` in this case.
    ///
    /// Is `ovrTrue` when the Oculus Service is running.
    ///   This means that the Oculus Service is installed and running.
    ///   `IsOculusHMDConnected` will reflect the state of the HMD.
    pub IsOculusServiceRunning: ovrBool,

    /// Is `ovrFalse` when an Oculus HMD is not detected.
    ///   If the Oculus Service is not running, this will be `ovrFalse`.
    ///
    /// Is `ovrTrue` when an Oculus HMD is detected.
    ///   This implies that the Oculus Service is also installed and running.
    pub IsOculusHMDConnected: ovrBool,
    /// \internal struct pad.
    pub _pad0: [u8; 6],
}

} // verus!
