//! The D3D9 backend: its ABI constants and creation parameters.
//!
//! A successful D3D9 initialization invokes the factory with the required
//! ABI version, asks it for a disposable device bound to the offscreen
//! surface, and reads 119 dispatch slots from the device object.

use crate::RenderType;
use vstd::prelude::*;

verus! {

/// The ABI version constant the D3D9 factory must be invoked with.
pub const D3D9_SDK_VERSION: u32 = 32;

/// Default display adapter.
pub const ADAPTER_DEFAULT: u32 = 0;

/// Null-reference device type: requires no real GPU capability negotiation,
/// chosen because the device is never rendered to.
pub const DEVTYPE_NULLREF: u32 = 4;

/// Behavior flag: software vertex processing.
pub const CREATE_SOFTWARE_VERTEXPROCESSING: u32 = 0x20;

/// Behavior flag: driver management disabled.
pub const CREATE_DISABLE_DRIVER_MANAGEMENT: u32 = 0x100;

/// Surface format left unspecified.
pub const FORMAT_UNKNOWN: u32 = 0;

/// No multisampling.
pub const MULTISAMPLE_NONE: u32 = 0;

/// Discard swap effect.
pub const SWAPEFFECT_DISCARD: u32 = 1;

/// The compiled-in backend selection of this module.
pub fn render_type() -> (r: RenderType)
    ensures
        r == RenderType::D3D9,
{
    RenderType::D3D9
}

/// The presentation parameters of the disposable device, as plain values:
/// a windowed, non-multisampled, discard-swap-effect back buffer bound to
/// the offscreen surface.
#[derive(Clone, Copy, Debug)]
pub struct PresentParameters {
    pub back_buffer_width: u32,
    pub back_buffer_height: u32,
    pub back_buffer_format: u32,
    pub back_buffer_count: u32,
    pub multi_sample_type: u32,
    pub multi_sample_quality: u32,
    pub swap_effect: u32,
    pub windowed: bool,
    pub enable_auto_depth_stencil: bool,
    pub auto_depth_stencil_format: u32,
    pub flags: u32,
    pub fullscreen_refresh_rate_in_hz: u32,
    pub presentation_interval: u32,
    pub device_window: usize,
}

impl PresentParameters {
    /// The minimal presentation parameters for device creation against the
    /// given offscreen surface.
    pub fn minimal(hwnd: usize) -> (p: PresentParameters)
        ensures
            p.back_buffer_width == 0,
            p.back_buffer_height == 0,
            p.back_buffer_format == FORMAT_UNKNOWN,
            p.back_buffer_count == 0,
            p.multi_sample_type == MULTISAMPLE_NONE,
            p.multi_sample_quality == 0,
            p.swap_effect == SWAPEFFECT_DISCARD,
            p.windowed,
            !p.enable_auto_depth_stencil,
            p.auto_depth_stencil_format == FORMAT_UNKNOWN,
            p.flags == 0,
            p.fullscreen_refresh_rate_in_hz == 0,
            p.presentation_interval == 0,
            p.device_window == hwnd,
    {
        PresentParameters {
            back_buffer_width: 0,
            back_buffer_height: 0,
            back_buffer_format: FORMAT_UNKNOWN,
            back_buffer_count: 0,
            multi_sample_type: MULTISAMPLE_NONE,
            multi_sample_quality: 0,
            swap_effect: SWAPEFFECT_DISCARD,
            windowed: true,
            enable_auto_depth_stencil: false,
            auto_depth_stencil_format: FORMAT_UNKNOWN,
            flags: 0,
            fullscreen_refresh_rate_in_hz: 0,
            presentation_interval: 0,
            device_window: hwnd,
        }
    }

    /// The behavior flags of the device-creation request.
    pub fn behavior_flags() -> (f: u32)
        ensures
            f == CREATE_SOFTWARE_VERTEXPROCESSING | CREATE_DISABLE_DRIVER_MANAGEMENT,
    {
        CREATE_SOFTWARE_VERTEXPROCESSING | CREATE_DISABLE_DRIVER_MANAGEMENT
    }
}

} // verus!
