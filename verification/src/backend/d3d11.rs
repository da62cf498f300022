//! The D3D11 backend: its ABI constants and creation parameters.
//!
//! A successful D3D11 initialization invokes the combined device-and-swap-
//! chain factory and reads, in this fixed order, 18 dispatch slots from the
//! swap-chain, 43 from the device and 144 from the device context.

use crate::RenderType;
use vstd::prelude::*;

verus! {

/// The SDK version constant the combined factory must be invoked with.
pub const D3D11_SDK_VERSION: u32 = 7;

/// Hardware driver type.
pub const DRIVER_TYPE_HARDWARE: u32 = 1;

/// Feature level 10.1.
pub const FEATURE_LEVEL_10_1: u32 = 0xa100;

/// Feature level 11.0.
pub const FEATURE_LEVEL_11_0: u32 = 0xb000;

/// 8-bit RGBA, unsigned normalized.
pub const FORMAT_R8G8B8A8_UNORM: u32 = 28;

/// Back buffer usable as render-target output.
pub const USAGE_RENDER_TARGET_OUTPUT: u32 = 0x20;

/// Discard swap effect.
pub const SWAP_EFFECT_DISCARD: u32 = 0;

/// Swap-chain flag: mode switches allowed.
pub const SWAP_CHAIN_FLAG_ALLOW_MODE_SWITCH: u32 = 2;

/// Scan-line ordering left unspecified.
pub const SCANLINE_ORDER_UNSPECIFIED: u32 = 0;

/// Scaling left unspecified.
pub const SCALING_UNSPECIFIED: u32 = 0;

/// The compiled-in backend selection of this module.
pub fn render_type() -> (r: RenderType)
    ensures
        r == RenderType::D3D11,
{
    RenderType::D3D11
}

/// The feature levels requested of the factory, in preference order.
pub fn feature_level_preference() -> (v: Vec<u32>)
    ensures
        v@ == seq![FEATURE_LEVEL_10_1, FEATURE_LEVEL_11_0],
{
    let mut v: Vec<u32> = Vec::new();
    v.push(FEATURE_LEVEL_10_1);
    v.push(FEATURE_LEVEL_11_0);
    proof {
        assert(v@ =~= seq![FEATURE_LEVEL_10_1, FEATURE_LEVEL_11_0]);
    }
    v
}

/// The swap-chain description handed to the combined factory, as plain
/// values: a 100 by 100, 60 Hz, single-buffered, windowed surface with
/// mode switches allowed and discard swap effect.
#[derive(Clone, Copy, Debug)]
pub struct SwapChainPlan {
    pub width: u32,
    pub height: u32,
    pub refresh_rate_numerator: u32,
    pub refresh_rate_denominator: u32,
    pub format: u32,
    pub scanline_ordering: u32,
    pub scaling: u32,
    pub sample_count: u32,
    pub sample_quality: u32,
    pub buffer_usage: u32,
    pub buffer_count: u32,
    pub output_window: usize,
    pub windowed: bool,
    pub swap_effect: u32,
    pub flags: u32,
}

impl SwapChainPlan {
    /// The fixed swap-chain description bound to the given offscreen
    /// surface.
    pub fn minimal(hwnd: usize) -> (p: SwapChainPlan)
        ensures
            p.width == 100,
            p.height == 100,
            p.refresh_rate_numerator == 60,
            p.refresh_rate_denominator == 1,
            p.format == FORMAT_R8G8B8A8_UNORM,
            p.scanline_ordering == SCANLINE_ORDER_UNSPECIFIED,
            p.scaling == SCALING_UNSPECIFIED,
            p.sample_count == 1,
            p.sample_quality == 0,
            p.buffer_usage == USAGE_RENDER_TARGET_OUTPUT,
            p.buffer_count == 1,
            p.output_window == hwnd,
            p.windowed,
            p.swap_effect == SWAP_EFFECT_DISCARD,
            p.flags == SWAP_CHAIN_FLAG_ALLOW_MODE_SWITCH,
    {
        SwapChainPlan {
            width: 100,
            height: 100,
            refresh_rate_numerator: 60,
            refresh_rate_denominator: 1,
            format: FORMAT_R8G8B8A8_UNORM,
            scanline_ordering: SCANLINE_ORDER_UNSPECIFIED,
            scaling: SCALING_UNSPECIFIED,
            sample_count: 1,
            sample_quality: 0,
            buffer_usage: USAGE_RENDER_TARGET_OUTPUT,
            buffer_count: 1,
            output_window: hwnd,
            windowed: true,
            swap_effect: SWAP_EFFECT_DISCARD,
            flags: SWAP_CHAIN_FLAG_ALLOW_MODE_SWITCH,
        }
    }
}

} // verus!
