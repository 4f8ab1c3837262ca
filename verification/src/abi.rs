//! Values of the FidelityFX SDK v2.3.0 ABI that the upscaler policy fills in,
//! and plain-value models of the descriptors it hands to the native runtime.
//!
//! Native addresses (devices, resources, command lists) appear here as `usize`
//! values that the library only carries and compares; it never dereferences them.
//! A header's `pNext` names the structure type of the next descriptor in its
//! chain, or `None` at the end of the chain.
use vstd::prelude::*;

verus! {

/// Return code of a native FidelityFX entry point.
pub type ffxReturnCode_t = u32;
/// Structure type tag of a FidelityFX descriptor.
pub type ffxStructType_t = u64;

pub const FFX_API_RETURN_OK: ffxReturnCode_t = 0;
pub const FFX_API_RETURN_ERROR: ffxReturnCode_t = 1;
pub const FFX_API_RETURN_ERROR_UNKNOWN_DESCTYPE: ffxReturnCode_t = 2;
pub const FFX_API_RETURN_ERROR_RUNTIME_ERROR: ffxReturnCode_t = 3;
pub const FFX_API_RETURN_NO_PROVIDER: ffxReturnCode_t = 4;
pub const FFX_API_RETURN_ERROR_MEMORY: ffxReturnCode_t = 5;
pub const FFX_API_RETURN_ERROR_PARAMETER: ffxReturnCode_t = 6;
pub const FFX_API_RETURN_PROVIDER_NO_SUPPORT_NEW_DESCTYPE: ffxReturnCode_t = 7;

/// Global version enumeration query tag.
pub const FFX_API_QUERY_DESC_TYPE_GET_VERSIONS: ffxStructType_t = 4;
/// DX12 backend creation descriptor tag.
pub const FFX_API_CREATE_CONTEXT_DESC_TYPE_BACKEND_DX12: ffxStructType_t = 2;
/// Upscaler creation descriptor tag, also selecting the effect for version queries.
pub const FFX_API_CREATE_CONTEXT_DESC_TYPE_UPSCALE: ffxStructType_t = 0x0001_0000;
/// Upscaler dispatch descriptor tag.
pub const FFX_API_DISPATCH_DESC_TYPE_UPSCALE: ffxStructType_t = 0x0001_0001;
/// Required upscaler API version descriptor tag.
pub const FFX_API_CREATE_CONTEXT_DESC_TYPE_UPSCALE_VERSION: ffxStructType_t = 0x0001_000b;
/// Upscaler API version 4.1.1, packed as major << 22 | minor << 12 | patch.
pub const FFX_UPSCALER_VERSION: u32 = (4 << 22) | (1 << 12) | 1;

pub const FFX_API_RESOURCE_TYPE_TEXTURE2D: u32 = 2;
pub const FFX_API_RESOURCE_FLAGS_NONE: u32 = 0;
pub const FFX_API_RESOURCE_USAGE_READ_ONLY: u32 = 0;
pub const FFX_API_RESOURCE_USAGE_UAV: u32 = 2;
pub const FFX_API_RESOURCE_STATE_UNORDERED_ACCESS: u32 = 2;
pub const FFX_API_RESOURCE_STATE_COMPUTE_READ: u32 = 4;
pub const FFX_API_SURFACE_FORMAT_UNKNOWN: u32 = 0;
pub const FFX_API_SURFACE_FORMAT_R16G16B16A16_FLOAT: u32 = 4;
pub const FFX_API_SURFACE_FORMAT_R16G16_FLOAT: u32 = 18;
pub const FFX_API_SURFACE_FORMAT_R32_FLOAT: u32 = 28;

/// Common header of every descriptor.
#[derive(Debug, Clone, Copy, PartialEq, Eq, Structural)]
pub struct ffxApiHeader {
    /// Native `type` field; identifies the enclosing descriptor.
    pub struct_type: ffxStructType_t,
    /// Type of the next descriptor in the chain; `None` terminates the chain.
    pub pNext: Option<ffxStructType_t>,
}

/// Two-dimensional extent.
#[derive(Debug, Clone, Copy, PartialEq, Eq, Structural)]
pub struct FfxApiDimensions2D {
    pub width: u32,
    pub height: u32,
}

/// Root upscaler creation descriptor.
#[derive(Debug, Clone, Copy, PartialEq, Eq, Structural)]
pub struct ffxCreateContextDescUpscale {
    pub header: ffxApiHeader,
    pub flags: u32,
    pub maxRenderSize: FfxApiDimensions2D,
    pub maxUpscaleSize: FfxApiDimensions2D,
    /// Address of the optional message callback.
    pub fpMessage: Option<usize>,
}

/// Required-version creation descriptor.
#[derive(Debug, Clone, Copy, PartialEq, Eq, Structural)]
pub struct ffxCreateContextDescUpscaleVersion {
    pub header: ffxApiHeader,
    pub version: u32,
}

/// DX12 backend creation descriptor.
#[derive(Debug, Clone, Copy, PartialEq, Eq, Structural)]
pub struct ffxCreateBackendDX12Desc {
    pub header: ffxApiHeader,
    /// Address of the `ID3D12Device` the context is created on.
    pub device: usize,
}

/// Description of a resource handed to a dispatch.
#[derive(Debug, Clone, Copy, PartialEq, Eq, Structural)]
pub struct FfxApiResourceDescription {
    /// Native `type` field.
    pub resource_type: u32,
    pub format: u32,
    pub width: u32,
    pub height: u32,
    pub depth: u32,
    pub mipCount: u32,
    pub flags: u32,
    pub usage: u32,
}

/// A resource handed to a dispatch: its address, description and declared state.
#[derive(Debug, Clone, Copy, PartialEq, Eq, Structural)]
pub struct FfxApiResource {
    pub resource: usize,
    pub description: FfxApiResourceDescription,
    pub state: u32,
}

} // verus!
