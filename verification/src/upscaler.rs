//! Checked context dimensions and the upscaler creation descriptor chain.
use crate::abi::{
    ffxApiHeader, ffxCreateBackendDX12Desc, ffxCreateContextDescUpscale,
    ffxCreateContextDescUpscaleVersion, FfxApiDimensions2D,
    FFX_API_CREATE_CONTEXT_DESC_TYPE_BACKEND_DX12, FFX_API_CREATE_CONTEXT_DESC_TYPE_UPSCALE,
    FFX_API_CREATE_CONTEXT_DESC_TYPE_UPSCALE_VERSION, FFX_UPSCALER_VERSION,
};
use crate::error::Error;
use vstd::prelude::*;

verus! {

/// A width and height that have both been checked for zero.
#[derive(Debug, Clone, Copy, PartialEq, Eq)]
pub struct Dimensions {
    width: u32,
    height: u32,
}

impl Dimensions {
    #[verifier::type_invariant]
    spec fn nonzero(self) -> bool {
        self.width != 0 && self.height != 0
    }

    /// The checked width.
    pub closed spec fn spec_width(self) -> u32 {
        self.width
    }

    /// The checked height.
    pub closed spec fn spec_height(self) -> u32 {
        self.height
    }

    /// Rejects either zero component before any native call.
    pub fn new(width: u32, height: u32) -> (r: Result<Self, Error>)
        ensures
            width != 0 && height != 0 ==> (r matches Ok(d) && d.spec_width() == width
                && d.spec_height() == height),
            width == 0 || height == 0 ==> r == Err::<Self, Error>(
                Error::InvalidDimensions { width, height },
            ),
    {
        if width == 0 {
            return Err(Error::InvalidDimensions { width, height });
        }
        if height == 0 {
            return Err(Error::InvalidDimensions { width, height });
        }
        Ok(Dimensions { width, height })
    }

    /// The checked width.
    pub fn width(&self) -> (r: u32)
        ensures
            r == self.spec_width(),
            r != 0,
    {
        proof {
            use_type_invariant(self);
        }
        self.width
    }

    /// The checked height.
    pub fn height(&self) -> (r: u32)
        ensures
            r == self.spec_height(),
            r != 0,
    {
        proof {
            use_type_invariant(self);
        }
        self.height
    }
}

/// Maximum render and output dimensions for one upscaler context.
#[derive(Debug, Clone, Copy, PartialEq, Eq)]
pub struct UpscalerOptions {
    pub max_render_size: Dimensions,
    pub max_upscale_size: Dimensions,
}

/// The native extent of checked dimensions.
pub open spec fn spec_extent(size: Dimensions) -> FfxApiDimensions2D {
    FfxApiDimensions2D { width: size.spec_width(), height: size.spec_height() }
}

/// The three creation descriptors of one upscaler context, chained
/// root -> version -> DX12 backend.
#[derive(Debug, Clone, Copy, PartialEq, Eq)]
pub struct UpscaleCreateState {
    pub root: ffxCreateContextDescUpscale,
    pub version: ffxCreateContextDescUpscaleVersion,
    pub backend: ffxCreateBackendDX12Desc,
}

/// The creation chain for a context on `device` with the given maximum sizes:
/// no flags and no message callback, the required upscaler version, and the
/// DX12 backend naming the device.
pub open spec fn spec_create_state(device: usize, options: UpscalerOptions) -> UpscaleCreateState {
    UpscaleCreateState {
        root: ffxCreateContextDescUpscale {
            header: ffxApiHeader {
                struct_type: FFX_API_CREATE_CONTEXT_DESC_TYPE_UPSCALE,
                pNext: Some(FFX_API_CREATE_CONTEXT_DESC_TYPE_UPSCALE_VERSION),
            },
            flags: 0,
            maxRenderSize: spec_extent(options.max_render_size),
            maxUpscaleSize: spec_extent(options.max_upscale_size),
            fpMessage: None,
        },
        version: ffxCreateContextDescUpscaleVersion {
            header: ffxApiHeader {
                struct_type: FFX_API_CREATE_CONTEXT_DESC_TYPE_UPSCALE_VERSION,
                pNext: Some(FFX_API_CREATE_CONTEXT_DESC_TYPE_BACKEND_DX12),
            },
            version: FFX_UPSCALER_VERSION,
        },
        backend: ffxCreateBackendDX12Desc {
            header: ffxApiHeader {
                struct_type: FFX_API_CREATE_CONTEXT_DESC_TYPE_BACKEND_DX12,
                pNext: None,
            },
            device,
        },
    }
}

fn extent(size: Dimensions) -> (r: FfxApiDimensions2D)
    ensures
        r == spec_extent(size),
{
    FfxApiDimensions2D { width: size.width(), height: size.height() }
}

impl UpscaleCreateState {
    /// Builds the creation chain for a context on `device`.
    pub fn new(device: usize, options: UpscalerOptions) -> (r: Self)
        ensures
            r == spec_create_state(device, options),
    {
        UpscaleCreateState {
            root: ffxCreateContextDescUpscale {
                header: ffxApiHeader {
                    struct_type: FFX_API_CREATE_CONTEXT_DESC_TYPE_UPSCALE,
                    pNext: Some(FFX_API_CREATE_CONTEXT_DESC_TYPE_UPSCALE_VERSION),
                },
                flags: 0,
                maxRenderSize: extent(options.max_render_size),
                maxUpscaleSize: extent(options.max_upscale_size),
                fpMessage: None,
            },
            version: ffxCreateContextDescUpscaleVersion {
                header: ffxApiHeader {
                    struct_type: FFX_API_CREATE_CONTEXT_DESC_TYPE_UPSCALE_VERSION,
                    pNext: Some(FFX_API_CREATE_CONTEXT_DESC_TYPE_BACKEND_DX12),
                },
                version: FFX_UPSCALER_VERSION,
            },
            backend: ffxCreateBackendDX12Desc {
                header: ffxApiHeader {
                    struct_type: FFX_API_CREATE_CONTEXT_DESC_TYPE_BACKEND_DX12,
                    pNext: None,
                },
                device,
            },
        }
    }
}

/// The creation chain links root, version and DX12 backend in that order and
/// ends there; the root asks for the context's own maximum render and upscale
/// sizes with no flags and no message callback, the version entry asks for the
/// required upscaler version, and the backend names the caller's device.
pub proof fn lemma_create_state_chain(device: usize, options: UpscalerOptions)
    ensures
        ({
            let c = spec_create_state(device, options);
            &&& c.root.header.struct_type == FFX_API_CREATE_CONTEXT_DESC_TYPE_UPSCALE
            &&& c.root.header.pNext == Some(c.version.header.struct_type)
            &&& c.version.header.struct_type == FFX_API_CREATE_CONTEXT_DESC_TYPE_UPSCALE_VERSION
            &&& c.version.header.pNext == Some(c.backend.header.struct_type)
            &&& c.backend.header.struct_type == FFX_API_CREATE_CONTEXT_DESC_TYPE_BACKEND_DX12
            &&& c.backend.header.pNext is None
            &&& c.root.flags == 0
            &&& c.root.fpMessage is None
            &&& c.root.maxRenderSize.width == options.max_render_size.spec_width()
            &&& c.root.maxRenderSize.height == options.max_render_size.spec_height()
            &&& c.root.maxUpscaleSize.width == options.max_upscale_size.spec_width()
            &&& c.root.maxUpscaleSize.height == options.max_upscale_size.spec_height()
            &&& c.version.version == FFX_UPSCALER_VERSION
            &&& c.backend.device == device
        }),
{
}

} // verus!
