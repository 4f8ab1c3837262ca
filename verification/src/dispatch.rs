//! Validation of the DX12 inputs of one upscaler dispatch and construction of
//! its native descriptor.
//!
//! The COM objects of a dispatch are read by the caller into plain values (see
//! [`DispatchObservation`]); everything decided from those values happens here,
//! in the order in which the checks are documented: command-list type, distinct
//! resource identities, resource descriptions, extents, and finally that the
//! command list and every resource live on the context's device.
use crate::abi::{
    ffxApiHeader, FfxApiDimensions2D, FfxApiResource, FfxApiResourceDescription,
    FFX_API_DISPATCH_DESC_TYPE_UPSCALE, FFX_API_RESOURCE_FLAGS_NONE,
    FFX_API_RESOURCE_STATE_COMPUTE_READ, FFX_API_RESOURCE_STATE_UNORDERED_ACCESS,
    FFX_API_RESOURCE_TYPE_TEXTURE2D, FFX_API_RESOURCE_USAGE_READ_ONLY, FFX_API_RESOURCE_USAGE_UAV,
    FFX_API_SURFACE_FORMAT_R16G16B16A16_FLOAT, FFX_API_SURFACE_FORMAT_R16G16_FLOAT,
    FFX_API_SURFACE_FORMAT_R32_FLOAT,
};
use crate::error::{
    DispatchScalar, DispatchValidation, Error, InspectionObject, InspectionOperation,
    ResourceProperty, ResourceRole,
};
use vstd::prelude::*;

verus! {

/// `DXGI_FORMAT_R16G16B16A16_FLOAT`.
pub const DXGI_FORMAT_R16G16B16A16_FLOAT: i32 = 10;
/// `DXGI_FORMAT_R16G16_FLOAT`.
pub const DXGI_FORMAT_R16G16_FLOAT: i32 = 34;
/// `DXGI_FORMAT_R32_FLOAT`.
pub const DXGI_FORMAT_R32_FLOAT: i32 = 41;
/// `D3D12_RESOURCE_DIMENSION_TEXTURE2D`.
pub const D3D12_RESOURCE_DIMENSION_TEXTURE2D: i32 = 3;
/// `D3D12_RESOURCE_FLAG_NONE`.
pub const D3D12_RESOURCE_FLAG_NONE: i32 = 0;
/// `D3D12_RESOURCE_FLAG_ALLOW_UNORDERED_ACCESS`.
pub const D3D12_RESOURCE_FLAG_ALLOW_UNORDERED_ACCESS: i32 = 4;
/// `D3D12_RESOURCE_FLAG_DENY_SHADER_RESOURCE`.
pub const D3D12_RESOURCE_FLAG_DENY_SHADER_RESOURCE: i32 = 8;
/// `D3D12_COMMAND_LIST_TYPE_DIRECT`.
pub const D3D12_COMMAND_LIST_TYPE_DIRECT: i32 = 0;
/// `D3D12_COMMAND_LIST_TYPE_COMPUTE`.
pub const D3D12_COMMAND_LIST_TYPE_COMPUTE: i32 = 2;

/// The fields of a `D3D12_RESOURCE_DESC` that dispatch validation reads.
#[derive(Debug, Clone, Copy, PartialEq, Eq, Structural)]
pub struct ResourceDesc {
    pub dimension: i32,
    pub width: u64,
    pub height: u32,
    pub depth_or_array_size: u16,
    pub mip_levels: u16,
    pub format: i32,
    pub sample_count: u32,
    pub flags: i32,
}

/// A validated resource: its native description and its width and height.
#[derive(Debug, Clone, Copy, PartialEq, Eq)]
pub struct Converted {
    pub native: FfxApiResource,
    pub size: (u32, u32),
}

/// The non-floating-point part of the native upscaler dispatch descriptor.
/// Jitter, motion-vector scale, frame time, sharpness, pre-exposure and the
/// camera scalars are added where the floating-point values live.
#[derive(Debug, Clone, Copy, PartialEq, Eq, Structural)]
pub struct DispatchDescription {
    pub header: ffxApiHeader,
    /// Address of the recording command list.
    pub commandList: usize,
    pub color: FfxApiResource,
    pub depth: FfxApiResource,
    pub motionVectors: FfxApiResource,
    pub exposure: FfxApiResource,
    pub reactive: FfxApiResource,
    pub transparencyAndComposition: FfxApiResource,
    pub output: FfxApiResource,
    pub renderSize: FfxApiDimensions2D,
    pub upscaleSize: FfxApiDimensions2D,
    pub enableSharpening: bool,
    pub reset: bool,
    pub flags: u32,
}

/// A scalar rejected before native dispatch.
pub open spec fn scalar_error(scalar: DispatchScalar) -> Error {
    Error::InvalidDispatch { reason: DispatchValidation::Scalar(scalar) }
}

/// A resource rejected before native dispatch.
pub open spec fn resource_error(role: ResourceRole, property: ResourceProperty) -> Error {
    Error::InvalidDispatch { reason: DispatchValidation::Resource { role, property } }
}

/// A failed COM inspection, keeping the HRESULT bits.
pub open spec fn inspection_error(
    object: InspectionObject,
    operation: InspectionOperation,
    hresult: i32,
) -> Error {
    Error::Dx12Inspection { object, operation, hresult }
}

/// The error for a rejected dispatch scalar.
pub fn invalid_scalar(scalar: DispatchScalar) -> (r: Error)
    ensures
        r == scalar_error(scalar),
{
    Error::InvalidDispatch { reason: DispatchValidation::Scalar(scalar) }
}

/// The error for a rejected dispatch resource.
pub fn invalid_resource(role: ResourceRole, property: ResourceProperty) -> (r: Error)
    ensures
        r == resource_error(role, property),
{
    Error::InvalidDispatch { reason: DispatchValidation::Resource { role, property } }
}

/// The error for a failed COM call during inspection.
pub fn inspection(object: InspectionObject, operation: InspectionOperation, hresult: i32) -> (r:
    Error)
    ensures
        r == inspection_error(object, operation, hresult),
{
    Error::Dx12Inspection { object, operation, hresult }
}

/// Rejects an identity already seen among `prior`.
pub fn check_identity(role: ResourceRole, identity: usize, prior: &[usize]) -> (r: Result<
    (),
    Error,
>)
    ensures
        r == (if prior@.contains(identity) {
            Err(resource_error(role, ResourceProperty::DistinctIdentity))
        } else {
            Ok(())
        }),
{
    let mut i: usize = 0;
    while i < prior.len()
        invariant
            i <= prior@.len(),
            forall|j: int| 0 <= j < i ==> prior@[j] != identity,
        decreases prior@.len() - i,
    {
        if prior[i] == identity {
            assert(prior@.contains(identity));
            return Err(invalid_resource(role, ResourceProperty::DistinctIdentity));
        }
        i = i + 1;
    }
    Ok(())
}

/// The extent each of the five dispatch resources must have: the render size
/// for color, depth and motion vectors, 1x1 for exposure, the output size for
/// the output.
pub open spec fn expected_extent(index: int, render_size: (u32, u32), output_size: (u32, u32)) -> (
    u32,
    u32,
) {
    if index < 3 {
        render_size
    } else if index == 3 {
        (1, 1)
    } else {
        output_size
    }
}

/// The first extent mismatch among the first `n` resources, if any.
pub open spec fn extent_error(
    resources: Seq<(ResourceRole, (u32, u32))>,
    render_size: (u32, u32),
    output_size: (u32, u32),
    n: nat,
) -> Option<Error>
    decreases n,
{
    if n == 0 {
        None
    } else {
        match extent_error(resources, render_size, output_size, (n - 1) as nat) {
            Some(e) => Some(e),
            None => {
                let i = n - 1;
                if resources[i].1 != expected_extent(i, render_size, output_size) {
                    Some(resource_error(resources[i].0, ResourceProperty::Extent))
                } else {
                    None
                }
            },
        }
    }
}

/// Once a mismatch is found among the first `n` resources, it stays the
/// reported one for every longer prefix.
proof fn lemma_extent_error_stable(
    resources: Seq<(ResourceRole, (u32, u32))>,
    render_size: (u32, u32),
    output_size: (u32, u32),
    n: nat,
    m: nat,
)
    requires
        n <= m,
        extent_error(resources, render_size, output_size, n) is Some,
    ensures
        extent_error(resources, render_size, output_size, m) == extent_error(
            resources,
            render_size,
            output_size,
            n,
        ),
    decreases m,
{
    if m > n {
        lemma_extent_error_stable(resources, render_size, output_size, n, (m - 1) as nat);
    }
}

/// No resource among the first `n` mismatches when none is reported.
pub proof fn lemma_extent_error_none(
    resources: Seq<(ResourceRole, (u32, u32))>,
    render_size: (u32, u32),
    output_size: (u32, u32),
    n: nat,
)
    requires
        extent_error(resources, render_size, output_size, n) is None,
    ensures
        forall|i: int|
            0 <= i < n ==> #[trigger] resources[i].1 == expected_extent(i, render_size, output_size),
    decreases n,
{
    if n > 0 {
        lemma_extent_error_none(resources, render_size, output_size, (n - 1) as nat);
    }
}

/// Checks the exact extent of each resource, in order.
pub fn check_extents(
    resources: [(ResourceRole, (u32, u32)); 5],
    render_size: (u32, u32),
    output_size: (u32, u32),
) -> (r: Result<(), Error>)
    ensures
        r == (match extent_error(resources@, render_size, output_size, 5) {
            Some(e) => Err(e),
            None => Ok(()),
        }),
{
    let mut i: usize = 0;
    while i < 5
        invariant
            i <= 5,
            extent_error(resources@, render_size, output_size, i as nat) is None,
        decreases 5 - i,
    {
        let (role, actual) = resources[i];
        let expected = if i < 3 {
            render_size
        } else if i == 3 {
            (1u32, 1u32)
        } else {
            output_size
        };
        if actual.0 != expected.0 || actual.1 != expected.1 {
            proof {
                assert(extent_error(resources@, render_size, output_size, (i + 1) as nat) == Some(
                    resource_error(role, ResourceProperty::Extent),
                ));
                lemma_extent_error_stable(
                    resources@,
                    render_size,
                    output_size,
                    (i + 1) as nat,
                    5,
                );
            }
            return Err(invalid_resource(role, ResourceProperty::Extent));
        }
        i = i + 1;
    }
    Ok(())
}

/// The FidelityFX surface format of a supported DXGI format.
pub open spec fn spec_format(format: i32) -> Option<u32> {
    if format == DXGI_FORMAT_R16G16B16A16_FLOAT {
        Some(FFX_API_SURFACE_FORMAT_R16G16B16A16_FLOAT)
    } else if format == DXGI_FORMAT_R16G16_FLOAT {
        Some(FFX_API_SURFACE_FORMAT_R16G16_FLOAT)
    } else if format == DXGI_FORMAT_R32_FLOAT {
        Some(FFX_API_SURFACE_FORMAT_R32_FLOAT)
    } else {
        None
    }
}

/// Maps a supported DXGI format to its FidelityFX surface format.
pub fn format(dxgi_format: i32) -> (r: Option<u32>)
    ensures
        r == spec_format(dxgi_format),
{
    if dxgi_format == DXGI_FORMAT_R16G16B16A16_FLOAT {
        Some(FFX_API_SURFACE_FORMAT_R16G16B16A16_FLOAT)
    } else if dxgi_format == DXGI_FORMAT_R16G16_FLOAT {
        Some(FFX_API_SURFACE_FORMAT_R16G16_FLOAT)
    } else if dxgi_format == DXGI_FORMAT_R32_FLOAT {
        Some(FFX_API_SURFACE_FORMAT_R32_FLOAT)
    } else {
        None
    }
}

/// Whether a description allows unordered access.
pub open spec fn allows_uav(desc: ResourceDesc) -> bool {
    (desc.flags & D3D12_RESOURCE_FLAG_ALLOW_UNORDERED_ACCESS) != 0
}

/// Whether a description denies shader reads.
pub open spec fn denies_shader_reads(desc: ResourceDesc) -> bool {
    (desc.flags & D3D12_RESOURCE_FLAG_DENY_SHADER_RESOURCE) != 0
}

/// Whether a description is a single-sample, single-mip, single-slice Texture2D.
pub open spec fn is_plain_texture2d(desc: ResourceDesc) -> bool {
    &&& desc.dimension == D3D12_RESOURCE_DIMENSION_TEXTURE2D
    &&& desc.depth_or_array_size == 1
    &&& desc.mip_levels == 1
    &&& desc.sample_count == 1
}

/// Validation of one resource description against its role: shape first,
/// then format, extent, shader readability (inputs) or unordered access
/// (output). An accepted resource is declared compute-read (inputs) or
/// unordered-access (output), read-only plus UAV usage when the texture allows it.
pub open spec fn spec_convert_desc(
    pointer: usize,
    desc: ResourceDesc,
    role: ResourceRole,
    expected_format: i32,
    output: bool,
) -> Result<Converted, Error> {
    if !is_plain_texture2d(desc) {
        Err(resource_error(role, ResourceProperty::TextureShape))
    } else if desc.format != expected_format {
        Err(resource_error(role, ResourceProperty::Format))
    } else if desc.width > u32::MAX || desc.width == 0 || desc.height == 0 {
        Err(resource_error(role, ResourceProperty::Extent))
    } else if !output && denies_shader_reads(desc) {
        Err(resource_error(role, ResourceProperty::ShaderReadable))
    } else if output && !allows_uav(desc) {
        Err(resource_error(role, ResourceProperty::UnorderedAccess))
    } else {
        match spec_format(desc.format) {
            None => Err(resource_error(role, ResourceProperty::Format)),
            Some(native_format) => Ok(
                Converted {
                    native: FfxApiResource {
                        resource: pointer,
                        description: FfxApiResourceDescription {
                            resource_type: FFX_API_RESOURCE_TYPE_TEXTURE2D,
                            format: native_format,
                            width: desc.width as u32,
                            height: desc.height,
                            depth: desc.depth_or_array_size as u32,
                            mipCount: desc.mip_levels as u32,
                            flags: FFX_API_RESOURCE_FLAGS_NONE,
                            usage: FFX_API_RESOURCE_USAGE_READ_ONLY | (if allows_uav(desc) {
                                FFX_API_RESOURCE_USAGE_UAV
                            } else {
                                0
                            }),
                        },
                        state: if output {
                            FFX_API_RESOURCE_STATE_UNORDERED_ACCESS
                        } else {
                            FFX_API_RESOURCE_STATE_COMPUTE_READ
                        },
                    },
                    size: (desc.width as u32, desc.height),
                },
            ),
        }
    }
}

/// Validates one resource description and converts it to its native form.
pub fn convert_desc(
    pointer: usize,
    desc: ResourceDesc,
    role: ResourceRole,
    expected_format: i32,
    output: bool,
) -> (r: Result<Converted, Error>)
    ensures
        r == spec_convert_desc(pointer, desc, role, expected_format, output),
{
    if desc.dimension != D3D12_RESOURCE_DIMENSION_TEXTURE2D || desc.depth_or_array_size != 1
        || desc.mip_levels != 1 || desc.sample_count != 1 {
        return Err(invalid_resource(role, ResourceProperty::TextureShape));
    }
    if desc.format != expected_format {
        return Err(invalid_resource(role, ResourceProperty::Format));
    }
    if desc.width > u32::MAX as u64 {
        return Err(invalid_resource(role, ResourceProperty::Extent));
    }
    let width = desc.width as u32;
    if width == 0 || desc.height == 0 {
        return Err(invalid_resource(role, ResourceProperty::Extent));
    }
    if !output && (desc.flags & D3D12_RESOURCE_FLAG_DENY_SHADER_RESOURCE) != 0 {
        return Err(invalid_resource(role, ResourceProperty::ShaderReadable));
    }
    let has_uav = (desc.flags & D3D12_RESOURCE_FLAG_ALLOW_UNORDERED_ACCESS) != 0;
    if output && !has_uav {
        return Err(invalid_resource(role, ResourceProperty::UnorderedAccess));
    }
    let native_format = match format(desc.format) {
        Some(f) => f,
        None => {
            return Err(invalid_resource(role, ResourceProperty::Format));
        },
    };
    let native = FfxApiResource {
        resource: pointer,
        description: FfxApiResourceDescription {
            resource_type: FFX_API_RESOURCE_TYPE_TEXTURE2D,
            format: native_format,
            width,
            height: desc.height,
            depth: desc.depth_or_array_size as u32,
            mipCount: desc.mip_levels as u32,
            flags: FFX_API_RESOURCE_FLAGS_NONE,
            usage: FFX_API_RESOURCE_USAGE_READ_ONLY | if has_uav {
                FFX_API_RESOURCE_USAGE_UAV
            } else {
                0
            },
        },
        state: if output {
            FFX_API_RESOURCE_STATE_UNORDERED_ACCESS
        } else {
            FFX_API_RESOURCE_STATE_COMPUTE_READ
        },
    };
    Ok(Converted { native, size: (width, desc.height) })
}

/// A resource is accepted exactly when it is a single-sample, single-mip,
/// single-slice Texture2D of the expected format, which is one of the three
/// supported formats, with a width that is positive and fits in 32 bits and a
/// positive height; an input must not deny shader reads and the output must
/// allow unordered access. No other flag bit matters.
pub proof fn lemma_convert_desc_accepts_exactly(
    pointer: usize,
    desc: ResourceDesc,
    role: ResourceRole,
    expected_format: i32,
    output: bool,
)
    ensures
        spec_convert_desc(pointer, desc, role, expected_format, output) is Ok <==> {
            &&& desc.dimension == D3D12_RESOURCE_DIMENSION_TEXTURE2D
            &&& desc.depth_or_array_size == 1
            &&& desc.mip_levels == 1
            &&& desc.sample_count == 1
            &&& desc.format == expected_format
            &&& (expected_format == DXGI_FORMAT_R16G16B16A16_FLOAT || expected_format
                == DXGI_FORMAT_R16G16_FLOAT || expected_format == DXGI_FORMAT_R32_FLOAT)
            &&& 0 < desc.width <= u32::MAX
            &&& desc.height > 0
            &&& (!output ==> desc.flags & D3D12_RESOURCE_FLAG_DENY_SHADER_RESOURCE == 0)
            &&& (output ==> desc.flags & D3D12_RESOURCE_FLAG_ALLOW_UNORDERED_ACCESS != 0)
        },
{
}

/// A rejected resource is reported under its own role, with the first
/// failing property in the documented order: texture shape, format, extent,
/// then shader readability (inputs) or unordered access (output).
pub proof fn lemma_convert_desc_rejection_order(
    pointer: usize,
    desc: ResourceDesc,
    role: ResourceRole,
    expected_format: i32,
    output: bool,
)
    ensures
        ({
            let r = spec_convert_desc(pointer, desc, role, expected_format, output);
            let shape_ok = desc.dimension == D3D12_RESOURCE_DIMENSION_TEXTURE2D
                && desc.depth_or_array_size == 1 && desc.mip_levels == 1 && desc.sample_count == 1;
            let extent_ok = 0 < desc.width <= u32::MAX && desc.height > 0;
            &&& r matches Err(e) ==> exists|property: ResourceProperty|
                e == (Error::InvalidDispatch {
                    reason: DispatchValidation::Resource { role, property },
                })
            &&& !shape_ok ==> r == Err::<Converted, Error>(
                Error::InvalidDispatch {
                    reason: DispatchValidation::Resource { role, property: ResourceProperty::TextureShape },
                },
            )
            &&& shape_ok && desc.format != expected_format ==> r == Err::<Converted, Error>(
                Error::InvalidDispatch {
                    reason: DispatchValidation::Resource { role, property: ResourceProperty::Format },
                },
            )
            &&& shape_ok && desc.format == expected_format && !extent_ok ==> r == Err::<
                Converted,
                Error,
            >(
                Error::InvalidDispatch {
                    reason: DispatchValidation::Resource { role, property: ResourceProperty::Extent },
                },
            )
            &&& shape_ok && desc.format == expected_format && extent_ok && !output && desc.flags
                & D3D12_RESOURCE_FLAG_DENY_SHADER_RESOURCE != 0 ==> r == Err::<Converted, Error>(
                Error::InvalidDispatch {
                    reason: DispatchValidation::Resource {
                        role,
                        property: ResourceProperty::ShaderReadable,
                    },
                },
            )
            &&& shape_ok && desc.format == expected_format && extent_ok && output && desc.flags
                & D3D12_RESOURCE_FLAG_ALLOW_UNORDERED_ACCESS == 0 ==> r == Err::<Converted, Error>(
                Error::InvalidDispatch {
                    reason: DispatchValidation::Resource {
                        role,
                        property: ResourceProperty::UnorderedAccess,
                    },
                },
            )
        }),
{
}

/// An accepted resource is handed to FidelityFX as itself: its own address,
/// as a Texture2D of the FidelityFX counterpart of its format, with its own
/// width and height (which are also the size reported), one slice, one mip
/// and no flags; its usage is read-only plus UAV exactly when the texture
/// allows unordered access, and its state is unordered access for the output
/// and compute read for an input.
pub proof fn lemma_convert_desc_declares_resource(
    pointer: usize,
    desc: ResourceDesc,
    role: ResourceRole,
    expected_format: i32,
    output: bool,
)
    ensures
        spec_convert_desc(pointer, desc, role, expected_format, output) matches Ok(c) ==> {
            &&& c.native.resource == pointer
            &&& c.native.description.resource_type == FFX_API_RESOURCE_TYPE_TEXTURE2D
            &&& c.native.description.format == (if desc.format == DXGI_FORMAT_R16G16B16A16_FLOAT {
                FFX_API_SURFACE_FORMAT_R16G16B16A16_FLOAT
            } else if desc.format == DXGI_FORMAT_R16G16_FLOAT {
                FFX_API_SURFACE_FORMAT_R16G16_FLOAT
            } else {
                FFX_API_SURFACE_FORMAT_R32_FLOAT
            })
            &&& c.native.description.width == desc.width
            &&& c.native.description.height == desc.height
            &&& c.size.0 == desc.width
            &&& c.size.1 == desc.height
            &&& c.native.description.depth == 1
            &&& c.native.description.mipCount == 1
            &&& c.native.description.flags == FFX_API_RESOURCE_FLAGS_NONE
            &&& c.native.description.usage == (if desc.flags
                & D3D12_RESOURCE_FLAG_ALLOW_UNORDERED_ACCESS != 0 {
                FFX_API_RESOURCE_USAGE_UAV
            } else {
                FFX_API_RESOURCE_USAGE_READ_ONLY
            })
            &&& c.native.state == (if output {
                FFX_API_RESOURCE_STATE_UNORDERED_ACCESS
            } else {
                FFX_API_RESOURCE_STATE_COMPUTE_READ
            })
        },
{
    assert(0u32 | 2u32 == 2u32) by (bit_vector);
    assert(0u32 | 0u32 == 0u32) by (bit_vector);
}

/// The empty resource slot: no address, all-zero description and state.
pub open spec fn spec_null_resource() -> FfxApiResource {
    FfxApiResource {
        resource: 0,
        description: FfxApiResourceDescription {
            resource_type: 0,
            format: 0,
            width: 0,
            height: 0,
            depth: 0,
            mipCount: 0,
            flags: 0,
            usage: 0,
        },
        state: 0,
    }
}

/// An unused resource slot of the dispatch descriptor.
pub fn null_resource() -> (r: FfxApiResource)
    ensures
        r == spec_null_resource(),
{
    FfxApiResource {
        resource: 0,
        description: FfxApiResourceDescription {
            resource_type: 0,
            format: 0,
            width: 0,
            height: 0,
            depth: 0,
            mipCount: 0,
            flags: 0,
            usage: 0,
        },
        state: 0,
    }
}

/// The dispatch descriptor for converted color, depth, motion-vector, exposure
/// and output resources (in that order): unchained, no reactive or
/// transparency masks, render size from color, upscale size from output, no
/// sharpening and no flags.
pub open spec fn spec_build_descriptor(
    command_list: usize,
    resources: Seq<Converted>,
    reset: bool,
) -> DispatchDescription {
    DispatchDescription {
        header: ffxApiHeader { struct_type: FFX_API_DISPATCH_DESC_TYPE_UPSCALE, pNext: None },
        commandList: command_list,
        color: resources[0].native,
        depth: resources[1].native,
        motionVectors: resources[2].native,
        exposure: resources[3].native,
        reactive: spec_null_resource(),
        transparencyAndComposition: spec_null_resource(),
        output: resources[4].native,
        renderSize: FfxApiDimensions2D {
            width: resources[0].size.0,
            height: resources[0].size.1,
        },
        upscaleSize: FfxApiDimensions2D {
            width: resources[4].size.0,
            height: resources[4].size.1,
        },
        enableSharpening: false,
        reset,
        flags: 0,
    }
}

/// Builds the dispatch descriptor from converted resources.
pub fn build_descriptor(command_list: usize, resources: [Converted; 5], reset: bool) -> (r:
    DispatchDescription)
    ensures
        r == spec_build_descriptor(command_list, resources@, reset),
{
    let color = resources[0];
    let output = resources[4];
    DispatchDescription {
        header: ffxApiHeader { struct_type: FFX_API_DISPATCH_DESC_TYPE_UPSCALE, pNext: None },
        commandList: command_list,
        color: color.native,
        depth: resources[1].native,
        motionVectors: resources[2].native,
        exposure: resources[3].native,
        reactive: null_resource(),
        transparencyAndComposition: null_resource(),
        output: output.native,
        renderSize: FfxApiDimensions2D { width: color.size.0, height: color.size.1 },
        upscaleSize: FfxApiDimensions2D { width: output.size.0, height: output.size.1 },
        enableSharpening: false,
        reset,
        flags: 0,
    }
}

/// The descriptor carries exactly what it was built from: the unchained
/// upscale type, the command list, the five resources in their slots, empty
/// reactive and transparency slots, the color size as render size and the
/// output size as upscale size, no sharpening, no flags, and the caller's
/// reset flag, whichever it is.
pub proof fn lemma_build_descriptor_carries_inputs(
    command_list: usize,
    resources: Seq<Converted>,
    reset: bool,
)
    requires
        resources.len() == 5,
    ensures
        ({
            let d = spec_build_descriptor(command_list, resources, reset);
            let empty = FfxApiResource {
                resource: 0,
                description: FfxApiResourceDescription {
                    resource_type: 0,
                    format: 0,
                    width: 0,
                    height: 0,
                    depth: 0,
                    mipCount: 0,
                    flags: 0,
                    usage: 0,
                },
                state: 0,
            };
            &&& d.header.struct_type == FFX_API_DISPATCH_DESC_TYPE_UPSCALE
            &&& d.header.pNext is None
            &&& d.commandList == command_list
            &&& d.color == resources[0].native
            &&& d.depth == resources[1].native
            &&& d.motionVectors == resources[2].native
            &&& d.exposure == resources[3].native
            &&& d.output == resources[4].native
            &&& d.reactive == empty
            &&& d.transparencyAndComposition == empty
            &&& d.renderSize.width == resources[0].size.0
            &&& d.renderSize.height == resources[0].size.1
            &&& d.upscaleSize.width == resources[4].size.0
            &&& d.upscaleSize.height == resources[4].size.1
            &&& !d.enableSharpening
            &&& d.reset == reset
            &&& d.flags == 0
        }),
{
}

} // verus!
