//! The decision of one dispatch inspection, from the values read off the COM
//! objects of the dispatch.
use crate::abi::{
    FfxApiDimensions2D, FfxApiResource, FFX_API_RESOURCE_STATE_COMPUTE_READ,
    FFX_API_RESOURCE_STATE_UNORDERED_ACCESS,
};
use crate::dispatch::{
    allows_uav, build_descriptor, check_extents, check_identity, convert_desc,
    denies_shader_reads, expected_extent, extent_error, inspection, inspection_error,
    invalid_resource, is_plain_texture2d, lemma_convert_desc_declares_resource,
    lemma_extent_error_none, resource_error, spec_build_descriptor, spec_convert_desc, Converted,
    DispatchDescription, ResourceDesc, D3D12_COMMAND_LIST_TYPE_DIRECT,
    D3D12_RESOURCE_DIMENSION_TEXTURE2D, D3D12_RESOURCE_FLAG_ALLOW_UNORDERED_ACCESS,
    D3D12_RESOURCE_FLAG_DENY_SHADER_RESOURCE, DXGI_FORMAT_R16G16B16A16_FLOAT,
    DXGI_FORMAT_R16G16_FLOAT, DXGI_FORMAT_R32_FLOAT,
};
use crate::error::{
    DispatchValidation, Error, InspectionObject, InspectionOperation, ResourceProperty,
    ResourceRole,
};
use crate::upscaler::UpscalerOptions;
use vstd::prelude::*;

verus! {

/// What asking a COM object for its device, and that device for its
/// canonical `IUnknown` identity, gave.
#[derive(Debug, Clone, Copy, PartialEq, Eq, Structural)]
pub enum DeviceQuery {
    /// `GetDevice` failed with this HRESULT.
    GetDeviceFailed(i32),
    /// `GetDevice` succeeded without returning a device.
    NoDevice,
    /// The identity query on the returned device failed with this HRESULT.
    IdentityFailed(i32),
    /// The canonical identity of the returned device.
    Identity(usize),
}

/// What was read off one dispatch resource.
#[derive(Debug, Clone, Copy, PartialEq, Eq)]
pub struct ResourceObservation {
    /// Address of the `ID3D12Resource` handed to the runtime.
    pub pointer: usize,
    /// Canonical `IUnknown` identity, or the HRESULT of the failed query.
    pub identity: Result<usize, i32>,
    /// The resource description.
    pub desc: ResourceDesc,
    /// The resource's device.
    pub device: DeviceQuery,
}

/// What was read off the COM objects of one dispatch. Resources are in the
/// order color, depth, motion vectors, exposure, output.
#[derive(Debug, Clone, Copy, PartialEq, Eq)]
pub struct DispatchObservation {
    /// Address of the recording command list.
    pub command_list: usize,
    /// The command list's `D3D12_COMMAND_LIST_TYPE`.
    pub list_type: i32,
    pub resources: [ResourceObservation; 5],
    /// Canonical identity of the context's device, or the HRESULT of the failed query.
    pub context_device: Result<usize, i32>,
    /// The command list's device.
    pub list_device: DeviceQuery,
}

/// The role of the resource at `index`.
pub open spec fn role_at(index: int) -> ResourceRole {
    if index == 0 {
        ResourceRole::Color
    } else if index == 1 {
        ResourceRole::Depth
    } else if index == 2 {
        ResourceRole::MotionVectors
    } else if index == 3 {
        ResourceRole::Exposure
    } else {
        ResourceRole::Output
    }
}

/// The required DXGI format of the resource at `index`: RGBA16F color and
/// output, R32F depth and exposure, RG16F motion vectors.
pub open spec fn format_at(index: int) -> i32 {
    if index == 0 || index == 4 {
        DXGI_FORMAT_R16G16B16A16_FLOAT
    } else if index == 2 {
        DXGI_FORMAT_R16G16_FLOAT
    } else {
        DXGI_FORMAT_R32_FLOAT
    }
}

/// The first error among the first `n` checks, in order.
pub open spec fn first_error(checks: Seq<Option<Error>>, n: nat) -> Option<Error>
    decreases n,
{
    if n == 0 {
        None
    } else {
        match first_error(checks, (n - 1) as nat) {
            Some(e) => Some(e),
            None => checks[n - 1],
        }
    }
}

/// Once an error is found among the first `n` checks, later checks do not change it.
pub proof fn lemma_first_error_stable(checks: Seq<Option<Error>>, n: nat, m: nat)
    requires
        n <= m,
        first_error(checks, n) is Some,
    ensures
        first_error(checks, m) == first_error(checks, n),
    decreases m,
{
    if m > n {
        lemma_first_error_stable(checks, n, (m - 1) as nat);
    }
}

/// No check among the first `n` fails when none is reported.
pub proof fn lemma_first_error_none(checks: Seq<Option<Error>>, n: nat)
    requires
        first_error(checks, n) is None,
    ensures
        forall|i: int| 0 <= i < n ==> #[trigger] checks[i] is None,
    decreases n,
{
    if n > 0 {
        lemma_first_error_none(checks, (n - 1) as nat);
    }
}

/// The identity check of the resource at `index`: its identity query must
/// succeed and name an object not seen among the earlier resources.
pub open spec fn identity_check(resources: Seq<ResourceObservation>, index: int) -> Option<Error> {
    match resources[index].identity {
        Err(hresult) => Some(
            inspection_error(
                InspectionObject::Resource(role_at(index)),
                InspectionOperation::QueryIdentity,
                hresult,
            ),
        ),
        Ok(identity) => if exists|j: int|
            0 <= j < index && #[trigger] resources[j].identity == Ok::<usize, i32>(identity) {
            Some(resource_error(role_at(index), ResourceProperty::DistinctIdentity))
        } else {
            None
        },
    }
}

pub open spec fn identity_checks(resources: Seq<ResourceObservation>) -> Seq<Option<Error>> {
    Seq::new(5, |i: int| identity_check(resources, i))
}

/// The conversion of the resource at `index` against its role.
pub open spec fn convert_at(resources: Seq<ResourceObservation>, index: int) -> Result<
    Converted,
    Error,
> {
    spec_convert_desc(
        resources[index].pointer,
        resources[index].desc,
        role_at(index),
        format_at(index),
        index == 4,
    )
}

pub open spec fn conversion_checks(resources: Seq<ResourceObservation>) -> Seq<Option<Error>> {
    Seq::new(
        5,
        |i: int|
            match convert_at(resources, i) {
                Ok(_) => None,
                Err(e) => Some(e),
            },
    )
}

/// The converted resources (meaningful once every conversion succeeded).
pub open spec fn converted(resources: Seq<ResourceObservation>) -> Seq<Converted> {
    Seq::new(
        5,
        |i: int|
            match convert_at(resources, i) {
                Ok(c) => c,
                Err(_) => arbitrary(),
            },
    )
}

/// The roles and extents checked against the context sizes.
pub open spec fn extent_inputs(resources: Seq<ResourceObservation>) -> Seq<
    (ResourceRole, (u32, u32)),
> {
    Seq::new(5, |i: int| (role_at(i), converted(resources)[i].size))
}

/// The device check of the command list against the context device.
pub open spec fn list_device_error(query: DeviceQuery, context: usize) -> Option<Error> {
    match query {
        DeviceQuery::GetDeviceFailed(hresult) => Some(
            inspection_error(InspectionObject::CommandList, InspectionOperation::GetDevice, hresult),
        ),
        DeviceQuery::NoDevice => Some(
            Error::InvalidDispatch { reason: DispatchValidation::CommandListDevice },
        ),
        DeviceQuery::IdentityFailed(hresult) => Some(
            inspection_error(
                InspectionObject::CommandList,
                InspectionOperation::QueryIdentity,
                hresult,
            ),
        ),
        DeviceQuery::Identity(identity) => if identity != context {
            Some(Error::InvalidDispatch { reason: DispatchValidation::CommandListDevice })
        } else {
            None
        },
    }
}

/// The device check of one resource against the context device.
pub open spec fn resource_device_error(query: DeviceQuery, role: ResourceRole, context: usize) -> Option<
    Error,
> {
    match query {
        DeviceQuery::GetDeviceFailed(hresult) => Some(
            inspection_error(InspectionObject::Resource(role), InspectionOperation::GetDevice, hresult),
        ),
        DeviceQuery::NoDevice => Some(resource_error(role, ResourceProperty::Device)),
        DeviceQuery::IdentityFailed(hresult) => Some(
            inspection_error(
                InspectionObject::Resource(role),
                InspectionOperation::QueryIdentity,
                hresult,
            ),
        ),
        DeviceQuery::Identity(identity) => if identity != context {
            Some(resource_error(role, ResourceProperty::Device))
        } else {
            None
        },
    }
}

pub open spec fn device_checks(resources: Seq<ResourceObservation>, context: usize) -> Seq<
    Option<Error>,
> {
    Seq::new(5, |i: int| resource_device_error(resources[i].device, role_at(i), context))
}

/// The render size of the context, as (width, height).
pub open spec fn render_size(options: UpscalerOptions) -> (u32, u32) {
    (options.max_render_size.spec_width(), options.max_render_size.spec_height())
}

/// The output size of the context, as (width, height).
pub open spec fn output_size(options: UpscalerOptions) -> (u32, u32) {
    (options.max_upscale_size.spec_width(), options.max_upscale_size.spec_height())
}

/// The outcome of inspecting one dispatch for a context with `options`: the
/// first failing check, in documented order, or the dispatch descriptor.
pub open spec fn spec_inspect_dispatch(
    options: UpscalerOptions,
    observed: DispatchObservation,
    reset: bool,
) -> Result<DispatchDescription, Error> {
    let resources = observed.resources@;
    if observed.list_type != D3D12_COMMAND_LIST_TYPE_DIRECT {
        Err(Error::InvalidDispatch { reason: DispatchValidation::CommandListType })
    } else {
        match first_error(identity_checks(resources), 5) {
            Some(e) => Err(e),
            None => match first_error(conversion_checks(resources), 5) {
                Some(e) => Err(e),
                None => match extent_error(
                    extent_inputs(resources),
                    render_size(options),
                    output_size(options),
                    5,
                ) {
                    Some(e) => Err(e),
                    None => match observed.context_device {
                        Err(hresult) => Err(
                            inspection_error(
                                InspectionObject::ContextDevice,
                                InspectionOperation::QueryIdentity,
                                hresult,
                            ),
                        ),
                        Ok(context) => match list_device_error(observed.list_device, context) {
                            Some(e) => Err(e),
                            None => match first_error(device_checks(resources, context), 5) {
                                Some(e) => Err(e),
                                None => Ok(
                                    spec_build_descriptor(
                                        observed.command_list,
                                        converted(resources),
                                        reset,
                                    ),
                                ),
                            },
                        },
                    },
                },
            },
        }
    }
}

/// An accepted dispatch meets the documented input contract: a DIRECT
/// command list and five distinct resources, all on the context's device;
/// each a single-sample, single-mip, single-slice Texture2D of its role's
/// format, the inputs shader-readable and the output UAV-capable; color, depth
/// and motion vectors at the maximum render size, exposure 1x1 and the output
/// at the maximum upscale size, which are the sizes the descriptor declares.
pub proof fn lemma_accepted_dispatch_meets_contract(
    options: UpscalerOptions,
    observed: DispatchObservation,
    reset: bool,
)
    requires
        spec_inspect_dispatch(options, observed, reset) is Ok,
    ensures
        observed.list_type == D3D12_COMMAND_LIST_TYPE_DIRECT,
        forall|i: int| 0 <= i < 5 ==> (#[trigger] observed.resources@[i]).identity is Ok,
        forall|i: int, j: int|
            0 <= i < j < 5 ==> (#[trigger] observed.resources@[i]).identity
                != (#[trigger] observed.resources@[j]).identity,
        observed.context_device matches Ok(context) && observed.list_device
            == DeviceQuery::Identity(context) && forall|i: int|
            0 <= i < 5 ==> (#[trigger] observed.resources@[i]).device == DeviceQuery::Identity(
                context,
            ),
        forall|i: int|
            0 <= i < 5 ==> {
                let desc = (#[trigger] observed.resources@[i]).desc;
                &&& desc.dimension == D3D12_RESOURCE_DIMENSION_TEXTURE2D
                &&& desc.depth_or_array_size == 1
                &&& desc.mip_levels == 1
                &&& desc.sample_count == 1
                &&& (i == 0 || i == 4 ==> desc.format == DXGI_FORMAT_R16G16B16A16_FLOAT)
                &&& (i == 1 || i == 3 ==> desc.format == DXGI_FORMAT_R32_FLOAT)
                &&& (i == 2 ==> desc.format == DXGI_FORMAT_R16G16_FLOAT)
                &&& (i < 3 ==> desc.width == options.max_render_size.spec_width()
                    && desc.height == options.max_render_size.spec_height())
                &&& (i == 3 ==> desc.width == 1 && desc.height == 1)
                &&& (i == 4 ==> desc.width == options.max_upscale_size.spec_width()
                    && desc.height == options.max_upscale_size.spec_height())
                &&& (i < 4 ==> desc.flags & D3D12_RESOURCE_FLAG_DENY_SHADER_RESOURCE == 0)
                &&& (i == 4 ==> desc.flags & D3D12_RESOURCE_FLAG_ALLOW_UNORDERED_ACCESS != 0)
            },
        match spec_inspect_dispatch(options, observed, reset) {
            Ok(d) => d.renderSize == (FfxApiDimensions2D {
                width: options.max_render_size.spec_width(),
                height: options.max_render_size.spec_height(),
            }) && d.upscaleSize == (FfxApiDimensions2D {
                width: options.max_upscale_size.spec_width(),
                height: options.max_upscale_size.spec_height(),
            }),
            Err(_) => false,
        },
{
    let resources = observed.resources@;
    let identities = identity_checks(resources);
    let conversions = conversion_checks(resources);
    lemma_first_error_none(identities, 5);
    lemma_first_error_none(conversions, 5);
    lemma_extent_error_none(extent_inputs(resources), render_size(options), output_size(options), 5);
    let context = observed.context_device->Ok_0;
    lemma_first_error_none(device_checks(resources, context), 5);
    assert forall|i: int| 0 <= i < 5 implies (#[trigger] resources[i]).identity is Ok by {
        assert(identities[i] is None);
    }
    assert forall|i: int, j: int| 0 <= i < j < 5 implies (#[trigger] resources[i]).identity
        != (#[trigger] resources[j]).identity by {
        assert(identities[j] is None);
        assert(resources[i].identity is Ok);
    }
    assert forall|i: int| 0 <= i < 5 implies (#[trigger] resources[i]).device
        == DeviceQuery::Identity(context) by {
        assert(device_checks(resources, context)[i] is None);
    }
    assert forall|i: int| 0 <= i < 5 implies {
        let desc = (#[trigger] resources[i]).desc;
        let extent = expected_extent(i, render_size(options), output_size(options));
        &&& is_plain_texture2d(desc)
        &&& desc.format == format_at(i)
        &&& desc.width == extent.0
        &&& desc.height == extent.1
        &&& (i < 4 ==> !denies_shader_reads(desc))
        &&& (i == 4 ==> allows_uav(desc))
    } by {
        lemma_convert_desc_declares_resource(
            resources[i].pointer,
            resources[i].desc,
            role_at(i),
            format_at(i),
            i == 4,
        );
        assert(conversions[i] is None);
        assert(convert_at(resources, i) is Ok);
        assert(extent_inputs(resources)[i].1 == expected_extent(
            i,
            render_size(options),
            output_size(options),
        ));
    }
    assert(converted(resources)[0].size == expected_extent(
        0,
        render_size(options),
        output_size(options),
    )) by {
        assert(extent_inputs(resources)[0].1 == converted(resources)[0].size);
    }
    assert(converted(resources)[4].size == expected_extent(
        4,
        render_size(options),
        output_size(options),
    )) by {
        assert(extent_inputs(resources)[4].1 == converted(resources)[4].size);
    }
}

/// The command-list type is checked first: a list that is not DIRECT is
/// refused as such, whatever else is wrong with the dispatch.
pub proof fn lemma_list_type_checked_first(
    options: UpscalerOptions,
    observed: DispatchObservation,
    reset: bool,
)
    ensures
        observed.list_type != D3D12_COMMAND_LIST_TYPE_DIRECT ==> spec_inspect_dispatch(
            options,
            observed,
            reset,
        ) == Err::<DispatchDescription, Error>(
            Error::InvalidDispatch { reason: DispatchValidation::CommandListType },
        ),
{
}

/// A dispatch that meets the documented input contract is accepted: a
/// DIRECT command list and five distinct resources, all on the context's
/// device; each a single-sample, single-mip, single-slice Texture2D of its
/// role's format, the inputs shader-readable and the output UAV-capable;
/// color, depth and motion vectors at the maximum render size, exposure 1x1
/// and the output at the maximum upscale size. Other flag bits do not matter.
/// (The context's sizes are nonzero, as checked dimensions always are.)
pub proof fn lemma_valid_dispatch_is_accepted(
    options: UpscalerOptions,
    observed: DispatchObservation,
    reset: bool,
    context: usize,
)
    requires
        options.max_render_size.spec_width() != 0 && options.max_render_size.spec_height() != 0,
        options.max_upscale_size.spec_width() != 0 && options.max_upscale_size.spec_height() != 0,
        observed.list_type == D3D12_COMMAND_LIST_TYPE_DIRECT,
        forall|i: int| 0 <= i < 5 ==> (#[trigger] observed.resources@[i]).identity is Ok,
        forall|i: int, j: int|
            0 <= i < j < 5 ==> (#[trigger] observed.resources@[i]).identity
                != (#[trigger] observed.resources@[j]).identity,
        observed.context_device == Ok::<usize, i32>(context),
        observed.list_device == DeviceQuery::Identity(context),
        forall|i: int|
            0 <= i < 5 ==> (#[trigger] observed.resources@[i]).device == DeviceQuery::Identity(
                context,
            ),
        forall|i: int|
            0 <= i < 5 ==> {
                let desc = (#[trigger] observed.resources@[i]).desc;
                &&& desc.dimension == D3D12_RESOURCE_DIMENSION_TEXTURE2D
                &&& desc.depth_or_array_size == 1
                &&& desc.mip_levels == 1
                &&& desc.sample_count == 1
                &&& (i == 0 || i == 4 ==> desc.format == DXGI_FORMAT_R16G16B16A16_FLOAT)
                &&& (i == 1 || i == 3 ==> desc.format == DXGI_FORMAT_R32_FLOAT)
                &&& (i == 2 ==> desc.format == DXGI_FORMAT_R16G16_FLOAT)
                &&& (i < 3 ==> desc.width == options.max_render_size.spec_width()
                    && desc.height == options.max_render_size.spec_height())
                &&& (i == 3 ==> desc.width == 1 && desc.height == 1)
                &&& (i == 4 ==> desc.width == options.max_upscale_size.spec_width()
                    && desc.height == options.max_upscale_size.spec_height())
                &&& (i < 4 ==> desc.flags & D3D12_RESOURCE_FLAG_DENY_SHADER_RESOURCE == 0)
                &&& (i == 4 ==> desc.flags & D3D12_RESOURCE_FLAG_ALLOW_UNORDERED_ACCESS != 0)
            },
    ensures
        spec_inspect_dispatch(options, observed, reset) is Ok,
{
    let resources = observed.resources@;
    reveal_with_fuel(first_error, 6);
    reveal_with_fuel(extent_error, 6);
    let identities = identity_checks(resources);
    assert forall|i: int| 0 <= i < 5 implies #[trigger] identities[i] is None by {
        if exists|j: int| 0 <= j < i && #[trigger] resources[j].identity == resources[i].identity {
            let j = choose|j: int| 0 <= j < i && #[trigger] resources[j].identity == resources[i].identity;
            assert(resources[j].identity != resources[i].identity);
        }
    }
    let conversions = conversion_checks(resources);
    assert forall|i: int| 0 <= i < 5 implies #[trigger] conversions[i] is None by {
        assert(resources[i].desc == observed.resources@[i].desc);
    }
    assert forall|i: int| 0 <= i < 5 implies #[trigger] extent_inputs(resources)[i].1
        == expected_extent(i, render_size(options), output_size(options)) by {
        lemma_convert_desc_declares_resource(
            resources[i].pointer,
            resources[i].desc,
            role_at(i),
            format_at(i),
            i == 4,
        );
        assert(conversions[i] is None);
    }
    let devices = device_checks(resources, context);
    assert forall|i: int| 0 <= i < 5 implies #[trigger] devices[i] is None by {
        assert(resources[i].device == DeviceQuery::Identity(context));
    }
}

/// The resource in the descriptor slot of the resource at `index` (color,
/// depth, motion vectors, exposure, output).
pub open spec fn descriptor_slot(d: DispatchDescription, index: int) -> FfxApiResource {
    if index == 0 {
        d.color
    } else if index == 1 {
        d.depth
    } else if index == 2 {
        d.motionVectors
    } else if index == 3 {
        d.exposure
    } else {
        d.output
    }
}

/// An accepted dispatch is handed to FidelityFX as the caller gave it: the
/// descriptor names the recording command list, carries the reset flag the
/// caller asked for, and puts each observed resource, at its own address and
/// with its own width and height, in its slot, the inputs in compute-read
/// state and the output in unordered-access state.
pub proof fn lemma_accepted_dispatch_descriptor(
    options: UpscalerOptions,
    observed: DispatchObservation,
    reset: bool,
)
    ensures
        spec_inspect_dispatch(options, observed, reset) matches Ok(d) ==> {
            &&& d.reset == reset
            &&& d.commandList == observed.command_list
            &&& forall|i: int|
                0 <= i < 5 ==> {
                    let slot = #[trigger] descriptor_slot(d, i);
                    let seen = observed.resources@[i];
                    &&& slot.resource == seen.pointer
                    &&& slot.description.width == seen.desc.width
                    &&& slot.description.height == seen.desc.height
                    &&& slot.state == (if i == 4 {
                        FFX_API_RESOURCE_STATE_UNORDERED_ACCESS
                    } else {
                        FFX_API_RESOURCE_STATE_COMPUTE_READ
                    })
                }
        },
{
    if spec_inspect_dispatch(options, observed, reset) is Ok {
        let resources = observed.resources@;
        let conversions = conversion_checks(resources);
        lemma_first_error_none(conversions, 5);
        let d = spec_inspect_dispatch(options, observed, reset)->Ok_0;
        assert forall|i: int| 0 <= i < 5 implies {
            let slot = #[trigger] descriptor_slot(d, i);
            let seen = observed.resources@[i];
            &&& slot.resource == seen.pointer
            &&& slot.description.width == seen.desc.width
            &&& slot.description.height == seen.desc.height
            &&& slot.state == (if i == 4 {
                FFX_API_RESOURCE_STATE_UNORDERED_ACCESS
            } else {
                FFX_API_RESOURCE_STATE_COMPUTE_READ
            })
        } by {
            assert(conversions[i] is None);
            lemma_convert_desc_declares_resource(
                resources[i].pointer,
                resources[i].desc,
                role_at(i),
                format_at(i),
                i == 4,
            );
            assert(descriptor_slot(d, i) == converted(resources)[i].native);
        }
    }
}

/// The reset flag decides nothing: the same observation is accepted or
/// refused with the same error whatever reset is asked for, and the accepted
/// descriptors differ in their reset flag alone.
pub proof fn lemma_reset_only_sets_the_flag(
    options: UpscalerOptions,
    observed: DispatchObservation,
    first: bool,
    second: bool,
)
    ensures
        match (spec_inspect_dispatch(options, observed, first), spec_inspect_dispatch(options, observed, second)) {
            (Ok(a), Ok(b)) => b == (DispatchDescription { reset: second, ..a }),
            (Err(a), Err(b)) => a == b,
            _ => false,
        },
{
}

fn role_of(index: usize) -> (r: ResourceRole)
    requires
        index < 5,
    ensures
        r == role_at(index as int),
{
    if index == 0 {
        ResourceRole::Color
    } else if index == 1 {
        ResourceRole::Depth
    } else if index == 2 {
        ResourceRole::MotionVectors
    } else if index == 3 {
        ResourceRole::Exposure
    } else {
        ResourceRole::Output
    }
}

/// Decides one dispatch from what was read off its COM objects.
#[verifier::loop_isolation(false)]
pub fn inspect_dispatch(options: &UpscalerOptions, observed: &DispatchObservation, reset: bool) -> (r:
    Result<DispatchDescription, Error>)
    ensures
        r == spec_inspect_dispatch(*options, *observed, reset),
{
    let ghost resources = observed.resources@;
    proof {
        reveal_with_fuel(first_error, 6);
    }
    if observed.list_type != D3D12_COMMAND_LIST_TYPE_DIRECT {
        return Err(Error::InvalidDispatch { reason: DispatchValidation::CommandListType });
    }
    // Distinct canonical identities.

    let ghost checks = identity_checks(resources);
    let mut prior: Vec<usize> = Vec::new();
    let mut i: usize = 0;
    while i < 5
        invariant
            i <= 5,
            resources == observed.resources@,
            checks == identity_checks(resources),
            prior@.len() == i,
            forall|j: int| 0 <= j < i ==> resources[j].identity == Ok::<usize, i32>(prior@[j]),
            first_error(checks, i as nat) is None,
        decreases 5 - i,
    {
        let observation = observed.resources[i];
        assert(observation == resources[i as int]);
        let role = role_of(i);
        match observation.identity {
            Err(hresult) => {
                proof {
                    assert(checks[i as int] == identity_check(resources, i as int));
                    assert(first_error(checks, (i + 1) as nat) == checks[i as int]);
                    lemma_first_error_stable(checks, (i + 1) as nat, 5);
                }
                return Err(
                    inspection(
                        InspectionObject::Resource(role),
                        InspectionOperation::QueryIdentity,
                        hresult,
                    ),
                );
            },
            Ok(identity) => {
                let seen = check_identity(role, identity, prior.as_slice());
                proof {
                    if prior@.contains(identity) {
                        let k = choose|k: int| 0 <= k < prior@.len() && prior@[k] == identity;
                        assert(resources[k].identity == Ok::<usize, i32>(identity));
                    } else {
                        assert forall|j: int| 0 <= j < i implies !(#[trigger] resources[j].identity
                            == Ok::<usize, i32>(identity)) by {
                            assert(prior@[j] != identity);
                        }
                    }
                }
                match seen {
                    Err(e) => {
                        proof {
                            assert(first_error(checks, (i + 1) as nat) == checks[i as int]);
                            lemma_first_error_stable(checks, (i + 1) as nat, 5);
                        }
                        return Err(e);
                    },
                    Ok(()) => {
                        prior.push(identity);
                    },
                }
            },
        }
        i = i + 1;
    }
    // Resource descriptions, in role order.

    let ghost conversions = conversion_checks(resources);
    let r0 = observed.resources[0];
    let color = match convert_desc(
        r0.pointer,
        r0.desc,
        ResourceRole::Color,
        DXGI_FORMAT_R16G16B16A16_FLOAT,
        false,
    ) {
        Ok(c) => c,
        Err(e) => {
            proof {
                assert(first_error(conversions, 1) == conversions[0]);
                lemma_first_error_stable(conversions, 1, 5);
            }
            return Err(e);
        },
    };
    let r1 = observed.resources[1];
    let depth = match convert_desc(
        r1.pointer,
        r1.desc,
        ResourceRole::Depth,
        DXGI_FORMAT_R32_FLOAT,
        false,
    ) {
        Ok(c) => c,
        Err(e) => {
            proof {
                assert(first_error(conversions, 2) == conversions[1]);
                lemma_first_error_stable(conversions, 2, 5);
            }
            return Err(e);
        },
    };
    let r2 = observed.resources[2];
    let motion = match convert_desc(
        r2.pointer,
        r2.desc,
        ResourceRole::MotionVectors,
        DXGI_FORMAT_R16G16_FLOAT,
        false,
    ) {
        Ok(c) => c,
        Err(e) => {
            proof {
                assert(first_error(conversions, 3) == conversions[2]);
                lemma_first_error_stable(conversions, 3, 5);
            }
            return Err(e);
        },
    };
    let r3 = observed.resources[3];
    let exposure = match convert_desc(
        r3.pointer,
        r3.desc,
        ResourceRole::Exposure,
        DXGI_FORMAT_R32_FLOAT,
        false,
    ) {
        Ok(c) => c,
        Err(e) => {
            proof {
                assert(first_error(conversions, 4) == conversions[3]);
                lemma_first_error_stable(conversions, 4, 5);
            }
            return Err(e);
        },
    };
    let r4 = observed.resources[4];
    let output = match convert_desc(
        r4.pointer,
        r4.desc,
        ResourceRole::Output,
        DXGI_FORMAT_R16G16B16A16_FLOAT,
        true,
    ) {
        Ok(c) => c,
        Err(e) => {
            proof {
                assert(first_error(conversions, 5) == conversions[4]);
            }
            return Err(e);
        },
    };
    proof {
        assert(first_error(conversions, 5) is None);
    }
    let converted_resources = [color, depth, motion, exposure, output];
    assert(converted_resources@ =~= converted(resources));
    // Exact extents.

    let render = (options.max_render_size.width(), options.max_render_size.height());
    let upscale = (options.max_upscale_size.width(), options.max_upscale_size.height());
    let extents = [
        (ResourceRole::Color, color.size),
        (ResourceRole::Depth, depth.size),
        (ResourceRole::MotionVectors, motion.size),
        (ResourceRole::Exposure, exposure.size),
        (ResourceRole::Output, output.size),
    ];
    assert(extents@ =~= extent_inputs(resources));
    match check_extents(extents, render, upscale) {
        Err(e) => {
            return Err(e);
        },
        Ok(()) => {},
    }
    // The command list and every resource on the context's device.

    let context = match observed.context_device {
        Err(hresult) => {
            return Err(
                inspection(
                    InspectionObject::ContextDevice,
                    InspectionOperation::QueryIdentity,
                    hresult,
                ),
            );
        },
        Ok(identity) => identity,
    };
    match observed.list_device {
        DeviceQuery::GetDeviceFailed(hresult) => {
            return Err(
                inspection(InspectionObject::CommandList, InspectionOperation::GetDevice, hresult),
            );
        },
        DeviceQuery::NoDevice => {
            return Err(Error::InvalidDispatch { reason: DispatchValidation::CommandListDevice });
        },
        DeviceQuery::IdentityFailed(hresult) => {
            return Err(
                inspection(
                    InspectionObject::CommandList,
                    InspectionOperation::QueryIdentity,
                    hresult,
                ),
            );
        },
        DeviceQuery::Identity(identity) => {
            if identity != context {
                return Err(
                    Error::InvalidDispatch { reason: DispatchValidation::CommandListDevice },
                );
            }
        },
    }
    let ghost devices = device_checks(resources, context);
    let mut k: usize = 0;
    while k < 5
        invariant
            k <= 5,
            resources == observed.resources@,
            devices == device_checks(resources, context),
            first_error(devices, k as nat) is None,
        decreases 5 - k,
    {
        let role = role_of(k);
        assert(observed.resources[k as int] == resources[k as int]);
        assert(devices[k as int] == resource_device_error(resources[k as int].device, role, context));
        let failure = match observed.resources[k].device {
            DeviceQuery::GetDeviceFailed(hresult) => Some(
                inspection(InspectionObject::Resource(role), InspectionOperation::GetDevice, hresult),
            ),
            DeviceQuery::NoDevice => Some(invalid_resource(role, ResourceProperty::Device)),
            DeviceQuery::IdentityFailed(hresult) => Some(
                inspection(
                    InspectionObject::Resource(role),
                    InspectionOperation::QueryIdentity,
                    hresult,
                ),
            ),
            DeviceQuery::Identity(identity) => if identity != context {
                Some(invalid_resource(role, ResourceProperty::Device))
            } else {
                None
            },
        };
        match failure {
            Some(e) => {
                proof {
                    assert(first_error(devices, (k + 1) as nat) == devices[k as int]);
                    lemma_first_error_stable(devices, (k + 1) as nat, 5);
                }
                return Err(e);
            },
            None => {},
        }
        k = k + 1;
    }
    Ok(build_descriptor(observed.command_list, converted_resources, reset))
}

} // verus!
