use fsr_sdk::abi::{
    FFX_API_DISPATCH_DESC_TYPE_UPSCALE, FFX_API_RESOURCE_STATE_COMPUTE_READ,
    FFX_API_RESOURCE_STATE_UNORDERED_ACCESS, FFX_API_RESOURCE_USAGE_UAV,
    FFX_API_SURFACE_FORMAT_R16G16B16A16_FLOAT, FFX_API_SURFACE_FORMAT_R16G16_FLOAT,
    FFX_API_SURFACE_FORMAT_R32_FLOAT,
};
use fsr_sdk::context::DispatchGate;
use fsr_sdk::dispatch::{
    build_descriptor, check_extents, check_identity, convert_desc, invalid_resource,
    invalid_scalar, null_resource, DispatchDescription, ResourceDesc,
    D3D12_COMMAND_LIST_TYPE_COMPUTE, D3D12_COMMAND_LIST_TYPE_DIRECT,
    D3D12_RESOURCE_DIMENSION_TEXTURE2D, D3D12_RESOURCE_FLAG_ALLOW_UNORDERED_ACCESS,
    D3D12_RESOURCE_FLAG_DENY_SHADER_RESOURCE, D3D12_RESOURCE_FLAG_NONE,
    DXGI_FORMAT_R16G16B16A16_FLOAT, DXGI_FORMAT_R16G16_FLOAT, DXGI_FORMAT_R32_FLOAT,
};
use fsr_sdk::error::{
    DispatchScalar, DispatchValidation, Error, InspectionObject, InspectionOperation,
    ResourceProperty, ResourceRole,
};
use fsr_sdk::inspect::{inspect_dispatch, DeviceQuery, DispatchObservation, ResourceObservation};
use fsr_sdk::upscaler::{Dimensions, UpscalerOptions};
use std::cell::Cell;

const GET_DEVICE_FAILURE: i32 = 0x887a_0005u32 as i32;
const QUERY_FAILURE: i32 = 0x8000_4005u32 as i32;

fn desc(format: i32, width: u64, height: u32, output: bool) -> ResourceDesc {
    ResourceDesc {
        dimension: D3D12_RESOURCE_DIMENSION_TEXTURE2D,
        width,
        height,
        depth_or_array_size: 1,
        mip_levels: 1,
        format,
        sample_count: 1,
        flags: if output {
            D3D12_RESOURCE_FLAG_ALLOW_UNORDERED_ACCESS
        } else {
            D3D12_RESOURCE_FLAG_NONE
        },
    }
}

#[test]
fn narrow_conversion_and_descriptor() {
    let make = |pointer, format, width, height, output| {
        convert_desc(
            pointer,
            desc(format, width, height, output),
            ResourceRole::Color,
            format,
            output,
        )
        .unwrap()
    };
    let color = make(1, DXGI_FORMAT_R16G16B16A16_FLOAT, 320, 180, false);
    let depth = make(2, DXGI_FORMAT_R32_FLOAT, 320, 180, false);
    let motion = make(3, DXGI_FORMAT_R16G16_FLOAT, 320, 180, false);
    let exposure = make(4, DXGI_FORMAT_R32_FLOAT, 1, 1, false);
    let output = make(5, DXGI_FORMAT_R16G16B16A16_FLOAT, 640, 360, true);
    let result = build_descriptor(6, [color, depth, motion, exposure, output], true);
    assert_eq!(result.header.struct_type, FFX_API_DISPATCH_DESC_TYPE_UPSCALE);
    assert!(result.header.pNext.is_none());
    assert_eq!(result.commandList, 6);
    for (actual, expected) in [
        (result.color, 1),
        (result.depth, 2),
        (result.motionVectors, 3),
        (result.exposure, 4),
        (result.output, 5),
    ] {
        assert_eq!(actual.resource, expected);
    }
    assert_eq!(result.reactive.resource, 0);
    assert_eq!(result.transparencyAndComposition.resource, 0);
    assert_eq!(
        result.color.description.format,
        FFX_API_SURFACE_FORMAT_R16G16B16A16_FLOAT
    );
    assert_eq!(
        result.depth.description.format,
        FFX_API_SURFACE_FORMAT_R32_FLOAT
    );
    assert_eq!(
        result.motionVectors.description.format,
        FFX_API_SURFACE_FORMAT_R16G16_FLOAT
    );
    assert_eq!(result.output.description.usage, FFX_API_RESOURCE_USAGE_UAV);
    assert_eq!(result.output.state, FFX_API_RESOURCE_STATE_UNORDERED_ACCESS);
    assert_eq!(result.color.state, FFX_API_RESOURCE_STATE_COMPUTE_READ);
    assert_eq!(
        (result.renderSize.width, result.renderSize.height),
        (320, 180)
    );
    assert_eq!(
        (result.upscaleSize.width, result.upscaleSize.height),
        (640, 360)
    );
    assert!(result.reset);
    assert!(!result.enableSharpening);
    assert_eq!(result.flags, 0);
}

#[test]
fn rejects_invalid_resources_and_frame_before_native_call() {
    let valid = desc(DXGI_FORMAT_R16G16B16A16_FLOAT, 640, 360, true);
    let no_uav = desc(DXGI_FORMAT_R16G16B16A16_FLOAT, 640, 360, false);
    let check = |resource_desc| {
        convert_desc(
            0,
            resource_desc,
            ResourceRole::Output,
            DXGI_FORMAT_R16G16B16A16_FLOAT,
            true,
        )
        .err()
        .unwrap()
    };
    assert_eq!(
        check(no_uav),
        invalid_resource(ResourceRole::Output, ResourceProperty::UnorderedAccess)
    );
    let mut multisampled = valid;
    multisampled.sample_count = 2;
    assert_eq!(
        check(multisampled),
        invalid_resource(ResourceRole::Output, ResourceProperty::TextureShape)
    );
    let mut array = valid;
    array.depth_or_array_size = 2;
    assert_eq!(
        check(array),
        invalid_resource(ResourceRole::Output, ResourceProperty::TextureShape)
    );
    let mut mips = valid;
    mips.mip_levels = 2;
    assert_eq!(
        check(mips),
        invalid_resource(ResourceRole::Output, ResourceProperty::TextureShape)
    );
    let mut wrong_format = valid;
    wrong_format.format = DXGI_FORMAT_R32_FLOAT;
    assert_eq!(
        check(wrong_format),
        invalid_resource(ResourceRole::Output, ResourceProperty::Format)
    );
    let mut oversized = valid;
    oversized.width = u64::from(u32::MAX) + 1;
    assert_eq!(
        check(oversized),
        invalid_resource(ResourceRole::Output, ResourceProperty::Extent)
    );
    let mut zero = valid;
    zero.height = 0;
    assert_eq!(
        check(zero),
        invalid_resource(ResourceRole::Output, ResourceProperty::Extent)
    );
    let mut denied = desc(DXGI_FORMAT_R32_FLOAT, 320, 180, false);
    denied.flags = D3D12_RESOURCE_FLAG_DENY_SHADER_RESOURCE;
    assert_eq!(
        convert_desc(0, denied, ResourceRole::Depth, DXGI_FORMAT_R32_FLOAT, false)
            .err()
            .unwrap(),
        invalid_resource(ResourceRole::Depth, ResourceProperty::ShaderReadable)
    );
    assert_eq!(
        invalid_scalar(DispatchScalar::JitterX),
        Error::InvalidDispatch {
            reason: DispatchValidation::Scalar(DispatchScalar::JitterX)
        }
    );
}

#[test]
fn exact_extents_and_canonical_identity_reject_before_native_call() {
    let roles = [
        ResourceRole::Color,
        ResourceRole::Depth,
        ResourceRole::MotionVectors,
        ResourceRole::Exposure,
        ResourceRole::Output,
    ];
    let valid = [(320, 180), (320, 180), (320, 180), (1, 1), (640, 360)];
    let inputs =
        |sizes: [(u32, u32); 5]| std::array::from_fn(|index| (roles[index], sizes[index]));
    assert_eq!(check_extents(inputs(valid), (320, 180), (640, 360)), Ok(()));
    for index in 0..5 {
        let mut sizes = valid;
        sizes[index].0 -= 1;
        assert_eq!(
            check_extents(inputs(sizes), (320, 180), (640, 360)),
            Err(invalid_resource(roles[index], ResourceProperty::Extent))
        );
    }
    let pointers = [0x1000usize, 0x2000usize];
    assert_eq!(
        check_identity(ResourceRole::Depth, pointers[1], &pointers[..1]),
        Ok(())
    );
    assert_eq!(
        check_identity(ResourceRole::Output, pointers[0], &pointers),
        Err(invalid_resource(
            ResourceRole::Output,
            ResourceProperty::DistinctIdentity
        ))
    );
}

#[test]
fn formats_and_empty_slots() {
    assert_eq!(
        fsr_sdk::dispatch::format(DXGI_FORMAT_R16G16B16A16_FLOAT),
        Some(FFX_API_SURFACE_FORMAT_R16G16B16A16_FLOAT)
    );
    assert_eq!(
        fsr_sdk::dispatch::format(DXGI_FORMAT_R16G16_FLOAT),
        Some(FFX_API_SURFACE_FORMAT_R16G16_FLOAT)
    );
    assert_eq!(fsr_sdk::dispatch::format(DXGI_FORMAT_R32_FLOAT), Some(FFX_API_SURFACE_FORMAT_R32_FLOAT));
    assert_eq!(fsr_sdk::dispatch::format(0), None);
    let empty = null_resource();
    assert_eq!(empty.resource, 0);
    assert_eq!(empty.state, 0);
    assert_eq!(empty.description.format, 0);
    assert_eq!(empty.description.width, 0);
}

#[test]
fn input_with_uav_reports_both_usages() {
    let converted = convert_desc(
        9,
        desc(DXGI_FORMAT_R32_FLOAT, 320, 180, true),
        ResourceRole::Depth,
        DXGI_FORMAT_R32_FLOAT,
        false,
    )
    .unwrap();
    assert_eq!(converted.native.description.usage, FFX_API_RESOURCE_USAGE_UAV);
    assert_eq!(converted.native.state, FFX_API_RESOURCE_STATE_COMPUTE_READ);
    assert_eq!(converted.native.description.depth, 1);
    assert_eq!(converted.native.description.mipCount, 1);
    assert_eq!(converted.size, (320, 180));
}

const CONTEXT_DEVICE: usize = 0x100;
const FOREIGN_DEVICE: usize = 0x200;

fn sizes() -> UpscalerOptions {
    UpscalerOptions {
        max_render_size: Dimensions::new(1280, 720).unwrap(),
        max_upscale_size: Dimensions::new(1920, 1080).unwrap(),
    }
}

/// A valid scene: list and five resources on the context device.
fn scene() -> DispatchObservation {
    let resource = |index: usize, format, width, height, output| ResourceObservation {
        pointer: 0x10 + index,
        identity: Ok(0x20 + index),
        desc: desc(format, width, height, output),
        device: DeviceQuery::Identity(CONTEXT_DEVICE),
    };
    DispatchObservation {
        command_list: 0x30,
        list_type: D3D12_COMMAND_LIST_TYPE_DIRECT,
        resources: [
            resource(0, DXGI_FORMAT_R16G16B16A16_FLOAT, 1280, 720, false),
            resource(1, DXGI_FORMAT_R32_FLOAT, 1280, 720, false),
            resource(2, DXGI_FORMAT_R16G16_FLOAT, 1280, 720, false),
            resource(3, DXGI_FORMAT_R32_FLOAT, 1, 1, false),
            resource(4, DXGI_FORMAT_R16G16B16A16_FLOAT, 1920, 1080, true),
        ],
        context_device: Ok(CONTEXT_DEVICE),
        list_device: DeviceQuery::Identity(CONTEXT_DEVICE),
    }
}

fn resource_error(role: ResourceRole, property: ResourceProperty) -> Error {
    Error::InvalidDispatch {
        reason: DispatchValidation::Resource { role, property },
    }
}

#[test]
fn public_dispatch_inspects_com_and_recovers_after_each_preflight_error() {
    let options = sizes();
    let mut gate = DispatchGate::new();
    let calls = Cell::new(0u32);
    let last_tag = Cell::new(0u64);
    let mut expected_calls = 0;
    let mut run = |observed: DispatchObservation| {
        gate.dispatch_core(
            || inspect_dispatch(&options, &observed, false),
            |desc: DispatchDescription| {
                calls.set(calls.get() + 1);
                last_tag.set(desc.header.struct_type);
                0
            },
        )
    };
    let mut check = |expected: Error, broken: DispatchObservation| {
        assert_eq!(run(broken), Err(expected));
        assert_eq!(calls.get(), expected_calls);
        assert_eq!(run(scene()), Ok(()));
        expected_calls += 1;
        assert_eq!(calls.get(), expected_calls);
    };

    let mut broken = scene();
    broken.list_type = D3D12_COMMAND_LIST_TYPE_COMPUTE;
    check(
        Error::InvalidDispatch {
            reason: DispatchValidation::CommandListType,
        },
        broken,
    );

    let mut broken = scene();
    broken.list_device = DeviceQuery::Identity(FOREIGN_DEVICE);
    check(
        Error::InvalidDispatch {
            reason: DispatchValidation::CommandListDevice,
        },
        broken,
    );

    let mut broken = scene();
    broken.resources[2].device = DeviceQuery::Identity(FOREIGN_DEVICE);
    check(
        resource_error(ResourceRole::MotionVectors, ResourceProperty::Device),
        broken,
    );

    // Different resource pointers report the same canonical identity.
    let mut broken = scene();
    assert_ne!(broken.resources[0].pointer, broken.resources[1].pointer);
    broken.resources[1].identity = broken.resources[0].identity;
    check(
        resource_error(ResourceRole::Depth, ResourceProperty::DistinctIdentity),
        broken,
    );

    let mut broken = scene();
    broken.list_device = DeviceQuery::GetDeviceFailed(GET_DEVICE_FAILURE);
    check(
        Error::Dx12Inspection {
            object: InspectionObject::CommandList,
            operation: InspectionOperation::GetDevice,
            hresult: GET_DEVICE_FAILURE,
        },
        broken,
    );

    let mut broken = scene();
    broken.resources[4].device = DeviceQuery::GetDeviceFailed(GET_DEVICE_FAILURE);
    check(
        Error::Dx12Inspection {
            object: InspectionObject::Resource(ResourceRole::Output),
            operation: InspectionOperation::GetDevice,
            hresult: GET_DEVICE_FAILURE,
        },
        broken,
    );

    let mut broken = scene();
    broken.resources[2].identity = Err(QUERY_FAILURE);
    check(
        Error::Dx12Inspection {
            object: InspectionObject::Resource(ResourceRole::MotionVectors),
            operation: InspectionOperation::QueryIdentity,
            hresult: QUERY_FAILURE,
        },
        broken,
    );

    let mut broken = scene();
    broken.context_device = Err(QUERY_FAILURE);
    check(
        Error::Dx12Inspection {
            object: InspectionObject::ContextDevice,
            operation: InspectionOperation::QueryIdentity,
            hresult: QUERY_FAILURE,
        },
        broken,
    );

    let mut broken = scene();
    broken.resources[0].desc.width = 1279;
    check(
        resource_error(ResourceRole::Color, ResourceProperty::Extent),
        broken,
    );

    let mut broken = scene();
    broken.resources[1].desc.flags = D3D12_RESOURCE_FLAG_DENY_SHADER_RESOURCE;
    check(
        resource_error(ResourceRole::Depth, ResourceProperty::ShaderReadable),
        broken,
    );

    let mut broken = scene();
    broken.resources[4].desc.flags = D3D12_RESOURCE_FLAG_NONE;
    check(
        resource_error(ResourceRole::Output, ResourceProperty::UnorderedAccess),
        broken,
    );

    assert_eq!(last_tag.get(), FFX_API_DISPATCH_DESC_TYPE_UPSCALE);
}

#[test]
fn inspection_builds_the_descriptor_of_a_valid_scene() {
    let observed = scene();
    let result = inspect_dispatch(&sizes(), &observed, true).unwrap();
    assert_eq!(result.commandList, 0x30);
    assert_eq!(result.color.resource, 0x10);
    assert_eq!(result.depth.resource, 0x11);
    assert_eq!(result.motionVectors.resource, 0x12);
    assert_eq!(result.exposure.resource, 0x13);
    assert_eq!(result.output.resource, 0x14);
    assert_eq!((result.renderSize.width, result.renderSize.height), (1280, 720));
    assert_eq!(
        (result.upscaleSize.width, result.upscaleSize.height),
        (1920, 1080)
    );
    assert!(result.reset);
    assert_eq!(result.reactive, null_resource());
}

#[test]
fn inspection_reports_the_first_failure_in_order() {
    // A wrong list type wins over every later failure.
    let mut broken = scene();
    broken.list_type = D3D12_COMMAND_LIST_TYPE_COMPUTE;
    broken.resources[0].identity = Err(QUERY_FAILURE);
    broken.context_device = Err(QUERY_FAILURE);
    assert_eq!(
        inspect_dispatch(&sizes(), &broken, false),
        Err(Error::InvalidDispatch {
            reason: DispatchValidation::CommandListType
        })
    );
    // Identity before description, description before device.
    let mut broken = scene();
    broken.resources[3].identity = Err(QUERY_FAILURE);
    broken.resources[0].desc.format = DXGI_FORMAT_R32_FLOAT;
    broken.resources[1].device = DeviceQuery::NoDevice;
    assert_eq!(
        inspect_dispatch(&sizes(), &broken, false),
        Err(Error::Dx12Inspection {
            object: InspectionObject::Resource(ResourceRole::Exposure),
            operation: InspectionOperation::QueryIdentity,
            hresult: QUERY_FAILURE,
        })
    );
    broken.resources[3].identity = Ok(0x23);
    assert_eq!(
        inspect_dispatch(&sizes(), &broken, false),
        Err(resource_error(ResourceRole::Color, ResourceProperty::Format))
    );
    broken.resources[0].desc.format = DXGI_FORMAT_R16G16B16A16_FLOAT;
    assert_eq!(
        inspect_dispatch(&sizes(), &broken, false),
        Err(resource_error(ResourceRole::Depth, ResourceProperty::Device))
    );
    // A list without a device, and a resource whose device identity fails.
    let mut broken = scene();
    broken.list_device = DeviceQuery::NoDevice;
    assert_eq!(
        inspect_dispatch(&sizes(), &broken, false),
        Err(Error::InvalidDispatch {
            reason: DispatchValidation::CommandListDevice
        })
    );
    let mut broken = scene();
    broken.resources[3].device = DeviceQuery::IdentityFailed(QUERY_FAILURE);
    assert_eq!(
        inspect_dispatch(&sizes(), &broken, false),
        Err(Error::Dx12Inspection {
            object: InspectionObject::Resource(ResourceRole::Exposure),
            operation: InspectionOperation::QueryIdentity,
            hresult: QUERY_FAILURE,
        })
    );
    // The exposure texture must be 1x1.
    let mut broken = scene();
    broken.resources[3].desc.width = 2;
    assert_eq!(
        inspect_dispatch(&sizes(), &broken, false),
        Err(resource_error(ResourceRole::Exposure, ResourceProperty::Extent))
    );
}
