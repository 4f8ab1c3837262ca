use fsr_sdk::error::{
    DispatchScalar, DispatchValidation, Error, InspectionObject, InspectionOperation,
    InvariantViolation, Operation, ResourceProperty, ResourceRole,
};
use fsr_sdk::loader::{load_error_message, LoadFailure, RequiredExport};

#[test]
fn preserves_unknown_codes_and_operation() {
    let error = Error::Native {
        operation: Operation::Destroy,
        code: u32::MAX,
    };
    assert_eq!(
        error.message(),
        "FSR Destroy failed with native code 4294967295"
    );
}

#[test]
fn preserves_hresult_bits_separately_from_native_codes() {
    let error = Error::Dx12Inspection {
        object: InspectionObject::Resource(ResourceRole::Output),
        operation: InspectionOperation::GetDevice,
        hresult: 0x8000_4005u32 as i32,
    };
    assert_eq!(
        error.message(),
        "DX12 GetDevice of Resource(Output) failed with HRESULT 0x80004005"
    );
}

#[test]
fn messages_of_every_variant() {
    assert_eq!(
        Error::InvalidDimensions { width: 0, height: 720 }.message(),
        "FSR dimensions must be nonzero (got 0x720)"
    );
    assert_eq!(
        Error::InvalidDispatch {
            reason: DispatchValidation::Scalar(DispatchScalar::CameraFar)
        }
        .message(),
        "invalid FSR dispatch: Scalar(CameraFar)"
    );
    assert_eq!(
        Error::InvalidDispatch {
            reason: DispatchValidation::CommandListType
        }
        .message(),
        "invalid FSR dispatch: CommandListType"
    );
    assert_eq!(
        Error::InvalidDispatch {
            reason: DispatchValidation::Resource {
                role: ResourceRole::MotionVectors,
                property: ResourceProperty::DistinctIdentity,
            }
        }
        .message(),
        "invalid FSR dispatch: Resource { role: MotionVectors, property: DistinctIdentity }"
    );
    assert_eq!(
        Error::Dx12Inspection {
            object: InspectionObject::ContextDevice,
            operation: InspectionOperation::QueryIdentity,
            hresult: 5,
        }
        .message(),
        "DX12 QueryIdentity of ContextDevice failed with HRESULT 0x00000005"
    );
    assert_eq!(
        Error::DispatchPoisoned.message(),
        "FSR dispatch is unavailable after a native dispatch failure"
    );
    assert_eq!(
        Error::Native {
            operation: Operation::Create,
            code: 0
        }
        .message(),
        "FSR Create failed with native code 0"
    );
    assert_eq!(
        Error::NativeInvariantViolation(InvariantViolation::NullContextOnSuccess).message(),
        "FSR creation returned success with a null context"
    );
}

#[test]
fn messages_render_numbers_exactly() {
    assert_eq!(
        Error::InvalidDimensions {
            width: 1280,
            height: 4294967295
        }
        .message(),
        "FSR dimensions must be nonzero (got 1280x4294967295)"
    );
    assert_eq!(
        Error::Dx12Inspection {
            object: InspectionObject::CommandList,
            operation: InspectionOperation::GetDevice,
            hresult: -1,
        }
        .message(),
        "DX12 GetDevice of CommandList failed with HRESULT 0xffffffff"
    );
    assert_eq!(
        Error::Native {
            operation: Operation::Dispatch,
            code: 10
        }
        .message(),
        "FSR Dispatch failed with native code 10"
    );
}

#[test]
fn loader_messages_name_path_symbol_and_cause() {
    assert_eq!(
        load_error_message(LoadFailure::Path, "C:\\x\\does-not-exist.dll", "", "not found"),
        "could not resolve FidelityFX DLL path 'C:\\x\\does-not-exist.dll': not found"
    );
    assert_eq!(
        load_error_message(LoadFailure::Library, "invalid.dll", "", "bad image"),
        "could not load FidelityFX DLL 'invalid.dll': bad image"
    );
    assert_eq!(
        load_error_message(
            LoadFailure::Symbol,
            "loader.dll",
            RequiredExport::Dispatch.symbol(),
            "missing"
        ),
        "FidelityFX DLL 'loader.dll' is missing required symbol 'ffxDispatch': missing"
    );
    let names: Vec<&str> = [
        RequiredExport::CreateContext,
        RequiredExport::DestroyContext,
        RequiredExport::Configure,
        RequiredExport::Query,
        RequiredExport::Dispatch,
    ]
    .iter()
    .map(|export| export.symbol())
    .collect();
    assert_eq!(
        names,
        [
            "ffxCreateContext",
            "ffxDestroyContext",
            "ffxConfigure",
            "ffxQuery",
            "ffxDispatch"
        ]
    );
}
