//! Error values of the upscaler API and their human-readable messages.
use crate::text::{decimal, hex_digits, push_decimal, push_hex};
use vstd::prelude::*;

verus! {

/// Native operation that failed.
#[derive(Debug, Clone, Copy, PartialEq, Eq, Structural)]
#[non_exhaustive]
pub enum Operation {
    Create,
    Destroy,
    Dispatch,
}

/// A scalar supplied for an upscaler dispatch.
#[derive(Debug, Clone, Copy, PartialEq, Eq, Structural)]
#[non_exhaustive]
pub enum DispatchScalar {
    JitterX,
    JitterY,
    FrameTimeMillis,
    CameraNear,
    CameraFar,
    VerticalFovRadians,
    ViewSpaceToMeters,
}

/// A resource supplied for an upscaler dispatch.
#[derive(Debug, Clone, Copy, PartialEq, Eq, Structural)]
#[non_exhaustive]
pub enum ResourceRole {
    Color,
    Depth,
    MotionVectors,
    Exposure,
    Output,
}

/// The inspectable property that rejected a resource.
#[derive(Debug, Clone, Copy, PartialEq, Eq, Structural)]
#[non_exhaustive]
pub enum ResourceProperty {
    DistinctIdentity,
    TextureShape,
    Format,
    Extent,
    ShaderReadable,
    UnorderedAccess,
    Device,
}

/// Reason a dispatch was rejected before entering native code.
#[derive(Debug, Clone, Copy, PartialEq, Eq, Structural)]
#[non_exhaustive]
pub enum DispatchValidation {
    Scalar(DispatchScalar),
    CommandListType,
    CommandListDevice,
    Resource { role: ResourceRole, property: ResourceProperty },
}

/// COM object whose inspection failed.
#[derive(Debug, Clone, Copy, PartialEq, Eq, Structural)]
#[non_exhaustive]
pub enum InspectionObject {
    ContextDevice,
    CommandList,
    Resource(ResourceRole),
}

/// COM operation that failed during dispatch validation.
#[derive(Debug, Clone, Copy, PartialEq, Eq, Structural)]
#[non_exhaustive]
pub enum InspectionOperation {
    GetDevice,
    QueryIdentity,
}

/// A broken promise of the native runtime.
#[derive(Debug, Clone, Copy, PartialEq, Eq, Structural)]
#[non_exhaustive]
pub enum InvariantViolation {
    NullContextOnSuccess,
}

/// Native codes are open u32 values, including codes unknown to this SDK version.
#[derive(Debug, Clone, Copy, PartialEq, Eq, Structural)]
#[non_exhaustive]
pub enum Error {
    InvalidDimensions { width: u32, height: u32 },
    InvalidDispatch { reason: DispatchValidation },
    Dx12Inspection { object: InspectionObject, operation: InspectionOperation, hresult: i32 },
    DispatchPoisoned,
    Native { operation: Operation, code: u32 },
    NativeInvariantViolation(InvariantViolation),
}

/// The name of an operation as `Debug` renders it.
pub open spec fn operation_text(operation: Operation) -> Seq<char> {
    match operation {
        Operation::Create => "Create"@,
        Operation::Destroy => "Destroy"@,
        Operation::Dispatch => "Dispatch"@,
    }
}

/// The name of a dispatch scalar as `Debug` renders it.
pub open spec fn scalar_text(scalar: DispatchScalar) -> Seq<char> {
    match scalar {
        DispatchScalar::JitterX => "JitterX"@,
        DispatchScalar::JitterY => "JitterY"@,
        DispatchScalar::FrameTimeMillis => "FrameTimeMillis"@,
        DispatchScalar::CameraNear => "CameraNear"@,
        DispatchScalar::CameraFar => "CameraFar"@,
        DispatchScalar::VerticalFovRadians => "VerticalFovRadians"@,
        DispatchScalar::ViewSpaceToMeters => "ViewSpaceToMeters"@,
    }
}

/// The name of a resource role as `Debug` renders it.
pub open spec fn role_text(role: ResourceRole) -> Seq<char> {
    match role {
        ResourceRole::Color => "Color"@,
        ResourceRole::Depth => "Depth"@,
        ResourceRole::MotionVectors => "MotionVectors"@,
        ResourceRole::Exposure => "Exposure"@,
        ResourceRole::Output => "Output"@,
    }
}

/// The name of a resource property as `Debug` renders it.
pub open spec fn property_text(property: ResourceProperty) -> Seq<char> {
    match property {
        ResourceProperty::DistinctIdentity => "DistinctIdentity"@,
        ResourceProperty::TextureShape => "TextureShape"@,
        ResourceProperty::Format => "Format"@,
        ResourceProperty::Extent => "Extent"@,
        ResourceProperty::ShaderReadable => "ShaderReadable"@,
        ResourceProperty::UnorderedAccess => "UnorderedAccess"@,
        ResourceProperty::Device => "Device"@,
    }
}

/// A dispatch validation reason as `Debug` renders it.
pub open spec fn validation_text(reason: DispatchValidation) -> Seq<char> {
    match reason {
        DispatchValidation::Scalar(scalar) => "Scalar("@ + scalar_text(scalar) + ")"@,
        DispatchValidation::CommandListType => "CommandListType"@,
        DispatchValidation::CommandListDevice => "CommandListDevice"@,
        DispatchValidation::Resource { role, property } =>
            "Resource { role: "@ + role_text(role) + ", property: "@ + property_text(property)
                + " }"@,
    }
}

/// An inspected object as `Debug` renders it.
pub open spec fn object_text(object: InspectionObject) -> Seq<char> {
    match object {
        InspectionObject::ContextDevice => "ContextDevice"@,
        InspectionObject::CommandList => "CommandList"@,
        InspectionObject::Resource(role) => "Resource("@ + role_text(role) + ")"@,
    }
}

/// An inspection operation as `Debug` renders it.
pub open spec fn inspection_operation_text(operation: InspectionOperation) -> Seq<char> {
    match operation {
        InspectionOperation::GetDevice => "GetDevice"@,
        InspectionOperation::QueryIdentity => "QueryIdentity"@,
    }
}

/// The human-readable message of an error: dimensions and native codes in
/// decimal, HRESULTs as `0x` followed by eight lower-case hexadecimal digits
/// of their 32-bit pattern.
pub open spec fn error_text(error: Error) -> Seq<char> {
    match error {
        Error::InvalidDimensions { width, height } =>
            "FSR dimensions must be nonzero (got "@ + decimal(width as nat) + "x"@
                + decimal(height as nat) + ")"@,
        Error::InvalidDispatch { reason } => "invalid FSR dispatch: "@ + validation_text(reason),
        Error::Dx12Inspection { object, operation, hresult } =>
            "DX12 "@ + inspection_operation_text(operation) + " of "@ + object_text(object)
                + " failed with HRESULT "@ + "0x"@ + hex_digits((hresult as u32) as nat, 8),
        Error::DispatchPoisoned => "FSR dispatch is unavailable after a native dispatch failure"@,
        Error::Native { operation, code } =>
            "FSR "@ + operation_text(operation) + " failed with native code "@
                + decimal(code as nat),
        Error::NativeInvariantViolation(InvariantViolation::NullContextOnSuccess) =>
            "FSR creation returned success with a null context"@,
    }
}

fn operation_name(operation: Operation) -> (r: &'static str)
    ensures
        r@ == operation_text(operation),
{
    match operation {
        Operation::Create => "Create",
        Operation::Destroy => "Destroy",
        Operation::Dispatch => "Dispatch",
    }
}

fn scalar_name(scalar: DispatchScalar) -> (r: &'static str)
    ensures
        r@ == scalar_text(scalar),
{
    match scalar {
        DispatchScalar::JitterX => "JitterX",
        DispatchScalar::JitterY => "JitterY",
        DispatchScalar::FrameTimeMillis => "FrameTimeMillis",
        DispatchScalar::CameraNear => "CameraNear",
        DispatchScalar::CameraFar => "CameraFar",
        DispatchScalar::VerticalFovRadians => "VerticalFovRadians",
        DispatchScalar::ViewSpaceToMeters => "ViewSpaceToMeters",
    }
}

fn role_name(role: ResourceRole) -> (r: &'static str)
    ensures
        r@ == role_text(role),
{
    match role {
        ResourceRole::Color => "Color",
        ResourceRole::Depth => "Depth",
        ResourceRole::MotionVectors => "MotionVectors",
        ResourceRole::Exposure => "Exposure",
        ResourceRole::Output => "Output",
    }
}

fn property_name(property: ResourceProperty) -> (r: &'static str)
    ensures
        r@ == property_text(property),
{
    match property {
        ResourceProperty::DistinctIdentity => "DistinctIdentity",
        ResourceProperty::TextureShape => "TextureShape",
        ResourceProperty::Format => "Format",
        ResourceProperty::Extent => "Extent",
        ResourceProperty::ShaderReadable => "ShaderReadable",
        ResourceProperty::UnorderedAccess => "UnorderedAccess",
        ResourceProperty::Device => "Device",
    }
}

fn push_validation(s: &mut String, reason: DispatchValidation)
    ensures
        final(s)@ == old(s)@ + validation_text(reason),
{
    match reason {
        DispatchValidation::Scalar(scalar) => {
            s.append("Scalar(");
            s.append(scalar_name(scalar));
            s.append(")");
        },
        DispatchValidation::CommandListType => s.append("CommandListType"),
        DispatchValidation::CommandListDevice => s.append("CommandListDevice"),
        DispatchValidation::Resource { role, property } => {
            s.append("Resource { role: ");
            s.append(role_name(role));
            s.append(", property: ");
            s.append(property_name(property));
            s.append(" }");
        },
    }
}

fn push_object(s: &mut String, object: InspectionObject)
    ensures
        final(s)@ == old(s)@ + object_text(object),
{
    match object {
        InspectionObject::ContextDevice => s.append("ContextDevice"),
        InspectionObject::CommandList => s.append("CommandList"),
        InspectionObject::Resource(role) => {
            s.append("Resource(");
            s.append(role_name(role));
            s.append(")");
        },
    }
}

impl Error {
    /// The human-readable message of this error (what `Display` shows).
    pub fn message(&self) -> (r: String)
        ensures
            r@ == error_text(*self),
    {
        let mut s = String::new();
        match *self {
            Error::InvalidDimensions { width, height } => {
                s.append("FSR dimensions must be nonzero (got ");
                push_decimal(&mut s, width);
                s.append("x");
                push_decimal(&mut s, height);
                s.append(")");
            },
            Error::InvalidDispatch { reason } => {
                s.append("invalid FSR dispatch: ");
                push_validation(&mut s, reason);
            },
            Error::Dx12Inspection { object, operation, hresult } => {
                s.append("DX12 ");
                match operation {
                    InspectionOperation::GetDevice => s.append("GetDevice"),
                    InspectionOperation::QueryIdentity => s.append("QueryIdentity"),
                }
                s.append(" of ");
                push_object(&mut s, object);
                s.append(" failed with HRESULT ");
                s.append("0x");
                push_hex(&mut s, hresult as u32, 8);
            },
            Error::DispatchPoisoned => {
                s.append("FSR dispatch is unavailable after a native dispatch failure");
            },
            Error::Native { operation, code } => {
                s.append("FSR ");
                s.append(operation_name(operation));
                s.append(" failed with native code ");
                push_decimal(&mut s, code);
            },
            Error::NativeInvariantViolation(InvariantViolation::NullContextOnSuccess) => {
                s.append("FSR creation returned success with a null context");
            },
        }
        s
    }
}

} // verus!
