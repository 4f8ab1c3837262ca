//! Names of the FidelityFX loader's required exports and the messages of
//! loader failures. Resolving paths and loading the DLL happen in the caller;
//! it hands the rendered path and cause here as text.
use vstd::prelude::*;

verus! {

/// An export that the FidelityFX loader DLL must provide, in resolution order.
#[derive(Debug, Clone, Copy, PartialEq, Eq, Structural)]
pub enum RequiredExport {
    CreateContext,
    DestroyContext,
    Configure,
    Query,
    Dispatch,
}

/// The exported symbol name.
pub open spec fn export_text(export: RequiredExport) -> Seq<char> {
    match export {
        RequiredExport::CreateContext => "ffxCreateContext"@,
        RequiredExport::DestroyContext => "ffxDestroyContext"@,
        RequiredExport::Configure => "ffxConfigure"@,
        RequiredExport::Query => "ffxQuery"@,
        RequiredExport::Dispatch => "ffxDispatch"@,
    }
}

impl RequiredExport {
    /// The exported symbol name.
    pub fn symbol(self) -> (r: &'static str)
        ensures
            r@ == export_text(self),
    {
        match self {
            RequiredExport::CreateContext => "ffxCreateContext",
            RequiredExport::DestroyContext => "ffxDestroyContext",
            RequiredExport::Configure => "ffxConfigure",
            RequiredExport::Query => "ffxQuery",
            RequiredExport::Dispatch => "ffxDispatch",
        }
    }
}

/// The step at which loading failed.
#[derive(Debug, Clone, Copy, PartialEq, Eq, Structural)]
pub enum LoadFailure {
    /// The path could not be resolved to a file.
    Path,
    /// The file could not be loaded as a library.
    Library,
    /// A required export is missing.
    Symbol,
}

/// The message of a loader failure for the rendered `path` and `cause`; the
/// missing `symbol` appears only in the message of a missing export.
pub open spec fn load_error_text(
    failure: LoadFailure,
    path: Seq<char>,
    symbol: Seq<char>,
    cause: Seq<char>,
) -> Seq<char> {
    match failure {
        LoadFailure::Path => "could not resolve FidelityFX DLL path '"@ + path + "': "@ + cause,
        LoadFailure::Library => "could not load FidelityFX DLL '"@ + path + "': "@ + cause,
        LoadFailure::Symbol => "FidelityFX DLL '"@ + path + "' is missing required symbol '"@
            + symbol + "': "@ + cause,
    }
}

/// Renders the message of a loader failure.
pub fn load_error_message(failure: LoadFailure, path: &str, symbol: &str, cause: &str) -> (r:
    String)
    ensures
        r@ == load_error_text(failure, path@, symbol@, cause@),
{
    let mut s = String::new();
    match failure {
        LoadFailure::Path => {
            s.append("could not resolve FidelityFX DLL path '");
            s.append(path);
            s.append("': ");
            s.append(cause);
        },
        LoadFailure::Library => {
            s.append("could not load FidelityFX DLL '");
            s.append(path);
            s.append("': ");
            s.append(cause);
        },
        LoadFailure::Symbol => {
            s.append("FidelityFX DLL '");
            s.append(path);
            s.append("' is missing required symbol '");
            s.append(symbol);
            s.append("': ");
            s.append(cause);
        },
    }
    s
}

} // verus!
