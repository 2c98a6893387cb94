//! Error taxonomy of the registry core.

use vstd::prelude::*;

verus! {

/// Why a publish or download request was rejected.
///
/// `MalformedRequest`, `Conflict`, `Forbidden` and `NotFound` are client
/// errors; `StorageUnavailable` and `WriteFailed` report a transient blob
/// backend failure; `CatalogError` reports a catalog failure that is not a
/// uniqueness conflict.
#[derive(Debug, Clone, Copy, PartialEq, Eq, Structural)]
pub enum RegistryError {
    MalformedRequest,
    Conflict,
    Forbidden,
    NotFound,
    StorageUnavailable,
    WriteFailed,
    CatalogError,
}

impl RegistryError {
    /// A short stable name for the error, usable in logs and responses.
    pub fn as_text(&self) -> (r: &'static str)
        ensures
            *self == RegistryError::MalformedRequest ==> r@ == "malformed request"@,
            *self == RegistryError::Conflict ==> r@ == "conflict"@,
            *self == RegistryError::Forbidden ==> r@ == "forbidden"@,
            *self == RegistryError::NotFound ==> r@ == "not found"@,
            *self == RegistryError::StorageUnavailable ==> r@ == "storage unavailable"@,
            *self == RegistryError::WriteFailed ==> r@ == "write failed"@,
            *self == RegistryError::CatalogError ==> r@ == "catalog error"@,
    {
        match self {
            RegistryError::MalformedRequest => "malformed request",
            RegistryError::Conflict => "conflict",
            RegistryError::Forbidden => "forbidden",
            RegistryError::NotFound => "not found",
            RegistryError::StorageUnavailable => "storage unavailable",
            RegistryError::WriteFailed => "write failed",
            RegistryError::CatalogError => "catalog error",
        }
    }
}

} // verus!
