//! Error types of the domain and of the application rules.

use vstd::prelude::*;
use crate::text::owned;

verus! {

/// Domain-level validation errors: invariant violations in value
/// objects and entities.
#[derive(Debug, Clone, PartialEq)]
pub enum DomainError {
    /// Extension UUID is missing the required '@' separator.
    InvalidExtensionUuid(String),
    /// Shell version string could not be parsed.
    InvalidShellVersion(String),
    /// Content rating is outside the valid 0.0–5.0 range.
    InvalidContentRating(String),
    /// Pack manifest failed validation.
    InvalidPack(String),
    /// Color hex string is malformed.
    InvalidColor(String),
    /// `.desktop` app-id is empty or holds characters forbidden in a
    /// file name.
    InvalidAppId(String),
}

impl DomainError {
    /// The display text of the error.
    pub open spec fn message(self) -> Seq<char> {
        match self {
            DomainError::InvalidExtensionUuid(s) => "invalid extension UUID (must contain '@'): "@ + s@,
            DomainError::InvalidShellVersion(s) => "invalid shell version: "@ + s@,
            DomainError::InvalidContentRating(s) => "content rating out of range 0.0\u{2013}5.0: "@ + s@,
            DomainError::InvalidPack(s) => "invalid pack: "@ + s@,
            DomainError::InvalidColor(s) => "invalid hex color: "@ + s@,
            DomainError::InvalidAppId(s) => "invalid .desktop app id: "@ + s@,
        }
    }

    /// Display text: what went wrong, then the offending value.
    pub fn to_string(&self) -> (r: String)
        ensures
            r@ == self.message(),
    {
        let (mut out, detail) = match self {
            DomainError::InvalidExtensionUuid(s) => (owned("invalid extension UUID (must contain '@'): "), s),
            DomainError::InvalidShellVersion(s) => (owned("invalid shell version: "), s),
            DomainError::InvalidContentRating(s) => (owned("content rating out of range 0.0\u{2013}5.0: "), s),
            DomainError::InvalidPack(s) => (owned("invalid pack: "), s),
            DomainError::InvalidColor(s) => (owned("invalid hex color: "), s),
            DomainError::InvalidAppId(s) => (owned("invalid .desktop app id: "), s),
        };
        out.append(detail.as_str());
        out
    }
}

/// Application-layer errors: wrapped domain errors and port failures.
#[derive(Debug)]
pub enum AppError {
    Domain(DomainError),
    Repository(String),
    Install(String),
    Shell(String),
    Settings(String),
    Storage(String),
}

impl AppError {
    /// `From<DomainError>`: every domain error becomes `AppError::Domain`.
    pub fn from_domain(e: DomainError) -> (r: AppError)
        ensures
            r == AppError::Domain(e),
    {
        AppError::Domain(e)
    }
}

} // verus!
