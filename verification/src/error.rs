//! Why an operation was refused.

use vstd::prelude::*;

use crate::subscription::SubscriptionTier;

verus! {

/// The field of a request that a validation rule speaks of.
#[derive(Clone, Copy, Debug, PartialEq, Eq, Structural)]
pub enum Field {
    SessionId,
    Username,
    ArtTitle,
    Description,
    PhotoCount,
    CreationDuration,
    FileFormat,
    CreationTools,
}

/// The rule that a field broke.
#[derive(Clone, Copy, Debug, PartialEq, Eq, Structural)]
pub enum Reason {
    /// The text is empty or longer than its cap.
    Length,
    /// No character of the text is on the allow-list.
    NoValidCharacters,
    /// The number lies outside its range.
    OutOfRange,
    /// The value is not on the list of supported values.
    Unsupported,
    /// The list has too few or too many entries.
    Count,
}

/// A request broke a validation rule.
#[derive(Clone, Copy, Debug, PartialEq, Eq, Structural)]
pub struct ValidationError {
    pub field: Field,
    pub reason: Reason,
}

/// The quota that a session exceeds.
#[derive(Clone, Copy, Debug, PartialEq, Eq, Structural)]
pub enum QuotaKind {
    /// Number of uploaded photos.
    Photos,
    /// Total upload size in megabytes.
    TotalSize,
}

/// Why no certificate was issued.
#[derive(Clone, Copy, Debug, PartialEq, Eq, Structural)]
pub enum IssuanceError {
    Unauthenticated,
    Unauthorized,
    /// Another issuance for the session is in flight.
    Busy,
    Invalid(ValidationError),
    /// No such session.
    NotFound,
    /// The session is neither active nor uploading.
    InvalidState,
    /// The session belongs to another user.
    OwnershipMismatch,
    QuotaExceeded { kind: QuotaKind, current: u64, limit: u64, suggested_tier: SubscriptionTier },
    /// The request names another number of photos than the session holds.
    CountMismatch,
}

/// Why a token could not be recorded on its certificate.
#[derive(Clone, Copy, Debug, PartialEq, Eq, Structural)]
pub enum LinkError {
    Unauthenticated,
    /// No such certificate.
    NotFound,
}

/// Why no token was minted.
#[derive(Clone, Copy, Debug, PartialEq, Eq, Structural)]
pub enum MintError {
    /// The certificate identifier is empty or too long.
    Invalid,
    /// No such certificate.
    NotFound,
    InactiveCertificate,
    AlreadyMinted,
    TierForbidden { tier: SubscriptionTier, suggested_tier: SubscriptionTier },
    /// The session of the certificate is gone.
    SessionMissing,
    /// The token was minted and retracted again, because it could not be
    /// recorded on the certificate.
    LinkFailed(LinkError),
}

/// No record with the given identifier exists.
#[derive(Clone, Copy, Debug, PartialEq, Eq, Structural)]
pub struct NotFound;

} // verus!
