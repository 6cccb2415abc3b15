//! The sentence that tells a caller why an operation was refused.

use vstd::prelude::*;
use vstd::string::*;

use crate::certificates::MovedToMinting;
use crate::error::{
    Field, IssuanceError, LinkError, MintError, NotFound, QuotaKind, Reason, ValidationError,
};
use crate::s3::NotConfigured;
use crate::subscription::{CouponError, SubscriptionTier};
use crate::text::{decimal, u64_to_decimal};
use crate::types::nft::TransferError;
use crate::validation::{MAX_DESCRIPTION_LENGTH, MAX_TITLE_LENGTH, MAX_TOOL_LENGTH};

verus! {

/// Why a free text was refused, for a field whose cap is `max_length`.
pub open spec fn text_fault_text(reason: Reason, max_length: usize) -> Seq<char> {
    if reason == Reason::NoValidCharacters {
        "String contains no valid characters after sanitization"@
    } else {
        "String length must be between 1-"@ + decimal(max_length as nat) + " characters"@
    }
}

/// Why a request was refused as invalid.
pub open spec fn validation_text(error: ValidationError) -> Seq<char> {
    match error.field {
        Field::SessionId => "Invalid session_id: must be between 1-100 characters"@,
        Field::Username => "Invalid username: must be between 1-50 characters"@,
        Field::ArtTitle => text_fault_text(error.reason, MAX_TITLE_LENGTH),
        Field::Description => text_fault_text(error.reason, MAX_DESCRIPTION_LENGTH),
        Field::PhotoCount => "Invalid photo_count: must be between 1-100"@,
        Field::CreationDuration => "Invalid creation_duration: must be between 1-525600 minutes"@,
        Field::FileFormat => "Invalid file_format: must be one of [\"JPEG\", \"PNG\", \"GIF\", \"WEBP\", \"JPEG/PNG\"]"@,
        Field::CreationTools => if error.reason == Reason::Count {
            "Invalid creation_tools: must have 1-20 tools"@
        } else {
            text_fault_text(error.reason, MAX_TOOL_LENGTH)
        },
    }
}

/// Why a quota was exceeded, with the tier to move to.
pub open spec fn quota_text(kind: QuotaKind, current: u64, limit: u64, suggested_tier: SubscriptionTier) -> Seq<char> {
    match kind {
        QuotaKind::Photos => "Photo count "@ + decimal(current as nat)
            + " exceeds subscription limit "@ + decimal(limit as nat) + ". Upgrade to "@
            + suggested_tier.name() + " tier for more photos."@,
        QuotaKind::TotalSize => "Total file size "@ + decimal(current as nat)
            + "MB exceeds subscription limit "@ + decimal(limit as nat) + "MB. Upgrade to "@
            + suggested_tier.name() + " tier for larger files."@,
    }
}

/// Why no certificate was issued to `username`.
pub open spec fn issuance_text(error: IssuanceError, username: Seq<char>) -> Seq<char> {
    match error {
        IssuanceError::Unauthenticated => "Anonymous calls not allowed"@,
        IssuanceError::Unauthorized => "User "@ + username
            + " is not authorized to create certificates"@,
        IssuanceError::Busy => "Certificate generation already in progress for this session"@,
        IssuanceError::Invalid(e) => validation_text(e),
        IssuanceError::NotFound => "Session not found"@,
        IssuanceError::InvalidState => "Session is not in valid state for certificate generation"@,
        IssuanceError::OwnershipMismatch => "Session ownership mismatch"@,
        IssuanceError::QuotaExceeded { kind, current, limit, suggested_tier } => quota_text(
            kind,
            current,
            limit,
            suggested_tier,
        ),
        IssuanceError::CountMismatch => "Photo count mismatch with uploaded photos"@,
    }
}

/// Why a token could not be recorded on its certificate.
pub open spec fn link_text(error: LinkError) -> Seq<char> {
    match error {
        LinkError::Unauthenticated => "Anonymous calls not allowed"@,
        LinkError::NotFound => "Certificate not found"@,
    }
}

/// Why no token was minted.
pub open spec fn mint_text(error: MintError) -> Seq<char> {
    match error {
        MintError::Invalid => "Invalid certificate ID"@,
        MintError::NotFound => "Certificate not found"@,
        MintError::InactiveCertificate => "Certificate is not active"@,
        MintError::AlreadyMinted => "NFT already generated for this certificate"@,
        MintError::TierForbidden { tier, suggested_tier } => "NFT generation not allowed for "@
            + tier.name() + " tier. Upgrade to "@ + suggested_tier.name()
            + " tier or higher to generate NFTs."@,
        MintError::SessionMissing => "Session not found for NFT generation"@,
        MintError::LinkFailed(e) => "Failed to update certificate: "@ + link_text(e),
    }
}

/// Why a transfer was refused.
pub open spec fn transfer_text(error: TransferError) -> Seq<char> {
    match error {
        TransferError::Unauthorized => "Unauthorized: caller is not the owner"@,
        TransferError::NotOwner => "Token not owned by from account"@,
        TransferError::TokenNotFound => "Token not found"@,
    }
}

/// Why a coupon was not redeemed.
pub open spec fn coupon_text(error: CouponError) -> Seq<char> {
    match error {
        CouponError::Unauthenticated => "Anonymous calls not allowed"@,
        CouponError::InvalidCode => "Invalid coupon code"@,
        CouponError::Inactive => "Coupon is not active"@,
        CouponError::Expired => "Coupon has expired"@,
        CouponError::UsageLimitExceeded => "Coupon usage limit exceeded"@,
    }
}

/// Why a free text was refused.
fn text_fault_message(reason: Reason, max_length: usize) -> (r: String)
    ensures
        r@ == text_fault_text(reason, max_length),
{
    match reason {
        Reason::NoValidCharacters => String::from_str(
            "String contains no valid characters after sanitization",
        ),
        _ => {
            let mut message = String::from_str("String length must be between 1-");
            message.append(u64_to_decimal(max_length as u64).as_str());
            message.append(" characters");
            message
        },
    }
}

/// Why a request was refused as invalid.
pub fn validation_message(error: &ValidationError) -> (r: String)
    ensures
        r@ == validation_text(*error),
{
    match error.field {
        Field::SessionId => String::from_str(
            "Invalid session_id: must be between 1-100 characters",
        ),
        Field::Username => String::from_str("Invalid username: must be between 1-50 characters"),
        Field::ArtTitle => text_fault_message(error.reason, MAX_TITLE_LENGTH),
        Field::Description => text_fault_message(error.reason, MAX_DESCRIPTION_LENGTH),
        Field::PhotoCount => String::from_str("Invalid photo_count: must be between 1-100"),
        Field::CreationDuration => String::from_str(
            "Invalid creation_duration: must be between 1-525600 minutes",
        ),
        Field::FileFormat => String::from_str(
            "Invalid file_format: must be one of [\"JPEG\", \"PNG\", \"GIF\", \"WEBP\", \"JPEG/PNG\"]",
        ),
        Field::CreationTools => match error.reason {
            Reason::Count => String::from_str("Invalid creation_tools: must have 1-20 tools"),
            _ => text_fault_message(error.reason, MAX_TOOL_LENGTH),
        },
    }
}

/// Why a quota was exceeded, with the tier to move to.
fn quota_message(kind: QuotaKind, current: u64, limit: u64, suggested_tier: SubscriptionTier) -> (r:
    String)
    ensures
        r@ == quota_text(kind, current, limit, suggested_tier),
{
    match kind {
        QuotaKind::Photos => {
            let mut message = String::from_str("Photo count ");
            message.append(u64_to_decimal(current).as_str());
            message.append(" exceeds subscription limit ");
            message.append(u64_to_decimal(limit).as_str());
            message.append(". Upgrade to ");
            message.append(suggested_tier.label().as_str());
            message.append(" tier for more photos.");
            message
        },
        QuotaKind::TotalSize => {
            let mut message = String::from_str("Total file size ");
            message.append(u64_to_decimal(current).as_str());
            message.append("MB exceeds subscription limit ");
            message.append(u64_to_decimal(limit).as_str());
            message.append("MB. Upgrade to ");
            message.append(suggested_tier.label().as_str());
            message.append(" tier for larger files.");
            message
        },
    }
}

/// Why no certificate was issued to `username`.
pub fn issuance_message(error: &IssuanceError, username: &str) -> (r: String)
    ensures
        r@ == issuance_text(*error, username@),
{
    match error {
        IssuanceError::Unauthenticated => String::from_str("Anonymous calls not allowed"),
        IssuanceError::Unauthorized => {
            let mut message = String::from_str("User ");
            message.append(username);
            message.append(" is not authorized to create certificates");
            message
        },
        IssuanceError::Busy => String::from_str(
            "Certificate generation already in progress for this session",
        ),
        IssuanceError::Invalid(e) => validation_message(e),
        IssuanceError::NotFound => String::from_str("Session not found"),
        IssuanceError::InvalidState => String::from_str(
            "Session is not in valid state for certificate generation",
        ),
        IssuanceError::OwnershipMismatch => String::from_str("Session ownership mismatch"),
        IssuanceError::QuotaExceeded { kind, current, limit, suggested_tier } => quota_message(
            *kind,
            *current,
            *limit,
            *suggested_tier,
        ),
        IssuanceError::CountMismatch => String::from_str(
            "Photo count mismatch with uploaded photos",
        ),
    }
}

/// Why a token could not be recorded on its certificate.
pub fn link_message(error: &LinkError) -> (r: String)
    ensures
        r@ == link_text(*error),
{
    match error {
        LinkError::Unauthenticated => String::from_str("Anonymous calls not allowed"),
        LinkError::NotFound => String::from_str("Certificate not found"),
    }
}

/// Why no token was minted.
pub fn mint_message(error: &MintError) -> (r: String)
    ensures
        r@ == mint_text(*error),
{
    match error {
        MintError::Invalid => String::from_str("Invalid certificate ID"),
        MintError::NotFound => String::from_str("Certificate not found"),
        MintError::InactiveCertificate => String::from_str("Certificate is not active"),
        MintError::AlreadyMinted => String::from_str("NFT already generated for this certificate"),
        MintError::TierForbidden { tier, suggested_tier } => {
            let mut message = String::from_str("NFT generation not allowed for ");
            message.append(tier.label().as_str());
            message.append(" tier. Upgrade to ");
            message.append(suggested_tier.label().as_str());
            message.append(" tier or higher to generate NFTs.");
            message
        },
        MintError::SessionMissing => String::from_str("Session not found for NFT generation"),
        MintError::LinkFailed(e) => {
            let mut message = String::from_str("Failed to update certificate: ");
            message.append(link_message(e).as_str());
            message
        },
    }
}

/// Why a transfer was refused.
pub fn transfer_message(error: &TransferError) -> (r: String)
    ensures
        r@ == transfer_text(*error),
{
    match error {
        TransferError::Unauthorized => String::from_str("Unauthorized: caller is not the owner"),
        TransferError::NotOwner => String::from_str("Token not owned by from account"),
        TransferError::TokenNotFound => String::from_str("Token not found"),
    }
}

/// Why a coupon was not redeemed.
pub fn coupon_message(error: &CouponError) -> (r: String)
    ensures
        r@ == coupon_text(*error),
{
    match error {
        CouponError::Unauthenticated => String::from_str("Anonymous calls not allowed"),
        CouponError::InvalidCode => String::from_str("Invalid coupon code"),
        CouponError::Inactive => String::from_str("Coupon is not active"),
        CouponError::Expired => String::from_str("Coupon has expired"),
        CouponError::UsageLimitExceeded => String::from_str("Coupon usage limit exceeded"),
    }
}

/// That no object-storage settings were made.
pub fn not_configured_message(_error: &NotConfigured) -> (r: String)
    ensures
        r@ == "S3 configuration not found. Please configure S3 settings first."@,
{
    String::from_str("S3 configuration not found. Please configure S3 settings first.")
}

/// That token generation has moved.
pub fn moved_message(_error: &MovedToMinting) -> (r: String)
    ensures
        r@ == "NFT generation moved to NFT Module. Use mint_certificate_nft instead."@,
{
    String::from_str("NFT generation moved to NFT Module. Use mint_certificate_nft instead.")
}

/// That no session has the identifier.
pub fn session_not_found_message(_error: &NotFound) -> (r: String)
    ensures
        r@ == "Session not found"@,
{
    String::from_str("Session not found")
}

/// That no certificate has the identifier.
pub fn certificate_not_found_message(_error: &NotFound) -> (r: String)
    ensures
        r@ == "Certificate not found"@,
{
    String::from_str("Certificate not found")
}

} // verus!
