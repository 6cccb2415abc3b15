//! Certificates and the requests that ask for them.

use vstd::prelude::*;
use vstd::string::*;

use crate::text::clone_texts;

verus! {

/// Lifecycle state of a certificate.
#[derive(Clone, Copy, Debug, PartialEq, Eq, Structural)]
pub enum CertificateStatus {
    Active,
    Expired,
    Revoked,
}

impl CertificateStatus {
    /// The word for each state.
    pub open spec fn name(self) -> Seq<char> {
        match self {
            CertificateStatus::Active => "active"@,
            CertificateStatus::Expired => "expired"@,
            CertificateStatus::Revoked => "revoked"@,
        }
    }

    /// The word for this state.
    pub fn label(&self) -> (r: String)
        ensures
            r@ == self.name(),
    {
        match self {
            CertificateStatus::Active => String::from_str("active"),
            CertificateStatus::Expired => String::from_str("expired"),
            CertificateStatus::Revoked => String::from_str("revoked"),
        }
    }
}

/// The token that was minted from a certificate.
#[derive(Debug, PartialEq, Eq)]
pub struct NftLink {
    pub token_id: u64,
    pub token_uri: String,
}

/// Model of [`NftLink`].
pub struct NftLinkView {
    pub token_id: u64,
    pub token_uri: Seq<char>,
}

impl View for NftLink {
    type V = NftLinkView;

    open spec fn view(&self) -> NftLinkView {
        NftLinkView { token_id: self.token_id, token_uri: self.token_uri@ }
    }
}

impl Clone for NftLink {
    fn clone(&self) -> (r: NftLink)
        ensures
            r@ == self@,
    {
        NftLink { token_id: self.token_id, token_uri: self.token_uri.clone() }
    }
}

/// Model of an optional [`NftLink`].
pub open spec fn link_view(link: Option<NftLink>) -> Option<NftLinkView> {
    match link {
        Some(l) => Some(l@),
        None => None,
    }
}

/// How the certified work was made.
#[derive(Debug, PartialEq, Eq)]
pub struct CertificateMetadata {
    pub creation_duration: String,
    pub total_actions: u32,
    pub file_size: String,
    pub file_format: String,
    pub creation_tools: Vec<String>,
}

/// Model of [`CertificateMetadata`].
pub struct CertificateMetadataView {
    pub creation_duration: Seq<char>,
    pub total_actions: u32,
    pub file_size: Seq<char>,
    pub file_format: Seq<char>,
    pub creation_tools: Seq<Seq<char>>,
}

impl View for CertificateMetadata {
    type V = CertificateMetadataView;

    open spec fn view(&self) -> CertificateMetadataView {
        CertificateMetadataView {
            creation_duration: self.creation_duration@,
            total_actions: self.total_actions,
            file_size: self.file_size@,
            file_format: self.file_format@,
            creation_tools: self.creation_tools.deep_view(),
        }
    }
}

impl Clone for CertificateMetadata {
    fn clone(&self) -> (r: CertificateMetadata)
        ensures
            r@ == self@,
    {
        CertificateMetadata {
            creation_duration: self.creation_duration.clone(),
            total_actions: self.total_actions,
            file_size: self.file_size.clone(),
            file_format: self.file_format.clone(),
            creation_tools: clone_texts(&self.creation_tools),
        }
    }
}

/// An issued attestation that binds a creation session to authenticity scores
/// and a verification hash.
#[derive(Debug, PartialEq, Eq)]
pub struct Certificate {
    pub certificate_id: String,
    pub session_id: String,
    pub username: String,
    pub art_title: String,
    pub description: String,
    /// Nanoseconds since the epoch.
    pub issue_date: u64,
    /// Nanoseconds since the epoch.
    pub expiry_date: u64,
    pub verification_hash: String,
    pub blockchain_tx: String,
    pub qr_code_data: String,
    pub verification_url: String,
    pub certificate_type: String,
    pub verification_score: u32,
    pub authenticity_rating: u32,
    pub provenance_score: u32,
    pub community_trust: u32,
    pub certificate_status: CertificateStatus,
    pub issuer: String,
    pub blockchain: String,
    pub token_standard: String,
    pub metadata: CertificateMetadata,
    pub nft_link: Option<NftLink>,
}

/// Model of [`Certificate`].
pub struct CertificateView {
    pub certificate_id: Seq<char>,
    pub session_id: Seq<char>,
    pub username: Seq<char>,
    pub art_title: Seq<char>,
    pub description: Seq<char>,
    pub issue_date: u64,
    pub expiry_date: u64,
    pub verification_hash: Seq<char>,
    pub blockchain_tx: Seq<char>,
    pub qr_code_data: Seq<char>,
    pub verification_url: Seq<char>,
    pub certificate_type: Seq<char>,
    pub verification_score: u32,
    pub authenticity_rating: u32,
    pub provenance_score: u32,
    pub community_trust: u32,
    pub certificate_status: CertificateStatus,
    pub issuer: Seq<char>,
    pub blockchain: Seq<char>,
    pub token_standard: Seq<char>,
    pub metadata: CertificateMetadataView,
    pub nft_link: Option<NftLinkView>,
}

impl View for Certificate {
    type V = CertificateView;

    open spec fn view(&self) -> CertificateView {
        CertificateView {
            certificate_id: self.certificate_id@,
            session_id: self.session_id@,
            username: self.username@,
            art_title: self.art_title@,
            description: self.description@,
            issue_date: self.issue_date,
            expiry_date: self.expiry_date,
            verification_hash: self.verification_hash@,
            blockchain_tx: self.blockchain_tx@,
            qr_code_data: self.qr_code_data@,
            verification_url: self.verification_url@,
            certificate_type: self.certificate_type@,
            verification_score: self.verification_score,
            authenticity_rating: self.authenticity_rating,
            provenance_score: self.provenance_score,
            community_trust: self.community_trust,
            certificate_status: self.certificate_status,
            issuer: self.issuer@,
            blockchain: self.blockchain@,
            token_standard: self.token_standard@,
            metadata: self.metadata@,
            nft_link: link_view(self.nft_link),
        }
    }
}

impl DeepView for Certificate {
    type V = CertificateView;

    open spec fn deep_view(&self) -> CertificateView {
        self@
    }
}

impl Clone for Certificate {
    fn clone(&self) -> (r: Certificate)
        ensures
            r@ == self@,
    {
        let nft_link = match &self.nft_link {
            Some(l) => Some(l.clone()),
            None => None,
        };
        Certificate {
            certificate_id: self.certificate_id.clone(),
            session_id: self.session_id.clone(),
            username: self.username.clone(),
            art_title: self.art_title.clone(),
            description: self.description.clone(),
            issue_date: self.issue_date,
            expiry_date: self.expiry_date,
            verification_hash: self.verification_hash.clone(),
            blockchain_tx: self.blockchain_tx.clone(),
            qr_code_data: self.qr_code_data.clone(),
            verification_url: self.verification_url.clone(),
            certificate_type: self.certificate_type.clone(),
            verification_score: self.verification_score,
            authenticity_rating: self.authenticity_rating,
            provenance_score: self.provenance_score,
            community_trust: self.community_trust,
            certificate_status: self.certificate_status,
            issuer: self.issuer.clone(),
            blockchain: self.blockchain.clone(),
            token_standard: self.token_standard.clone(),
            metadata: self.metadata.clone(),
            nft_link,
        }
    }
}

/// What a caller submits to have a certificate issued.
#[derive(Debug, PartialEq, Eq)]
pub struct CreateCertificateRequest {
    pub session_id: String,
    pub username: String,
    pub art_title: String,
    pub description: String,
    pub photo_count: u32,
    /// Minutes.
    pub creation_duration: u32,
    pub file_format: String,
    pub creation_tools: Vec<String>,
    /// Size of each uploaded file in bytes; empty when the caller does not
    /// know them.
    pub file_sizes: Vec<u64>,
}

/// Model of [`CreateCertificateRequest`].
pub struct CreateCertificateRequestView {
    pub session_id: Seq<char>,
    pub username: Seq<char>,
    pub art_title: Seq<char>,
    pub description: Seq<char>,
    pub photo_count: u32,
    pub creation_duration: u32,
    pub file_format: Seq<char>,
    pub creation_tools: Seq<Seq<char>>,
    pub file_sizes: Seq<u64>,
}

impl View for CreateCertificateRequest {
    type V = CreateCertificateRequestView;

    open spec fn view(&self) -> CreateCertificateRequestView {
        CreateCertificateRequestView {
            session_id: self.session_id@,
            username: self.username@,
            art_title: self.art_title@,
            description: self.description@,
            photo_count: self.photo_count,
            creation_duration: self.creation_duration,
            file_format: self.file_format@,
            creation_tools: self.creation_tools.deep_view(),
            file_sizes: self.file_sizes@,
        }
    }
}

/// What a verification found.
#[derive(Debug, PartialEq, Eq)]
pub struct VerificationResult {
    pub valid: bool,
    pub score: u32,
    /// A JSON object with the particulars.
    pub details: String,
}

/// Model of [`VerificationResult`].
pub struct VerificationResultView {
    pub valid: bool,
    pub score: u32,
    pub details: Seq<char>,
}

impl View for VerificationResult {
    type V = VerificationResultView;

    open spec fn view(&self) -> VerificationResultView {
        VerificationResultView { valid: self.valid, score: self.score, details: self.details@ }
    }
}

/// Identifier and locator of a generated token, both as text.
#[derive(Debug, PartialEq, Eq)]
pub struct NFTGenerationResult {
    pub nft_id: String,
    pub token_uri: String,
}

} // verus!
