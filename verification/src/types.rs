//! The records that the stores hold and the calls exchange, each with its
//! mathematical model.

pub mod certificate;
pub mod nft;
pub mod physical_art;
pub mod s3;
pub mod user;

pub use certificate::{
    Certificate, CertificateMetadata, CertificateStatus, CreateCertificateRequest,
    NFTGenerationResult, NftLink, VerificationResult,
};
pub use nft::{
    Account, CollectionMetadata, Token, TokenMetadata, TransferError, TransferRequest,
    TransferResponse,
};
pub use physical_art::{PhysicalArtSession, SessionStatus};
pub use s3::{S3Config, UploadFileData};
pub use user::{LoginResult, User};
