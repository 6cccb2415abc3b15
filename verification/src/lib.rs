//! Certificate issuance and certificate-backed token minting for physical-art
//! creation sessions, with every rule stated as a contract and proved.
//!
//! All state lives in stores that the caller owns and passes in; the clock and
//! the caller's identity arrive as plain values in a [`identity::CallContext`].
//!
//! - [`validation`] checks and sanitizes issuance requests.
//! - [`lock`] guards a session against overlapping issuances.
//! - [`certificates`] issues, stores and verifies certificates.
//! - [`minting`] mints a token from a certificate, on both ledgers or neither.
//! - [`nft`] and [`icrc7`] hold and read the token ledger.
//! - [`subscription`], [`physical_art`], [`users`] and [`s3`] are the
//!   registries that the above consult.
//! - [`laws`] states and proves what holds across calls.

pub mod certificates;
pub mod dashboard;
pub mod digest;
pub mod error;
pub mod icrc7;
pub mod identity;
pub mod laws;
pub mod lock;
pub mod messages;
pub mod minting;
pub mod nft;
pub mod physical_art;
pub mod s3;
pub mod store;
pub mod subscription;
pub mod text;
pub mod types;
pub mod users;
pub mod utils;
pub mod validation;


pub use types::{
    Account, Certificate, CertificateMetadata, CollectionMetadata, CreateCertificateRequest,
    LoginResult, NFTGenerationResult, PhysicalArtSession, S3Config, Token, TokenMetadata,
    TransferRequest, TransferResponse, UploadFileData, User, VerificationResult,
};
