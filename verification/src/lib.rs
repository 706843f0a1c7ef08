//! A verified core for issuing an X.509 certificate hierarchy and producing
//! signed content-provenance manifests over media files.
//!
//! The certificate-chain decisions (distinguished names, validity windows,
//! CA extensions, which key signs), the assertion store with its
//! last-write-wins semantics, and the ordered signature-algorithm fallback
//! are all verified; calls into the cryptographic and provenance libraries
//! stand behind small trusted wrappers whose contracts state what those
//! libraries document.

pub mod assertions;
pub mod certificates;
pub mod common;
pub mod content_credentials;
pub mod json_text;
pub mod manifest_io;
pub mod x509;

pub use assertions::{AIDataMiningUsage, CustomAITrainingOptions, ExifData};
pub use certificates::{
    create_certificate, create_content_credentials_certificate, create_private_key,
    create_root_certificate, request_signed_certificate, Certificate, CertificateOptions,
    CertificateType,
};
pub use common::{FileData, SimpleC2PAError};
pub use content_credentials::{ApplicationInfo, ContentCredentials};
