//! The certificate authority engine: typed certificate parameters, the
//! distinguished-name and extension recipe for each certificate type, and
//! chain-correct construction of self-signed and parent-signed certificates.

use vstd::prelude::*;
use vstd::string::StrSliceExecFns;
use vstd::string::StringExecFns;
use crate::common::{FileData, SimpleC2PAError};
use crate::x509::{
    authority_key_id_ext, basic_constraints_ca, basic_constraints_plain, cert_builder_append_extension,
    cert_builder_into_pem, cert_builder_new, cert_builder_set_issuer_from_parent_pem,
    cert_builder_set_issuer_name, cert_builder_set_pubkey, cert_builder_set_serial,
    cert_builder_set_subject_name, cert_builder_set_validity_days, cert_builder_set_version,
    cert_builder_sign_sha512, cert_signed_by, extended_key_usage_email, generate_p256_key_pem,
    key_usage_cert_sign, key_usage_digital_signature, name_builder_append, name_builder_build,
    lemma_be_nat_bound, name_builder_new, name_entries, pem_cert_extensions, pem_cert_issuer,
    pem_cert_serial, pem_cert_subject, pem_cert_validity_days, pem_cert_version,
    private_key_from_pem, random_serial_bytes, spec_byte_range, subject_key_id_ext,
    ExtensionKind,
};

verus! {

/// The organization name used when the caller supplies none.
pub fn default_organization() -> (r: &'static str)
    ensures
        r@ == "SimpleC2PA"@,
{
    "SimpleC2PA"
}

/// A fresh P-256 private key, PEM/PKCS8-encoded, wrapped in a resource
/// handle. Fails only on an underlying cryptographic-library error.
pub fn create_private_key() -> (r: Result<FileData, SimpleC2PAError>)
    ensures
        r matches Ok(f) ==> f.path is None && f.file_name is None && (f.bytes matches Some(b)
            && b@.len() > 0),
        r matches Err(e) ==> e matches SimpleC2PAError::Failure { .. },
{
    let pem = generate_p256_key_pem()?;
    Ok(FileData::new(None, Some(pem), None))
}

/// The kind of certificate to build, with optional overrides for the
/// organization name and the validity window length.
#[derive(Debug, Clone)]
pub enum CertificateType {
    OnlineRoot { organization: Option<String>, validity_days: Option<u32> },
    OnlineIntermediate { organization: Option<String>, validity_days: Option<u32> },
    OfflineRoot { organization: Option<String>, validity_days: Option<u32> },
    OfflineIntermediate { organization: Option<String>, validity_days: Option<u32> },
    ContentCredentials { organization: Option<String>, validity_days: Option<u32> },
}

impl CertificateType {
    /// The caller-supplied organization override, if any.
    pub open spec fn spec_organization_field(&self) -> Option<String> {
        match self {
            CertificateType::OnlineRoot { organization, .. } => *organization,
            CertificateType::OnlineIntermediate { organization, .. } => *organization,
            CertificateType::OfflineRoot { organization, .. } => *organization,
            CertificateType::OfflineIntermediate { organization, .. } => *organization,
            CertificateType::ContentCredentials { organization, .. } => *organization,
        }
    }

    /// The caller-supplied validity override, if any.
    pub open spec fn spec_validity_field(&self) -> Option<u32> {
        match self {
            CertificateType::OnlineRoot { validity_days, .. } => *validity_days,
            CertificateType::OnlineIntermediate { validity_days, .. } => *validity_days,
            CertificateType::OfflineRoot { validity_days, .. } => *validity_days,
            CertificateType::OfflineIntermediate { validity_days, .. } => *validity_days,
            CertificateType::ContentCredentials { validity_days, .. } => *validity_days,
        }
    }

    /// Whether this certificate type is a certificate authority.
    pub open spec fn spec_is_ca(&self) -> bool {
        !(self matches CertificateType::ContentCredentials { .. })
    }

    /// The validity window length: the override when present, else twenty
    /// years for authorities and one year for a content-credentials
    /// certificate.
    pub open spec fn spec_validity_days(&self) -> u32 {
        match self.spec_validity_field() {
            Some(days) => days,
            None => if self.spec_is_ca() {
                7300
            } else {
                365
            },
        }
    }

    /// The organization: the override when present, else the default.
    pub open spec fn spec_organization(&self) -> Seq<char> {
        match self.spec_organization_field() {
            Some(org) => org@,
            None => "SimpleC2PA"@,
        }
    }

    /// The human-readable suffix of this type's common name.
    pub open spec fn spec_name_suffix(&self) -> Seq<char> {
        match self {
            CertificateType::OnlineRoot { .. } => "Root CA"@,
            CertificateType::OnlineIntermediate { .. } => "Intermediate CA"@,
            CertificateType::OfflineRoot { .. } => "Offline Root CA"@,
            CertificateType::OfflineIntermediate { .. } => "Offline Intermediate CA"@,
            CertificateType::ContentCredentials { .. } => "Content Credentials"@,
        }
    }

    /// The common name: organization, a space, and the type's suffix.
    pub open spec fn spec_common_name(&self) -> Seq<char> {
        self.spec_organization() + " "@ + self.spec_name_suffix()
    }

    /// Whether this certificate type is a certificate authority: every
    /// variant but `ContentCredentials` is.
    pub fn is_ca(&self) -> (r: bool)
        ensures
            r == self.spec_is_ca(),
    {
        match self {
            CertificateType::ContentCredentials { .. } => false,
            _ => true,
        }
    }

    /// The validity window length in days.
    pub fn validity_days(&self) -> (r: u32)
        ensures
            r == self.spec_validity_days(),
    {
        let field = match self {
            CertificateType::OnlineRoot { validity_days, .. } => validity_days,
            CertificateType::OnlineIntermediate { validity_days, .. } => validity_days,
            CertificateType::OfflineRoot { validity_days, .. } => validity_days,
            CertificateType::OfflineIntermediate { validity_days, .. } => validity_days,
            CertificateType::ContentCredentials { validity_days, .. } => validity_days,
        };
        match field {
            Some(days) => *days,
            None => if self.is_ca() {
                7300
            } else {
                365
            },
        }
    }

    /// The organization for this certificate's distinguished name.
    pub fn to_organization(&self) -> (r: String)
        ensures
            r@ == self.spec_organization(),
    {
        let field = match self {
            CertificateType::OnlineRoot { organization, .. } => organization,
            CertificateType::OnlineIntermediate { organization, .. } => organization,
            CertificateType::OfflineRoot { organization, .. } => organization,
            CertificateType::OfflineIntermediate { organization, .. } => organization,
            CertificateType::ContentCredentials { organization, .. } => organization,
        };
        match field {
            Some(org) => org.clone(),
            None => String::from_str(default_organization()),
        }
    }

    /// The common name for this certificate's distinguished name.
    pub fn to_common_name(&self) -> (r: String)
        ensures
            r@ == self.spec_common_name(),
    {
        let suffix = match self {
            CertificateType::OnlineRoot { .. } => "Root CA",
            CertificateType::OnlineIntermediate { .. } => "Intermediate CA",
            CertificateType::OfflineRoot { .. } => "Offline Root CA",
            CertificateType::OfflineIntermediate { .. } => "Offline Intermediate CA",
            CertificateType::ContentCredentials { .. } => "Content Credentials",
        };
        let field = match self {
            CertificateType::OnlineRoot { organization, .. } => organization,
            CertificateType::OnlineIntermediate { organization, .. } => organization,
            CertificateType::OfflineRoot { organization, .. } => organization,
            CertificateType::OfflineIntermediate { organization, .. } => organization,
            CertificateType::ContentCredentials { organization, .. } => organization,
        };
        let org: Option<&str> = match field {
            Some(org) => Some(org.as_str()),
            None => None,
        };
        format_certificate_name(org, suffix)
    }
}

/// Everything but `ContentCredentials` is a certificate authority; for
/// `ContentCredentials` the authority flag is false.
pub proof fn lemma_is_ca_characterization(t: CertificateType)
    ensures
        t.spec_is_ca() <==> !(t matches CertificateType::ContentCredentials { .. }),
{
}

/// The validity window length equals the caller-supplied override when
/// present, else the fixed default: 7300 days for every authority type and
/// 365 days for a content-credentials certificate.
pub proof fn lemma_validity_days_default(t: CertificateType)
    ensures
        t.spec_validity_field() matches Some(d) ==> t.spec_validity_days() == d,
        t.spec_validity_field() is None && t.spec_is_ca() ==> t.spec_validity_days() == 7300,
        t.spec_validity_field() is None && !t.spec_is_ca() ==> t.spec_validity_days() == 365,
{
}

/// The organization (or the default when none is given), a space, and the
/// given name.
fn format_certificate_name(org: Option<&str>, name: &str) -> (r: String)
    ensures
        r@ == (match org {
            Some(o) => o@,
            None => "SimpleC2PA"@,
        }) + " "@ + name@,
{
    let mut out = match org {
        Some(o) => String::from_str(o),
        None => String::from_str(default_organization()),
    };
    out.append(" ");
    out.append(name);
    out
}

/// The immutable construction record for one certificate: the subject's key
/// handle, the certificate type, the optional parent certificate, and the
/// optional e-mail address and PGP fingerprint for the subject name.
#[derive(Debug, Clone)]
pub struct CertificateOptions {
    pub key: FileData,
    pub certificate_type: CertificateType,
    pub parent_certificate: Option<Box<Certificate>>,
    pub email_address: Option<String>,
    pub pgp_fingerprint: Option<String>,
}

impl CertificateOptions {
    /// Bundles certificate construction parameters.
    pub fn new(
        key: FileData,
        certificate_type: CertificateType,
        parent_certificate: Option<Box<Certificate>>,
        email_address: Option<String>,
        pgp_fingerprint: Option<String>,
    ) -> (r: CertificateOptions)
        ensures
            r.key == key,
            r.certificate_type == certificate_type,
            r.parent_certificate == parent_certificate,
            r.email_address == email_address,
            r.pgp_fingerprint == pgp_fingerprint,
    {
        CertificateOptions { key, certificate_type, parent_certificate, email_address, pgp_fingerprint }
    }

    /// The distinguished-name entries this record asks for: the common name,
    /// the organization, and the e-mail address when present.
    pub open spec fn spec_dn_entries(&self) -> Seq<(Seq<char>, Seq<char>)> {
        let base = Seq::<(Seq<char>, Seq<char>)>::empty().push(
            ("CN"@, self.certificate_type.spec_common_name()),
        ).push(("O"@, self.certificate_type.spec_organization()));
        match self.email_address {
            Some(email) => base.push(("emailAddress"@, email@)),
            None => base,
        }
    }
}

/// A built certificate: its PEM-encoded bytes, the subject's own private
/// key bytes, and the parent it chains to, if any.
#[derive(Debug)]
pub struct Certificate {
    pub certificate_data: FileData,
    pub private_key_data: FileData,
    pub parent_certificate: Option<Box<Certificate>>,
}

impl Clone for Certificate {
    /// Copies the certificate and its whole parent chain.
    fn clone(&self) -> (res: Self)
        decreases *self,
    {
        let parent_certificate: Option<Box<Certificate>> = match &self.parent_certificate {
            Some(parent) => Some(Box::new((**parent).clone())),
            None => None,
        };
        Certificate {
            certificate_data: self.certificate_data.clone(),
            private_key_data: self.private_key_data.clone(),
            parent_certificate,
        }
    }
}

impl Certificate {
    /// Bundles an already-built certificate.
    pub fn new(
        certificate_data: FileData,
        private_key_data: FileData,
        parent_certificate: Option<Box<Certificate>>,
    ) -> (r: Certificate)
        ensures
            r.certificate_data == certificate_data,
            r.private_key_data == private_key_data,
            r.parent_certificate == parent_certificate,
    {
        Certificate { certificate_data, private_key_data, parent_certificate }
    }

    /// The PEM-encoded certificate bytes.
    pub fn get_certificate_bytes(&self) -> (r: Result<Vec<u8>, SimpleC2PAError>)
        ensures
            self.certificate_data.bytes matches Some(b) ==> (r matches Ok(v) && v@ == b@),
            self.certificate_data.bytes is None && self.certificate_data.path is None ==> r is Err,
            r matches Err(e) ==> e matches SimpleC2PAError::Failure { .. },
    {
        self.certificate_data.get_bytes()
    }

    /// The PEM-encoded private key bytes of the certificate's own subject.
    pub fn get_private_key_bytes(&self) -> (r: Result<Vec<u8>, SimpleC2PAError>)
        ensures
            self.private_key_data.bytes matches Some(b) ==> (r matches Ok(v) && v@ == b@),
            self.private_key_data.bytes is None && self.private_key_data.path is None ==> r is Err,
            r matches Err(e) ==> e matches SimpleC2PAError::Failure { .. },
    {
        self.private_key_data.get_bytes()
    }
}

/// The extension recipe: authorities carry critical CA basic constraints
/// and certificate-signing key usage; leaves carry plain basic constraints,
/// digital-signature key usage, an authority key identifier and the
/// e-mail-protection extended key usage. Every certificate carries a subject
/// key identifier.
pub open spec fn spec_extension_recipe(is_ca: bool) -> Seq<ExtensionKind> {
    if is_ca {
        Seq::<ExtensionKind>::empty().push(ExtensionKind::CaBasicConstraints).push(
            ExtensionKind::CertSignKeyUsage,
        ).push(ExtensionKind::SubjectKeyId)
    } else {
        Seq::<ExtensionKind>::empty().push(ExtensionKind::PlainBasicConstraints).push(
            ExtensionKind::DigitalSignatureKeyUsage,
        ).push(ExtensionKind::SubjectKeyId).push(ExtensionKind::AuthorityKeyId).push(
            ExtensionKind::EmailProtectionEku,
        )
    }
}

/// The failure reported when an input exceeds what the encoder's 32-bit
/// signed lengths can carry.
fn encoder_limit_error() -> (r: SimpleC2PAError)
    ensures
        r matches SimpleC2PAError::Failure { .. },
{
    SimpleC2PAError::Failure { message: "input too large for the certificate encoder".to_owned() }
}

/// Builds the distinguished name that `options` asks for. A name text too
/// long for the encoder's 32-bit signed byte lengths is rejected with this
/// library's own failure rather than handed on.
fn create_name(options: &CertificateOptions) -> (r: Result<
    openssl::x509::X509Name,
    SimpleC2PAError,
>)
    ensures
        r matches Ok(n) ==> name_entries(n) == options.spec_dn_entries(),
        r matches Err(e) ==> e matches SimpleC2PAError::Failure { .. },
{
    let mut builder = name_builder_new()?;
    let common_name = options.certificate_type.to_common_name();
    if common_name.as_str().unicode_len() > 0x1fff_ffff {
        return Err(encoder_limit_error());
    }
    name_builder_append(&mut builder, "CN", common_name.as_str())?;
    let organization = options.certificate_type.to_organization();
    if organization.as_str().unicode_len() > 0x1fff_ffff {
        return Err(encoder_limit_error());
    }
    name_builder_append(&mut builder, "O", organization.as_str())?;
    if let Some(email) = &options.email_address {
        if email.as_str().unicode_len() > 0x1fff_ffff {
            return Err(encoder_limit_error());
        }
        name_builder_append(&mut builder, "emailAddress", email.as_str())?;
    }
    Ok(name_builder_build(builder))
}

/// Builds a certificate from the given construction record.
///
/// The result wraps the encoded certificate bytes, the subject's own private
/// key, and the parent reference. The subject name follows the record; with
/// a parent the issuer name is the parent's subject name and the encoding is
/// signed with the parent's private key, otherwise the certificate is
/// self-signed. The validity window and the extensions follow the
/// certificate type. No partial certificate is ever returned.
pub fn create_certificate(options: CertificateOptions) -> (r: Result<
    Certificate,
    SimpleC2PAError,
>)
    ensures
        r matches Ok(c) ==> {
            &&& c.private_key_data == options.key
            &&& c.parent_certificate == options.parent_certificate
            &&& c.certificate_data.path is None
            &&& c.certificate_data.file_name is None
            &&& c.certificate_data.bytes matches Some(pem) ==> {
                &&& pem_cert_subject(pem@) == options.spec_dn_entries()
                &&& pem_cert_version(pem@) == 2
                &&& pem_cert_serial(pem@) < spec_byte_range(20)
                &&& pem_cert_validity_days(pem@) == options.certificate_type.spec_validity_days()
                &&& pem_cert_extensions(pem@) == spec_extension_recipe(
                    options.certificate_type.spec_is_ca(),
                )
                &&& options.parent_certificate is None ==> pem_cert_issuer(pem@)
                    == options.spec_dn_entries()
                &&& options.parent_certificate is None ==> (options.key.bytes matches Some(kb)
                    ==> cert_signed_by(pem@, kb@))
                &&& options.parent_certificate matches Some(p) ==> {
                    &&& p.certificate_data.bytes matches Some(pb) ==> pem_cert_issuer(pem@)
                        == pem_cert_subject(pb@)
                    &&& p.private_key_data.bytes matches Some(pk) ==> cert_signed_by(pem@, pk@)
                }
            }
            &&& c.certificate_data.bytes is Some
        },
        r matches Err(e) ==> e matches SimpleC2PAError::Failure { .. },
        options.key.bytes is None && options.key.path is None ==> r is Err,
        options.parent_certificate matches Some(p) ==> ((p.certificate_data.bytes is None
            && p.certificate_data.path is None) ==> r is Err),
        options.parent_certificate matches Some(p) ==> ((p.private_key_data.bytes is None
            && p.private_key_data.path is None) ==> r is Err),
{
    let serial = random_serial_bytes()?;
    let key_bytes = options.key.get_bytes()?;
    if key_bytes.len() > 0x7fff_ffff {
        return Err(encoder_limit_error());
    }
    let private_key = private_key_from_pem(&key_bytes)?;
    let is_ca = options.certificate_type.is_ca();
    let name = create_name(&options)?;

    let mut builder = cert_builder_new()?;
    cert_builder_set_version(&mut builder, 2)?;
    cert_builder_set_subject_name(&mut builder, &name)?;
    let parent_cert_bytes: Option<Vec<u8>> = match &options.parent_certificate {
        Some(parent) => Some(parent.certificate_data.get_bytes()?),
        None => None,
    };
    match &parent_cert_bytes {
        Some(parent_pem) => {
            if parent_pem.len() > 0x7fff_ffff {
                return Err(encoder_limit_error());
            }
            cert_builder_set_issuer_from_parent_pem(&mut builder, parent_pem)?
        },
        None => cert_builder_set_issuer_name(&mut builder, &name)?,
    }
    cert_builder_set_pubkey(&mut builder, &private_key)?;
    cert_builder_set_serial(&mut builder, &serial)?;
    cert_builder_set_validity_days(&mut builder, options.certificate_type.validity_days())?;

    let basic_constraints = if is_ca {
        basic_constraints_ca()?
    } else {
        basic_constraints_plain()?
    };
    cert_builder_append_extension(&mut builder, basic_constraints)?;
    let key_usage = if is_ca {
        key_usage_cert_sign()?
    } else {
        key_usage_digital_signature()?
    };
    cert_builder_append_extension(&mut builder, key_usage)?;
    let subject_key_id = subject_key_id_ext(&builder)?;
    cert_builder_append_extension(&mut builder, subject_key_id)?;
    if !is_ca {
        let authority_key_id = authority_key_id_ext(&builder)?;
        cert_builder_append_extension(&mut builder, authority_key_id)?;
        let extended_key_usage = extended_key_usage_email()?;
        cert_builder_append_extension(&mut builder, extended_key_usage)?;
    }

    match &options.parent_certificate {
        Some(parent) => {
            let parent_key_bytes = parent.private_key_data.get_bytes()?;
            if parent_key_bytes.len() > 0x7fff_ffff {
                return Err(encoder_limit_error());
            }
            let parent_key = private_key_from_pem(&parent_key_bytes)?;
            cert_builder_sign_sha512(&mut builder, &parent_key)?;
        },
        None => {
            cert_builder_sign_sha512(&mut builder, &private_key)?;
        },
    }

    let pem = cert_builder_into_pem(builder)?;
    proof {
        lemma_be_nat_bound(serial@);
    }
    Ok(
        Certificate {
            certificate_data: FileData::new(None, Some(pem), None),
            private_key_data: options.key,
            parent_certificate: options.parent_certificate,
        },
    )
}

/// Generates a fresh key and builds a self-signed offline-root certificate
/// from it, with the given overrides.
pub fn create_root_certificate(
    organization: Option<String>,
    validity_days: Option<u32>,
) -> (r: Result<Certificate, SimpleC2PAError>)
    ensures
        r matches Ok(c) ==> {
            let t = CertificateType::OfflineRoot { organization, validity_days };
            let opts = CertificateOptions {
                key: c.private_key_data,
                certificate_type: t,
                parent_certificate: None,
                email_address: None,
                pgp_fingerprint: None,
            };
            &&& c.parent_certificate is None
            &&& c.private_key_data.bytes is Some
            &&& c.certificate_data.bytes matches Some(pem) ==> {
                &&& pem_cert_subject(pem@) == opts.spec_dn_entries()
                &&& pem_cert_issuer(pem@) == opts.spec_dn_entries()
                &&& pem_cert_version(pem@) == 2
                &&& pem_cert_serial(pem@) < spec_byte_range(20)
                &&& pem_cert_validity_days(pem@) == t.spec_validity_days()
                &&& pem_cert_extensions(pem@) == spec_extension_recipe(true)
                &&& c.private_key_data.bytes matches Some(kb) ==> cert_signed_by(pem@, kb@)
            }
            &&& c.certificate_data.bytes is Some
        },
        r matches Err(e) ==> e matches SimpleC2PAError::Failure { .. },
{
    let key = create_private_key()?;
    let options = CertificateOptions::new(
        key,
        CertificateType::OfflineRoot { organization, validity_days },
        None,
        None,
        None,
    );
    create_certificate(options)
}

/// Generates a fresh key and builds a content-credentials certificate from
/// it, parented to the given root when one is supplied (else self-signed).
pub fn create_content_credentials_certificate(
    root_certificate: Option<Certificate>,
    organization: Option<String>,
    validity_days: Option<u32>,
) -> (r: Result<Certificate, SimpleC2PAError>)
    ensures
        r matches Ok(c) ==> {
            let t = CertificateType::ContentCredentials { organization, validity_days };
            let opts = CertificateOptions {
                key: c.private_key_data,
                certificate_type: t,
                parent_certificate: c.parent_certificate,
                email_address: None,
                pgp_fingerprint: None,
            };
            &&& c.private_key_data.bytes is Some
            &&& (match root_certificate {
                Some(root) => c.parent_certificate == Some(Box::new(root)),
                None => c.parent_certificate is None,
            })
            &&& c.certificate_data.bytes matches Some(pem) ==> {
                &&& pem_cert_subject(pem@) == opts.spec_dn_entries()
                &&& pem_cert_version(pem@) == 2
                &&& pem_cert_serial(pem@) < spec_byte_range(20)
                &&& pem_cert_validity_days(pem@) == t.spec_validity_days()
                &&& pem_cert_extensions(pem@) == spec_extension_recipe(false)
                &&& c.parent_certificate is None ==> pem_cert_issuer(pem@)
                    == opts.spec_dn_entries()
                &&& c.parent_certificate matches Some(p) ==> {
                    &&& p.certificate_data.bytes matches Some(pb) ==> pem_cert_issuer(pem@)
                        == pem_cert_subject(pb@)
                    &&& p.private_key_data.bytes matches Some(pk) ==> cert_signed_by(pem@, pk@)
                }
            }
            &&& c.certificate_data.bytes is Some
        },
        r matches Err(e) ==> e matches SimpleC2PAError::Failure { .. },
{
    let key = create_private_key()?;
    let parent: Option<Box<Certificate>> = match root_certificate {
        Some(root) => Some(Box::new(root)),
        None => None,
    };
    let options = CertificateOptions::new(
        key,
        CertificateType::ContentCredentials { organization, validity_days },
        parent,
        None,
        None,
    );
    create_certificate(options)
}

/// The reserved extension point for requesting a certificate from an
/// external authority: not implemented, and surfaced as such.
pub fn request_signed_certificate(options: &CertificateOptions) -> (r: Result<
    String,
    SimpleC2PAError,
>)
    ensures
        r matches Err(SimpleC2PAError::Failure { message }) && message@
            == "request_signed_certificate is not yet implemented"@,
{
    let _ = options;
    Err(
        SimpleC2PAError::Failure {
            message: "request_signed_certificate is not yet implemented".to_owned(),
        },
    )
}

} // verus!


