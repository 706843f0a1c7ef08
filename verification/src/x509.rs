//! The trusted boundary to the X.509/ASN.1 encoder and the entropy source.
//!
//! Each wrapper makes one call (or one fluent builder chain) into the
//! cryptographic library. The state that a certificate builder accumulates is
//! modeled by uninterpreted facet functions — the subject and issuer name
//! entries, the version field, the serial number, the validity window
//! length, the appended extensions, and the signing key — and every wrapper
//! states how its call moves those facets, as the library's documentation
//! describes it.
//!
//! Signing is terminal by construction: the signature is computed over the
//! builder's content at the moment of the signing call, so every wrapper
//! that changes that content afterwards drops the signer facet back to
//! `None`. Only an encoding produced while the facet is still set is
//! promised to verify under the recorded key.
//!
//! Where the wrapped call would abort rather than err on an oversized or
//! malformed argument (the encoder asserts its buffers fit a 32-bit signed
//! length, and attribute field names pass through a NUL-terminated C
//! string), a `requires` leaves that argument out; the verified callers
//! test the bound and fail with this library's own error instead.

use vstd::prelude::*;
use crate::common::SimpleC2PAError;

verus! {

#[verifier::external_type_specification]
#[verifier::external_body]
pub struct ExX509NameBuilder(openssl::x509::X509NameBuilder);

#[verifier::external_type_specification]
#[verifier::external_body]
pub struct ExX509Name(openssl::x509::X509Name);

#[verifier::external_type_specification]
#[verifier::external_body]
pub struct ExX509Builder(openssl::x509::X509Builder);

#[verifier::external_type_specification]
#[verifier::external_body]
pub struct ExX509Extension(openssl::x509::X509Extension);

#[verifier::external_type_specification]
#[verifier::external_body]
#[verifier::reject_recursive_types(T)]
pub struct ExPKey<T>(openssl::pkey::PKey<T>);

#[verifier::external_type_specification]
#[verifier::external_body]
pub struct ExPrivate(openssl::pkey::Private);

/// The X.509v3 extensions this library appends, by shape.
#[derive(Debug, Clone, Copy, PartialEq, Eq, Structural)]
pub enum ExtensionKind {
    /// `BasicConstraints`, critical, with the CA flag set.
    CaBasicConstraints,
    /// `BasicConstraints` with no flag set.
    PlainBasicConstraints,
    /// `KeyUsage`, critical, with `keyCertSign` and `crlSign`.
    CertSignKeyUsage,
    /// `KeyUsage` with `digitalSignature`.
    DigitalSignatureKeyUsage,
    /// `SubjectKeyIdentifier`.
    SubjectKeyId,
    /// `AuthorityKeyIdentifier` in its keyid-only form.
    AuthorityKeyId,
    /// `ExtendedKeyUsage: emailProtection`.
    EmailProtectionEku,
}

/// The number a big-endian byte string encodes.
pub open spec fn spec_be_nat(s: Seq<u8>) -> nat
    decreases s.len(),
{
    if s.len() == 0 {
        0
    } else {
        spec_be_nat(s.drop_last()) * 256 + (s.last() as nat)
    }
}

/// The count of numbers a byte string of length `n` can encode.
pub open spec fn spec_byte_range(n: nat) -> nat
    decreases n,
{
    if n == 0 {
        1
    } else {
        256 * spec_byte_range((n - 1) as nat)
    }
}

/// A big-endian byte string encodes a number below the range of its length.
pub proof fn lemma_be_nat_bound(s: Seq<u8>)
    ensures
        spec_be_nat(s) < spec_byte_range(s.len()),
    decreases s.len(),
{
    if s.len() == 0 {
    } else {
        lemma_be_nat_bound(s.drop_last());
    }
}

/// The (field, text) entries a name builder has accumulated, in order.
pub uninterp spec fn name_builder_entries(b: openssl::x509::X509NameBuilder) -> Seq<
    (Seq<char>, Seq<char>),
>;

/// The (field, text) entries of a built distinguished name, in order.
pub uninterp spec fn name_entries(n: openssl::x509::X509Name) -> Seq<(Seq<char>, Seq<char>)>;

/// The PEM text a private key was parsed from.
pub uninterp spec fn private_key_pem(
    k: openssl::pkey::PKey<openssl::pkey::Private>,
) -> Seq<u8>;

/// The subject name entries set on a certificate builder, if any yet.
pub uninterp spec fn builder_subject(b: openssl::x509::X509Builder) -> Option<
    Seq<(Seq<char>, Seq<char>)>,
>;

/// The issuer name entries set on a certificate builder, if any yet.
pub uninterp spec fn builder_issuer(b: openssl::x509::X509Builder) -> Option<
    Seq<(Seq<char>, Seq<char>)>,
>;

/// The version field set on a certificate builder, if any yet (the value 2
/// encodes X.509 version 3).
pub uninterp spec fn builder_version(b: openssl::x509::X509Builder) -> Option<i32>;

/// The serial number set on a certificate builder, if any yet, as the
/// number its big-endian bytes encode.
pub uninterp spec fn builder_serial(b: openssl::x509::X509Builder) -> Option<nat>;

/// The length in days of the validity window set on a certificate builder.
pub uninterp spec fn builder_validity_days(b: openssl::x509::X509Builder) -> Option<u32>;

/// The extensions appended to a certificate builder, in order.
pub uninterp spec fn builder_extensions(b: openssl::x509::X509Builder) -> Seq<ExtensionKind>;

/// The PEM text of the private key the builder's content was signed with,
/// when the signing call came after every content-changing call; `None`
/// before any signing and after any later content change, whose stale
/// signature the final encoding would no longer match.
pub uninterp spec fn builder_signer(b: openssl::x509::X509Builder) -> Option<Seq<u8>>;

/// The shape of a built extension.
pub uninterp spec fn extension_kind(e: openssl::x509::X509Extension) -> ExtensionKind;

/// The subject name entries of the certificate a PEM text encodes. The
/// field of each entry is read as the text it was appended under; this
/// library only ever appends the canonical short names ("CN", "O",
/// "emailAddress"), so no alias form of a field name arises.
pub uninterp spec fn pem_cert_subject(pem: Seq<u8>) -> Seq<(Seq<char>, Seq<char>)>;

/// The issuer name entries of the certificate a PEM text encodes, with
/// field names read as for the subject entries.
pub uninterp spec fn pem_cert_issuer(pem: Seq<u8>) -> Seq<(Seq<char>, Seq<char>)>;

/// The version field of the certificate a PEM text encodes (the value 2
/// encodes X.509 version 3).
pub uninterp spec fn pem_cert_version(pem: Seq<u8>) -> int;

/// The serial number of the certificate a PEM text encodes, as a number.
pub uninterp spec fn pem_cert_serial(pem: Seq<u8>) -> nat;

/// The length in days, to the nearest day, of the validity window of the
/// certificate a PEM text encodes.
pub uninterp spec fn pem_cert_validity_days(pem: Seq<u8>) -> u32;

/// The extensions of the certificate a PEM text encodes, in order.
pub uninterp spec fn pem_cert_extensions(pem: Seq<u8>) -> Seq<ExtensionKind>;

/// Whether the signature of the certificate in `pem` verifies under the key
/// pair whose private half is the PEM text `key_pem`.
pub uninterp spec fn cert_signed_by(pem: Seq<u8>, key_pem: Seq<u8>) -> bool;

/// Relies on openssl (EcGroup::from_curve_name, EcKey::generate,
/// PKey::from_ec_key, private_key_to_pem_pkcs8): a fresh P-256 elliptic-curve
/// key, PEM/PKCS8-encoded. The key is random; only that a successful PEM
/// encoding is never empty is stated of the bytes.
#[verifier::external_body]
pub(crate) fn generate_p256_key_pem() -> (r: Result<Vec<u8>, SimpleC2PAError>)
    ensures
        r matches Ok(v) ==> v@.len() > 0,
        r matches Err(e) ==> e matches SimpleC2PAError::Failure { .. },
{
    let fail = |e: openssl::error::ErrorStack| SimpleC2PAError::Failure { message: e.to_string() };
    let group =
        openssl::ec::EcGroup::from_curve_name(openssl::nid::Nid::X9_62_PRIME256V1).map_err(fail)?;
    let ec_key = openssl::ec::EcKey::generate(&group).map_err(fail)?;
    let key = openssl::pkey::PKey::from_ec_key(ec_key).map_err(fail)?;
    key.private_key_to_pem_pkcs8().map_err(fail)
}

/// Relies on ring::rand::SystemRandom and SecureRandom::fill: fills a
/// 20-byte buffer with cryptographically random bytes.
#[verifier::external_body]
pub(crate) fn random_serial_bytes() -> (r: Result<Vec<u8>, SimpleC2PAError>)
    ensures
        r matches Ok(v) ==> v@.len() == 20,
        r matches Err(e) ==> e matches SimpleC2PAError::Failure { .. },
{
    let random = ring::rand::SystemRandom::new();
    let mut serial = [0u8; 20];
    ring::rand::SecureRandom::fill(&random, &mut serial)
        .map_err(|_| SimpleC2PAError::Failure { message: "entropy source unavailable".to_owned() })?;
    Ok(serial.to_vec())
}

/// Relies on PKey::private_key_from_pem: parses a PEM-encoded private key.
/// The encoder's in-memory BIO asserts its buffer fits a 32-bit signed
/// length, so larger input is left out rather than admitted to abort.
#[verifier::external_body]
pub(crate) fn private_key_from_pem(pem: &Vec<u8>) -> (r: Result<
    openssl::pkey::PKey<openssl::pkey::Private>,
    SimpleC2PAError,
>)
    requires
        pem@.len() <= 0x7fff_ffff,
    ensures
        r matches Ok(k) ==> private_key_pem(k) == pem@,
        r matches Err(e) ==> e matches SimpleC2PAError::Failure { .. },
{
    openssl::pkey::PKey::private_key_from_pem(pem)
        .map_err(|e| SimpleC2PAError::Failure { message: e.to_string() })
}

/// Relies on X509NameBuilder::new: a fresh name builder with no entries.
#[verifier::external_body]
pub(crate) fn name_builder_new() -> (r: Result<openssl::x509::X509NameBuilder, SimpleC2PAError>)
    ensures
        r matches Ok(b) ==> name_builder_entries(b) == Seq::<(Seq<char>, Seq<char>)>::empty(),
        r matches Err(e) ==> e matches SimpleC2PAError::Failure { .. },
{
    openssl::x509::X509NameBuilder::new()
        .map_err(|e| SimpleC2PAError::Failure { message: e.to_string() })
}

/// Relies on X509NameBuilder::append_entry_by_text: appends one
/// (field, text) entry to the name under construction. The field passes
/// through a NUL-terminated C string, which would abort on an interior NUL
/// byte, so it is pinned to the canonical attribute names this library
/// emits; the text is passed with an explicit 32-bit signed byte length,
/// so its character count is bounded to keep every UTF-8 encoding within
/// that.
#[verifier::external_body]
pub(crate) fn name_builder_append(
    b: &mut openssl::x509::X509NameBuilder,
    field: &str,
    text: &str,
) -> (r: Result<(), SimpleC2PAError>)
    requires
        field@ == "CN"@ || field@ == "O"@ || field@ == "emailAddress"@,
        text@.len() <= 0x1fff_ffff,
    ensures
        r matches Ok(_) ==> name_builder_entries(*final(b)) == name_builder_entries(*old(b)).push(
            (field@, text@),
        ),
        r matches Err(e) ==> e matches SimpleC2PAError::Failure { .. },
{
    b.append_entry_by_text(field, text)
        .map_err(|e| SimpleC2PAError::Failure { message: e.to_string() })
}

/// Relies on X509NameBuilder::build: the built name holds exactly the
/// appended entries.
#[verifier::external_body]
pub(crate) fn name_builder_build(b: openssl::x509::X509NameBuilder) -> (n:
    openssl::x509::X509Name)
    ensures
        name_entries(n) == name_builder_entries(b),
{
    b.build()
}

/// Relies on X509::builder: a fresh certificate builder with nothing set.
#[verifier::external_body]
pub(crate) fn cert_builder_new() -> (r: Result<openssl::x509::X509Builder, SimpleC2PAError>)
    ensures
        r matches Ok(b) ==> {
            &&& builder_subject(b) is None
            &&& builder_issuer(b) is None
            &&& builder_version(b) is None
            &&& builder_serial(b) is None
            &&& builder_validity_days(b) is None
            &&& builder_signer(b) is None
            &&& builder_extensions(b) == Seq::<ExtensionKind>::empty()
        },
        r matches Err(e) ==> e matches SimpleC2PAError::Failure { .. },
{
    openssl::x509::X509::builder()
        .map_err(|e| SimpleC2PAError::Failure { message: e.to_string() })
}

/// Relies on X509Builder::set_version: sets the certificate version field
/// (the value 2 encodes X.509 version 3). Changing the content drops any
/// earlier signature.
#[verifier::external_body]
pub(crate) fn cert_builder_set_version(b: &mut openssl::x509::X509Builder, version: i32) -> (r:
    Result<(), SimpleC2PAError>)
    ensures
        r matches Ok(_) ==> {
            &&& builder_version(*final(b)) == Some(version)
            &&& builder_subject(*final(b)) == builder_subject(*old(b))
            &&& builder_issuer(*final(b)) == builder_issuer(*old(b))
            &&& builder_serial(*final(b)) == builder_serial(*old(b))
            &&& builder_validity_days(*final(b)) == builder_validity_days(*old(b))
            &&& builder_signer(*final(b)) is None
            &&& builder_extensions(*final(b)) == builder_extensions(*old(b))
        },
        r matches Err(e) ==> e matches SimpleC2PAError::Failure { .. },
{
    b.set_version(version).map_err(|e| SimpleC2PAError::Failure { message: e.to_string() })
}

/// Relies on X509Builder::set_subject_name: the subject facet becomes the
/// given name's entries. Changing the content drops any earlier signature.
#[verifier::external_body]
pub(crate) fn cert_builder_set_subject_name(
    b: &mut openssl::x509::X509Builder,
    n: &openssl::x509::X509Name,
) -> (r: Result<(), SimpleC2PAError>)
    ensures
        r matches Ok(_) ==> {
            &&& builder_subject(*final(b)) == Some(name_entries(*n))
            &&& builder_issuer(*final(b)) == builder_issuer(*old(b))
            &&& builder_version(*final(b)) == builder_version(*old(b))
            &&& builder_serial(*final(b)) == builder_serial(*old(b))
            &&& builder_validity_days(*final(b)) == builder_validity_days(*old(b))
            &&& builder_signer(*final(b)) is None
            &&& builder_extensions(*final(b)) == builder_extensions(*old(b))
        },
        r matches Err(e) ==> e matches SimpleC2PAError::Failure { .. },
{
    b.set_subject_name(n).map_err(|e| SimpleC2PAError::Failure { message: e.to_string() })
}

/// Relies on X509Builder::set_issuer_name: the issuer facet becomes the
/// given name's entries. Changing the content drops any earlier signature.
#[verifier::external_body]
pub(crate) fn cert_builder_set_issuer_name(
    b: &mut openssl::x509::X509Builder,
    n: &openssl::x509::X509Name,
) -> (r: Result<(), SimpleC2PAError>)
    ensures
        r matches Ok(_) ==> {
            &&& builder_issuer(*final(b)) == Some(name_entries(*n))
            &&& builder_subject(*final(b)) == builder_subject(*old(b))
            &&& builder_version(*final(b)) == builder_version(*old(b))
            &&& builder_serial(*final(b)) == builder_serial(*old(b))
            &&& builder_validity_days(*final(b)) == builder_validity_days(*old(b))
            &&& builder_signer(*final(b)) is None
            &&& builder_extensions(*final(b)) == builder_extensions(*old(b))
        },
        r matches Err(e) ==> e matches SimpleC2PAError::Failure { .. },
{
    b.set_issuer_name(n).map_err(|e| SimpleC2PAError::Failure { message: e.to_string() })
}

/// Relies on X509::from_pem and X509Builder::set_issuer_name: parses the
/// given certificate and installs its subject name as this builder's issuer
/// name. Changing the content drops any earlier signature. The encoder's
/// in-memory BIO asserts its buffer fits a 32-bit signed length, so larger
/// input is left out rather than admitted to abort.
#[verifier::external_body]
pub(crate) fn cert_builder_set_issuer_from_parent_pem(
    b: &mut openssl::x509::X509Builder,
    parent_pem: &Vec<u8>,
) -> (r: Result<(), SimpleC2PAError>)
    requires
        parent_pem@.len() <= 0x7fff_ffff,
    ensures
        r matches Ok(_) ==> {
            &&& builder_issuer(*final(b)) == Some(pem_cert_subject(parent_pem@))
            &&& builder_subject(*final(b)) == builder_subject(*old(b))
            &&& builder_version(*final(b)) == builder_version(*old(b))
            &&& builder_serial(*final(b)) == builder_serial(*old(b))
            &&& builder_validity_days(*final(b)) == builder_validity_days(*old(b))
            &&& builder_signer(*final(b)) is None
            &&& builder_extensions(*final(b)) == builder_extensions(*old(b))
        },
        r matches Err(e) ==> e matches SimpleC2PAError::Failure { .. },
{
    let fail = |e: openssl::error::ErrorStack| SimpleC2PAError::Failure { message: e.to_string() };
    let parent = openssl::x509::X509::from_pem(parent_pem).map_err(fail)?;
    b.set_issuer_name(parent.subject_name()).map_err(fail)
}

/// Relies on X509Builder::set_pubkey: records the subject public key (no
/// modeled facet of its own). Changing the content drops any earlier
/// signature.
#[verifier::external_body]
pub(crate) fn cert_builder_set_pubkey(
    b: &mut openssl::x509::X509Builder,
    key: &openssl::pkey::PKey<openssl::pkey::Private>,
) -> (r: Result<(), SimpleC2PAError>)
    ensures
        r matches Ok(_) ==> {
            &&& builder_subject(*final(b)) == builder_subject(*old(b))
            &&& builder_issuer(*final(b)) == builder_issuer(*old(b))
            &&& builder_version(*final(b)) == builder_version(*old(b))
            &&& builder_serial(*final(b)) == builder_serial(*old(b))
            &&& builder_validity_days(*final(b)) == builder_validity_days(*old(b))
            &&& builder_signer(*final(b)) is None
            &&& builder_extensions(*final(b)) == builder_extensions(*old(b))
        },
        r matches Err(e) ==> e matches SimpleC2PAError::Failure { .. },
{
    b.set_pubkey(key).map_err(|e| SimpleC2PAError::Failure { message: e.to_string() })
}

/// Relies on BigNum::from_slice, BigNumRef::to_asn1_integer and
/// X509Builder::set_serial_number: installs the number the big-endian bytes
/// encode as the certificate serial number. The byte count is passed to the
/// encoder as a 32-bit signed length, so larger input is left out. Changing
/// the content drops any earlier signature.
#[verifier::external_body]
pub(crate) fn cert_builder_set_serial(
    b: &mut openssl::x509::X509Builder,
    serial: &Vec<u8>,
) -> (r: Result<(), SimpleC2PAError>)
    requires
        serial@.len() <= 0x7fff_ffff,
    ensures
        r matches Ok(_) ==> {
            &&& builder_serial(*final(b)) == Some(spec_be_nat(serial@))
            &&& builder_subject(*final(b)) == builder_subject(*old(b))
            &&& builder_issuer(*final(b)) == builder_issuer(*old(b))
            &&& builder_version(*final(b)) == builder_version(*old(b))
            &&& builder_validity_days(*final(b)) == builder_validity_days(*old(b))
            &&& builder_signer(*final(b)) is None
            &&& builder_extensions(*final(b)) == builder_extensions(*old(b))
        },
        r matches Err(e) ==> e matches SimpleC2PAError::Failure { .. },
{
    let fail = |e: openssl::error::ErrorStack| SimpleC2PAError::Failure { message: e.to_string() };
    let bignum = openssl::bn::BigNum::from_slice(serial).map_err(fail)?;
    let integer = bignum.to_asn1_integer().map_err(fail)?;
    b.set_serial_number(&integer).map_err(fail)
}

/// Relies on Asn1Time::days_from_now, X509Builder::set_not_before and
/// X509Builder::set_not_after: the validity window runs from now to `days`
/// days from now. The underlying period arithmetic holds whole seconds in a
/// C long, so on a 32-bit target day counts above about 24855 would
/// overflow it; this crate is built for 64-bit targets. Changing the
/// content drops any earlier signature.
#[verifier::external_body]
pub(crate) fn cert_builder_set_validity_days(
    b: &mut openssl::x509::X509Builder,
    days: u32,
) -> (r: Result<(), SimpleC2PAError>)
    ensures
        r matches Ok(_) ==> {
            &&& builder_validity_days(*final(b)) == Some(days)
            &&& builder_subject(*final(b)) == builder_subject(*old(b))
            &&& builder_issuer(*final(b)) == builder_issuer(*old(b))
            &&& builder_version(*final(b)) == builder_version(*old(b))
            &&& builder_serial(*final(b)) == builder_serial(*old(b))
            &&& builder_signer(*final(b)) is None
            &&& builder_extensions(*final(b)) == builder_extensions(*old(b))
        },
        r matches Err(e) ==> e matches SimpleC2PAError::Failure { .. },
{
    let fail = |e: openssl::error::ErrorStack| SimpleC2PAError::Failure { message: e.to_string() };
    let not_before = openssl::asn1::Asn1Time::days_from_now(0).map_err(fail)?;
    let not_after = openssl::asn1::Asn1Time::days_from_now(days).map_err(fail)?;
    b.set_not_before(&not_before).map_err(fail)?;
    b.set_not_after(&not_after).map_err(fail)
}

/// Relies on BasicConstraints (critical, ca, build): a critical
/// `BasicConstraints` extension with the CA flag.
#[verifier::external_body]
pub(crate) fn basic_constraints_ca() -> (r: Result<
    openssl::x509::X509Extension,
    SimpleC2PAError,
>)
    ensures
        r matches Ok(e) ==> extension_kind(e) == ExtensionKind::CaBasicConstraints,
        r matches Err(e) ==> e matches SimpleC2PAError::Failure { .. },
{
    let mut bc = openssl::x509::extension::BasicConstraints::new();
    bc.critical().ca();
    bc.build().map_err(|e| SimpleC2PAError::Failure { message: e.to_string() })
}

/// Relies on BasicConstraints (build): a `BasicConstraints` extension with
/// no flag set.
#[verifier::external_body]
pub(crate) fn basic_constraints_plain() -> (r: Result<
    openssl::x509::X509Extension,
    SimpleC2PAError,
>)
    ensures
        r matches Ok(e) ==> extension_kind(e) == ExtensionKind::PlainBasicConstraints,
        r matches Err(e) ==> e matches SimpleC2PAError::Failure { .. },
{
    openssl::x509::extension::BasicConstraints::new()
        .build()
        .map_err(|e| SimpleC2PAError::Failure { message: e.to_string() })
}

/// Relies on KeyUsage (critical, key_cert_sign, crl_sign, build): a critical
/// `KeyUsage` extension with `keyCertSign` and `crlSign`.
#[verifier::external_body]
pub(crate) fn key_usage_cert_sign() -> (r: Result<
    openssl::x509::X509Extension,
    SimpleC2PAError,
>)
    ensures
        r matches Ok(e) ==> extension_kind(e) == ExtensionKind::CertSignKeyUsage,
        r matches Err(e) ==> e matches SimpleC2PAError::Failure { .. },
{
    let mut ku = openssl::x509::extension::KeyUsage::new();
    ku.critical().key_cert_sign().crl_sign();
    ku.build().map_err(|e| SimpleC2PAError::Failure { message: e.to_string() })
}

/// Relies on KeyUsage (digital_signature, build): a `KeyUsage` extension
/// with `digitalSignature`.
#[verifier::external_body]
pub(crate) fn key_usage_digital_signature() -> (r: Result<
    openssl::x509::X509Extension,
    SimpleC2PAError,
>)
    ensures
        r matches Ok(e) ==> extension_kind(e) == ExtensionKind::DigitalSignatureKeyUsage,
        r matches Err(e) ==> e matches SimpleC2PAError::Failure { .. },
{
    let mut ku = openssl::x509::extension::KeyUsage::new();
    ku.digital_signature();
    ku.build().map_err(|e| SimpleC2PAError::Failure { message: e.to_string() })
}

/// Relies on SubjectKeyIdentifier::build over the builder's X.509v3 context:
/// a `SubjectKeyIdentifier` extension for the builder's public key.
#[verifier::external_body]
pub(crate) fn subject_key_id_ext(b: &openssl::x509::X509Builder) -> (r: Result<
    openssl::x509::X509Extension,
    SimpleC2PAError,
>)
    ensures
        r matches Ok(e) ==> extension_kind(e) == ExtensionKind::SubjectKeyId,
        r matches Err(e) ==> e matches SimpleC2PAError::Failure { .. },
{
    openssl::x509::extension::SubjectKeyIdentifier::new()
        .build(&b.x509v3_context(None, None))
        .map_err(|e| SimpleC2PAError::Failure { message: e.to_string() })
}

/// Relies on AuthorityKeyIdentifier (keyid, build) over the builder's
/// X.509v3 context: an `AuthorityKeyIdentifier` extension in its keyid-only
/// form.
#[verifier::external_body]
pub(crate) fn authority_key_id_ext(b: &openssl::x509::X509Builder) -> (r: Result<
    openssl::x509::X509Extension,
    SimpleC2PAError,
>)
    ensures
        r matches Ok(e) ==> extension_kind(e) == ExtensionKind::AuthorityKeyId,
        r matches Err(e) ==> e matches SimpleC2PAError::Failure { .. },
{
    let mut akid = openssl::x509::extension::AuthorityKeyIdentifier::new();
    akid.keyid(false);
    akid.build(&b.x509v3_context(None, None))
        .map_err(|e| SimpleC2PAError::Failure { message: e.to_string() })
}

/// Relies on ExtendedKeyUsage (email_protection, build): an
/// `ExtendedKeyUsage: emailProtection` extension.
#[verifier::external_body]
pub(crate) fn extended_key_usage_email() -> (r: Result<
    openssl::x509::X509Extension,
    SimpleC2PAError,
>)
    ensures
        r matches Ok(e) ==> extension_kind(e) == ExtensionKind::EmailProtectionEku,
        r matches Err(e) ==> e matches SimpleC2PAError::Failure { .. },
{
    let mut eku = openssl::x509::extension::ExtendedKeyUsage::new();
    eku.email_protection();
    eku.build().map_err(|e| SimpleC2PAError::Failure { message: e.to_string() })
}

/// Relies on X509Builder::append_extension: appends one extension.
/// Changing the content drops any earlier signature.
#[verifier::external_body]
pub(crate) fn cert_builder_append_extension(
    b: &mut openssl::x509::X509Builder,
    e: openssl::x509::X509Extension,
) -> (r: Result<(), SimpleC2PAError>)
    ensures
        r matches Ok(_) ==> {
            &&& builder_extensions(*final(b)) == builder_extensions(*old(b)).push(
                extension_kind(e),
            )
            &&& builder_subject(*final(b)) == builder_subject(*old(b))
            &&& builder_issuer(*final(b)) == builder_issuer(*old(b))
            &&& builder_version(*final(b)) == builder_version(*old(b))
            &&& builder_serial(*final(b)) == builder_serial(*old(b))
            &&& builder_validity_days(*final(b)) == builder_validity_days(*old(b))
            &&& builder_signer(*final(b)) is None
        },
        r matches Err(err) ==> err matches SimpleC2PAError::Failure { .. },
{
    b.append_extension(e).map_err(|err| SimpleC2PAError::Failure { message: err.to_string() })
}

/// Relies on X509Builder::sign with MessageDigest::sha512: signs the
/// builder's content, as it stands at this call, with the given key under
/// SHA-512; everything else is untouched.
#[verifier::external_body]
pub(crate) fn cert_builder_sign_sha512(
    b: &mut openssl::x509::X509Builder,
    key: &openssl::pkey::PKey<openssl::pkey::Private>,
) -> (r: Result<(), SimpleC2PAError>)
    ensures
        r matches Ok(_) ==> {
            &&& builder_signer(*final(b)) == Some(private_key_pem(*key))
            &&& builder_subject(*final(b)) == builder_subject(*old(b))
            &&& builder_issuer(*final(b)) == builder_issuer(*old(b))
            &&& builder_version(*final(b)) == builder_version(*old(b))
            &&& builder_serial(*final(b)) == builder_serial(*old(b))
            &&& builder_validity_days(*final(b)) == builder_validity_days(*old(b))
            &&& builder_extensions(*final(b)) == builder_extensions(*old(b))
        },
        r matches Err(e) ==> e matches SimpleC2PAError::Failure { .. },
{
    b.sign(key, openssl::hash::MessageDigest::sha512())
        .map_err(|e| SimpleC2PAError::Failure { message: e.to_string() })
}

/// Relies on X509Builder::build and X509::to_pem: the PEM text encodes the
/// certificate exactly as the builder's facets describe it; the signature
/// verifies under the recorded signing key, which is only still recorded
/// when signing was the last content-relevant call.
#[verifier::external_body]
pub(crate) fn cert_builder_into_pem(b: openssl::x509::X509Builder) -> (r: Result<
    Vec<u8>,
    SimpleC2PAError,
>)
    ensures
        r matches Ok(v) ==> {
            &&& builder_subject(b) matches Some(s) ==> pem_cert_subject(v@) == s
            &&& builder_issuer(b) matches Some(i) ==> pem_cert_issuer(v@) == i
            &&& builder_version(b) matches Some(ver) ==> pem_cert_version(v@) == ver
            &&& builder_serial(b) matches Some(sn) ==> pem_cert_serial(v@) == sn
            &&& builder_validity_days(b) matches Some(d) ==> pem_cert_validity_days(v@) == d
            &&& builder_signer(b) matches Some(k) ==> cert_signed_by(v@, k)
            &&& pem_cert_extensions(v@) == builder_extensions(b)
            &&& v@.len() > 0
        },
        r matches Err(e) ==> e matches SimpleC2PAError::Failure { .. },
{
    b.build().to_pem().map_err(|e| SimpleC2PAError::Failure { message: e.to_string() })
}

} // verus!
