//! The trusted boundary to the provenance-manifest library.
//!
//! The manifest builder is modeled by one facet: the ordered list of
//! assertions added to it, each with its label and its content. Each wrapper
//! makes one call into the library and states how that call moves the
//! facet, as the library's source shows it (its assertion list is
//! append-only).

use vstd::prelude::*;
use crate::common::SimpleC2PAError;

verus! {

#[verifier::external_type_specification]
#[verifier::external_body]
pub struct ExBuilder(c2pa::Builder);

#[verifier::external_type_specification]
#[verifier::external_body]
pub struct ExJsonValue(serde_json::Value);

#[verifier::external_type_specification]
#[verifier::external_body]
pub struct ExSigningAlg(c2pa::SigningAlg);

/// The JSON value that parsing a text yields; parsing is a function of the
/// text alone.
pub uninterp spec fn json_value_of(text: Seq<char>) -> serde_json::Value;

/// One assertion added to a manifest builder: its label and its content.
pub enum BuilderAssertion {
    /// A `c2pa.actions` assertion holding one action of the given name.
    Action { action: Seq<char> },
    /// A JSON assertion holding the given parsed value under the label.
    Json { label: Seq<char>, value: serde_json::Value },
    /// A JSON assertion holding the given text as a JSON string under the
    /// label.
    Text { label: Seq<char>, text: Seq<char> },
}

/// The assertions added to a manifest builder, in order.
pub uninterp spec fn builder_assertions(b: c2pa::Builder) -> Seq<BuilderAssertion>;

/// The signing algorithms the signing engine may try, in fallback order.
#[derive(Debug, Clone, Copy, PartialEq, Eq, Structural)]
pub enum SigningAlgorithm {
    Es256,
    Es384,
    Es512,
    Ps256,
    Ps384,
    Ps512,
    Ed25519,
}

/// Relies on c2pa::Builder::from_json: a manifest builder initialized from
/// the given manifest-definition JSON, or the parse error.
#[verifier::external_body]
pub(crate) fn builder_from_definition(definition: &str) -> (r: Result<
    c2pa::Builder,
    SimpleC2PAError,
>)
    ensures
        r matches Err(e) ==> e matches SimpleC2PAError::Failure { .. },
{
    c2pa::Builder::from_json(definition)
        .map_err(|e| SimpleC2PAError::Failure { message: e.to_string() })
}

/// Relies on serde_json::from_str: parses text into a JSON value — a
/// deterministic function of the text — or reports the parse error.
#[verifier::external_body]
pub(crate) fn parse_json_value(text: &str) -> (r: Result<serde_json::Value, SimpleC2PAError>)
    ensures
        r matches Ok(v) ==> v == json_value_of(text@),
        r matches Err(e) ==> e matches SimpleC2PAError::Failure { .. },
{
    serde_json::from_str(text).map_err(|e| SimpleC2PAError::Failure { message: e.to_string() })
}

/// Relies on c2pa::Builder::add_assertion_json: appends a JSON assertion
/// holding the given value under the given label.
#[verifier::external_body]
pub(crate) fn builder_add_labeled_value(
    b: &mut c2pa::Builder,
    label: &str,
    value: &serde_json::Value,
) -> (r: Result<(), SimpleC2PAError>)
    ensures
        r matches Ok(_) ==> builder_assertions(*final(b)) == builder_assertions(*old(b)).push(
            BuilderAssertion::Json { label: label@, value: *value },
        ),
        r matches Err(e) ==> e matches SimpleC2PAError::Failure { .. },
{
    b.add_assertion_json(label, value)
        .map(|_| ())
        .map_err(|e| SimpleC2PAError::Failure { message: e.to_string() })
}

/// Relies on c2pa::Builder::add_assertion_json: appends a JSON assertion
/// holding the given text as a JSON string under the given label.
#[verifier::external_body]
pub(crate) fn builder_add_labeled_text(b: &mut c2pa::Builder, label: &str, text: &str) -> (r:
    Result<(), SimpleC2PAError>)
    ensures
        r matches Ok(_) ==> builder_assertions(*final(b)) == builder_assertions(*old(b)).push(
            BuilderAssertion::Text { label: label@, text: text@ },
        ),
        r matches Err(e) ==> e matches SimpleC2PAError::Failure { .. },
{
    b.add_assertion_json(label, &text)
        .map(|_| ())
        .map_err(|e| SimpleC2PAError::Failure { message: e.to_string() })
}

/// Relies on c2pa::assertions::Actions and c2pa::Builder::add_assertion: a
/// `c2pa.actions` assertion holding the one given action.
#[verifier::external_body]
pub(crate) fn builder_add_single_action(b: &mut c2pa::Builder, action: &str) -> (r: Result<
    (),
    SimpleC2PAError,
>)
    ensures
        r matches Ok(_) ==> builder_assertions(*final(b)) == builder_assertions(*old(b)).push(
            BuilderAssertion::Action { action: action@ },
        ),
        r matches Err(e) ==> e matches SimpleC2PAError::Failure { .. },
{
    let actions = c2pa::assertions::Actions::new()
        .add_action(c2pa::assertions::Action::new(action));
    b.add_assertion(c2pa::assertions::labels::ACTIONS, &actions)
        .map(|_| ())
        .map_err(|e| SimpleC2PAError::Failure { message: e.to_string() })
}

/// Relies on c2pa::Builder::add_ingredient_from_stream: adds an ingredient
/// described by the given ingredient JSON, reading the asset from the
/// source bytes; assertions are untouched.
#[verifier::external_body]
pub(crate) fn builder_add_ingredient(
    b: &mut c2pa::Builder,
    ingredient_json: &str,
    format: &str,
    source: &Vec<u8>,
) -> (r: Result<(), SimpleC2PAError>)
    ensures
        r matches Ok(_) ==> builder_assertions(*final(b)) == builder_assertions(*old(b)),
        r matches Err(e) ==> e matches SimpleC2PAError::Failure { .. },
{
    let mut stream = std::io::Cursor::new(source.clone());
    b.add_ingredient_from_stream(ingredient_json, format, &mut stream)
        .map(|_| ())
        .map_err(|e| SimpleC2PAError::Failure { message: e.to_string() })
}

/// Relies on c2pa::Builder::set_no_embed: marks the manifest as sidecar
/// (detached), so signing writes the asset without an embedded manifest
/// store and the manifest bytes stand alone; assertions are untouched.
#[verifier::external_body]
pub(crate) fn builder_set_no_embed(b: &mut c2pa::Builder)
    ensures
        builder_assertions(*final(b)) == builder_assertions(*old(b)),
{
    b.set_no_embed(true);
}

/// Relies on c2pa::SigningAlg: the signing library's tag for each of this
/// library's algorithm tags, one arm each.
#[verifier::external_body]
pub(crate) fn c2pa_alg_of(alg: SigningAlgorithm) -> (r: c2pa::SigningAlg) {
    match alg {
        SigningAlgorithm::Es256 => c2pa::SigningAlg::Es256,
        SigningAlgorithm::Es384 => c2pa::SigningAlg::Es384,
        SigningAlgorithm::Es512 => c2pa::SigningAlg::Es512,
        SigningAlgorithm::Ps256 => c2pa::SigningAlg::Ps256,
        SigningAlgorithm::Ps384 => c2pa::SigningAlg::Ps384,
        SigningAlgorithm::Ps512 => c2pa::SigningAlg::Ps512,
        SigningAlgorithm::Ed25519 => c2pa::SigningAlg::Ed25519,
    }
}

/// Relies on c2pa::create_signer::from_keys and c2pa::Builder::sign: builds
/// a signer from the certificate chain PEM, the private key PEM and the
/// algorithm, signs the manifest, and embeds it into the source bytes.
/// Returns the signed asset bytes and the manifest store bytes, or the
/// first error. The signature is freshly randomized, so nothing is stated
/// about the content of either; assertions are untouched.
#[verifier::external_body]
pub(crate) fn builder_sign_bytes(
    b: &mut c2pa::Builder,
    cert_pem: &Vec<u8>,
    key_pem: &Vec<u8>,
    alg: c2pa::SigningAlg,
    format: &str,
    source: &Vec<u8>,
) -> (r: Result<(Vec<u8>, Vec<u8>), SimpleC2PAError>)
    ensures
        r matches Ok(_) ==> builder_assertions(*final(b)) == builder_assertions(*old(b)),
        r matches Err(e) ==> e matches SimpleC2PAError::Failure { .. },
{
    let fail = |e: c2pa::Error| SimpleC2PAError::Failure { message: e.to_string() };
    let signer = c2pa::create_signer::from_keys(cert_pem, key_pem, alg, None).map_err(fail)?;
    let mut src = std::io::Cursor::new(source.clone());
    let mut dst = std::io::Cursor::new(Vec::new());
    let manifest_bytes = b.sign(&*signer, format, &mut src, &mut dst).map_err(fail)?;
    Ok((dst.into_inner(), manifest_bytes))
}

} // verus!
