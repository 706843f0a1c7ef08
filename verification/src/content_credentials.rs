//! The session object binding one leaf certificate, one source resource and
//! one claim-generator identity; the assertion store with last-write-wins
//! semantics per label; and the ordered signature-algorithm fallback engine.

use vstd::prelude::*;
use vstd::string::StrSliceExecFns;
use vstd::string::StringExecFns;
use crate::assertions::{exif_json, creative_work_author_json, creative_work_url_json, AIDataMiningUsage, CustomAITrainingOptions, ExifData};
use crate::certificates::Certificate;
use crate::common::{write_path_bytes, FileData, SimpleC2PAError};
use crate::json_text::{json_string, spec_json_string};
use crate::manifest_io::{
    builder_add_ingredient, builder_add_labeled_text, builder_add_labeled_value,
    builder_add_single_action, builder_assertions, builder_from_definition, builder_set_no_embed,
    builder_sign_bytes, c2pa_alg_of, json_value_of, parse_json_value, BuilderAssertion,
    SigningAlgorithm,
};

verus! {

/// The claim-generator identity: application name, version, optional icon.
#[derive(Debug, Clone)]
pub struct ApplicationInfo {
    pub name: String,
    pub version: String,
    pub icon_uri: Option<String>,
}

impl ApplicationInfo {
    /// Bundles a claim-generator identity.
    pub fn new(name: String, version: String, icon_uri: Option<String>) -> (r: ApplicationInfo)
        ensures
            r.name == name,
            r.version == version,
            r.icon_uri == icon_uri,
    {
        ApplicationInfo { name, version, icon_uri }
    }

    /// The claim-generator agent text: name, a slash, version.
    pub fn agent_text(&self) -> (r: String)
        ensures
            r@ == self.name@ + "/"@ + self.version@,
    {
        let mut out = self.name.clone();
        out.append("/");
        out.append(self.version.as_str());
        out
    }
}

/// What one stored assertion holds, at the specification level.
pub enum AssertionValue {
    /// A single standardized action.
    SingleAction { action: Seq<char> },
    /// A JSON object or array, as text.
    JsonValue { json: Seq<char> },
    /// A caller-supplied text attached verbatim (stored as a JSON string).
    JsonText { text: Seq<char> },
}

/// What one stored assertion holds.
#[derive(Debug, Clone)]
pub enum AssertionPayload {
    SingleAction { action: String },
    JsonValue { json: String },
    JsonText { text: String },
}

impl AssertionPayload {
    /// The specification-level content of this payload.
    pub open spec fn spec_value(&self) -> AssertionValue {
        match self {
            AssertionPayload::SingleAction { action } => AssertionValue::SingleAction {
                action: action@,
            },
            AssertionPayload::JsonValue { json } => AssertionValue::JsonValue { json: json@ },
            AssertionPayload::JsonText { text } => AssertionValue::JsonText { text: text@ },
        }
    }
}

/// One stored assertion: its label and its payload.
#[derive(Debug, Clone)]
pub struct AssertionEntry {
    pub label: String,
    pub payload: AssertionPayload,
}

impl AssertionEntry {
    /// The specification-level (label, content) pair of this entry.
    pub open spec fn spec_pair(&self) -> (Seq<char>, AssertionValue) {
        (self.label@, self.payload.spec_value())
    }
}

/// The (label, content) pairs of an assertion store, in order.
pub open spec fn store_view(s: Seq<AssertionEntry>) -> Seq<(Seq<char>, AssertionValue)> {
    s.map_values(|e: AssertionEntry| e.spec_pair())
}

/// Adding under a label that is already present replaces that entry in
/// place; a new label is appended at the end.
pub open spec fn spec_upsert(
    s: Seq<(Seq<char>, AssertionValue)>,
    label: Seq<char>,
    v: AssertionValue,
) -> Seq<(Seq<char>, AssertionValue)>
    decreases s.len(),
{
    if s.len() == 0 {
        Seq::<(Seq<char>, AssertionValue)>::empty().push((label, v))
    } else if s[0].0 == label {
        Seq::<(Seq<char>, AssertionValue)>::empty().push((label, v)) + s.drop_first()
    } else {
        Seq::<(Seq<char>, AssertionValue)>::empty().push(s[0]) + spec_upsert(
            s.drop_first(),
            label,
            v,
        )
    }
}

/// The content stored under a label: the first entry carrying it.
pub open spec fn spec_lookup(
    s: Seq<(Seq<char>, AssertionValue)>,
    label: Seq<char>,
) -> Option<AssertionValue>
    decreases s.len(),
{
    if s.len() == 0 {
        None
    } else if s[0].0 == label {
        Some(s[0].1)
    } else {
        spec_lookup(s.drop_first(), label)
    }
}

/// After adding under a label, that label holds exactly the added content.
pub proof fn lemma_lookup_after_upsert(
    s: Seq<(Seq<char>, AssertionValue)>,
    label: Seq<char>,
    v: AssertionValue,
)
    ensures
        spec_lookup(spec_upsert(s, label, v), label) == Some(v),
    decreases s.len(),
{
    if s.len() == 0 {
    } else if s[0].0 == label {
    } else {
        lemma_lookup_after_upsert(s.drop_first(), label, v);
        assert(spec_upsert(s, label, v).drop_first() =~= spec_upsert(s.drop_first(), label, v));
    }
}

/// Adding under one label leaves what every other label holds unchanged:
/// the assertion-adding operations are independent of each other.
pub proof fn lemma_upsert_preserves_other_labels(
    s: Seq<(Seq<char>, AssertionValue)>,
    label: Seq<char>,
    v: AssertionValue,
    other: Seq<char>,
)
    requires
        other != label,
    ensures
        spec_lookup(spec_upsert(s, label, v), other) == spec_lookup(s, other),
    decreases s.len(),
{
    let u = spec_upsert(s, label, v);
    if s.len() == 0 {
        assert(u.len() == 1);
        assert(u[0] == (label, v));
        assert(u.drop_first() =~= Seq::<(Seq<char>, AssertionValue)>::empty());
        assert(spec_lookup(u, other) == spec_lookup(u.drop_first(), other));
        assert(spec_lookup(u, other) == None::<AssertionValue>);
    } else if s[0].0 == label {
        assert(u[0] == (label, v));
        assert(u.drop_first() =~= s.drop_first());
        assert(spec_lookup(u, other) == spec_lookup(s.drop_first(), other));
        assert(spec_lookup(s, other) == spec_lookup(s.drop_first(), other));
    } else {
        assert(u[0] == s[0]);
        assert(u.len() >= 1);
        lemma_upsert_preserves_other_labels(s.drop_first(), label, v, other);
        assert(u.drop_first() =~= spec_upsert(s.drop_first(), label, v));
        if s[0].0 == other {
            assert(spec_lookup(u, other) == Some(u[0].1));
            assert(spec_lookup(s, other) == Some(s[0].1));
        } else {
            assert(spec_lookup(u, other) == spec_lookup(u.drop_first(), other));
            assert(spec_lookup(s, other) == spec_lookup(s.drop_first(), other));
        }
    }
}

/// Re-adding under the same label overwrites the prior content: after two
/// additions under one label, only the second content is present there.
pub proof fn lemma_last_write_wins(
    s: Seq<(Seq<char>, AssertionValue)>,
    label: Seq<char>,
    v1: AssertionValue,
    v2: AssertionValue,
)
    ensures
        spec_lookup(spec_upsert(spec_upsert(s, label, v1), label, v2), label) == Some(v2),
{
    lemma_lookup_after_upsert(spec_upsert(s, label, v1), label, v2);
}

proof fn lemma_upsert_no_match(
    s: Seq<(Seq<char>, AssertionValue)>,
    label: Seq<char>,
    v: AssertionValue,
)
    requires
        forall|j: int| 0 <= j < s.len() ==> s[j].0 != label,
    ensures
        spec_upsert(s, label, v) == s.push((label, v)),
    decreases s.len(),
{
    if s.len() == 0 {
        assert(spec_upsert(s, label, v) =~= s.push((label, v)));
    } else {
        assert(forall|j: int|
            0 <= j < s.drop_first().len() ==> s.drop_first()[j].0 != label);
        lemma_upsert_no_match(s.drop_first(), label, v);
        assert(spec_upsert(s, label, v) =~= s.push((label, v)));
    }
}

proof fn lemma_upsert_match_at(
    s: Seq<(Seq<char>, AssertionValue)>,
    label: Seq<char>,
    v: AssertionValue,
    i: int,
)
    requires
        0 <= i < s.len(),
        s[i].0 == label,
        forall|j: int| 0 <= j < i ==> s[j].0 != label,
    ensures
        spec_upsert(s, label, v) == s.update(i, (label, v)),
    decreases s.len(),
{
    if i == 0 {
        assert(spec_upsert(s, label, v) =~= s.update(0, (label, v)));
    } else {
        assert(s.drop_first()[i - 1].0 == label);
        assert(forall|j: int| 0 <= j < i - 1 ==> s.drop_first()[j].0 != label);
        lemma_upsert_match_at(s.drop_first(), label, v, i - 1);
        assert(s.drop_first().update(i - 1, (label, v)) =~= s.update(i, (label, v)).drop_first());
        assert(spec_upsert(s, label, v) =~= s.update(i, (label, v)));
    }
}

/// Adds an entry to the store: replaces the entry under the same label in
/// place, or appends a new one.
fn upsert_assertion(store: &mut Vec<AssertionEntry>, label: String, payload: AssertionPayload)
    ensures
        store_view(final(store)@) == spec_upsert(
            store_view(old(store)@),
            label@,
            payload.spec_value(),
        ),
{
    let ghost orig = store_view(old(store)@);
    let n = store.len();
    let mut i: usize = 0;
    while i < n
        invariant
            i <= n,
            n == store.len(),
            store@ == old(store)@,
            orig == store_view(old(store)@),
            forall|j: int| 0 <= j < i ==> orig[j].0 != label@,
        decreases n - i,
    {
        let matches_here = store[i].label == label;
        if matches_here {
            let entry = AssertionEntry { label, payload };
            proof {
                assert(orig[i as int].0 == entry.label@);
                lemma_upsert_match_at(orig, entry.label@, entry.payload.spec_value(), i as int);
            }
            store.set(i, entry);
            proof {
                assert(store_view(store@) =~= orig.update(
                    i as int,
                    (store@[i as int].label@, store@[i as int].payload.spec_value()),
                ));
            }
            return ;
        }
        proof {
            assert(orig[i as int].0 == store@[i as int].label@);
        }
        i = i + 1;
    }
    let entry = AssertionEntry { label, payload };
    proof {
        lemma_upsert_no_match(orig, entry.label@, entry.payload.spec_value());
    }
    store.push(entry);
    proof {
        assert(store_view(store@) =~= orig.push(
            (store@[store@.len() - 1].label@, store@[store@.len() - 1].payload.spec_value()),
        ));
    }
}

/// Whether `s` ends with `suffix`.
pub open spec fn spec_ends_with(s: Seq<char>, suffix: Seq<char>) -> bool {
    s.len() >= suffix.len() && s.subrange(s.len() - suffix.len(), s.len() as int) == suffix
}

fn str_ends_with(s: &str, suffix: &str) -> (r: bool)
    ensures
        r == spec_ends_with(s@, suffix@),
{
    let n = s.unicode_len();
    let m = suffix.unicode_len();
    if m > n {
        return false;
    }
    let mut k: usize = 0;
    while k < m
        invariant
            k <= m,
            m <= n,
            n == s@.len(),
            m == suffix@.len(),
            forall|j: int| 0 <= j < k ==> s@[n - m + j] == suffix@[j],
        decreases m - k,
    {
        if s.get_char(n - m + k) != suffix.get_char(k) {
            assert(s@[n - m + k as int] != suffix@[k as int]);
            assert(!spec_ends_with(s@, suffix@)) by {
                if spec_ends_with(s@, suffix@) {
                    assert(s@.subrange(n - m as int, n as int)[k as int] == suffix@[k as int]);
                }
            }
            return false;
        }
        k = k + 1;
    }
    assert(s@.subrange(n - m as int, n as int) =~= suffix@);
    true
}

/// The MIME type for a file name: decided by its extension, with
/// `application/octet-stream` for an unrecognized one.
pub open spec fn spec_mime_of(name: Seq<char>) -> Seq<char> {
    if spec_ends_with(name, ".jpg"@) || spec_ends_with(name, ".jpeg"@) {
        "image/jpeg"@
    } else if spec_ends_with(name, ".png"@) {
        "image/png"@
    } else if spec_ends_with(name, ".gif"@) {
        "image/gif"@
    } else if spec_ends_with(name, ".webp"@) {
        "image/webp"@
    } else if spec_ends_with(name, ".tif"@) || spec_ends_with(name, ".tiff"@) {
        "image/tiff"@
    } else if spec_ends_with(name, ".avif"@) {
        "image/avif"@
    } else if spec_ends_with(name, ".heic"@) {
        "image/heic"@
    } else if spec_ends_with(name, ".heif"@) {
        "image/heif"@
    } else if spec_ends_with(name, ".svg"@) {
        "image/svg+xml"@
    } else if spec_ends_with(name, ".mp4"@) {
        "video/mp4"@
    } else if spec_ends_with(name, ".mov"@) {
        "video/quicktime"@
    } else if spec_ends_with(name, ".mp3"@) {
        "audio/mpeg"@
    } else if spec_ends_with(name, ".wav"@) {
        "audio/x-wav"@
    } else {
        "application/octet-stream"@
    }
}

fn mime_of(name: &str) -> (r: &'static str)
    ensures
        r@ == spec_mime_of(name@),
{
    if str_ends_with(name, ".jpg") || str_ends_with(name, ".jpeg") {
        "image/jpeg"
    } else if str_ends_with(name, ".png") {
        "image/png"
    } else if str_ends_with(name, ".gif") {
        "image/gif"
    } else if str_ends_with(name, ".webp") {
        "image/webp"
    } else if str_ends_with(name, ".tif") || str_ends_with(name, ".tiff") {
        "image/tiff"
    } else if str_ends_with(name, ".avif") {
        "image/avif"
    } else if str_ends_with(name, ".heic") {
        "image/heic"
    } else if str_ends_with(name, ".heif") {
        "image/heif"
    } else if str_ends_with(name, ".svg") {
        "image/svg+xml"
    } else if str_ends_with(name, ".mp4") {
        "video/mp4"
    } else if str_ends_with(name, ".mov") {
        "video/quicktime"
    } else if str_ends_with(name, ".mp3") {
        "audio/mpeg"
    } else if str_ends_with(name, ".wav") {
        "audio/x-wav"
    } else {
        "application/octet-stream"
    }
}

/// The MIME type of a resource: decided by the suggested file name when one
/// is present, else by the path, else the unrecognized default.
pub open spec fn spec_source_mime(f: FileData) -> Seq<char> {
    match f.file_name {
        Some(name) => spec_mime_of(name@),
        None => match f.path {
            Some(path) => spec_mime_of(path@),
            None => "application/octet-stream"@,
        },
    }
}

fn source_mime(f: &FileData) -> (r: &'static str)
    ensures
        r@ == spec_source_mime(*f),
{
    match &f.file_name {
        Some(name) => mime_of(name.as_str()),
        None => match &f.path {
            Some(path) => mime_of(path.as_str()),
            None => "application/octet-stream",
        },
    }
}

/// The manifest definition the signing engine starts from: claim version 1
/// and the application as the claim generator.
pub open spec fn spec_manifest_definition(app: ApplicationInfo) -> Seq<char> {
    "{\"claim_version\": 1, \"claim_generator_info\": [{\"name\": "@ + spec_json_string(app.name@)
        + ", \"version\": "@ + spec_json_string(app.version@) + "}]}"@
}

fn manifest_definition_json(app: &ApplicationInfo) -> (r: String)
    ensures
        r@ == spec_manifest_definition(*app),
{
    let mut out = String::from_str("{\"claim_version\": 1, \"claim_generator_info\": [{\"name\": ");
    out.append(json_string(app.name.as_str()).as_str());
    out.append(", \"version\": ");
    out.append(json_string(app.version.as_str()).as_str());
    out.append("}]}");
    out
}

/// What a stored assertion becomes in the manifest builder: a single
/// action becomes a `c2pa.actions` assertion of that action; JSON content
/// is parsed and attached under the entry's label; verbatim text is
/// attached as a JSON string under the entry's label.
pub open spec fn spec_flushed_assertion(p: (Seq<char>, AssertionValue)) -> BuilderAssertion {
    match p.1 {
        AssertionValue::SingleAction { action } => BuilderAssertion::Action { action },
        AssertionValue::JsonValue { json } => BuilderAssertion::Json {
            label: p.0,
            value: json_value_of(json),
        },
        AssertionValue::JsonText { text } => BuilderAssertion::Text { label: p.0, text },
    }
}

/// What a whole store becomes in the manifest builder, in order.
pub open spec fn spec_flushed_assertions(s: Seq<(Seq<char>, AssertionValue)>) -> Seq<
    BuilderAssertion,
> {
    s.map_values(|p: (Seq<char>, AssertionValue)| spec_flushed_assertion(p))
}

/// The fallback order of the signing engine: ES256, ES384, ES512, PS256,
/// PS384, PS512, Ed25519.
pub open spec fn spec_algorithm_order() -> Seq<SigningAlgorithm> {
    Seq::<SigningAlgorithm>::empty().push(SigningAlgorithm::Es256).push(
        SigningAlgorithm::Es384,
    ).push(SigningAlgorithm::Es512).push(SigningAlgorithm::Ps256).push(
        SigningAlgorithm::Ps384,
    ).push(SigningAlgorithm::Ps512).push(SigningAlgorithm::Ed25519)
}

fn signing_algorithms() -> (r: Vec<SigningAlgorithm>)
    ensures
        r@ == spec_algorithm_order(),
{
    let mut algorithms: Vec<SigningAlgorithm> = Vec::new();
    algorithms.push(SigningAlgorithm::Es256);
    algorithms.push(SigningAlgorithm::Es384);
    algorithms.push(SigningAlgorithm::Es512);
    algorithms.push(SigningAlgorithm::Ps256);
    algorithms.push(SigningAlgorithm::Ps384);
    algorithms.push(SigningAlgorithm::Ps512);
    algorithms.push(SigningAlgorithm::Ed25519);
    proof {
        assert(algorithms@ =~= spec_algorithm_order());
    }
    algorithms
}

/// Packages what one signing attempt returned: embedding keeps the signed
/// asset bytes, exporting keeps the detached manifest bytes; with an output
/// path the chosen bytes are also written there and the returned handle
/// carries that path.
fn package_signed_output(
    embed: bool,
    output_path: Option<String>,
    signed: (Vec<u8>, Vec<u8>),
) -> (r: Result<FileData, SimpleC2PAError>)
    ensures
        r matches Ok(f) ==> {
            &&& f.bytes == Some(
                if embed {
                    signed.0
                } else {
                    signed.1
                },
            )
            &&& (output_path matches Some(p) ==> f.path matches Some(q) && q@ == p@)
            &&& (output_path is None ==> f.path is None)
            &&& f.file_name is None
        },
        r matches Err(e) ==> e matches SimpleC2PAError::Failure { .. },
{
    let (asset_bytes, manifest_bytes) = signed;
    let result_bytes = if embed {
        asset_bytes
    } else {
        manifest_bytes
    };
    match output_path {
        Some(path) => {
            write_path_bytes(&path, &result_bytes)?;
            Ok(FileData::new(Some(path), Some(result_bytes), None))
        },
        None => Ok(FileData::new(None, Some(result_bytes), None)),
    }
}

/// The session object: one leaf certificate, one source resource, one
/// claim-generator identity, and the assertion store.
#[derive(Debug)]
pub struct ContentCredentials {
    pub certificate: Certificate,
    pub file: FileData,
    pub application_info: ApplicationInfo,
    pub assertions: Vec<AssertionEntry>,
}

impl ContentCredentials {
    /// Opens a session over one source resource with one leaf certificate.
    /// With no claim-generator identity given, the library's own is used.
    /// The provenance manifest itself is materialized at signing time, so a
    /// problem with the source resource surfaces as an error from the
    /// signing calls, never as a panic here.
    pub fn new(
        certificate: Certificate,
        file: FileData,
        application_info: Option<ApplicationInfo>,
    ) -> (r: ContentCredentials)
        ensures
            r.certificate == certificate,
            r.file == file,
            r.assertions@.len() == 0,
            application_info matches Some(app) ==> r.application_info == app,
            application_info is None ==> r.application_info.name@ == "Simple-C2PA"@
                && r.application_info.version@ == "0.1.0"@ && r.application_info.icon_uri is None,
    {
        let app_info = match application_info {
            Some(app) => app,
            None => ApplicationInfo {
                name: String::from_str("Simple-C2PA"),
                version: String::from_str("0.1.0"),
                icon_uri: None,
            },
        };
        ContentCredentials {
            certificate,
            file,
            application_info: app_info,
            assertions: Vec::new(),
        }
    }

    /// Attaches a standardized `created` action.
    pub fn add_created_assertion(&mut self) -> (r: Result<(), SimpleC2PAError>)
        ensures
            r is Ok,
            final(self).certificate == old(self).certificate,
            final(self).file == old(self).file,
            final(self).application_info == old(self).application_info,
            store_view(final(self).assertions@) == spec_upsert(
                store_view(old(self).assertions@),
                "c2pa.actions"@,
                AssertionValue::SingleAction { action: "c2pa.created"@ },
            ),
    {
        upsert_assertion(
            &mut self.assertions,
            String::from_str("c2pa.actions"),
            AssertionPayload::SingleAction { action: String::from_str("c2pa.created") },
        );
        Ok(())
    }

    /// Attaches a standardized `placed` action.
    pub fn add_placed_assertion(&mut self) -> (r: Result<(), SimpleC2PAError>)
        ensures
            r is Ok,
            final(self).certificate == old(self).certificate,
            final(self).file == old(self).file,
            final(self).application_info == old(self).application_info,
            store_view(final(self).assertions@) == spec_upsert(
                store_view(old(self).assertions@),
                "c2pa.actions"@,
                AssertionValue::SingleAction { action: "c2pa.placed"@ },
            ),
    {
        upsert_assertion(
            &mut self.assertions,
            String::from_str("c2pa.actions"),
            AssertionPayload::SingleAction { action: String::from_str("c2pa.placed") },
        );
        Ok(())
    }

    /// Reserved: accepted and attaches nothing.
    pub fn add_email_assertion(&mut self, email: String, display_name: String) -> (r: Result<
        (),
        SimpleC2PAError,
    >)
        ensures
            r is Ok,
            *final(self) == *old(self),
    {
        let _ = email;
        let _ = display_name;
        Ok(())
    }

    /// Attaches a creative-work assertion claiming the Instagram identity
    /// `username` with the given display name.
    pub fn add_instagram_assertion(&mut self, username: &str, display_name: &str) -> (r: Result<
        (),
        SimpleC2PAError,
    >)
        ensures
            r is Ok,
            final(self).certificate == old(self).certificate,
            final(self).file == old(self).file,
            final(self).application_info == old(self).application_info,
            store_view(final(self).assertions@) == spec_upsert(
                store_view(old(self).assertions@),
                "stds.schema-org.CreativeWork"@,
                AssertionValue::JsonValue {
                    json: crate::assertions::spec_creative_work_author_json(
                        display_name@,
                        username@,
                        "https://instagram.com"@,
                    ),
                },
            ),
    {
        let json = creative_work_author_json(display_name, username, "https://instagram.com");
        upsert_assertion(
            &mut self.assertions,
            String::from_str("stds.schema-org.CreativeWork"),
            AssertionPayload::JsonValue { json },
        );
        Ok(())
    }

    /// Attaches a creative-work assertion claiming the PGP identity under
    /// the given fingerprint, used verbatim, with the given display name.
    pub fn add_pgp_assertion(&mut self, fingerprint: &str, display_name: &str) -> (r: Result<
        (),
        SimpleC2PAError,
    >)
        ensures
            r is Ok,
            final(self).certificate == old(self).certificate,
            final(self).file == old(self).file,
            final(self).application_info == old(self).application_info,
            store_view(final(self).assertions@) == spec_upsert(
                store_view(old(self).assertions@),
                "stds.schema-org.CreativeWork"@,
                AssertionValue::JsonValue {
                    json: crate::assertions::spec_creative_work_author_json(
                        display_name@,
                        fingerprint@,
                        "https://keys.openpgp.org"@,
                    ),
                },
            ),
    {
        let json = creative_work_author_json(display_name, fingerprint, "https://keys.openpgp.org");
        upsert_assertion(
            &mut self.assertions,
            String::from_str("stds.schema-org.CreativeWork"),
            AssertionPayload::JsonValue { json },
        );
        Ok(())
    }

    /// Attaches a creative-work assertion with only a `url` field.
    pub fn add_website_assertion(&mut self, url: String) -> (r: Result<(), SimpleC2PAError>)
        ensures
            r is Ok,
            final(self).certificate == old(self).certificate,
            final(self).file == old(self).file,
            final(self).application_info == old(self).application_info,
            store_view(final(self).assertions@) == spec_upsert(
                store_view(old(self).assertions@),
                "stds.schema-org.CreativeWork"@,
                AssertionValue::JsonValue {
                    json: crate::assertions::spec_creative_work_url_json(url@),
                },
            ),
    {
        let json = creative_work_url_json(url.as_str());
        upsert_assertion(
            &mut self.assertions,
            String::from_str("stds.schema-org.CreativeWork"),
            AssertionPayload::JsonValue { json },
        );
        Ok(())
    }

    /// Attaches the EXIF assertion for the present fields.
    pub fn add_exif_assertion(&mut self, exif_data: ExifData) -> (r: Result<(), SimpleC2PAError>)
        ensures
            r is Ok,
            final(self).certificate == old(self).certificate,
            final(self).file == old(self).file,
            final(self).application_info == old(self).application_info,
            store_view(final(self).assertions@) == spec_upsert(
                store_view(old(self).assertions@),
                "stds.exif"@,
                AssertionValue::JsonValue { json: crate::assertions::spec_exif_json(exif_data) },
            ),
    {
        let json = exif_json(&exif_data);
        upsert_assertion(
            &mut self.assertions,
            String::from_str("stds.exif"),
            AssertionPayload::JsonValue { json },
        );
        Ok(())
    }

    /// Attaches a caller-supplied label and text verbatim; the text is
    /// stored as a JSON string.
    pub fn add_json_assertion(&mut self, label: &str, json: String) -> (r: Result<
        (),
        SimpleC2PAError,
    >)
        ensures
            r is Ok,
            final(self).certificate == old(self).certificate,
            final(self).file == old(self).file,
            final(self).application_info == old(self).application_info,
            store_view(final(self).assertions@) == spec_upsert(
                store_view(old(self).assertions@),
                label@,
                AssertionValue::JsonText { text: json@ },
            ),
    {
        upsert_assertion(
            &mut self.assertions,
            String::from_str(label),
            AssertionPayload::JsonText { text: json },
        );
        Ok(())
    }

    fn add_ai_usage(&mut self, usage: &AIDataMiningUsage) -> (r: Result<(), SimpleC2PAError>)
        ensures
            r is Ok,
            final(self).certificate == old(self).certificate,
            final(self).file == old(self).file,
            final(self).application_info == old(self).application_info,
            store_view(final(self).assertions@) == spec_upsert(
                spec_upsert(
                    spec_upsert(
                        spec_upsert(
                            store_view(old(self).assertions@),
                            "c2pa.ai_training"@,
                            AssertionValue::JsonValue { json: usage.spec_json() },
                        ),
                        "c2pa.ai_generative_training"@,
                        AssertionValue::JsonValue { json: usage.spec_json() },
                    ),
                    "c2pa.data_mining"@,
                    AssertionValue::JsonValue { json: usage.spec_json() },
                ),
                "c2pa.inference"@,
                AssertionValue::JsonValue { json: usage.spec_json() },
            ),
    {
        let json = usage.to_json();
        upsert_assertion(
            &mut self.assertions,
            String::from_str("c2pa.ai_training"),
            AssertionPayload::JsonValue { json: json.clone() },
        );
        upsert_assertion(
            &mut self.assertions,
            String::from_str("c2pa.ai_generative_training"),
            AssertionPayload::JsonValue { json: json.clone() },
        );
        upsert_assertion(
            &mut self.assertions,
            String::from_str("c2pa.data_mining"),
            AssertionPayload::JsonValue { json: json.clone() },
        );
        upsert_assertion(
            &mut self.assertions,
            String::from_str("c2pa.inference"),
            AssertionPayload::JsonValue { json },
        );
        Ok(())
    }

    /// Sets all four standardized AI/data-mining usage labels to
    /// `NotAllowed`.
    pub fn add_restricted_ai_training_assertions(&mut self) -> (r: Result<(), SimpleC2PAError>)
        ensures
            r is Ok,
            final(self).certificate == old(self).certificate,
            final(self).file == old(self).file,
            final(self).application_info == old(self).application_info,
            store_view(final(self).assertions@) == spec_upsert(
                spec_upsert(
                    spec_upsert(
                        spec_upsert(
                            store_view(old(self).assertions@),
                            "c2pa.ai_training"@,
                            AssertionValue::JsonValue { json: "{\"use\": \"notAllowed\"}"@ },
                        ),
                        "c2pa.ai_generative_training"@,
                        AssertionValue::JsonValue { json: "{\"use\": \"notAllowed\"}"@ },
                    ),
                    "c2pa.data_mining"@,
                    AssertionValue::JsonValue { json: "{\"use\": \"notAllowed\"}"@ },
                ),
                "c2pa.inference"@,
                AssertionValue::JsonValue { json: "{\"use\": \"notAllowed\"}"@ },
            ),
    {
        self.add_ai_usage(&AIDataMiningUsage::NotAllowed)
    }

    /// Sets all four standardized AI/data-mining usage labels to `Allowed`.
    pub fn add_permissive_ai_training_assertions(&mut self) -> (r: Result<(), SimpleC2PAError>)
        ensures
            r is Ok,
            final(self).certificate == old(self).certificate,
            final(self).file == old(self).file,
            final(self).application_info == old(self).application_info,
            store_view(final(self).assertions@) == spec_upsert(
                spec_upsert(
                    spec_upsert(
                        spec_upsert(
                            store_view(old(self).assertions@),
                            "c2pa.ai_training"@,
                            AssertionValue::JsonValue { json: "{\"use\": \"allowed\"}"@ },
                        ),
                        "c2pa.ai_generative_training"@,
                        AssertionValue::JsonValue { json: "{\"use\": \"allowed\"}"@ },
                    ),
                    "c2pa.data_mining"@,
                    AssertionValue::JsonValue { json: "{\"use\": \"allowed\"}"@ },
                ),
                "c2pa.inference"@,
                AssertionValue::JsonValue { json: "{\"use\": \"allowed\"}"@ },
            ),
    {
        self.add_ai_usage(&AIDataMiningUsage::Allowed)
    }

    /// Sets each of the four standardized AI/data-mining usage labels
    /// independently from the caller-supplied statements.
    pub fn add_custom_ai_training_assertions(&mut self, options: CustomAITrainingOptions) -> (r:
        Result<(), SimpleC2PAError>)
        ensures
            r is Ok,
            final(self).certificate == old(self).certificate,
            final(self).file == old(self).file,
            final(self).application_info == old(self).application_info,
            store_view(final(self).assertions@) == spec_upsert(
                spec_upsert(
                    spec_upsert(
                        spec_upsert(
                            store_view(old(self).assertions@),
                            "c2pa.ai_training"@,
                            AssertionValue::JsonValue { json: options.ai_training.spec_json() },
                        ),
                        "c2pa.ai_generative_training"@,
                        AssertionValue::JsonValue {
                            json: options.ai_generative_training.spec_json(),
                        },
                    ),
                    "c2pa.data_mining"@,
                    AssertionValue::JsonValue { json: options.data_mining.spec_json() },
                ),
                "c2pa.inference"@,
                AssertionValue::JsonValue { json: options.inference.spec_json() },
            ),
    {
        upsert_assertion(
            &mut self.assertions,
            String::from_str("c2pa.ai_training"),
            AssertionPayload::JsonValue { json: options.ai_training.to_json() },
        );
        upsert_assertion(
            &mut self.assertions,
            String::from_str("c2pa.ai_generative_training"),
            AssertionPayload::JsonValue { json: options.ai_generative_training.to_json() },
        );
        upsert_assertion(
            &mut self.assertions,
            String::from_str("c2pa.data_mining"),
            AssertionPayload::JsonValue { json: options.data_mining.to_json() },
        );
        upsert_assertion(
            &mut self.assertions,
            String::from_str("c2pa.inference"),
            AssertionPayload::JsonValue { json: options.inference.to_json() },
        );
        Ok(())
    }

    /// Replays the assertion store into a manifest builder: one assertion
    /// per stored entry, in store order, carrying each entry's content.
    fn flush_assertions(&self, b: &mut c2pa::Builder) -> (r: Result<(), SimpleC2PAError>)
        ensures
            r matches Ok(_) ==> builder_assertions(*final(b)) == builder_assertions(*old(b))
                + spec_flushed_assertions(store_view(self.assertions@)),
            r matches Err(e) ==> e matches SimpleC2PAError::Failure { .. },
    {
        let ghost initial = builder_assertions(*old(b));
        let ghost view = store_view(self.assertions@);
        let n = self.assertions.len();
        let mut i: usize = 0;
        while i < n
            invariant
                i <= n,
                n == self.assertions@.len(),
                view == store_view(self.assertions@),
                view.len() == n,
                builder_assertions(*b) == initial + spec_flushed_assertions(
                    view.subrange(0, i as int),
                ),
            decreases n - i,
        {
            let entry = &self.assertions[i];
            proof {
                assert(view[i as int] == self.assertions@[i as int].spec_pair());
            }
            match &entry.payload {
                AssertionPayload::SingleAction { action } => {
                    builder_add_single_action(b, action.as_str())?;
                },
                AssertionPayload::JsonValue { json } => {
                    let value = parse_json_value(json.as_str())?;
                    builder_add_labeled_value(b, entry.label.as_str(), &value)?;
                },
                AssertionPayload::JsonText { text } => {
                    builder_add_labeled_text(b, entry.label.as_str(), text.as_str())?;
                },
            }
            proof {
                assert(view.subrange(0, i + 1 as int) =~= view.subrange(0, i as int).push(
                    view[i as int],
                ));
                assert(spec_flushed_assertions(view.subrange(0, i + 1 as int))
                    =~= spec_flushed_assertions(view.subrange(0, i as int)).push(
                    spec_flushed_assertion(view[i as int]),
                ));
                assert(builder_assertions(*b) =~= initial + spec_flushed_assertions(
                    view.subrange(0, i + 1 as int),
                ));
            }
            i = i + 1;
        }
        proof {
            assert(view.subrange(0, n as int) =~= view);
        }
        Ok(())
    }

    /// Runs the signing engine: builds a fresh manifest from the store and
    /// the source, then tries each algorithm in the fallback order until one
    /// yields a signed result; when all seven fail, signing fails.
    fn sign_manifest(&self, embed: bool, output_path: Option<String>) -> (r: Result<
        FileData,
        SimpleC2PAError,
    >)
        ensures
            r matches Ok(f) ==> {
                &&& f.bytes is Some
                &&& (output_path matches Some(p) ==> f.path matches Some(q) && q@ == p@)
                &&& (output_path is None ==> f.path is None)
            },
            r matches Err(e) ==> e matches SimpleC2PAError::Failure { .. },
            self.file.bytes is None && self.file.path is None ==> r is Err,
            self.certificate.certificate_data.bytes is None
                && self.certificate.certificate_data.path is None ==> r is Err,
            self.certificate.private_key_data.bytes is None
                && self.certificate.private_key_data.path is None ==> r is Err,
    {
        let source = self.file.get_bytes()?;
        let format = source_mime(&self.file);
        let cert_pem = self.certificate.get_certificate_bytes()?;
        let key_pem = self.certificate.get_private_key_bytes()?;

        let definition = manifest_definition_json(&self.application_info);
        let mut builder = builder_from_definition(definition.as_str())?;
        builder_add_ingredient(&mut builder, "{\"relationship\": \"parentOf\"}", format, &source)?;
        self.flush_assertions(&mut builder)?;
        if !embed {
            builder_set_no_embed(&mut builder);
        }

        let algorithms = signing_algorithms();
        let mut outcome: Option<(Vec<u8>, Vec<u8>)> = None;
        let mut i: usize = 0;
        while i < algorithms.len() && outcome.is_none()
            invariant
                i <= algorithms.len(),
            decreases algorithms.len() - i,
        {
            let alg = c2pa_alg_of(algorithms[i]);
            match builder_sign_bytes(&mut builder, &cert_pem, &key_pem, alg, format, &source) {
                Ok(signed) => {
                    outcome = Some(signed);
                },
                Err(_) => {
                },
            }
            i = i + 1;
        }

        let signed = match outcome {
            Some(pair) => pair,
            None => {
                return Err(
                    SimpleC2PAError::Failure {
                        message: "no supported signing algorithm succeeded".to_owned(),
                    },
                );
            },
        };
        package_signed_output(embed, output_path, signed)
    }

    /// Signs the manifest and embeds it into the source resource, returning
    /// the destination resource. The returned handle always carries the
    /// signed asset bytes in memory; when `output_path` is given they are
    /// also written there and the handle carries that path too.
    pub fn embed_manifest(&self, output_path: Option<String>) -> (r: Result<
        FileData,
        SimpleC2PAError,
    >)
        ensures
            r matches Ok(f) ==> {
                &&& f.bytes is Some
                &&& (output_path matches Some(p) ==> f.path matches Some(q) && q@ == p@)
                &&& (output_path is None ==> f.path is None)
            },
            r matches Err(e) ==> e matches SimpleC2PAError::Failure { .. },
            self.file.bytes is None && self.file.path is None ==> r is Err,
            self.certificate.certificate_data.bytes is None
                && self.certificate.certificate_data.path is None ==> r is Err,
            self.certificate.private_key_data.bytes is None
                && self.certificate.private_key_data.path is None ==> r is Err,
    {
        self.sign_manifest(true, output_path)
    }

    /// Signs the manifest as a sidecar (detached) manifest, returning the
    /// destination resource. The returned handle always carries the
    /// manifest bytes in memory; when `output_path` is given they are also
    /// written there and the handle carries that path too. The source asset
    /// is left unmodified.
    pub fn export_manifest(&self, output_path: Option<String>) -> (r: Result<
        FileData,
        SimpleC2PAError,
    >)
        ensures
            r matches Ok(f) ==> {
                &&& f.bytes is Some
                &&& (output_path matches Some(p) ==> f.path matches Some(q) && q@ == p@)
                &&& (output_path is None ==> f.path is None)
            },
            r matches Err(e) ==> e matches SimpleC2PAError::Failure { .. },
            self.file.bytes is None && self.file.path is None ==> r is Err,
            self.certificate.certificate_data.bytes is None
                && self.certificate.certificate_data.path is None ==> r is Err,
            self.certificate.private_key_data.bytes is None
                && self.certificate.private_key_data.path is None ==> r is Err,
    {
        self.sign_manifest(false, output_path)
    }
}

} // verus!

