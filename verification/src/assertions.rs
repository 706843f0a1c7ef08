//! The assertion assembler: typed provenance statements rendered to exact
//! JSON text — creative-work authorship, EXIF metadata, AI/data-mining
//! usage — with the precise text pinned down in contracts.

use vstd::prelude::*;
use vstd::string::StringExecFns;
use crate::json_text::{
    json_array, json_object, json_string, spec_dec, spec_json_array, spec_json_object, spec_json_string,
    u8_dec_string,
};

verus! {

/// The EXIF metadata set: each present field is mapped onto its fixed
/// namespaced key; absent fields are omitted entirely. Fields that carry a
/// number (`f_number`, `digital_zoom_ratio`, `lens_specification`) hold its
/// decimal text and are emitted verbatim as JSON number tokens.
#[derive(Debug, Clone)]
pub struct ExifData {
    pub gps_version_id: Option<String>,
    pub latitude: Option<String>,
    pub longitude: Option<String>,
    pub altitude_ref: Option<u8>,
    pub altitude: Option<String>,
    pub timestamp: Option<String>,
    pub speed_ref: Option<String>,
    pub speed: Option<String>,
    pub direction_ref: Option<String>,
    pub direction: Option<String>,
    pub destination_bearing_ref: Option<String>,
    pub destination_bearing: Option<String>,
    pub positioning_error: Option<String>,
    pub exposure_time: Option<String>,
    pub f_number: Option<String>,
    pub color_space: Option<u8>,
    pub digital_zoom_ratio: Option<String>,
    pub make: Option<String>,
    pub model: Option<String>,
    pub lens_make: Option<String>,
    pub lens_model: Option<String>,
    pub lens_specification: Option<Vec<String>>,
}

impl ExifData {
    /// An EXIF metadata set with every field absent.
    pub fn empty() -> (r: ExifData)
        ensures
            r.gps_version_id is None,
            r.latitude is None,
            r.longitude is None,
            r.altitude_ref is None,
            r.altitude is None,
            r.timestamp is None,
            r.speed_ref is None,
            r.speed is None,
            r.direction_ref is None,
            r.direction is None,
            r.destination_bearing_ref is None,
            r.destination_bearing is None,
            r.positioning_error is None,
            r.exposure_time is None,
            r.f_number is None,
            r.color_space is None,
            r.digital_zoom_ratio is None,
            r.make is None,
            r.model is None,
            r.lens_make is None,
            r.lens_model is None,
            r.lens_specification is None,
    {
        ExifData {
            gps_version_id: None,
            latitude: None,
            longitude: None,
            altitude_ref: None,
            altitude: None,
            timestamp: None,
            speed_ref: None,
            speed: None,
            direction_ref: None,
            direction: None,
            destination_bearing_ref: None,
            destination_bearing: None,
            positioning_error: None,
            exposure_time: None,
            f_number: None,
            color_space: None,
            digital_zoom_ratio: None,
            make: None,
            model: None,
            lens_make: None,
            lens_model: None,
            lens_specification: None,
        }
    }
}

/// Appends a (key, JSON string) entry when the field is present.
pub open spec fn entry_opt_string(
    s: Seq<(Seq<char>, Seq<char>)>,
    key: Seq<char>,
    v: Option<String>,
) -> Seq<(Seq<char>, Seq<char>)> {
    match v {
        Some(x) => s.push((key, spec_json_string(x@))),
        None => s,
    }
}

/// Appends a (key, decimal number) entry when the field is present.
pub open spec fn entry_opt_u8(
    s: Seq<(Seq<char>, Seq<char>)>,
    key: Seq<char>,
    v: Option<u8>,
) -> Seq<(Seq<char>, Seq<char>)> {
    match v {
        Some(x) => s.push((key, spec_dec(x as u32))),
        None => s,
    }
}

/// Appends a (key, verbatim number text) entry when the field is present.
pub open spec fn entry_opt_number_text(
    s: Seq<(Seq<char>, Seq<char>)>,
    key: Seq<char>,
    v: Option<String>,
) -> Seq<(Seq<char>, Seq<char>)> {
    match v {
        Some(x) => s.push((key, x@)),
        None => s,
    }
}

/// Appends a (key, array of verbatim number texts) entry when the field is
/// present.
pub open spec fn entry_opt_number_array(
    s: Seq<(Seq<char>, Seq<char>)>,
    key: Seq<char>,
    v: Option<Vec<String>>,
) -> Seq<(Seq<char>, Seq<char>)> {
    match v {
        Some(x) => s.push((key, spec_json_array(x.deep_view()))),
        None => s,
    }
}

/// The (key, value-text) entries of the EXIF assertion appended to `s0`, in
/// the fixed field order, one for each present field and none for an absent
/// one.
pub open spec fn spec_exif_entries_from(
    s0: Seq<(Seq<char>, Seq<char>)>,
    d: ExifData,
) -> Seq<(Seq<char>, Seq<char>)> {
    let s = s0;
    let s = entry_opt_string(s, "exif:GPSVersionID"@, d.gps_version_id);
    let s = entry_opt_string(s, "exif:GPSLatitude"@, d.latitude);
    let s = entry_opt_string(s, "exif:GPSLongitude"@, d.longitude);
    let s = entry_opt_u8(s, "exif:GPSAltitudeRef"@, d.altitude_ref);
    let s = entry_opt_string(s, "exif:GPSAltitude"@, d.altitude);
    let s = entry_opt_string(s, "exif:GPSTimeStamp"@, d.timestamp);
    let s = entry_opt_string(s, "exif:GPSSpeedRef"@, d.speed_ref);
    let s = entry_opt_string(s, "exif:GPSSpeed"@, d.speed);
    let s = entry_opt_string(s, "exif:GPSImgDirectionRef"@, d.direction_ref);
    let s = entry_opt_string(s, "exif:GPSImgDirection"@, d.direction);
    let s = entry_opt_string(s, "exif:GPSDestBearingRef"@, d.destination_bearing_ref);
    let s = entry_opt_string(s, "exif:GPSDestBearing"@, d.destination_bearing);
    let s = entry_opt_string(s, "exif:GPSHPositioningError"@, d.positioning_error);
    let s = entry_opt_string(s, "exif:ExposureTime"@, d.exposure_time);
    let s = entry_opt_number_text(s, "exif:FNumber"@, d.f_number);
    let s = entry_opt_u8(s, "exif:ColorSpace"@, d.color_space);
    let s = entry_opt_number_text(s, "exif:DigitalZoomRatio"@, d.digital_zoom_ratio);
    let s = entry_opt_string(s, "tiff:Make"@, d.make);
    let s = entry_opt_string(s, "tiff:Model"@, d.model);
    let s = entry_opt_string(s, "exifEX:LensMake"@, d.lens_make);
    let s = entry_opt_string(s, "exifEX:LensModel"@, d.lens_model);
    let s = entry_opt_number_array(s, "exifEX:LensSpecification"@, d.lens_specification);
    s
}

/// The (key, value-text) entries of the EXIF assertion, in the fixed field
/// order, one for each present field and none for an absent one.
pub open spec fn spec_exif_entries(d: ExifData) -> Seq<(Seq<char>, Seq<char>)> {
    spec_exif_entries_from(Seq::<(Seq<char>, Seq<char>)>::empty(), d)
}

fn push_opt_string(entries: &mut Vec<(String, String)>, key: &str, v: &Option<String>)
    ensures
        final(entries).deep_view() == entry_opt_string(old(entries).deep_view(), key@, *v),
{
    if let Some(x) = v {
        entries.push((String::from_str(key), json_string(x.as_str())));
        proof {
            assert(entries.deep_view() =~= old(entries).deep_view().push(
                (key@, spec_json_string(x@)),
            ));
        }
    }
}

fn push_opt_u8(entries: &mut Vec<(String, String)>, key: &str, v: &Option<u8>)
    ensures
        final(entries).deep_view() == entry_opt_u8(old(entries).deep_view(), key@, *v),
{
    if let Some(x) = v {
        entries.push((String::from_str(key), u8_dec_string(*x)));
        proof {
            assert(entries.deep_view() =~= old(entries).deep_view().push(
                (key@, spec_dec(*x as u32)),
            ));
        }
    }
}

fn push_opt_number_text(entries: &mut Vec<(String, String)>, key: &str, v: &Option<String>)
    ensures
        final(entries).deep_view() == entry_opt_number_text(old(entries).deep_view(), key@, *v),
{
    if let Some(x) = v {
        entries.push((String::from_str(key), x.clone()));
        proof {
            assert(entries.deep_view() =~= old(entries).deep_view().push((key@, x@)));
        }
    }
}

fn push_opt_number_array(entries: &mut Vec<(String, String)>, key: &str, v: &Option<Vec<String>>)
    ensures
        final(entries).deep_view() == entry_opt_number_array(old(entries).deep_view(), key@, *v),
{
    if let Some(x) = v {
        entries.push((String::from_str(key), json_array(x)));
        proof {
            assert(entries.deep_view() =~= old(entries).deep_view().push(
                (key@, spec_json_array(x.deep_view())),
            ));
        }
    }
}

fn push_exif_entries(entries: &mut Vec<(String, String)>, d: &ExifData)
    ensures
        final(entries).deep_view() == spec_exif_entries_from(old(entries).deep_view(), *d),
{
    push_opt_string(entries, "exif:GPSVersionID", &d.gps_version_id);
    push_opt_string(entries, "exif:GPSLatitude", &d.latitude);
    push_opt_string(entries, "exif:GPSLongitude", &d.longitude);
    push_opt_u8(entries, "exif:GPSAltitudeRef", &d.altitude_ref);
    push_opt_string(entries, "exif:GPSAltitude", &d.altitude);
    push_opt_string(entries, "exif:GPSTimeStamp", &d.timestamp);
    push_opt_string(entries, "exif:GPSSpeedRef", &d.speed_ref);
    push_opt_string(entries, "exif:GPSSpeed", &d.speed);
    push_opt_string(entries, "exif:GPSImgDirectionRef", &d.direction_ref);
    push_opt_string(entries, "exif:GPSImgDirection", &d.direction);
    push_opt_string(entries, "exif:GPSDestBearingRef", &d.destination_bearing_ref);
    push_opt_string(entries, "exif:GPSDestBearing", &d.destination_bearing);
    push_opt_string(entries, "exif:GPSHPositioningError", &d.positioning_error);
    push_opt_string(entries, "exif:ExposureTime", &d.exposure_time);
    push_opt_number_text(entries, "exif:FNumber", &d.f_number);
    push_opt_u8(entries, "exif:ColorSpace", &d.color_space);
    push_opt_number_text(entries, "exif:DigitalZoomRatio", &d.digital_zoom_ratio);
    push_opt_string(entries, "tiff:Make", &d.make);
    push_opt_string(entries, "tiff:Model", &d.model);
    push_opt_string(entries, "exifEX:LensMake", &d.lens_make);
    push_opt_string(entries, "exifEX:LensModel", &d.lens_model);
    push_opt_number_array(entries, "exifEX:LensSpecification", &d.lens_specification);
}

/// Renders the EXIF (key, value-text) entries for the present fields, in
/// the fixed field order.
pub fn exif_entries(d: &ExifData) -> (r: Vec<(String, String)>)
    ensures
        r.deep_view() == spec_exif_entries(*d),
{
    let mut entries: Vec<(String, String)> = Vec::new();
    proof {
        assert(entries.deep_view() =~= Seq::<(Seq<char>, Seq<char>)>::empty());
    }
    push_exif_entries(&mut entries, d);
    entries
}

/// With only `latitude` and `longitude` present, the EXIF assertion holds
/// exactly those two keys and none of the others.
pub proof fn lemma_exif_latitude_longitude_only(d: ExifData)
    requires
        d.gps_version_id is None,
        d.latitude is Some,
        d.longitude is Some,
        d.altitude_ref is None,
        d.altitude is None,
        d.timestamp is None,
        d.speed_ref is None,
        d.speed is None,
        d.direction_ref is None,
        d.direction is None,
        d.destination_bearing_ref is None,
        d.destination_bearing is None,
        d.positioning_error is None,
        d.exposure_time is None,
        d.f_number is None,
        d.color_space is None,
        d.digital_zoom_ratio is None,
        d.make is None,
        d.model is None,
        d.lens_make is None,
        d.lens_model is None,
        d.lens_specification is None,
    ensures
        spec_exif_entries(d).len() == 2,
        spec_exif_entries(d)[0].0 == "exif:GPSLatitude"@,
        spec_exif_entries(d)[1].0 == "exif:GPSLongitude"@,
{
}

/// The fixed `@context` of the EXIF assertion: the namespace table the
/// standardized keys live in.
pub open spec fn spec_exif_context() -> Seq<char> {
    "{\"dc\": \"http://purl.org/dc/elements/1.1/\", \"exifEX\": \"http://cipa.jp/exif/1.0/\", \"exif\": \"http://ns.adobe.com/exif/1.0/\", \"tiff\": \"http://ns.adobe.com/tiff/1.0/\", \"xmp\": \"http://ns.adobe.com/xap/1.0/\", \"rdf\": \"http://www.w3.org/1999/02/22-rdf-syntax-ns#\"}"@
}

/// The fixed `@context` of the EXIF assertion, as text.
pub fn exif_context_text() -> (r: &'static str)
    ensures
        r@ == spec_exif_context(),
{
    "{\"dc\": \"http://purl.org/dc/elements/1.1/\", \"exifEX\": \"http://cipa.jp/exif/1.0/\", \"exif\": \"http://ns.adobe.com/exif/1.0/\", \"tiff\": \"http://ns.adobe.com/tiff/1.0/\", \"xmp\": \"http://ns.adobe.com/xap/1.0/\", \"rdf\": \"http://www.w3.org/1999/02/22-rdf-syntax-ns#\"}"
}

/// The whole EXIF assertion: the fixed `@context` first, then one entry for
/// each present field.
pub open spec fn spec_exif_json(d: ExifData) -> Seq<char> {
    spec_json_object(
        spec_exif_entries_from(
            Seq::<(Seq<char>, Seq<char>)>::empty().push(("@context"@, spec_exif_context())),
            d,
        ),
    )
}

/// Renders the whole EXIF assertion as JSON text.
pub fn exif_json(d: &ExifData) -> (r: String)
    ensures
        r@ == spec_exif_json(*d),
{
    let mut entries: Vec<(String, String)> = Vec::new();
    entries.push((String::from_str("@context"), String::from_str(exif_context_text())));
    proof {
        assert(entries.deep_view() =~= Seq::<(Seq<char>, Seq<char>)>::empty().push(
            ("@context"@, spec_exif_context()),
        ));
    }
    push_exif_entries(&mut entries, d);
    json_object(&entries)
}

/// An AI/data-mining usage statement.
#[derive(Debug, Clone)]
pub enum AIDataMiningUsage {
    Allowed,
    NotAllowed,
    Constrained { constraint_info: String },
}

impl AIDataMiningUsage {
    /// The fixed two-field JSON shape of the usage statement: a `use` field,
    /// and a `constraintInfo` field only for the constrained variant.
    pub open spec fn spec_json(&self) -> Seq<char> {
        match self {
            AIDataMiningUsage::Allowed => "{\"use\": \"allowed\"}"@,
            AIDataMiningUsage::NotAllowed => "{\"use\": \"notAllowed\"}"@,
            AIDataMiningUsage::Constrained { constraint_info } => "{\"use\": \"constrained\", \"constraintInfo\": "@
                + spec_json_string(constraint_info@) + "}"@,
        }
    }

    /// Renders the usage statement as JSON text.
    pub fn to_json(&self) -> (r: String)
        ensures
            r@ == self.spec_json(),
    {
        match self {
            AIDataMiningUsage::Allowed => String::from_str("{\"use\": \"allowed\"}"),
            AIDataMiningUsage::NotAllowed => String::from_str("{\"use\": \"notAllowed\"}"),
            AIDataMiningUsage::Constrained { constraint_info } => {
                let mut out = String::from_str("{\"use\": \"constrained\", \"constraintInfo\": ");
                out.append(json_string(constraint_info.as_str()).as_str());
                out.append("}");
                out
            },
        }
    }
}

/// One usage statement for each of the four standardized AI/data-mining
/// labels.
#[derive(Debug, Clone)]
pub struct CustomAITrainingOptions {
    pub ai_training: AIDataMiningUsage,
    pub ai_generative_training: AIDataMiningUsage,
    pub data_mining: AIDataMiningUsage,
    pub inference: AIDataMiningUsage,
}

/// A creative-work assertion with one author: the author's `name`,
/// `identifier`, and canonical `@id` service URI.
pub open spec fn spec_creative_work_author_json(
    name: Seq<char>,
    identifier: Seq<char>,
    id: Seq<char>,
) -> Seq<char> {
    "{\"@context\": \"https://schema.org\", \"@type\": \"CreativeWork\", \"author\": [{\"@context\": \"https://schema.org\", \"@type\": \"Person\", \"name\": "@
        + spec_json_string(name) + ", \"identifier\": "@ + spec_json_string(identifier)
        + ", \"@id\": "@ + spec_json_string(id) + "}]}"@
}

/// Renders a creative-work assertion with one author.
pub fn creative_work_author_json(name: &str, identifier: &str, id: &str) -> (r: String)
    ensures
        r@ == spec_creative_work_author_json(name@, identifier@, id@),
{
    let mut out = String::from_str(
        "{\"@context\": \"https://schema.org\", \"@type\": \"CreativeWork\", \"author\": [{\"@context\": \"https://schema.org\", \"@type\": \"Person\", \"name\": ",
    );
    out.append(json_string(name).as_str());
    out.append(", \"identifier\": ");
    out.append(json_string(identifier).as_str());
    out.append(", \"@id\": ");
    out.append(json_string(id).as_str());
    out.append("}]}");
    out
}

/// A creative-work assertion with only a `url` field.
pub open spec fn spec_creative_work_url_json(url: Seq<char>) -> Seq<char> {
    "{\"@context\": \"https://schema.org\", \"@type\": \"CreativeWork\", \"url\": "@
        + spec_json_string(url) + "}"@
}

/// Renders a creative-work assertion with only a `url` field.
pub fn creative_work_url_json(url: &str) -> (r: String)
    ensures
        r@ == spec_creative_work_url_json(url@),
{
    let mut out = String::from_str(
        "{\"@context\": \"https://schema.org\", \"@type\": \"CreativeWork\", \"url\": ",
    );
    out.append(json_string(url).as_str());
    out.append("}");
    out
}

} // verus!
