use std::io::Cursor;

use simple_c2pa::content_credentials::AssertionPayload;
use simple_c2pa::{
    create_content_credentials_certificate, create_root_certificate, ApplicationInfo,
    ContentCredentials, ExifData, FileData, SimpleC2PAError,
};

fn crc32(data: &[u8]) -> u32 {
    let mut crc: u32 = 0xffff_ffff;
    for &byte in data {
        crc ^= byte as u32;
        for _ in 0..8 {
            if crc & 1 != 0 {
                crc = (crc >> 1) ^ 0xedb8_8320;
            } else {
                crc >>= 1;
            }
        }
    }
    !crc
}

fn adler32(data: &[u8]) -> u32 {
    let mut a: u32 = 1;
    let mut b: u32 = 0;
    for &byte in data {
        a = (a + byte as u32) % 65521;
        b = (b + a) % 65521;
    }
    (b << 16) | a
}

fn png_chunk(kind: &[u8; 4], data: &[u8]) -> Vec<u8> {
    let mut out = Vec::new();
    out.extend_from_slice(&(data.len() as u32).to_be_bytes());
    out.extend_from_slice(kind);
    out.extend_from_slice(data);
    let mut checked = Vec::new();
    checked.extend_from_slice(kind);
    checked.extend_from_slice(data);
    out.extend_from_slice(&crc32(&checked).to_be_bytes());
    out
}

/// A minimal valid PNG: 4 by 4 pixels, RGB, one stored (uncompressed)
/// deflate block.
fn tiny_png() -> Vec<u8> {
    let width: u32 = 4;
    let height: u32 = 4;
    let mut ihdr = Vec::new();
    ihdr.extend_from_slice(&width.to_be_bytes());
    ihdr.extend_from_slice(&height.to_be_bytes());
    ihdr.extend_from_slice(&[8, 2, 0, 0, 0]);

    let mut raw = Vec::new();
    for row in 0..height {
        raw.push(0u8);
        for col in 0..width {
            raw.push((row * 60) as u8);
            raw.push((col * 60) as u8);
            raw.push(200u8);
        }
    }
    let mut zlib = vec![0x78, 0x01, 0x01];
    zlib.extend_from_slice(&(raw.len() as u16).to_le_bytes());
    zlib.extend_from_slice(&(!(raw.len() as u16)).to_le_bytes());
    zlib.extend_from_slice(&raw);
    zlib.extend_from_slice(&adler32(&raw).to_be_bytes());

    let mut png = vec![0x89, 0x50, 0x4e, 0x47, 0x0d, 0x0a, 0x1a, 0x0a];
    png.extend_from_slice(&png_chunk(b"IHDR", &ihdr));
    png.extend_from_slice(&png_chunk(b"IDAT", &zlib));
    png.extend_from_slice(&png_chunk(b"IEND", &[]));
    png
}

#[test]
fn file_data_without_bytes_or_path_fails() {
    let empty = FileData::new(None, None, None);
    match empty.get_bytes() {
        Err(SimpleC2PAError::Failure { message }) => assert_eq!(message, "No bytes or path"),
        _ => panic!("expected a failure"),
    }
    match empty.get_path() {
        Err(SimpleC2PAError::Failure { message }) => assert_eq!(message, "No bytes or path"),
        _ => panic!("expected a failure"),
    }
}

#[test]
fn file_data_round_trips_through_disk() {
    let bytes = tiny_png();
    let in_memory = FileData::new(None, Some(bytes.clone()), None);
    let path = in_memory.get_path().unwrap();
    let from_disk = FileData::new(Some(path), None, None);
    assert_eq!(from_disk.get_bytes().unwrap(), bytes);
}

#[test]
fn add_json_assertion_overwrites_same_label() {
    let root = create_root_certificate(None, None).unwrap();
    let leaf = create_content_credentials_certificate(Some(root), None, None).unwrap();
    let file = FileData::new(None, Some(tiny_png()), Some("test-1.png".to_string()));
    let mut cc = ContentCredentials::new(leaf, file, None);
    cc.add_json_assertion("x", "first value".to_string()).unwrap();
    cc.add_json_assertion("x", "second value".to_string()).unwrap();

    let under_x: Vec<_> = cc.assertions.iter().filter(|e| e.label == "x").collect();
    assert_eq!(under_x.len(), 1);
    match &under_x[0].payload {
        AssertionPayload::JsonText { text } => assert_eq!(text, "second value"),
        _ => panic!("expected the verbatim text payload"),
    }
}

#[test]
fn creative_work_label_is_overwritten() {
    let root = create_root_certificate(None, None).unwrap();
    let leaf = create_content_credentials_certificate(Some(root), None, None).unwrap();
    let file = FileData::new(None, Some(tiny_png()), Some("test-1.png".to_string()));
    let mut cc = ContentCredentials::new(leaf, file, None);
    cc.add_instagram_assertion("johndoe", "John Doe").unwrap();
    cc.add_website_assertion("https://example.com".to_string()).unwrap();

    let creative: Vec<_> =
        cc.assertions.iter().filter(|e| e.label == "stds.schema-org.CreativeWork").collect();
    assert_eq!(creative.len(), 1);
    match &creative[0].payload {
        AssertionPayload::JsonValue { json } => {
            assert!(json.contains("\"url\""));
            assert!(!json.contains("johndoe"));
        }
        _ => panic!("expected a JSON value payload"),
    }
}

#[test]
fn basic_example() {
    let image_data = tiny_png();
    let file_name = "test-1.png".to_string();

    let root_certificate = create_root_certificate(None, None).unwrap();
    let content_credentials_certificate =
        create_content_credentials_certificate(Some(root_certificate.clone()), None, None)
            .unwrap();

    let file = FileData::new(None, Some(image_data.clone()), Some(file_name));
    let mut cc = ContentCredentials::new(content_credentials_certificate, file, None);
    cc.add_created_assertion().unwrap();
    let output = cc.embed_manifest(None).unwrap();
    let signed = output.get_bytes().unwrap();
    assert_ne!(signed, image_data);

    let reader = c2pa::Reader::from_stream("image/png", Cursor::new(signed)).unwrap();
    assert!(!matches!(reader.validation_state(), c2pa::ValidationState::Invalid));
    let manifest = reader.active_manifest().unwrap();
    assert_eq!(manifest.claim_generator(), Some("simple-c2pa/0.1.0"));
    assert!(manifest.assertions().iter().any(|a| a.label().starts_with("c2pa.actions")));
    let parents: Vec<_> = manifest.ingredients().iter().filter(|i| i.is_parent()).collect();
    assert_eq!(parents.len(), 1);
}

#[test]
fn complex_example() {
    let image_data = tiny_png();
    let file_name = "test-1.png".to_string();
    let fingerprint = "BA08 71E8 0200 B95D 8297  7ED0 4D1E C37F 88A7 FDCE".to_string();

    let organization = "Sample Organization".to_string();
    let root_certificate = create_root_certificate(Some(organization.clone()), None).unwrap();
    let root_bytes = root_certificate.get_certificate_bytes().unwrap();
    assert!(String::from_utf8(root_bytes).unwrap().contains("BEGIN CERTIFICATE"));

    let content_credentials_certificate = create_content_credentials_certificate(
        Some(root_certificate.clone()),
        Some(organization.clone()),
        None,
    )
    .unwrap();
    let content_bytes = content_credentials_certificate.get_certificate_bytes().unwrap();
    assert!(String::from_utf8(content_bytes).unwrap().contains("BEGIN CERTIFICATE"));

    let file = FileData::new(None, Some(image_data.clone()), Some(file_name));
    let app_info = ApplicationInfo::new("SampleApp".to_string(), "1.0.0".to_string(), None);
    let mut cc =
        ContentCredentials::new(content_credentials_certificate, file, Some(app_info));
    cc.add_created_assertion().unwrap();

    let exif_data = ExifData {
        gps_version_id: Some("2.2.0.0".to_string()),
        latitude: Some("39,21.102N".to_string()),
        longitude: Some("74,26.5737W".to_string()),
        altitude_ref: Some(0),
        altitude: Some("100963/29890".to_string()),
        timestamp: Some("2019-09-22T18:22:57Z".to_string()),
        speed_ref: Some("K".to_string()),
        speed: Some("4009/161323".to_string()),
        direction_ref: Some("T".to_string()),
        direction: Some("296140/911".to_string()),
        destination_bearing_ref: Some("T".to_string()),
        destination_bearing: Some("296140/911".to_string()),
        positioning_error: Some("13244/2207".to_string()),
        exposure_time: Some("1/100".to_string()),
        f_number: Some("4.0".to_string()),
        color_space: Some(1),
        digital_zoom_ratio: Some("2.0".to_string()),
        make: Some("ProofMode".to_string()),
        model: Some("ProofMode In-App Camera v2.0".to_string()),
        lens_make: Some("CameraCompany".to_string()),
        lens_model: Some("17.0-35.0 mm".to_string()),
        lens_specification: Some(vec![
            "1.55".to_string(),
            "4.2".to_string(),
            "1.6".to_string(),
            "2.4".to_string(),
        ]),
    };
    cc.add_exif_assertion(exif_data).unwrap();
    cc.add_instagram_assertion("johndoe", "John Doe").unwrap();
    cc.add_pgp_assertion(&fingerprint, "88A7FDCE").unwrap();
    cc.add_website_assertion("https://redaranj.com".to_string()).unwrap();

    let output = cc.embed_manifest(None).unwrap();
    let signed = output.get_bytes().unwrap();
    assert_ne!(signed, image_data);

    let reader = c2pa::Reader::from_stream("image/png", Cursor::new(signed)).unwrap();
    assert!(!matches!(reader.validation_state(), c2pa::ValidationState::Invalid));
    let manifest = reader.active_manifest().unwrap();
    assert_eq!(manifest.claim_generator(), Some("sampleapp/1.0.0"));

    let exif = manifest
        .assertions()
        .iter()
        .find(|a| a.label().starts_with("stds.exif"))
        .expect("exif assertion present");
    let exif_value = exif.value().unwrap();
    assert_eq!(exif_value["exif:GPSLatitude"].as_str(), Some("39,21.102N"));

    let creative = manifest
        .assertions()
        .iter()
        .find(|a| a.label().starts_with("stds.schema-org.CreativeWork"))
        .expect("creative work assertion present");
    let creative_value = creative.value().unwrap();
    assert_eq!(creative_value["url"].as_str(), Some("https://redaranj.com"));
}

#[test]
fn embed_manifest_writes_output_path() {
    let image_data = tiny_png();
    let root = create_root_certificate(None, None).unwrap();
    let leaf = create_content_credentials_certificate(Some(root), None, None).unwrap();
    let file = FileData::new(None, Some(image_data.clone()), Some("test-1.png".to_string()));
    let mut cc = ContentCredentials::new(leaf, file, None);
    cc.add_created_assertion().unwrap();

    let temp = tempfile::Builder::new().suffix(".png").tempfile().unwrap();
    let path = temp.path().to_str().unwrap().to_string();
    let output = cc.embed_manifest(Some(path.clone())).unwrap();
    let returned = output.get_bytes().unwrap();

    let from_disk = FileData::new(Some(path), None, None).get_bytes().unwrap();
    assert_eq!(from_disk, returned);
    assert_ne!(from_disk, image_data);
}

#[test]
fn export_manifest_is_detached() {
    let image_data = tiny_png();
    let root = create_root_certificate(None, None).unwrap();
    let leaf = create_content_credentials_certificate(Some(root), None, None).unwrap();
    let file = FileData::new(None, Some(image_data.clone()), Some("test-1.png".to_string()));
    let mut cc = ContentCredentials::new(leaf, file, None);
    cc.add_created_assertion().unwrap();

    let output = cc.export_manifest(None).unwrap();
    let manifest_bytes = output.get_bytes().unwrap();
    assert!(!manifest_bytes.is_empty());
    assert_ne!(manifest_bytes, image_data);
    // A detached manifest store is not a PNG.
    assert_ne!(&manifest_bytes[0..4], &image_data[0..4]);

    // The detached store validates against the untouched source asset.
    let reader = c2pa::Reader::from_context(c2pa::Context::new())
        .with_manifest_data_and_stream(&manifest_bytes, "image/png", Cursor::new(image_data))
        .unwrap();
    let manifest = reader.active_manifest().unwrap();
    assert!(manifest.assertions().iter().any(|a| a.label().starts_with("c2pa.actions")));
}

#[test]
fn ai_training_assertions_set_four_labels() {
    let root = create_root_certificate(None, None).unwrap();
    let leaf = create_content_credentials_certificate(Some(root), None, None).unwrap();
    let file = FileData::new(None, Some(tiny_png()), Some("test-1.png".to_string()));
    let mut cc = ContentCredentials::new(leaf, file, None);
    cc.add_restricted_ai_training_assertions().unwrap();
    let labels: Vec<_> = cc.assertions.iter().map(|e| e.label.clone()).collect();
    assert_eq!(
        labels,
        vec![
            "c2pa.ai_training".to_string(),
            "c2pa.ai_generative_training".to_string(),
            "c2pa.data_mining".to_string(),
            "c2pa.inference".to_string(),
        ]
    );
    for entry in cc.assertions.iter() {
        match &entry.payload {
            AssertionPayload::JsonValue { json } => {
                assert_eq!(json, "{\"use\": \"notAllowed\"}");
            }
            _ => panic!("expected a JSON value payload"),
        }
    }

    cc.add_permissive_ai_training_assertions().unwrap();
    assert_eq!(cc.assertions.len(), 4);
    match &cc.assertions[0].payload {
        AssertionPayload::JsonValue { json } => assert_eq!(json, "{\"use\": \"allowed\"}"),
        _ => panic!("expected a JSON value payload"),
    }
}

#[test]
fn application_info_agent_text() {
    let app = ApplicationInfo::new("SampleApp".to_string(), "1.0.0".to_string(), None);
    assert_eq!(app.agent_text(), "SampleApp/1.0.0");
}
