use simple_c2pa::assertions::{creative_work_author_json, exif_entries, exif_json};
use simple_c2pa::{AIDataMiningUsage, ExifData};

#[test]
fn ai_usage_serialization() {
    assert_eq!(AIDataMiningUsage::Allowed.to_json(), "{\"use\": \"allowed\"}");
    assert_eq!(AIDataMiningUsage::NotAllowed.to_json(), "{\"use\": \"notAllowed\"}");
    let constrained = AIDataMiningUsage::Constrained {
        constraint_info: "https://example.com/policy".to_string(),
    };
    assert_eq!(
        constrained.to_json(),
        "{\"use\": \"constrained\", \"constraintInfo\": \"https://example.com/policy\"}"
    );
}

#[test]
fn ai_usage_constraint_is_escaped() {
    let constrained = AIDataMiningUsage::Constrained { constraint_info: "a\"b\\c".to_string() };
    let text = constrained.to_json();
    assert_eq!(text, "{\"use\": \"constrained\", \"constraintInfo\": \"a\\\"b\\\\c\"}");
    let value: serde_json::Value = serde_json::from_str(&text).unwrap();
    assert_eq!(value["use"], serde_json::Value::String("constrained".to_string()));
    assert_eq!(value["constraintInfo"], serde_json::Value::String("a\"b\\c".to_string()));
}

#[test]
fn exif_with_latitude_longitude_only() {
    let mut exif = ExifData::empty();
    exif.latitude = Some("39,21.102N".to_string());
    exif.longitude = Some("74,26.5737W".to_string());
    let entries = exif_entries(&exif);
    assert_eq!(entries.len(), 2);
    assert_eq!(entries[0].0, "exif:GPSLatitude");
    assert_eq!(entries[0].1, "\"39,21.102N\"");
    assert_eq!(entries[1].0, "exif:GPSLongitude");
    assert_eq!(entries[1].1, "\"74,26.5737W\"");

    let value: serde_json::Value = serde_json::from_str(&exif_json(&exif)).unwrap();
    let object = value.as_object().unwrap();
    assert_eq!(object.len(), 3);
    assert!(object.contains_key("@context"));
    assert_eq!(object["exif:GPSLatitude"], serde_json::Value::String("39,21.102N".to_string()));
    assert_eq!(object["exif:GPSLongitude"], serde_json::Value::String("74,26.5737W".to_string()));
    assert_eq!(object["@context"].as_object().unwrap().len(), 6);
    assert_eq!(
        object["@context"]["exif"],
        serde_json::Value::String("http://ns.adobe.com/exif/1.0/".to_string())
    );
}

#[test]
fn exif_with_every_field() {
    let exif = ExifData {
        gps_version_id: Some("2.2.0.0".to_string()),
        latitude: Some("39,21.102N".to_string()),
        longitude: Some("74,26.5737W".to_string()),
        altitude_ref: Some(0),
        altitude: Some("100963/29890".to_string()),
        timestamp: Some("2019-09-22T18:22:57Z".to_string()),
        speed_ref: Some("K".to_string()),
        speed: Some("4009/161323".to_string()),
        direction_ref: Some("T".to_string()),
        direction: Some("296140/911".to_string()),
        destination_bearing_ref: Some("T".to_string()),
        destination_bearing: Some("296140/911".to_string()),
        positioning_error: Some("13244/2207".to_string()),
        exposure_time: Some("1/100".to_string()),
        f_number: Some("4.0".to_string()),
        color_space: Some(1),
        digital_zoom_ratio: Some("2.0".to_string()),
        make: Some("ProofMode".to_string()),
        model: Some("ProofMode In-App Camera v2.0".to_string()),
        lens_make: Some("CameraCompany".to_string()),
        lens_model: Some("17.0-35.0 mm".to_string()),
        lens_specification: Some(vec![
            "1.55".to_string(),
            "4.2".to_string(),
            "1.6".to_string(),
            "2.4".to_string(),
        ]),
    };
    let entries = exif_entries(&exif);
    assert_eq!(entries.len(), 22);

    let value: serde_json::Value = serde_json::from_str(&exif_json(&exif)).unwrap();
    let object = value.as_object().unwrap();
    assert_eq!(object.len(), 23);
    assert_eq!(object["exif:GPSAltitudeRef"].as_u64(), Some(0));
    assert_eq!(object["exif:ColorSpace"].as_u64(), Some(1));
    assert_eq!(object["exif:FNumber"].as_f64().unwrap(), 4.0);
    assert_eq!(object["exif:DigitalZoomRatio"].as_f64().unwrap(), 2.0);
    let lens = object["exifEX:LensSpecification"].as_array().unwrap();
    assert_eq!(lens.len(), 4);
    assert_eq!(lens[0].as_f64().unwrap(), 1.55);
    assert_eq!(object["tiff:Make"], serde_json::Value::String("ProofMode".to_string()));
    assert_eq!(
        object["exifEX:LensModel"],
        serde_json::Value::String("17.0-35.0 mm".to_string())
    );
}

#[test]
fn creative_work_author_shape() {
    let text = creative_work_author_json("John \"JD\" Doe", "johndoe", "https://instagram.com");
    let value: serde_json::Value = serde_json::from_str(&text).unwrap();
    assert_eq!(value["@context"], serde_json::Value::String("https://schema.org".to_string()));
    assert_eq!(value["@type"], serde_json::Value::String("CreativeWork".to_string()));
    let authors = value["author"].as_array().unwrap();
    assert_eq!(authors.len(), 1);
    assert_eq!(authors[0]["@type"], serde_json::Value::String("Person".to_string()));
    assert_eq!(authors[0]["name"], serde_json::Value::String("John \"JD\" Doe".to_string()));
    assert_eq!(authors[0]["identifier"], serde_json::Value::String("johndoe".to_string()));
    assert_eq!(authors[0]["@id"], serde_json::Value::String("https://instagram.com".to_string()));
}

#[test]
fn exif_color_space_bounds() {
    let mut exif = ExifData::empty();
    exif.color_space = Some(255);
    exif.altitude_ref = Some(0);
    let entries = exif_entries(&exif);
    assert_eq!(entries.len(), 2);
    assert_eq!(entries[0], ("exif:GPSAltitudeRef".to_string(), "0".to_string()));
    assert_eq!(entries[1], ("exif:ColorSpace".to_string(), "255".to_string()));
}
