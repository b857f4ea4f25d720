use scanmap::render::{i64_to_string, micro_to_decimal};
use scanmap::request::{build_metadata_json, build_object_name, build_upload_request};

#[test]
fn micro_degrees_render_like_the_source_floats() {
    assert_eq!(micro_to_decimal(19_076_000), "19.076");
    assert_eq!(micro_to_decimal(72_877_700), "72.8777");
}

#[test]
fn micro_degree_edge_values() {
    assert_eq!(micro_to_decimal(0), "0");
    assert_eq!(micro_to_decimal(1_000_000), "1");
    assert_eq!(micro_to_decimal(-500_000), "-0.5");
    assert_eq!(micro_to_decimal(1), "0.000001");
    assert_eq!(micro_to_decimal(-1), "-0.000001");
    assert_eq!(micro_to_decimal(90_000_000), "90");
    assert_eq!(micro_to_decimal(-180_000_000), "-180");
    assert_eq!(micro_to_decimal(100_000), "0.1");
    assert_eq!(micro_to_decimal(i64::MIN), "-9223372036854.775808");
    assert_eq!(micro_to_decimal(i64::MAX), "9223372036854.775807");
}

#[test]
fn signed_integers_render_exactly() {
    assert_eq!(i64_to_string(0), "0");
    assert_eq!(i64_to_string(7), "7");
    assert_eq!(i64_to_string(-1), "-1");
    assert_eq!(i64_to_string(1_700_000_000), "1700000000");
    assert_eq!(i64_to_string(i64::MAX), "9223372036854775807");
    assert_eq!(i64_to_string(i64::MIN), "-9223372036854775808");
}

#[test]
fn object_name_joins_file_name_and_timestamp() {
    assert_eq!(build_object_name("photo.jpg", 1_700_000_000), "photo.jpg_1700000000");
    assert_eq!(build_object_name("a", -5), "a_-5");
}

#[test]
fn metadata_json_is_exact() {
    assert_eq!(
        build_metadata_json("scan.jpg_1", "folder-9", 19_076_000, 72_877_700),
        "{\"name\":\"scan.jpg_1\",\"parents\":[\"folder-9\"],\
         \"properties\":{\"lat\":\"19.076\",\"lon\":\"72.8777\"}}"
    );
}

#[test]
fn metadata_json_escapes_the_object_name() {
    assert_eq!(
        build_metadata_json("a\"b\\c\nd\te\rf", "g", 1_000_000, -2_500_000),
        "{\"name\":\"a\\\"b\\\\c\\nd\\te\\rf\",\"parents\":[\"g\"],\
         \"properties\":{\"lat\":\"1\",\"lon\":\"-2.5\"}}"
    );
}

#[test]
fn metadata_json_escapes_control_characters() {
    assert_eq!(
        build_metadata_json("a\u{1}b\u{1f}", "f", 0, 0),
        "{\"name\":\"a\\u0001b\\u001f\",\"parents\":[\"f\"],\
         \"properties\":{\"lat\":\"0\",\"lon\":\"0\"}}"
    );
}

#[test]
fn upload_request_carries_both_parts() {
    let req = build_upload_request("photo.jpg", 1_700_000_000, "folder-123", 19_076_000, 72_877_700);
    assert_eq!(req.object_name, "photo.jpg_1700000000");
    assert_eq!(
        req.metadata_json,
        "{\"name\":\"photo.jpg_1700000000\",\"parents\":[\"folder-123\"],\
         \"properties\":{\"lat\":\"19.076\",\"lon\":\"72.8777\"}}"
    );
}
