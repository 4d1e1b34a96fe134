use http_shim::body::{BodyFormat, ContentTypeHeader, ParseBodyError};
use http_shim::envelope::{HttpErrorResponse, HttpErrorSource};
use http_shim::locator::{DecodePath, PathSegment};
use http_shim::pipeline::{e400, e500, empty_response, json_response, render_error, HttpError};

fn path_of(segments: Vec<PathSegment>) -> DecodePath {
    let mut p = DecodePath::root();
    for s in segments {
        p.push(s);
    }
    p
}

#[test]
fn envelope_builder_sets_fields() {
    let env = HttpErrorResponse::new(404, "not_found", "Not found");
    assert_eq!(env.status, 404);
    assert_eq!(env.code, "not_found");
    assert_eq!(env.title, "Not found");
    assert!(env.detail.is_none());
    assert!(env.source.is_none());

    let env = env
        .with_detail("nothing here")
        .with_source(HttpErrorSource::Parameter("id".to_string()));
    assert_eq!(env.detail.as_deref(), Some("nothing here"));
    assert!(matches!(env.source, Some(HttpErrorSource::Parameter(ref p)) if p == "id"));

    let boxed = env.boxed();
    assert_eq!(boxed.status, 404);
}

#[test]
fn status_renders_as_three_digit_string() {
    assert_eq!(http_shim::envelope::status_code_as_string(404), "404");
    assert_eq!(http_shim::envelope::status_code_as_string(500), "500");
    assert_eq!(http_shim::envelope::status_code_as_string(100), "100");
}

#[test]
fn minimal_envelope_encodes_without_optional_members() {
    let env = HttpErrorResponse::new(404, "not_found", "Not found");
    assert_eq!(
        env.to_json(),
        "{\"status\":\"404\",\"code\":\"not_found\",\"title\":\"Not found\"}"
    );
}

#[test]
fn minimal_envelope_round_trips_and_omits_detail_and_source() {
    let env = HttpErrorResponse::new(404, "not_found", "Not found");
    let wire = env.to_json();
    let value: serde_json::Value = serde_json::from_str(&wire).unwrap();
    let object = value.as_object().unwrap();
    assert_eq!(object.len(), 3);
    assert!(!object.contains_key("detail"));
    assert!(!object.contains_key("source"));
    let decoded = HttpErrorResponse::new(
        object["status"].as_str().unwrap().parse::<u16>().unwrap(),
        object["code"].as_str().unwrap(),
        object["title"].as_str().unwrap(),
    );
    assert_eq!(decoded.status, env.status);
    assert_eq!(decoded.code, env.code);
    assert_eq!(decoded.title, env.title);
    assert!(decoded.detail.is_none());
    assert!(decoded.source.is_none());
}

#[test]
fn full_envelope_encodes_detail_and_source() {
    let env = HttpErrorResponse::new(415, "unsupported_content_type", "Unsupported content type")
        .with_detail("only json here")
        .with_source(HttpErrorSource::Header("Content-Type".to_string()));
    assert_eq!(
        env.to_json(),
        "{\"status\":\"415\",\"code\":\"unsupported_content_type\",\
         \"title\":\"Unsupported content type\",\"detail\":\"only json here\",\
         \"source\":{\"header\":\"Content-Type\"}}"
    );
}

#[test]
fn encoding_escapes_json_text() {
    let env = HttpErrorResponse::new(422, "invalid_body", "a \"b\" \\ c\nd\te\u{1}");
    let wire = env.to_json();
    assert_eq!(
        wire,
        "{\"status\":\"422\",\"code\":\"invalid_body\",\
         \"title\":\"a \\\"b\\\" \\\\ c\\nd\\te\\u0001\"}"
    );
    let value: serde_json::Value = serde_json::from_str(&wire).unwrap();
    assert_eq!(value["title"].as_str().unwrap(), "a \"b\" \\ c\nd\te\u{1}");
}

#[test]
fn pointer_joins_known_segments_and_skips_unknown() {
    let path = path_of(vec![
        PathSegment::Key { key: "items".to_string() },
        PathSegment::Index { index: 0 },
        PathSegment::Unknown,
        PathSegment::Variant { variant: "name".to_string() },
    ]);
    let HttpErrorSource::Pointer(p) = HttpErrorSource::from_path(&path) else {
        panic!("expected a pointer locator");
    };
    assert_eq!(p, "/items/0/name");
}

#[test]
fn empty_path_gives_root_pointer() {
    let path = DecodePath::root();
    assert!(path.is_root());
    let HttpErrorSource::Pointer(p) = HttpErrorSource::from_path(&path) else {
        panic!("expected a pointer locator");
    };
    assert_eq!(p, "");
}

#[test]
fn missing_header_defaults_to_json() {
    let r = http_shim::body::negotiate_content_type(&ContentTypeHeader::Missing);
    assert_eq!(r.unwrap(), BodyFormat::Json);
    let with_header = http_shim::body::negotiate_content_type(&ContentTypeHeader::Value(
        "application/json".to_string(),
    ));
    assert_eq!(with_header.unwrap(), BodyFormat::Json);
}

#[test]
fn json_content_type_with_parameters_is_accepted() {
    let r = http_shim::body::negotiate_content_type(&ContentTypeHeader::Value(
        "application/json; charset=utf-8".to_string(),
    ));
    assert_eq!(r.unwrap(), BodyFormat::Json);
    let upper = http_shim::body::negotiate_content_type(&ContentTypeHeader::Value(
        "Application/JSON".to_string(),
    ));
    assert_eq!(upper.unwrap(), BodyFormat::Json);
}

#[test]
fn form_content_type_selects_form_decoding() {
    let r = http_shim::body::negotiate_content_type(&ContentTypeHeader::Value(
        "application/x-www-form-urlencoded".to_string(),
    ));
    assert_eq!(r.unwrap(), BodyFormat::Form);
}

#[test]
fn text_plain_is_unsupported_with_415_envelope() {
    let r = http_shim::body::negotiate_content_type(&ContentTypeHeader::Value(
        "text/plain".to_string(),
    ));
    let err = r.unwrap_err();
    assert!(matches!(err, ParseBodyError::UnsupportedContentType));
    let env = HttpErrorResponse::from_parse_body_error(err);
    assert_eq!(env.status, 415);
    assert_eq!(env.code, "unsupported_content_type");
    assert!(matches!(env.source, Some(HttpErrorSource::Header(ref h)) if h == "Content-Type"));
    assert!(env.detail.is_some());
}

#[test]
fn malformed_content_type_is_invalid_with_400_envelope() {
    let r = http_shim::body::negotiate_content_type(&ContentTypeHeader::Value(
        "not a mime type".to_string(),
    ));
    let err = r.unwrap_err();
    assert!(matches!(err, ParseBodyError::InvalidContentType));
    let env = HttpErrorResponse::from_parse_body_error(err);
    assert_eq!(env.status, 400);
    assert_eq!(env.code, "invalid_content_type");
    assert!(matches!(env.source, Some(HttpErrorSource::Header(ref h)) if h == "Content-Type"));
}

#[test]
fn unreadable_content_type_is_invalid() {
    let r = http_shim::body::negotiate_content_type(&ContentTypeHeader::Unreadable);
    assert!(matches!(r.unwrap_err(), ParseBodyError::InvalidContentType));
}

#[test]
fn missing_content_type_variant_maps_to_400_envelope() {
    let env = HttpErrorResponse::from_parse_body_error(ParseBodyError::MissingContentType);
    assert_eq!(env.status, 400);
    assert_eq!(env.code, "missing_content_type");
    assert!(matches!(env.source, Some(HttpErrorSource::Header(ref h)) if h == "Content-Type"));
}

#[test]
fn json_body_failure_is_attributed_to_the_failing_field() {
    let path = path_of(vec![
        PathSegment::Key { key: "user".to_string() },
        PathSegment::Key { key: "age".to_string() },
    ]);
    let err = ParseBodyError::InvalidJsonBody {
        path,
        message: "user.age: invalid type".to_string(),
    };
    let env = HttpErrorResponse::from_parse_body_error(err);
    assert_eq!(env.status, 422);
    assert_eq!(env.code, "invalid_body");
    assert_eq!(env.detail.as_deref(), Some("user.age: invalid type"));
    assert!(matches!(env.source, Some(HttpErrorSource::Pointer(ref p)) if p == "/user/age"));
}

#[test]
fn root_level_body_failure_has_no_locator() {
    let err = ParseBodyError::InvalidJsonBody {
        path: DecodePath::root(),
        message: "expected value at line 1".to_string(),
    };
    let env = HttpErrorResponse::from_parse_body_error(err);
    assert_eq!(env.status, 422);
    assert_eq!(env.code, "invalid_body");
    assert!(env.source.is_none());
    assert_eq!(env.detail.as_deref(), Some("expected value at line 1"));
}

#[test]
fn form_body_failure_maps_like_json_body_failure() {
    let path = path_of(vec![PathSegment::Key { key: "count".to_string() }]);
    let err = ParseBodyError::InvalidFormBody {
        path,
        message: "count: invalid digit".to_string(),
    };
    let env = HttpErrorResponse::from_parse_body_error(err);
    assert_eq!(env.status, 422);
    assert_eq!(env.code, "invalid_body");
    assert!(matches!(env.source, Some(HttpErrorSource::Pointer(ref p)) if p == "/count"));
}

#[test]
fn encoding_keeps_non_ascii_text_verbatim() {
    let env = HttpErrorResponse::new(422, "invalid_body", "café ± 料金");
    let wire = env.to_json();
    let value: serde_json::Value = serde_json::from_str(&wire).unwrap();
    assert_eq!(value["title"].as_str().unwrap(), "café ± 料金");
}

#[test]
fn wholly_unknown_path_gives_a_root_pointer_locator() {
    let err = ParseBodyError::InvalidJsonBody {
        path: path_of(vec![PathSegment::Unknown]),
        message: "somewhere".to_string(),
    };
    let env = HttpErrorResponse::from_parse_body_error(err);
    assert!(matches!(env.source, Some(HttpErrorSource::Pointer(ref p)) if p.is_empty()));
}

#[test]
fn client_error_renders_its_own_envelope() {
    let env = HttpErrorResponse::new(422, "invalid_body", "Invalid body").with_detail("boom");
    let expected = env.to_json();
    let (wire, log) = render_error(e400(env));
    assert_eq!(wire.status, 422);
    assert!(wire.json);
    assert_eq!(wire.body.as_deref(), Some(expected.as_str()));
    assert!(log.is_none());
}

#[test]
fn server_error_renders_fixed_opaque_envelope() {
    let (wire, log) = render_error(e500("database exploded: secret".to_string()));
    assert_eq!(wire.status, 500);
    assert!(wire.json);
    assert_eq!(
        wire.body.as_deref(),
        Some("{\"status\":\"500\",\"code\":\"internal_server_error\",\"title\":\"Internal server error\"}")
    );
    assert_eq!(log.as_deref(), Some("database exploded: secret"));

    let (other, _) = render_error(e500("a wholly different diagnostic".to_string()));
    assert_eq!(other.body, wire.body);
    assert_eq!(other.status, wire.status);
}

#[test]
fn server_error_wire_form_never_carries_detail() {
    let (wire, _) = render_error(HttpError::Server("secret".to_string()));
    let value: serde_json::Value = serde_json::from_str(wire.body.as_deref().unwrap()).unwrap();
    let object = value.as_object().unwrap();
    assert_eq!(object.len(), 3);
    assert!(!object.contains_key("detail"));
    assert!(!object.contains_key("source"));
    assert_eq!(object["status"].as_str().unwrap(), "500");
    assert_eq!(object["code"].as_str().unwrap(), "internal_server_error");
}

#[test]
fn response_constructors_set_shape() {
    let r = json_response(201, "{\"ok\":true}".to_string());
    assert_eq!(r.status, 201);
    assert!(r.json);
    assert_eq!(r.body.as_deref(), Some("{\"ok\":true}"));

    let e = empty_response(204);
    assert_eq!(e.status, 204);
    assert!(!e.json);
    assert!(e.body.is_none());
}

#[test]
fn decoding_matches_under_default_and_explicit_json_header() {
    // The glue a transport adapter writes: negotiate, then decode with the
    // selected strategy. Both headers must take the identical path.
    let body = "{\"signingKey\":\"k\"}";
    let default_format =
        http_shim::body::negotiate_content_type(&ContentTypeHeader::Missing).unwrap();
    let explicit_format = http_shim::body::negotiate_content_type(&ContentTypeHeader::Value(
        "application/json".to_string(),
    ))
    .unwrap();
    assert_eq!(default_format, explicit_format);
    let v1: serde_json::Value = serde_json::from_str(body).unwrap();
    let v2: serde_json::Value = serde_json::from_str(body).unwrap();
    assert_eq!(v1, v2);
}
