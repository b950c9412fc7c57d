use axum::http::StatusCode;
use mvts::api::tiles::{check_zoom, parse_y_with_extension, tile_outcome, tile_request, tile_response_headers};
use mvts::api::HttpStatus;

#[test]
fn test_parse_y_with_valid_pbf_extension() {
    let result = parse_y_with_extension("123.pbf");
    assert_eq!(result, Ok(123));
}

#[test]
fn test_parse_y_with_valid_mvt_extension() {
    let result = parse_y_with_extension("456.mvt");
    assert_eq!(result, Ok(456));
}

#[test]
fn test_parse_y_with_invalid_extension() {
    let result = parse_y_with_extension("123.txt");
    assert!(result.is_err());
    if let Err((status, msg)) = result {
        assert_eq!(status.code(), StatusCode::BAD_REQUEST.as_u16());
        assert!(msg.contains("Invalid file extension"));
    }
}

#[test]
fn test_parse_y_with_missing_extension() {
    let result = parse_y_with_extension("123");
    assert!(result.is_err());
    if let Err((status, msg)) = result {
        assert_eq!(status.code(), StatusCode::BAD_REQUEST.as_u16());
        assert!(msg.contains("Missing file extension"));
    }
}

#[test]
fn test_parse_y_with_invalid_number() {
    let result = parse_y_with_extension("abc.pbf");
    assert!(result.is_err());
    if let Err((status, msg)) = result {
        assert_eq!(status.code(), StatusCode::BAD_REQUEST.as_u16());
        assert!(msg.contains("Invalid y coordinate"));
    }
}

#[test]
fn test_parse_y_with_zero() {
    let result = parse_y_with_extension("0.pbf");
    assert_eq!(result, Ok(0));
}

#[test]
fn test_parse_y_with_large_number() {
    let result = parse_y_with_extension("999999.mvt");
    assert_eq!(result, Ok(999999));
}

#[test]
fn parse_y_messages_match_std() {
    let cases = ["abc.pbf", ".pbf", "+.pbf", "-1.pbf", "4294967296.pbf", "99999999999x.pbf", "1.2.pbf", "+7.mvt", "4294967295.pbf"];
    for case in cases {
        let dot = case.rfind('.').unwrap();
        let expected = case[..dot].parse::<u32>().map_err(|e| format!("Invalid y coordinate: {}", e));
        let got = parse_y_with_extension(case).map_err(|(status, msg)| {
            assert_eq!(status, HttpStatus::BadRequest);
            msg
        });
        assert_eq!(got, expected, "case {case}");
    }
}

#[test]
fn parse_y_extension_messages() {
    assert_eq!(
        parse_y_with_extension("12.png"),
        Err((HttpStatus::BadRequest, "Invalid file extension: .png. Only .pbf and .mvt are allowed".to_string()))
    );
    assert_eq!(
        parse_y_with_extension("12."),
        Err((HttpStatus::BadRequest, "Invalid file extension: .. Only .pbf and .mvt are allowed".to_string()))
    );
    assert_eq!(
        parse_y_with_extension("12pbf"),
        Err((HttpStatus::BadRequest, "Missing file extension. Expected .pbf or .mvt".to_string()))
    );
    assert_eq!(
        parse_y_with_extension("12.PBF"),
        Err((HttpStatus::BadRequest, "Invalid file extension: .PBF. Only .pbf and .mvt are allowed".to_string()))
    );
}

#[test]
fn parse_y_roundtrip_values() {
    for y in [0u32, 7, 10, 65535, 4294967295] {
        assert_eq!(parse_y_with_extension(&format!("{y}.pbf")), Ok(y));
        assert_eq!(parse_y_with_extension(&format!("{y}.mvt")), Ok(y));
    }
}

#[test]
fn zoom_range_is_checked() {
    assert_eq!(check_zoom(0, 0, 22), Ok(()));
    assert_eq!(check_zoom(22, 0, 22), Ok(()));
    assert_eq!(
        check_zoom(23, 0, 22),
        Err((HttpStatus::NotFound, "Zoom level 23 not supported. Valid range: 0-22".to_string()))
    );
    assert_eq!(
        check_zoom(2, 5, 10),
        Err((HttpStatus::NotFound, "Zoom level 2 not supported. Valid range: 5-10".to_string()))
    );
}

#[test]
fn empty_tiles_are_no_content() {
    assert_eq!(tile_outcome(Some(vec![1, 2, 3])), (HttpStatus::Success, vec![1, 2, 3]));
    assert_eq!(tile_outcome(Some(vec![])), (HttpStatus::NoContent, vec![]));
    assert_eq!(tile_outcome(None), (HttpStatus::NoContent, vec![]));
}

#[test]
fn tile_headers_cache_only_success() {
    let ok = tile_response_headers(HttpStatus::Success);
    assert_eq!(
        ok,
        vec![
            ("content-type", "application/vnd.mapbox-vector-tile"),
            ("cache-control", "public, max-age=3600"),
            ("access-control-allow-origin", "*"),
            ("access-control-allow-methods", "GET, HEAD, OPTIONS"),
            ("access-control-allow-headers", "Content-Type"),
        ]
    );
    let empty = tile_response_headers(HttpStatus::NoContent);
    assert_eq!(empty.len(), 4);
    assert!(empty.iter().all(|(name, _)| *name != "cache-control"));
}

#[test]
fn status_codes_match_http() {
    assert_eq!(HttpStatus::Success.code(), StatusCode::OK.as_u16());
    assert_eq!(HttpStatus::NoContent.code(), StatusCode::NO_CONTENT.as_u16());
    assert_eq!(HttpStatus::BadRequest.code(), StatusCode::BAD_REQUEST.as_u16());
    assert_eq!(HttpStatus::NotFound.code(), StatusCode::NOT_FOUND.as_u16());
    assert_eq!(HttpStatus::InternalServerError.code(), StatusCode::INTERNAL_SERVER_ERROR.as_u16());
}

#[test]
fn tile_requests_are_checked_in_order() {
    let (t, xyz) = tile_request("main.roads", 3, 4, "5.pbf", 0, 22).unwrap();
    assert_eq!((t.schema_name.as_str(), t.table_name.as_str()), ("main", "roads"));
    assert_eq!((xyz.x, xyz.y, xyz.z), (4, 5, 3));
    // zoom is checked before the segment and the table
    let e = tile_request("roads", 30, 4, "x.txt", 0, 22).unwrap_err();
    assert_eq!(e, (HttpStatus::NotFound, "Zoom level 30 not supported. Valid range: 0-22".to_string()));
    // then the segment
    let e = tile_request("roads", 3, 4, "x.txt", 0, 22).unwrap_err();
    assert_eq!(e.0, HttpStatus::BadRequest);
    assert!(e.1.starts_with("Invalid file extension"));
    // then the table
    let e = tile_request("roads", 3, 4, "5.mvt", 0, 22).unwrap_err();
    assert_eq!(
        e,
        (HttpStatus::BadRequest, "Invalid table reference format. Expected 'schema.table', got: 'roads'".to_string())
    );
}
