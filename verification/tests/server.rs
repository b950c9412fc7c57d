use mvts::server::functions::{output_rows, validate_port};
use mvts::server::lifecycle::{server_status, start_server, stop_server, ServerState};
use mvts::utils::env::{get_clip_geometries, get_max_features_per_tile, get_max_zoom, get_min_zoom};

#[test]
fn start_needs_a_connection() {
    let mut s = ServerState::new();
    assert_eq!(
        start_server(&mut s, 8080),
        Err("No database connection available. Please ensure the extension is properly initialized.".to_string())
    );
    assert!(!s.is_running());
}

#[test]
fn lifecycle_start_status_stop() {
    let mut s = ServerState::new();
    s.set_connection();
    assert_eq!(server_status(&s), "Server is not running");
    assert_eq!(start_server(&mut s, 8080), Ok("Server started on http://localhost:8080".to_string()));
    assert_eq!(s.get_port(), Some(8080));
    assert_eq!(server_status(&s), "Server is running on port 8080");
    assert_eq!(start_server(&mut s, 9000), Err("Server is already running on port 8080".to_string()));
    assert_eq!(s.get_port(), Some(8080));
    assert_eq!(stop_server(&mut s), Ok("Server stopped (was running on port 8080)".to_string()));
    assert_eq!(server_status(&s), "Server is not running");
    assert_eq!(stop_server(&mut s), Err("Server is not running".to_string()));
    assert_eq!(start_server(&mut s, 1), Ok("Server started on http://localhost:1".to_string()));
}

#[test]
fn ports_are_checked() {
    assert_eq!(validate_port(8080), Ok(8080));
    assert_eq!(validate_port(65535), Ok(65535));
    assert_eq!(validate_port(1), Ok(1));
    assert_eq!(validate_port(0), Err("Invalid port: 0".to_string()));
    assert_eq!(validate_port(-5), Err("Invalid port: -5".to_string()));
    assert_eq!(validate_port(65536), Err("Invalid port: 65536".to_string()));
    assert_eq!(validate_port(i32::MIN), Err(format!("Invalid port: {}", i32::MIN)));
}

#[test]
fn argumentless_functions_answer_at_least_one_row() {
    assert_eq!(output_rows(0), 1);
    assert_eq!(output_rows(3), 3);
}

#[test]
fn settings_default_when_missing_or_invalid() {
    assert_eq!(get_min_zoom(None), 0);
    assert_eq!(get_max_zoom(None), 22);
    assert_eq!(get_max_features_per_tile(None), 50000);
    assert!(get_clip_geometries(None));
    assert_eq!(get_min_zoom(Some("3")), 3);
    assert_eq!(get_max_zoom(Some("x")), 22);
    assert_eq!(get_max_zoom(Some("+14")), 14);
    assert_eq!(get_max_features_per_tile(Some("-1")), 50000);
    assert_eq!(get_max_features_per_tile(Some("1000")), 1000);
    assert!(!get_clip_geometries(Some("false")));
    assert!(get_clip_geometries(Some("FALSE")));
    assert!(get_clip_geometries(Some("true")));
}
