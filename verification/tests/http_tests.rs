use hegel_pm::data_layer::DataError;
use hegel_pm::http::{error_message, status_code, ServerConfig};

#[test]
fn test_server_config_creation() {
    let config = ServerConfig::new([127, 0, 0, 1], 3030, "./static".to_string(), true);
    assert_eq!(config.host, [127, 0, 0, 1]);
    assert_eq!(config.port, 3030);
    assert_eq!(config.static_dir, "./static".to_string());
    assert_eq!(config.open_browser, true);
}

#[test]
fn test_server_config_url() {
    let config = ServerConfig::new([127, 0, 0, 1], 3030, "./static".to_string(), true);
    assert_eq!(config.url(), "http://127.0.0.1:3030");
}

#[test]
fn test_server_config_different_port() {
    let config = ServerConfig::new([0, 0, 0, 0], 8080, "./public".to_string(), false);
    assert_eq!(config.url(), "http://0.0.0.0:8080");
    assert_eq!(config.open_browser, false);
}

#[test]
fn test_server_config_url_extremes() {
    let config = ServerConfig::new([255, 10, 9, 100], 65535, String::new(), false);
    assert_eq!(config.url(), "http://255.10.9.100:65535");
}

#[test]
fn test_status_codes() {
    assert_eq!(status_code(&Ok(vec![1])), 200);
    assert_eq!(status_code(&Err(DataError::ProjectNotFound("x".to_string()))), 404);
    assert_eq!(status_code(&Err(DataError::ParseError("x".to_string()))), 500);
    assert_eq!(status_code(&Err(DataError::CacheError("x".to_string()))), 500);
}

#[test]
fn test_error_messages() {
    assert_eq!(error_message(&DataError::ProjectNotFound("x".to_string())), "Project not found");
    assert_eq!(error_message(&DataError::ParseError("x".to_string())), "Internal server error");
    assert_eq!(error_message(&DataError::CacheError("x".to_string())), "Internal server error");
}
