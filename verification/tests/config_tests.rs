use s3em::config::{Config, Settings};

fn empty() -> Settings {
    Settings {
        server_host: None,
        server_port: None,
        database_url: None,
        s3_endpoint: None,
        s3_region: None,
        s3_bucket: None,
        s3_access_key: None,
        s3_secret_key: None,
        s3_path_style: None,
        jwt_secret: None,
        master_api_key: None,
    }
}

#[test]
fn defaults() {
    let c = Config::from_settings(empty());
    assert_eq!(c.server_host, "0.0.0.0");
    assert_eq!(c.server_port, 4004);
    assert_eq!(c.database_url, "s3manager.db");
    assert_eq!(c.s3_endpoint, "http://localhost:9000");
    assert_eq!(c.s3_region, "us-east-1");
    assert_eq!(c.s3_bucket, "s3manager");
    assert_eq!(c.s3_access_key, "minioadmin");
    assert_eq!(c.s3_secret_key, "minioadmin");
    assert!(c.s3_path_style);
    assert_eq!(c.jwt_secret, "change-me-in-production");
    assert_eq!(c.master_api_key, "dev-key-123");
    assert_eq!(c.server_addr(), "0.0.0.0:4004");
}

#[test]
fn given_values() {
    let mut s = empty();
    s.server_host = Some("127.0.0.1".to_string());
    s.server_port = Some("8080".to_string());
    s.s3_path_style = Some("1".to_string());
    s.master_api_key = Some("m".to_string());
    let c = Config::from_settings(s);
    assert_eq!(c.server_addr(), "127.0.0.1:8080");
    assert!(c.s3_path_style);
    assert_eq!(c.master_api_key, "m");
}

#[test]
fn unusable_values() {
    let mut s = empty();
    s.server_port = Some("70000".to_string());
    s.s3_path_style = Some("yes".to_string());
    let c = Config::from_settings(s);
    assert_eq!(c.server_port, 4004);
    assert!(!c.s3_path_style);
    let mut s = empty();
    s.server_port = Some("abc".to_string());
    s.s3_path_style = Some("false".to_string());
    let c = Config::from_settings(s);
    assert_eq!(c.server_port, 4004);
    assert!(!c.s3_path_style);
    let mut s = empty();
    s.s3_path_style = Some("true".to_string());
    assert!(Config::from_settings(s).s3_path_style);
}
