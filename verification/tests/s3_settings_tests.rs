use rustored::ui::models::s3_config::S3Config;
use rustored::ui::models::{FocusField, PopupState};

fn config() -> S3Config {
    S3Config {
        bucket: "test-bucket".to_string(),
        region: "us-west-2".to_string(),
        prefix: "test-prefix".to_string(),
        endpoint_url: "https://test-endpoint.com".to_string(),
        access_key_id: "test-access-key".to_string(),
        secret_access_key: "test-secret-key".to_string(),
        path_style: false,
        error_message: None,
        test_s3_button: false,
    }
}

#[test]
fn test_s3_config() {
    let s3_config = config();
    assert_eq!(s3_config.get_field_value(FocusField::Bucket), "test-bucket");
    assert_eq!(s3_config.get_field_value(FocusField::Region), "us-west-2");
    assert_eq!(s3_config.get_field_value(FocusField::Prefix), "test-prefix");
    assert_eq!(s3_config.get_field_value(FocusField::EndpointUrl), "https://test-endpoint.com");
    assert_eq!(s3_config.get_field_value(FocusField::AccessKeyId), "test-access-key");
    assert_eq!(s3_config.get_field_value(FocusField::SecretAccessKey), "test-secret-key");
    assert_eq!(s3_config.get_field_value(FocusField::PathStyle), "false");
}

#[test]
fn masking() {
    let c = config();
    assert_eq!(c.mask_secret(""), "");
    assert_eq!(c.mask_secret("abc"), "***");
    assert_eq!(c.mask_secret("abcd"), "****");
    assert_eq!(c.mask_secret("abcdefg"), "abcd***");
    assert_eq!(c.masked_access_key(), "test***********");
    assert_eq!(c.masked_secret_key(), "***************");
}

#[test]
fn set_and_get_fields() {
    let mut c = config();
    c.set_field_value(FocusField::Bucket, "other".to_string());
    assert_eq!(c.bucket, "other");
    c.set_field_value(FocusField::PathStyle, "true".to_string());
    assert!(c.path_style);
    // `bool`'s parser is case-sensitive: anything but `true` or `false` reads as false.
    c.set_field_value(FocusField::PathStyle, "TRUE".to_string());
    assert!(!c.path_style);
    c.set_field_value(FocusField::PathStyle, "true".to_string());
    c.set_field_value(FocusField::PathStyle, "yes".to_string());
    assert!(!c.path_style);
    // A field of another panel leaves the configuration as it is.
    c.set_field_value(FocusField::PgHost, "h".to_string());
    assert_eq!(c.bucket, "other");
    assert_eq!(c.get_field_value(FocusField::PgHost), "");
}

#[test]
fn field_membership() {
    assert_eq!(
        S3Config::focus_fields(),
        vec![
            FocusField::Bucket,
            FocusField::Region,
            FocusField::Prefix,
            FocusField::EndpointUrl,
            FocusField::AccessKeyId,
            FocusField::SecretAccessKey,
            FocusField::PathStyle
        ]
    );
    assert!(S3Config::contains_field(FocusField::PathStyle));
    assert!(!S3Config::contains_field(FocusField::PgHost));
    assert!(!S3Config::contains_field(FocusField::SnapshotList));
}

#[test]
fn settings_checks() {
    let mut c = config();
    assert_eq!(c.verify_settings(), Ok(()));
    c.region = String::new();
    assert_eq!(c.verify_settings(), Err("Region is required".to_string()));
    c.bucket = String::new();
    assert_eq!(c.verify_settings(), Err("Bucket name is required".to_string()));
}

#[test]
fn client_settings_from_config() {
    let mut c = config();
    c.endpoint_url = "minio:9000".to_string();
    let s = c.client_settings().unwrap();
    assert_eq!(s.region, "us-west-2");
    assert_eq!(s.endpoint_url, Some("http://minio:9000".to_string()));
    assert_eq!(s.credentials, Some(("test-access-key".to_string(), "test-secret-key".to_string())));
    assert!(!s.force_path_style);

    c.endpoint_url = String::new();
    c.secret_access_key = String::new();
    let s = c.client_settings().unwrap();
    assert_eq!(s.endpoint_url, None);
    assert_eq!(s.credentials, None);

    c.endpoint_url = "https://s3.example.com".to_string();
    assert_eq!(c.client_settings().unwrap().endpoint_url, Some("https://s3.example.com".to_string()));
}

#[test]
fn connection_test_popups() {
    let (popup, result) = S3Config::bucket_listing_result(Ok(vec!["a".to_string(), "b".to_string()]));
    assert_eq!(popup, PopupState::TestS3Result("Successfully connected to S3!\nAvailable buckets: a, b".to_string()));
    assert_eq!(result, Ok(()));
    let (popup, _) = S3Config::bucket_listing_result(Ok(vec![]));
    assert_eq!(popup, PopupState::TestS3Result("Successfully connected to S3!\nAvailable buckets: None".to_string()));
    let (popup, result) = S3Config::bucket_listing_result(Err("denied".to_string()));
    assert_eq!(popup, PopupState::Error("Failed to connect to S3: denied".to_string()));
    assert_eq!(result, Err("Failed to connect to S3: denied".to_string()));
    let (popup, msg) = S3Config::client_init_failed("x");
    assert_eq!(popup, PopupState::Error("Failed to initialize S3 client: x".to_string()));
    assert_eq!(msg, "Failed to initialize S3 client: x");
}

#[test]
fn secret_key_display() {
    let c = config();
    assert_eq!(c.get_secret_key_display(false, "typed"), "Secret Access Key: [hidden]");
    assert_eq!(c.get_secret_key_display(true, "typed"), "Secret Access Key: typed");
}
