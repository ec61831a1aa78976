use rustored::ui::models::s3_config::S3Config;

#[test]
fn test_s3_secret_key_masking() {
    let mut s3_config = S3Config::default();
    s3_config.secret_access_key = "supersecret".to_string();

    let display_text = s3_config.get_secret_key_display(false, "");
    assert_eq!(display_text, "Secret Access Key: [hidden]", "Secret key should be hidden when not editing");

    let input_buffer = "newsecret";
    let display_text = s3_config.get_secret_key_display(true, input_buffer);
    assert_eq!(display_text, format!("Secret Access Key: {}", input_buffer), "Secret key should be visible when editing");
}
