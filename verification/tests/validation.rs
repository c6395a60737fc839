use pamaxie_api::config::EnvSnapshot;
use pamaxie_api::validate::{validate_client_configuration, CONFIG_FAILURE_EXIT_CODE};

fn access_key_message() -> String {
    "The S3 Access Key has not been set. We require this key to be set to continue running. Please refer to our documentation to see how to set this environment variable.\n".to_string()
}

fn secret_key_message() -> String {
    "The S3 Secret Key has not been set. We require this key to be set to continue running. Please refer to our documentation to see how to set this environment variable.\r\n".to_string()
}

fn s3_url_message() -> String {
    "The S3 Url has not been set. We require the URL to be set to continue running. Please refer to our documentation to see how to set this environment variable.\r\n".to_string()
}

fn pam_url_message() -> String {
    "The API base URL is empty. It is required to be set, to interact, test and authorize with our database. Please refer to our documentation to see how to set this environment variable.\r\n".to_string()
}

fn snapshot(
    s3_access_key: Option<&str>,
    s3_secret_key: Option<&str>,
    s3_url: Option<&str>,
    pam_url: Option<&str>,
) -> EnvSnapshot {
    EnvSnapshot {
        s3_access_key: s3_access_key.map(|v| v.to_string()),
        s3_secret_key: s3_secret_key.map(|v| v.to_string()),
        s3_url: s3_url.map(|v| v.to_string()),
        pam_url: pam_url.map(|v| v.to_string()),
    }
}

fn all_set() -> EnvSnapshot {
    snapshot(
        Some("access"),
        Some("secret"),
        Some("https://blobs.example.net"),
        Some("https://api.example.net"),
    )
}

#[test]
fn all_settings_present_yields_empty_report() {
    let report = validate_client_configuration(&all_set());
    assert!(!report.has_violations());
    assert_eq!(report.len(), 0);
    assert_eq!(report.aggregate(), "");
}

#[test]
fn s3_url_may_rely_on_its_development_default() {
    let report = validate_client_configuration(&snapshot(
        Some("access"),
        Some("secret"),
        None,
        Some("https://api.example.net"),
    ));
    assert!(!report.has_violations());
}

#[test]
fn all_settings_missing_reports_four_sentences_in_order() {
    let report = validate_client_configuration(&snapshot(None, None, Some(""), None));
    assert_eq!(report.len(), 4);
    assert_eq!(report.messages[0], access_key_message());
    assert_eq!(report.messages[1], secret_key_message());
    assert_eq!(report.messages[2], s3_url_message());
    assert_eq!(report.messages[3], pam_url_message());
}

#[test]
fn report_has_no_duplicate_sentences() {
    let report = validate_client_configuration(&snapshot(None, None, Some(""), None));
    for i in 0..report.messages.len() {
        for j in 0..report.messages.len() {
            if i != j {
                assert_ne!(report.messages[i], report.messages[j]);
            }
        }
    }
}

#[test]
fn only_access_key_missing_reports_only_that_sentence() {
    let report = validate_client_configuration(&snapshot(
        None,
        Some("secret"),
        Some("https://blobs.example.net"),
        Some("https://api.example.net"),
    ));
    assert_eq!(report.messages, vec![access_key_message()]);
}

#[test]
fn only_secret_key_missing_reports_only_that_sentence() {
    let report = validate_client_configuration(&snapshot(
        Some("access"),
        None,
        Some("https://blobs.example.net"),
        Some("https://api.example.net"),
    ));
    assert_eq!(report.messages, vec![secret_key_message()]);
}

#[test]
fn s3_url_set_to_empty_reports_only_that_sentence() {
    let report = validate_client_configuration(&snapshot(
        Some("access"),
        Some("secret"),
        Some(""),
        Some("https://api.example.net"),
    ));
    assert_eq!(report.messages, vec![s3_url_message()]);
}

#[test]
fn only_authority_api_url_missing_reports_only_that_sentence() {
    let report = validate_client_configuration(&snapshot(
        Some("access"),
        Some("secret"),
        Some("https://blobs.example.net"),
        None,
    ));
    assert_eq!(report.messages, vec![pam_url_message()]);
    assert!(report.has_violations());
}

#[test]
fn settings_set_to_empty_count_as_missing() {
    let report = validate_client_configuration(&snapshot(
        Some(""),
        Some(""),
        Some("https://blobs.example.net"),
        Some(""),
    ));
    assert_eq!(
        report.messages,
        vec![access_key_message(), secret_key_message(), pam_url_message()]
    );
}

#[test]
fn two_missing_settings_keep_enumeration_order() {
    let report = validate_client_configuration(&snapshot(
        Some("access"),
        None,
        Some("https://blobs.example.net"),
        None,
    ));
    assert_eq!(report.messages, vec![secret_key_message(), pam_url_message()]);
}

#[test]
fn aggregate_concatenates_sentences_in_order() {
    let report = validate_client_configuration(&snapshot(None, Some("secret"), Some(""), None));
    let expected = format!(
        "{}{}{}",
        access_key_message(),
        s3_url_message(),
        pam_url_message()
    );
    assert_eq!(report.aggregate(), expected);
}

#[test]
fn configuration_failure_exit_code_is_distinguished() {
    assert_eq!(CONFIG_FAILURE_EXIT_CODE, -501);
}
