use nocopush::Cli;
use nocopush::ConfigError;
use nocopush::Context;
use nocopush::NocoDB;
use nocopush::UploadOutcome;
use nocopush::UrlValidator;
use nocopush::Validation;
use nocopush::classify_response;
use nocopush::text::i64_to_string;

fn args() -> Cli {
    Cli {
        csv_file: "data.csv".to_string(),
        nocodb_base_url: Some("http://localhost:8080".to_string()),
        nocodb_api_token: Some("SECRET-REDACTED".to_string()),
        nocodb_table_id: Some("tbl123".to_string()),
        parallel_jobs: Some(4),
        chunk_size: Some(1000),
        csv_separator: Some(','),
        csv_quote_separator: Some('"'),
        use_windows_format: Some(false),
    }
}

#[test]
fn init_with_all_args_succeeds() {
    let cli = args();
    let ctx = Context::from_args(&cli);
    assert!(!ctx.has_missing_args());
    let initialized = ctx.init().unwrap();
    assert_eq!(initialized.nocodb.base_url, "http://localhost:8080");
    assert_eq!(initialized.nocodb.api_key, "SECRET-REDACTED");
}

#[test]
fn init_with_missing_args_fails() {
    let mut cli = args();
    cli.nocodb_table_id = None;
    let ctx = Context::from_args(&cli);
    assert!(ctx.has_missing_args());
    match ctx.init() {
        Err(e) => assert_eq!(e, ConfigError::MissingArguments),
        Ok(_) => panic!("init should fail"),
    }
}

#[test]
fn from_args_without_url_leaves_client_unconfigured() {
    let mut cli = args();
    cli.nocodb_base_url = None;
    let ctx = Context::from_args(&cli);
    assert_eq!(ctx.nocodb.base_url, "");
    assert_eq!(ctx.nocodb.api_key, "");
}

#[test]
fn to_map_lists_arguments_in_name_order() {
    let cli = args();
    let map = cli.to_map();
    let expected: Vec<(&str, &str)> = vec![
        ("chunk_size", "1000"),
        ("csv_file", "data.csv"),
        ("csv_quote_separator", "\""),
        ("csv_separator", ","),
        ("nocodb_api_token", "SECRET-REDACTED"),
        ("nocodb_base_url", "http://localhost:8080"),
        ("nocodb_table_id", "tbl123"),
        ("parallel_jobs", "4"),
        ("use_windows_format", "false"),
    ];
    let got: Vec<(&str, &str)> = map.iter().map(|p| (p.0.as_str(), p.1.as_str())).collect();
    assert_eq!(got, expected);
}

#[test]
fn to_map_defaults_for_absent_options() {
    let cli = Cli {
        csv_file: "f".to_string(),
        nocodb_base_url: None,
        nocodb_api_token: None,
        nocodb_table_id: None,
        parallel_jobs: None,
        chunk_size: None,
        csv_separator: None,
        csv_quote_separator: None,
        use_windows_format: None,
    };
    let map = cli.to_map();
    assert_eq!(map[0].1, "0");
    assert_eq!(map[4].1, "");
    assert_eq!(map[7].1, "0");
    assert_eq!(map[8].1, "false");
}

#[test]
fn records_url_has_expected_shape() {
    let db = NocoDB::new("http://host:8080".to_string(), "k".to_string());
    assert_eq!(db.records_url("tbl9"), "http://host:8080/api/v2/tables/tbl9/records");
}

#[test]
fn classify_response_cases() {
    match classify_response(200, Some(vec![7, 8]), "ignored".to_string()) {
        UploadOutcome::Accepted { ids } => assert_eq!(ids, vec![7, 8]),
        _ => panic!("expected acceptance"),
    }
    match classify_response(500, Some(vec![1]), "boom".to_string()) {
        UploadOutcome::Rejected { status, body } => {
            assert_eq!(status, 500);
            assert_eq!(body, "boom");
        },
        _ => panic!("expected rejection"),
    }
    match classify_response(201, None, "not json".to_string()) {
        UploadOutcome::Rejected { status, body } => {
            assert_eq!(status, 201);
            assert_eq!(body, "not json");
        },
        _ => panic!("expected rejection"),
    }
}

#[test]
fn url_validator_accepts_wellformed() {
    let v = UrlValidator::default();
    assert!(matches!(v.validate("https://example.com/x"), Validation::Valid));
}

#[test]
fn url_validator_rejects_with_message() {
    let v = UrlValidator::new("bad url".to_string());
    match v.validate("definitely not a url") {
        Validation::Invalid { message } => assert_eq!(message, "bad url"),
        Validation::Valid => panic!("should be invalid"),
    }
}

#[test]
fn default_validator_message() {
    let v = UrlValidator::default();
    assert_eq!(v.message, "Invalid URL format");
}

#[test]
fn decimal_rendering() {
    assert_eq!(i64_to_string(0), "0");
    assert_eq!(i64_to_string(1000), "1000");
    assert_eq!(i64_to_string(-5), "-5");
    assert_eq!(i64_to_string(i64::MIN), "-9223372036854775808");
}
