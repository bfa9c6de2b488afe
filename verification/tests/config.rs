use walpipe::config::has_slot_chars;
use walpipe::config::is_http_url;
use walpipe::config::EmailConfig;
use walpipe::config::EventSinkType;
use walpipe::config::ReplicationConfig;
use walpipe::errors::ReplicationError;
use walpipe::events::registry::EventSinkRegistry;
use walpipe::events::registry::SinkPlan;

const APP: u128 = 0xa1a2a3a4_b1b2_c1c2_d1d2_d3d4d5d6d7d8;

fn make(
    database_url: &str,
    publication: &str,
    slot: &str,
    sink: Option<&str>,
    http: Option<&str>,
    hook0_url: Option<&str>,
    app: Option<u128>,
    token: Option<&str>,
) -> Result<ReplicationConfig, ReplicationError> {
    ReplicationConfig::validate_and_create(
        database_url.to_string(),
        publication.to_string(),
        slot.to_string(),
        sink.map(str::to_string),
        http.map(str::to_string),
        hook0_url.map(str::to_string),
        app,
        token.map(str::to_string),
    )
}

fn plain(sink: Option<&str>, http: Option<&str>) -> Result<ReplicationConfig, ReplicationError> {
    make("postgresql://test@localhost/test", "pub", "sub", sink, http, None, None, None)
}

#[test]
fn test_config_from_env_missing_database_url() {
    let result = make("", "pub", "sub", None, None, None, None, None);
    assert!(result.is_err());
    assert!(result.unwrap_err().to_string().contains("DATABASE_URL"));
}

#[test]
fn test_config_with_valid_database_url() {
    let result = plain(None, None);
    assert!(result.is_ok());

    let config = result.unwrap();
    assert_eq!(config.slot_name, "sub");
    assert_eq!(config.publication_name, "pub");
    assert_eq!(config.event_sink_type().to_string(), "stdout");
}

#[test]
fn test_config_http_sink_requires_endpoint() {
    let result = plain(Some("http"), None);
    assert!(result.is_err());
    assert!(result.unwrap_err().to_string().contains("HTTP_ENDPOINT_URL"));
}

#[test]
fn test_config_hook0_sink_requires_all_fields() {
    let result = make(
        "postgresql://test@localhost/test",
        "pub",
        "sub",
        Some("hook0"),
        None,
        Some("https://api.hook0.com"),
        None,
        None,
    );
    assert!(result.is_err());
}

#[test]
fn the_first_broken_rule_is_reported() {
    let message = |r: Result<ReplicationConfig, ReplicationError>| match r.unwrap_err() {
        ReplicationError::Configuration { message } => message,
        other => panic!("unexpected {:?}", other),
    };
    assert_eq!(message(make("  ", "", "", None, None, None, None, None)), "DATABASE_URL cannot be empty");
    assert_eq!(message(make("db", " \t", "", None, None, None, None, None)), "Publication name cannot be empty");
    assert_eq!(message(make("db", "pub", "\n", None, None, None, None, None)), "Slot name cannot be empty");
    assert_eq!(
        message(make("db", "pub", "my-slot", None, None, None, None, None)),
        "Slot name can only contain alphanumeric characters and underscores"
    );
    assert_eq!(
        message(make("db", "pub", "slöt", None, None, None, None, None)),
        "Slot name can only contain alphanumeric characters and underscores"
    );
    assert_eq!(
        message(make("db", "pub", &"a".repeat(64), None, None, None, None, None)),
        "Slot name cannot be longer than 63 characters"
    );
    assert!(make("db", "pub", &"a".repeat(63), None, None, None, None, None).is_ok());
    assert!(make("db", "pub", "Az_09", None, None, None, None, None).is_ok());
    assert_eq!(
        message(plain(Some("kafka"), None)),
        "EVENT_SINK must be one of: 'http', 'hook0', or 'stdout'"
    );
    assert_eq!(
        message(plain(Some("http"), Some("  "))),
        "HTTP_ENDPOINT_URL is required when using 'http' event sink"
    );
    assert_eq!(
        message(plain(Some("http"), Some("ftp://x"))),
        "HTTP_ENDPOINT_URL must start with http:// or https://"
    );
    let hook0 = |url: Option<&str>, app: Option<u128>, token: Option<&str>| {
        make("db", "pub", "sub", Some("hook0"), None, url, app, token)
    };
    assert_eq!(message(hook0(None, Some(APP), Some("t"))), "HOOK0_API_URL is required when using 'hook0' event sink");
    assert_eq!(
        message(hook0(Some("https://h"), None, Some("t"))),
        "HOOK0_APPLICATION_ID is required when using 'hook0' event sink"
    );
    assert_eq!(
        message(hook0(Some("https://h"), Some(APP), Some(" "))),
        "HOOK0_API_TOKEN is required when using 'hook0' event sink"
    );
    assert_eq!(
        message(hook0(Some("h.example"), Some(APP), Some("t"))),
        "HOOK0_API_URL must start with http:// or https://"
    );
}

#[test]
fn sinks_are_chosen_by_name() {
    let c = plain(Some("HTTP"), Some("https://example.com/hook")).unwrap();
    assert_eq!(c.event_sink, EventSinkType::Http);
    assert!(c.uses_http_sink());
    assert!(!c.uses_hook0_sink());
    assert!(!c.uses_stdout_sink());
    assert_eq!(c.feedback_interval_secs, 1);
    assert_eq!(c.http_endpoint_url.as_deref(), Some("https://example.com/hook"));
    let c = plain(Some("Stdout"), None).unwrap();
    assert!(c.uses_stdout_sink());
    for name in ["hook0", "webhook", "WebHook"] {
        let c = make("db", "pub", "sub", Some(name), None, Some("http://h"), Some(APP), Some("t")).unwrap();
        assert!(c.uses_hook0_sink());
        assert_eq!(c.hook0_application_id, Some(APP));
    }
    assert_eq!(EventSinkType::Http.as_str(), "http");
    assert_eq!(EventSinkType::Hook0.to_string(), "hook0");
    assert_eq!(EventSinkType::Stdout.as_str(), "stdout");
}

#[test]
fn small_checks() {
    assert!(has_slot_chars(""));
    assert!(has_slot_chars("abc_XYZ_019"));
    assert!(!has_slot_chars("a b"));
    assert!(!has_slot_chars("a-b"));
    assert!(!has_slot_chars("ä"));
    assert!(is_http_url("http://"));
    assert!(is_http_url("https://x"));
    assert!(!is_http_url("http:/x"));
    assert!(!is_http_url("HTTP://x"));
    assert!(!is_http_url(""));
}

#[test]
fn the_registry_plans_the_sink_of_a_configuration() {
    let c = plain(Some("http"), Some("https://example.com/hook")).unwrap();
    match EventSinkRegistry::create_sink(&c.event_sink, &c).unwrap() {
        SinkPlan::Http(h) => assert_eq!(h.endpoint_url, "https://example.com/hook"),
        other => panic!("unexpected {:?}", other),
    }
    assert!(matches!(EventSinkRegistry::create_sink(&EventSinkType::Stdout, &c).unwrap(), SinkPlan::Stdout));
    let e = EventSinkRegistry::create_sink(&EventSinkType::Hook0, &c).unwrap_err();
    assert_eq!(e.message(), "Hook0 API URL, application ID, and token required for Hook0 sink");
    let c = make("db", "pub", "sub", Some("hook0"), None, Some("http://h"), Some(APP), Some("t")).unwrap();
    match EventSinkRegistry::create_sink(&c.event_sink, &c).unwrap() {
        SinkPlan::Hook0(h) => {
            assert_eq!(h.api_url, "http://h");
            assert_eq!(h.application_id, APP);
            assert_eq!(h.api_token, "t");
        }
        other => panic!("unexpected {:?}", other),
    }
    let e = EventSinkRegistry::create_sink(&EventSinkType::Http, &c).unwrap_err();
    assert_eq!(e.message(), "HTTP endpoint URL required for HTTP sink");
}

#[test]
fn email_settings_are_plain_values() {
    let e = EmailConfig {
        smtp_host: "smtp.example.com".to_string(),
        smtp_port: 587,
        smtp_username: "u".to_string(),
        smtp_password: "p".to_string(),
        from_email: "a@example.com".to_string(),
        to_email: "b@example.com".to_string(),
    };
    assert_eq!(e.clone().smtp_port, 587);
}
