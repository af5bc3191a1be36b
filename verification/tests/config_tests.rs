use log4rs_gelf::fields::FieldMap;
use log4rs_gelf::file::Config;
use log4rs_gelf::level::LogLevel;
use log4rs_gelf::value::FieldValue;

fn empty_section() -> Config {
    Config {
        level: None,
        hostname: None,
        port: None,
        use_tls: None,
        null_character: None,
        buffer_size: None,
        additional_fields: None,
        connect_timeout: None,
        write_timeout: None,
    }
}

#[test]
fn section_with_three_fields_keeps_them_and_defaults_the_rest() {
    let mut section = empty_section();
    section.hostname = Some("localhost".to_string());
    section.port = Some(12202);
    section.buffer_size = Some(5);
    let a = section.into_appender();
    assert_eq!(a.config.hostname, "localhost");
    assert_eq!(a.config.port, 12202);
    assert_eq!(a.config.buffer_size, 5);
    // Everything else is at its default.
    assert_eq!(a.config.level, LogLevel::Info);
    assert!(a.config.use_tls);
    assert!(a.config.null_character);
    assert_eq!(a.config.connect_timeout_millis, None);
    assert_eq!(a.config.write_timeout_millis, None);
    assert_eq!(a.config.additional_fields.num_fields(), 2);
    assert_eq!(
        a.config.additional_fields.get(&"pkg_name".to_string()),
        Some(&FieldValue::Text("log4rs_gelf".to_string()))
    );
}

#[test]
fn empty_section_yields_the_default_appender() {
    let a = empty_section().into_appender();
    assert_eq!(a.config.hostname, "127.0.0.1");
    assert_eq!(a.config.port, 12202);
    assert_eq!(a.config.buffer_size, 100);
    assert_eq!(a.config.level, LogLevel::Info);
}

#[test]
fn section_timeouts_are_seconds() {
    let mut section = empty_section();
    section.connect_timeout = Some(2);
    section.write_timeout = Some(3);
    let a = section.into_appender();
    assert_eq!(a.config.connect_timeout_millis, Some(2000));
    assert_eq!(a.config.write_timeout_millis, Some(3000));
}

#[test]
fn section_fields_merge_over_seeded_defaults() {
    let mut extra = FieldMap::new();
    extra.insert("component".to_string(), FieldValue::Text("rust-cs".to_string()));
    extra.insert("pkg_version".to_string(), FieldValue::Text("9.9.9".to_string()));
    let mut section = empty_section();
    section.additional_fields = Some(extra);
    section.level = Some(LogLevel::Debug);
    let a = section.into_appender();
    assert_eq!(a.config.level, LogLevel::Debug);
    let fields = &a.config.additional_fields;
    assert_eq!(
        fields.get(&"component".to_string()),
        Some(&FieldValue::Text("rust-cs".to_string()))
    );
    // The incoming value overwrites the seeded one.
    assert_eq!(
        fields.get(&"pkg_version".to_string()),
        Some(&FieldValue::Text("9.9.9".to_string()))
    );
    // The untouched seed stays.
    assert_eq!(
        fields.get(&"pkg_name".to_string()),
        Some(&FieldValue::Text("log4rs_gelf".to_string()))
    );
    assert_eq!(fields.num_fields(), 3);
}
