use log4rs_gelf::appender::BufferAppender;
use log4rs_gelf::fields::FieldMap;
use log4rs_gelf::level::LogLevel;
use log4rs_gelf::value::FieldValue;

#[test]
fn default_builder_has_documented_defaults() {
    let a = BufferAppender::builder().build();
    assert_eq!(a.config.level, LogLevel::Info);
    assert_eq!(a.config.hostname, "127.0.0.1");
    assert_eq!(a.config.port, 12202);
    assert!(a.config.use_tls);
    assert!(a.config.null_character);
    assert_eq!(a.config.buffer_size, 100);
    assert_eq!(a.config.connect_timeout_millis, None);
    assert_eq!(a.config.write_timeout_millis, None);
    let fields = &a.config.additional_fields;
    assert_eq!(fields.num_fields(), 2);
    assert_eq!(
        fields.get(&"pkg_name".to_string()),
        Some(&FieldValue::Text("log4rs_gelf".to_string()))
    );
    assert_eq!(
        fields.get(&"pkg_version".to_string()),
        Some(&FieldValue::Text("0.1.0".to_string()))
    );
}

#[test]
fn build_uses_every_explicitly_set_field() {
    let a = BufferAppender::builder()
        .set_level(LogLevel::Warn)
        .set_hostname("graylog.example")
        .set_port(2202)
        .set_use_tls(false)
        .set_null_character(false)
        .set_buffer_size(Some(7))
        .set_connect_timeout(Some(1500))
        .set_write_timeout(Some(2500))
        .build();
    assert_eq!(a.config.level, LogLevel::Warn);
    assert_eq!(a.config.hostname, "graylog.example");
    assert_eq!(a.config.port, 2202);
    assert!(!a.config.use_tls);
    assert!(!a.config.null_character);
    assert_eq!(a.config.buffer_size, 7);
    assert_eq!(a.config.connect_timeout_millis, Some(1500));
    assert_eq!(a.config.write_timeout_millis, Some(2500));
}

#[test]
fn build_is_deterministic_for_identical_inputs() {
    let make = || {
        BufferAppender::builder()
            .set_hostname("h")
            .set_port(9)
            .set_buffer_size(None)
            .build()
    };
    let a1 = make();
    let a2 = make();
    assert_eq!(a1.config.hostname, a2.config.hostname);
    assert_eq!(a1.config.port, a2.config.port);
    assert_eq!(a1.config.buffer_size, a2.config.buffer_size);
    assert_eq!(a1.config.buffer_size, 100);
}

#[test]
fn put_same_key_twice_keeps_last_value() {
    let b = BufferAppender::builder()
        .put_additional_field("component", FieldValue::Text("first".to_string()))
        .put_additional_field("component", FieldValue::Int(2));
    assert_eq!(
        b.additional_fields.get(&"component".to_string()),
        Some(&FieldValue::Int(2))
    );
    assert_eq!(b.additional_fields.num_fields(), 3);
}

#[test]
fn put_two_keys_keeps_both() {
    let b = BufferAppender::builder()
        .put_additional_field("alpha", FieldValue::Bool(true))
        .put_additional_field("beta", FieldValue::UInt(9));
    assert_eq!(
        b.additional_fields.get(&"alpha".to_string()),
        Some(&FieldValue::Bool(true))
    );
    assert_eq!(
        b.additional_fields.get(&"beta".to_string()),
        Some(&FieldValue::UInt(9))
    );
}

#[test]
fn extend_overwrites_existing_and_keeps_new() {
    let mut incoming = FieldMap::new();
    incoming.insert("pkg_name".to_string(), FieldValue::Text("other".to_string()));
    incoming.insert("extra".to_string(), FieldValue::Null);
    let b = BufferAppender::builder().extend_additional_field(incoming);
    assert_eq!(
        b.additional_fields.get(&"pkg_name".to_string()),
        Some(&FieldValue::Text("other".to_string()))
    );
    assert_eq!(b.additional_fields.get(&"extra".to_string()), Some(&FieldValue::Null));
    assert_eq!(
        b.additional_fields.get(&"pkg_version".to_string()),
        Some(&FieldValue::Text("0.1.0".to_string()))
    );
    assert_eq!(b.additional_fields.num_fields(), 3);
}

#[test]
fn field_map_basic_operations() {
    let mut m = FieldMap::new();
    assert_eq!(m.num_fields(), 0);
    assert_eq!(m.get(&"k".to_string()), None);
    m.insert("k".to_string(), FieldValue::Float(1.5f64.to_bits()));
    assert_eq!(m.get(&"k".to_string()), Some(&FieldValue::Float(1.5f64.to_bits())));
    let copy = m.duplicate();
    assert_eq!(copy.get(&"k".to_string()), Some(&FieldValue::Float(1.5f64.to_bits())));
    assert_eq!(copy.num_fields(), 1);
}

#[test]
fn level_ranks_order_severity() {
    assert!(LogLevel::Info.passes(LogLevel::Error));
    assert!(LogLevel::Info.passes(LogLevel::Info));
    assert!(!LogLevel::Info.passes(LogLevel::Debug));
    assert!(!LogLevel::Error.passes(LogLevel::Warn));
    assert!(LogLevel::Trace.passes(LogLevel::Trace));
    assert_eq!(LogLevel::Error.rank(), 1);
    assert_eq!(LogLevel::Trace.rank(), 5);
}
