use log4rs_gelf::appender::{AppendOutcome, BufferAppender};
use log4rs_gelf::fields::FieldMap;
use log4rs_gelf::level::LogLevel;
use log4rs_gelf::record::LogRecord;
use log4rs_gelf::value::FieldValue;

fn record(level: LogLevel, message: &str) -> LogRecord {
    LogRecord {
        level,
        message: message.to_string(),
        timestamp_millis: 1_700_000_000_000,
        fields: FieldMap::new(),
    }
}

#[test]
fn append_produces_one_outbound_record_with_merged_fields() {
    let mut a = BufferAppender::builder()
        .put_additional_field("component", FieldValue::Text("configured".to_string()))
        .put_additional_field("region", FieldValue::Text("eu".to_string()))
        .build();
    let mut rec = record(LogLevel::Error, "boom");
    rec.fields
        .insert("component".to_string(), FieldValue::Text("from_record".to_string()));
    rec.fields.insert("request_id".to_string(), FieldValue::UInt(42));
    let out = a.append(rec);
    assert!(matches!(out, AppendOutcome::Buffered));
    let batch = a.flush().expect("one record was buffered");
    assert_eq!(batch.len(), 1);
    let o = &batch[0];
    assert_eq!(o.level, LogLevel::Error);
    assert_eq!(o.message, "boom");
    assert_eq!(o.timestamp_millis, 1_700_000_000_000);
    // The record's own field wins the tie-break.
    assert_eq!(
        o.fields.get(&"component".to_string()),
        Some(&FieldValue::Text("from_record".to_string()))
    );
    // Configured fields and record-native fields are both present.
    assert_eq!(
        o.fields.get(&"region".to_string()),
        Some(&FieldValue::Text("eu".to_string()))
    );
    assert_eq!(o.fields.get(&"request_id".to_string()), Some(&FieldValue::UInt(42)));
    assert_eq!(
        o.fields.get(&"pkg_name".to_string()),
        Some(&FieldValue::Text("log4rs_gelf".to_string()))
    );
    // Exactly the merged keys, nothing else.
    assert_eq!(o.fields.num_fields(), 5);
}

#[test]
fn record_below_threshold_is_ignored() {
    let mut a = BufferAppender::builder().set_level(LogLevel::Warn).build();
    let out = a.append(record(LogLevel::Info, "quiet"));
    assert!(matches!(out, AppendOutcome::Filtered));
    assert!(a.flush().is_none());
}

#[test]
fn filling_the_buffer_triggers_exactly_one_batch() {
    let mut a = BufferAppender::builder().set_buffer_size(Some(3)).build();
    assert!(matches!(a.append(record(LogLevel::Info, "one")), AppendOutcome::Buffered));
    assert!(matches!(a.append(record(LogLevel::Info, "two")), AppendOutcome::Buffered));
    match a.append(record(LogLevel::Info, "three")) {
        AppendOutcome::Flushed(batch) => {
            assert_eq!(batch.len(), 3);
            assert_eq!(batch[0].message, "one");
            assert_eq!(batch[1].message, "two");
            assert_eq!(batch[2].message, "three");
        }
        _ => panic!("third append must emit the batch"),
    }
    // The buffer is empty again: nothing more to flush.
    assert!(a.flush().is_none());
}

#[test]
fn buffer_of_one_flushes_on_every_append() {
    let mut a = BufferAppender::builder().set_buffer_size(Some(1)).build();
    match a.append(record(LogLevel::Info, "solo")) {
        AppendOutcome::Flushed(batch) => {
            assert_eq!(batch.len(), 1);
            assert_eq!(batch[0].message, "solo");
        }
        _ => panic!("a batch of one must go out at once"),
    }
    assert!(a.flush().is_none());
}

#[test]
fn elapsed_duration_triggers_exactly_one_flush() {
    let mut a = BufferAppender::builder().set_buffer_size(Some(100)).build();
    assert!(matches!(a.append(record(LogLevel::Info, "waiting")), AppendOutcome::Buffered));
    // Just under the 500 ms default: nothing goes out.
    assert!(a.elapse(499).is_none());
    // Reaching it: exactly one flush, carrying the buffered record.
    let batch = a.elapse(1).expect("the age trigger must fire");
    assert_eq!(batch.len(), 1);
    assert_eq!(batch[0].message, "waiting");
    // The trigger has reset: more time alone emits nothing.
    assert!(a.elapse(10_000).is_none());
}

#[test]
fn elapse_with_empty_buffer_emits_nothing() {
    let mut a = BufferAppender::builder().build();
    assert!(a.elapse(10_000).is_none());
    assert!(a.flush().is_none());
}

#[test]
fn flush_drains_pending_records() {
    let mut a = BufferAppender::builder().set_buffer_size(Some(10)).build();
    a.append(record(LogLevel::Info, "a"));
    a.append(record(LogLevel::Info, "b"));
    let batch = a.flush().expect("two records were buffered");
    assert_eq!(batch.len(), 2);
    assert_eq!(batch[0].message, "a");
    assert_eq!(batch[1].message, "b");
    assert!(a.flush().is_none());
}
