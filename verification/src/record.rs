//! Log records as the appender sees them, and the outbound wire record
//! handed to the delivery collaborator: the record itself plus the
//! additional fields configured on the appender.

use vstd::prelude::*;
use crate::fields::FieldMap;
use crate::level::LogLevel;
use crate::value::FieldValue;

verus! {

/// One emitted log record: severity, message, timestamp and structured
/// attributes.
#[derive(Debug)]
pub struct LogRecord {
    pub level: LogLevel,
    pub message: String,
    pub timestamp_millis: u64,
    pub fields: FieldMap,
}

impl LogRecord {
    pub open spec fn wf(self) -> bool {
        self.fields.wf()
    }
}

/// The wire shape of one record at the collaborator boundary.
#[derive(Debug)]
pub struct OutboundRecord {
    pub level: LogLevel,
    pub message: String,
    pub timestamp_millis: u64,
    pub fields: FieldMap,
}

/// `o` is the outbound form of `record` over the configured additional
/// fields `base`: same severity, message and timestamp, and its fields
/// are the configured fields overlaid by the record's own, so on a
/// shared key the record's value wins.
pub open spec fn outbound_matches(
    o: OutboundRecord,
    base: Map<Seq<char>, FieldValue>,
    record: LogRecord,
) -> bool {
    &&& o.level == record.level
    &&& o.message == record.message
    &&& o.timestamp_millis == record.timestamp_millis
    &&& o.fields.wf()
    &&& o.fields@ == base.union_prefer_right(record.fields@)
}

/// Builds the outbound record for `record`: the configured
/// `additional` fields are base defaults, and the record's own fields
/// take precedence on a shared key.
pub fn make_outbound(additional: &FieldMap, record: LogRecord) -> (o: OutboundRecord)
    requires
        additional.wf(),
    ensures
        outbound_matches(o, additional@, record),
{
    let LogRecord { level, message, timestamp_millis, fields } = record;
    let mut merged = additional.duplicate();
    merged.extend(fields);
    OutboundRecord { level, message, timestamp_millis, fields: merged }
}

/// The tie-break of the merge, key by key: a key the record carries
/// maps to the record's value; a key only the configuration carries
/// maps to the configured value; no other key appears.
pub proof fn lemma_outbound_tiebreak(
    o: OutboundRecord,
    base: Map<Seq<char>, FieldValue>,
    record: LogRecord,
    k: Seq<char>,
)
    requires
        outbound_matches(o, base, record),
    ensures
        o.fields@.contains_key(k) <==> base.contains_key(k) || record.fields@.contains_key(k),
        record.fields@.contains_key(k) ==> o.fields@[k] == record.fields@[k],
        !record.fields@.contains_key(k) && base.contains_key(k) ==> o.fields@[k] == base[k],
{
}

} // verus!
