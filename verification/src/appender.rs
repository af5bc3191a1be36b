//! The appender and its configuration builder. The builder accumulates
//! transport and batching parameters with safe defaults and freezes
//! them into an immutable configuration; the appender filters each
//! record against the severity threshold, merges the configured
//! additional fields into it, and hands it to the buffering model that
//! decides when a batch goes out.

use vstd::prelude::*;
use vstd::string::StringExecFns;
use crate::batch::{enqueue_step, opt_batch, elapse_step, BatchBuffer};
use crate::fields::FieldMap;
use crate::level::{spec_passes, LogLevel};
use crate::record::{make_outbound, outbound_matches, LogRecord, OutboundRecord};
use crate::value::FieldValue;

verus! {

/// Port used when none is configured: the conventional GELF port.
pub const DEFAULT_PORT: u16 = 12202;

/// Records per batch when no override is configured.
pub const DEFAULT_BUFFER_SIZE: usize = 100;

/// Age, in milliseconds, after which a non-empty batch is flushed.
pub const DEFAULT_BUFFER_DURATION_MILLIS: u64 = 500;

/// Accumulates the appender's settings; every field can be overridden
/// before [`BufferAppenderBuilder::build`] freezes them.
#[derive(Debug)]
pub struct BufferAppenderBuilder {
    pub level: LogLevel,
    pub hostname: String,
    pub port: u16,
    pub use_tls: bool,
    pub null_character: bool,
    pub buffer_size: Option<usize>,
    pub additional_fields: FieldMap,
    pub connect_timeout_millis: Option<u64>,
    pub write_timeout_millis: Option<u64>,
}

/// The additional fields a fresh builder is seeded with, overlaid by
/// `extra`: the emitting package's name and version, unless `extra`
/// overrides them, and nothing else.
pub open spec fn seeded_fields(m: Map<Seq<char>, FieldValue>, extra: Map<Seq<char>, FieldValue>) -> bool {
    &&& forall|k: Seq<char>| #[trigger] extra.contains_key(k) ==> m.contains_key(k) && m[k] == extra[k]
    &&& forall|k: Seq<char>| !extra.contains_key(k) ==> (#[trigger] m.contains_key(k) <==> k == "pkg_name"@ || k
        == "pkg_version"@)
    &&& !extra.contains_key("pkg_name"@) ==> (m["pkg_name"@] matches FieldValue::Text(s) && s@
        == "log4rs_gelf"@)
    &&& !extra.contains_key("pkg_version"@) ==> (m["pkg_version"@] matches FieldValue::Text(s)
        && s@ == "0.1.0"@)
}

/// The documented defaults of a fresh builder.
pub open spec fn is_default_builder(b: BufferAppenderBuilder) -> bool {
    &&& b.level == LogLevel::Info
    &&& b.hostname@ == "127.0.0.1"@
    &&& b.port == DEFAULT_PORT
    &&& b.use_tls == true
    &&& b.null_character == true
    &&& b.buffer_size == Some(DEFAULT_BUFFER_SIZE)
    &&& b.additional_fields.wf()
    &&& seeded_fields(b.additional_fields@, Map::empty())
    &&& b.connect_timeout_millis is None
    &&& b.write_timeout_millis is None
}

impl BufferAppenderBuilder {
    /// Well-formed: a non-empty hostname, a positive port, a positive
    /// batch size when one is set, positive timeouts when set, and
    /// unique additional-field keys.
    pub open spec fn wf(self) -> bool {
        &&& self.hostname@.len() > 0
        &&& self.port > 0
        &&& (self.buffer_size matches Some(n) ==> n > 0)
        &&& self.additional_fields.wf()
        &&& (self.connect_timeout_millis matches Some(d) ==> d > 0)
        &&& (self.write_timeout_millis matches Some(d) ==> d > 0)
    }

    /// Sets the severity threshold: records less severe than `level`
    /// are ignored.
    pub fn set_level(self, level: LogLevel) -> (r: Self)
        ensures
            r == (BufferAppenderBuilder { level, ..self }),
    {
        BufferAppenderBuilder { level, ..self }
    }

    /// Sets the hostname of the remote server; a malformed host
    /// surfaces as a connection failure, not here.
    pub fn set_hostname(self, hostname: &str) -> (r: Self)
        requires
            hostname@.len() > 0,
        ensures
            r.hostname@ == hostname@,
            r == (BufferAppenderBuilder { hostname: r.hostname, ..self }),
    {
        BufferAppenderBuilder { hostname: String::from_str(hostname), ..self }
    }

    /// Sets the port of the remote server.
    pub fn set_port(self, port: u16) -> (r: Self)
        requires
            port > 0,
        ensures
            r == (BufferAppenderBuilder { port, ..self }),
    {
        BufferAppenderBuilder { port, ..self }
    }

    /// Sets the transport-security flag; it is meaningful only where
    /// the delivery collaborator supports secure transport.
    pub fn set_use_tls(self, use_tls: bool) -> (r: Self)
        ensures
            r == (BufferAppenderBuilder { use_tls, ..self }),
    {
        BufferAppenderBuilder { use_tls, ..self }
    }

    /// Sets whether a NUL byte terminates each outbound entry.
    pub fn set_null_character(self, null_character: bool) -> (r: Self)
        ensures
            r == (BufferAppenderBuilder { null_character, ..self }),
    {
        BufferAppenderBuilder { null_character, ..self }
    }

    /// Sets the batch-size trigger; `None` disables the override and
    /// falls back to the default.
    pub fn set_buffer_size(self, buffer_size: Option<usize>) -> (r: Self)
        requires
            buffer_size matches Some(n) ==> n > 0,
        ensures
            r == (BufferAppenderBuilder { buffer_size, ..self }),
    {
        BufferAppenderBuilder { buffer_size, ..self }
    }

    /// Adds one additional field, appended to every outbound record;
    /// an existing field with the same key is overwritten.
    pub fn put_additional_field(self, key: &str, value: FieldValue) -> (r: Self)
        requires
            self.additional_fields.wf(),
        ensures
            r.additional_fields.wf(),
            r.additional_fields@ == self.additional_fields@.insert(key@, value),
            r == (BufferAppenderBuilder { additional_fields: r.additional_fields, ..self }),
    {
        let mut b = self;
        b.additional_fields.insert(String::from_str(key), value);
        b
    }

    /// Merges a mapping of additional fields; existing keys are
    /// overwritten by incoming ones.
    pub fn extend_additional_field(self, additional_fields: FieldMap) -> (r: Self)
        requires
            self.additional_fields.wf(),
        ensures
            r.additional_fields.wf(),
            r.additional_fields@ == self.additional_fields@.union_prefer_right(
                additional_fields@,
            ),
            r == (BufferAppenderBuilder { additional_fields: r.additional_fields, ..self }),
    {
        let mut b = self;
        b.additional_fields.extend(additional_fields);
        b
    }

    /// Sets the connect timeout, in milliseconds; `None` leaves the
    /// collaborator's own default.
    pub fn set_connect_timeout(self, connect_timeout_millis: Option<u64>) -> (r: Self)
        requires
            connect_timeout_millis matches Some(d) ==> d > 0,
        ensures
            r == (BufferAppenderBuilder { connect_timeout_millis, ..self }),
    {
        BufferAppenderBuilder { connect_timeout_millis, ..self }
    }

    /// Sets the write timeout, in milliseconds; `None` leaves the
    /// collaborator's own default.
    pub fn set_write_timeout(self, write_timeout_millis: Option<u64>) -> (r: Self)
        requires
            write_timeout_millis matches Some(d) ==> d > 0,
        ensures
            r == (BufferAppenderBuilder { write_timeout_millis, ..self }),
    {
        BufferAppenderBuilder { write_timeout_millis, ..self }
    }

    /// Freezes the accumulated settings into an immutable
    /// configuration and a fresh, empty delivery buffer.
    pub fn build(self) -> (a: BufferAppender)
        requires
            self.wf(),
        ensures
            a.wf(),
            config_matches(a.config, self),
            a.client.capacity == a.config.buffer_size,
            a.client.duration_millis == DEFAULT_BUFFER_DURATION_MILLIS,
            a.client.elapsed_millis == 0,
            a.client.pending@ == Seq::<OutboundRecord>::empty(),
    {
        let buffer_size = match self.buffer_size {
            Some(n) => n,
            None => DEFAULT_BUFFER_SIZE,
        };
        let client = BatchBuffer::new(buffer_size, DEFAULT_BUFFER_DURATION_MILLIS);
        BufferAppender {
            config: BufferConfig {
                level: self.level,
                hostname: self.hostname,
                port: self.port,
                use_tls: self.use_tls,
                null_character: self.null_character,
                buffer_size,
                additional_fields: self.additional_fields,
                connect_timeout_millis: self.connect_timeout_millis,
                write_timeout_millis: self.write_timeout_millis,
            },
            client,
        }
    }
}

impl Default for BufferAppenderBuilder {
    /// The documented defaults: informational threshold, loopback
    /// host, the conventional GELF port, transport security and the
    /// NUL terminator enabled, one hundred records per batch, no
    /// timeout overrides, and the package's name and version as
    /// pre-seeded additional fields.
    fn default() -> (r: BufferAppenderBuilder)
        ensures
            r.wf(),
            is_default_builder(r),
    {
        let mut additional_fields = FieldMap::new();
        additional_fields.insert(
            String::from_str("pkg_name"),
            FieldValue::Text(String::from_str("log4rs_gelf")),
        );
        additional_fields.insert(
            String::from_str("pkg_version"),
            FieldValue::Text(String::from_str("0.1.0")),
        );
        proof {
            reveal_strlit("pkg_name");
            reveal_strlit("pkg_version");
            reveal_strlit("127.0.0.1");
            assert("pkg_name"@.len() != "pkg_version"@.len());
        }
        BufferAppenderBuilder {
            level: LogLevel::Info,
            hostname: String::from_str("127.0.0.1"),
            port: DEFAULT_PORT,
            use_tls: true,
            null_character: true,
            buffer_size: Some(DEFAULT_BUFFER_SIZE),
            additional_fields,
            connect_timeout_millis: None,
            write_timeout_millis: None,
        }
    }
}

/// The immutable configuration an appender runs with.
#[derive(Debug)]
pub struct BufferConfig {
    pub level: LogLevel,
    pub hostname: String,
    pub port: u16,
    pub use_tls: bool,
    pub null_character: bool,
    pub buffer_size: usize,
    pub additional_fields: FieldMap,
    pub connect_timeout_millis: Option<u64>,
    pub write_timeout_millis: Option<u64>,
}

/// The built configuration holds every explicitly set field of the
/// builder, and the effective batch size: the configured one, or the
/// default where the override was disabled.
pub open spec fn config_matches(c: BufferConfig, b: BufferAppenderBuilder) -> bool {
    &&& c.level == b.level
    &&& c.hostname == b.hostname
    &&& c.port == b.port
    &&& c.use_tls == b.use_tls
    &&& c.null_character == b.null_character
    &&& c.buffer_size == (match b.buffer_size {
        Some(n) => n,
        None => DEFAULT_BUFFER_SIZE,
    })
    &&& c.additional_fields == b.additional_fields
    &&& c.connect_timeout_millis == b.connect_timeout_millis
    &&& c.write_timeout_millis == b.write_timeout_millis
}

/// Building is deterministic: two builders with the same settings
/// yield configurations that agree on every effective field.
pub proof fn lemma_build_deterministic(
    b1: BufferAppenderBuilder,
    b2: BufferAppenderBuilder,
    c1: BufferConfig,
    c2: BufferConfig,
)
    requires
        b1.level == b2.level,
        b1.hostname@ == b2.hostname@,
        b1.port == b2.port,
        b1.use_tls == b2.use_tls,
        b1.null_character == b2.null_character,
        b1.buffer_size == b2.buffer_size,
        b1.additional_fields@ == b2.additional_fields@,
        b1.connect_timeout_millis == b2.connect_timeout_millis,
        b1.write_timeout_millis == b2.write_timeout_millis,
        config_matches(c1, b1),
        config_matches(c2, b2),
    ensures
        c1.level == c2.level,
        c1.hostname@ == c2.hostname@,
        c1.port == c2.port,
        c1.use_tls == c2.use_tls,
        c1.null_character == c2.null_character,
        c1.buffer_size == c2.buffer_size,
        c1.additional_fields@ == c2.additional_fields@,
        c1.connect_timeout_millis == c2.connect_timeout_millis,
        c1.write_timeout_millis == c2.write_timeout_millis,
{
}

/// What one `append` call yields at the collaborator boundary: the
/// record was below the threshold and was ignored, or it was buffered,
/// or it completed a batch that goes out now.
#[derive(Debug)]
pub enum AppendOutcome {
    Filtered,
    Buffered,
    Flushed(Vec<OutboundRecord>),
}

/// The sink: holds the frozen configuration and the buffering state of
/// its delivery client.
#[derive(Debug)]
pub struct BufferAppender {
    pub config: BufferConfig,
    pub client: BatchBuffer,
}

impl BufferAppender {
    pub open spec fn wf(self) -> bool {
        &&& self.config.additional_fields.wf()
        &&& self.client.wf()
        &&& self.client.capacity == self.config.buffer_size
    }

    /// A fresh builder with the documented defaults.
    pub fn builder() -> (r: BufferAppenderBuilder)
        ensures
            r.wf(),
            is_default_builder(r),
    {
        BufferAppenderBuilder::default()
    }

    /// Takes one record. A record below the severity threshold is
    /// ignored. Otherwise exactly one outbound record is produced —
    /// the record's own fields overlaid on the configured additional
    /// fields — and buffered; when it fills the buffer, the whole
    /// batch goes out.
    pub fn append(&mut self, record: LogRecord) -> (out: AppendOutcome)
        requires
            old(self).wf(),
            record.wf(),
        ensures
            final(self).wf(),
            final(self).config == old(self).config,
            final(self).client.capacity == old(self).client.capacity,
            final(self).client.duration_millis == old(self).client.duration_millis,
            !spec_passes(old(self).config.level, record.level) ==> out == AppendOutcome::Filtered
                && *final(self) == *old(self),
            spec_passes(old(self).config.level, record.level) ==> {
                let p = old(self).client.pending@;
                &&& p.len() + 1 < old(self).client.capacity ==> out == AppendOutcome::Buffered
                    && final(self).client.pending@.len() == p.len() + 1
                    && final(self).client.pending@.drop_last() == p
                    && outbound_matches(
                    final(self).client.pending@.last(),
                    old(self).config.additional_fields@,
                    record,
                ) && final(self).client.elapsed_millis == old(self).client.elapsed_millis
                &&& p.len() + 1 == old(self).client.capacity ==> (out matches AppendOutcome::Flushed(batch)
                    && batch@.len() == old(self).client.capacity && batch@.drop_last() == p
                    && outbound_matches(batch@.last(), old(self).config.additional_fields@, record)
                    && final(self).client.pending@.len() == 0 && final(self).client.elapsed_millis
                    == 0)
            },
    {
        if !self.config.level.passes(record.level) {
            return AppendOutcome::Filtered;
        }
        let o = make_outbound(&self.config.additional_fields, record);
        proof {
            assert(old(self).client.pending@.push(o).drop_last() =~= old(self).client.pending@);
        }
        match self.client.enqueue(o) {
            Some(batch) => AppendOutcome::Flushed(batch),
            None => AppendOutcome::Buffered,
        }
    }

    /// Best-effort drain: whatever is buffered goes out now.
    pub fn flush(&mut self) -> (b: Option<Vec<OutboundRecord>>)
        requires
            old(self).wf(),
        ensures
            final(self).wf(),
            final(self).config == old(self).config,
            old(self).client.pending@.len() == 0 ==> b is None && *final(self) == *old(self),
            old(self).client.pending@.len() > 0 ==> (b matches Some(v) && v@ == old(
                self,
            ).client.pending@ && final(self).client.pending@.len() == 0),
    {
        self.client.flush()
    }

    /// Lets `d` milliseconds pass on the delivery client's batch-age
    /// trigger.
    pub fn elapse(&mut self, d: u64) -> (b: Option<Vec<OutboundRecord>>)
        requires
            old(self).wf(),
        ensures
            final(self).wf(),
            final(self).config == old(self).config,
            final(self).client.elapsed_millis as int == elapse_step(
                old(self).client.duration_millis as int,
                old(self).client.elapsed_millis as int,
                old(self).client.pending@,
                d as int,
            ).0,
            opt_batch(b) == elapse_step(
                old(self).client.duration_millis as int,
                old(self).client.elapsed_millis as int,
                old(self).client.pending@,
                d as int,
            ).1,
            b is None ==> final(self).client.pending@ == old(self).client.pending@,
            b is Some ==> final(self).client.pending@ == Seq::<OutboundRecord>::empty(),
    {
        self.client.elapse(d)
    }
}

} // verus!
