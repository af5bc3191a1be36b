//! The declarative configuration section registered under the `buffer`
//! kind: every recognized key is optional, a missing key falls back to
//! the builder's default, and the section's timeouts are given in
//! seconds.

use vstd::prelude::*;
use crate::appender::{
    seeded_fields, BufferAppender, BufferAppenderBuilder, BufferConfig, DEFAULT_BUFFER_SIZE,
    DEFAULT_PORT,
};
use crate::fields::FieldMap;
use crate::level::LogLevel;

verus! {

/// A parsed `kind: buffer` configuration section. A field left `None`
/// was absent from the section and takes the builder's default.
#[derive(Debug)]
pub struct Config {
    pub level: Option<LogLevel>,
    pub hostname: Option<String>,
    pub port: Option<u16>,
    pub use_tls: Option<bool>,
    pub null_character: Option<bool>,
    pub buffer_size: Option<usize>,
    pub additional_fields: Option<FieldMap>,
    pub connect_timeout: Option<u64>,
    pub write_timeout: Option<u64>,
}

/// Seconds to milliseconds, saturating at the largest representable
/// duration.
pub open spec fn spec_secs_to_millis(s: int) -> int {
    if s * 1000 <= u64::MAX {
        s * 1000
    } else {
        u64::MAX as int
    }
}

/// The effective timeout of a section field: absent stays absent,
/// present values are converted from seconds to milliseconds.
pub open spec fn spec_timeout_millis(t: Option<u64>) -> Option<u64> {
    match t {
        Some(s) => Some(spec_secs_to_millis(s as int) as u64),
        None => None,
    }
}

fn secs_to_millis(s: u64) -> (m: u64)
    ensures
        m as int == spec_secs_to_millis(s as int),
        s > 0 ==> m > 0,
{
    if s <= u64::MAX / 1000 {
        s * 1000
    } else {
        u64::MAX
    }
}

impl Config {
    /// Well-formed: present fields obey the configuration invariants —
    /// a non-empty hostname, a positive port, a positive batch size,
    /// positive timeouts, unique additional-field keys.
    pub open spec fn wf(self) -> bool {
        &&& (self.hostname matches Some(h) ==> h@.len() > 0)
        &&& (self.port matches Some(p) ==> p > 0)
        &&& (self.buffer_size matches Some(n) ==> n > 0)
        &&& (self.additional_fields matches Some(m) ==> m.wf())
        &&& (self.connect_timeout matches Some(s) ==> s > 0)
        &&& (self.write_timeout matches Some(s) ==> s > 0)
    }

    /// Populates a builder from the section, field by field: a present
    /// field overrides the default, an absent one leaves it; the
    /// section's additional fields are merged over the pre-seeded
    /// ones.
    pub fn into_builder(self) -> (b: BufferAppenderBuilder)
        requires
            self.wf(),
        ensures
            b.wf(),
            b.level == (match self.level {
                Some(l) => l,
                None => LogLevel::Info,
            }),
            self.hostname matches Some(h) ==> b.hostname@ == h@,
            self.hostname is None ==> b.hostname@ == "127.0.0.1"@,
            b.port == (match self.port {
                Some(p) => p,
                None => DEFAULT_PORT,
            }),
            b.use_tls == (match self.use_tls {
                Some(t) => t,
                None => true,
            }),
            b.null_character == (match self.null_character {
                Some(n) => n,
                None => true,
            }),
            b.buffer_size == Some(
                match self.buffer_size {
                    Some(n) => n,
                    None => DEFAULT_BUFFER_SIZE,
                },
            ),
            seeded_fields(
                b.additional_fields@,
                match self.additional_fields {
                    Some(m) => m@,
                    None => Map::empty(),
                },
            ),
            b.connect_timeout_millis == spec_timeout_millis(self.connect_timeout),
            b.write_timeout_millis == spec_timeout_millis(self.write_timeout),
    {
        let Config {
            level,
            hostname,
            port,
            use_tls,
            null_character,
            buffer_size,
            additional_fields,
            connect_timeout,
            write_timeout,
        } = self;
        let mut b = BufferAppenderBuilder::default();
        if let Some(l) = level {
            b = b.set_level(l);
        }
        if let Some(h) = hostname {
            b = b.set_hostname(h.as_str());
        }
        if let Some(p) = port {
            b = b.set_port(p);
        }
        if let Some(t) = use_tls {
            b = b.set_use_tls(t);
        }
        if let Some(n) = null_character {
            b = b.set_null_character(n);
        }
        if let Some(n) = buffer_size {
            b = b.set_buffer_size(Some(n));
        }
        if let Some(m) = additional_fields {
            b = b.extend_additional_field(m);
        }
        if let Some(s) = connect_timeout {
            b = b.set_connect_timeout(Some(secs_to_millis(s)));
        }
        if let Some(s) = write_timeout {
            b = b.set_write_timeout(Some(secs_to_millis(s)));
        }
        b
    }

    /// Builds the appender this section describes.
    pub fn into_appender(self) -> (a: BufferAppender)
        requires
            self.wf(),
        ensures
            a.wf(),
            follows_section(a.config, self),
    {
        let b = self.into_builder();
        b.build()
    }
}

/// The configuration built from a section: every present field of the
/// section, and the documented default for every absent one.
pub open spec fn follows_section(c: BufferConfig, s: Config) -> bool {
    &&& c.level == (match s.level {
        Some(l) => l,
        None => LogLevel::Info,
    })
    &&& (s.hostname matches Some(h) ==> c.hostname@ == h@)
    &&& (s.hostname is None ==> c.hostname@ == "127.0.0.1"@)
    &&& c.port == (match s.port {
        Some(p) => p,
        None => DEFAULT_PORT,
    })
    &&& c.use_tls == (match s.use_tls {
        Some(t) => t,
        None => true,
    })
    &&& c.null_character == (match s.null_character {
        Some(n) => n,
        None => true,
    })
    &&& c.buffer_size == (match s.buffer_size {
        Some(n) => n,
        None => DEFAULT_BUFFER_SIZE,
    })
    &&& seeded_fields(
        c.additional_fields@,
        match s.additional_fields {
            Some(m) => m@,
            None => Map::empty(),
        },
    )
    &&& c.connect_timeout_millis == spec_timeout_millis(s.connect_timeout)
    &&& c.write_timeout_millis == spec_timeout_millis(s.write_timeout)
}

} // verus!
