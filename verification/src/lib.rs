//! A GELF log-transport adapter library: a builder that accumulates
//! transport and batching parameters, an appender model that merges
//! configured fields into every outbound record and decides when a
//! buffered batch is handed to the delivery collaborator, a declarative
//! configuration section that maps onto the builder, and an init-once
//! slot for the process-wide logger.

pub mod appender;
pub mod batch;
pub mod fields;
pub mod file;
pub mod init;
pub mod level;
pub mod record;
pub mod value;
