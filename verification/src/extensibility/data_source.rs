//! The types a data source plugin shares with its host: logging, the
//! one-time context, catalog time ranges and the read request unit of work.

use crate::data_model::CatalogItem;
use crate::data_model::Properties;
use vstd::prelude::*;

verus! {

/// Declares `url::Url` so a context can carry a resource locator; the value
/// is opaque here and only ever passed through to the plugin.
#[verifier::external_type_specification]
#[verifier::external_body]
pub struct ExUrl(url::Url);

/// Logging severity levels, from most detailed to most severe.
#[derive(Clone, Copy, Debug, PartialEq, Eq, Structural)]
pub enum LogLevel {
    /// The most detailed messages; may contain sensitive application data.
    Trace,
    /// Messages for interactive investigation during development.
    Debug,
    /// Messages that track the general flow of the application.
    Information,
    /// An abnormal or unexpected event that does not stop execution.
    Warning,
    /// A failure in the current activity, not application-wide.
    Error,
    /// An unrecoverable crash that requires immediate attention.
    Critical,
}

/// A logger a plugin writes its messages to.
pub trait Logger {
    /// Logs a given message.
    fn log(&self, log_level: LogLevel, message: &str);
}

/// The starter package handed to a data source exactly once, before any
/// other call.
pub struct DataSourceContext<T> {
    /// An optional URL which points to the data.
    pub resource_locator: Option<url::Url>,
    /// The source configuration.
    pub source_configuration: T,
    /// The request configuration.
    pub request_configuration: Option<Properties>,
}

/// The bounds of the data available in a catalog, as nanoseconds since the
/// Unix epoch. A `begin` greater than `end` signals that there is no data.
#[derive(Clone, Copy, Debug, PartialEq, Eq, Structural)]
pub struct CatalogTimeRange {
    /// The time of the first data in the catalog, in nanoseconds since the
    /// Unix epoch.
    pub begin: i64,
    /// The time of the last data in the catalog, in nanoseconds since the
    /// Unix epoch.
    pub end: i64,
}

/// The unit of work for one stream within one read call: a fully resolved
/// catalog item and the caller-owned data and status buffers to fill.
#[derive(Debug)]
pub struct ReadRequest {
    /// The original resource name.
    pub original_resource_name: String,
    /// The catalog item to be read.
    pub catalog_item: CatalogItem,
    /// The data buffer.
    pub data: Vec<u8>,
    /// The status buffer, one byte per sample: the ASCII digit one marks the
    /// corresponding value in the data buffer valid, any other byte marks it
    /// as missing.
    pub status: Vec<u8>,
}

/// Data sources whose stored configuration can be migrated to the current
/// schema implement this capability.
pub trait UpgradableDataSource {
    /// Upgrades the source configuration: a pure migration from the old
    /// stored form to the new one, with no other effect.
    fn upgrade_source_configuration(&self, configuration: String) -> String;
}

} // verus!
