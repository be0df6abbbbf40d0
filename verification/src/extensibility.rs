//! The boundary a data-source plugin shares with the host: the context it is
//! handed, the read request unit of work, and the buffer sizing rules of the
//! read protocol.

mod data_source;
mod utilities;

pub use data_source::CatalogTimeRange;
pub use data_source::DataSourceContext;
pub use data_source::LogLevel;
pub use data_source::Logger;
pub use data_source::ReadRequest;
pub use data_source::UpgradableDataSource;
pub use utilities::ExtensibilityUtilities;
pub use utilities::STATUS_VALID;
