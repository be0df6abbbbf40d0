//! The hierarchical data model: identifier grammars, the sample period and its
//! canonical unit string, representations, resources, catalogs and their
//! builders.

mod data_model_extensions;
mod data_model_types;
mod data_model_utilities;
mod identifiers;
mod properties;
mod representation;
mod resource;
mod resource_builder;
mod resource_catalog;
mod resource_catalog_builder;
mod shared;

pub use resource_builder::join_comma;
pub use resource_builder::opt_list;
pub use resource_builder::props_map;
pub use resource_builder::ResourceBuilder;
pub use resource_catalog_builder::ResourceCatalogBuilder;

pub use data_model_types::data_type_code;
pub use data_model_types::element_size_of;
pub use data_model_types::is_valid_path;
pub use data_model_types::lemma_element_size_matches_code;
pub use data_model_types::normalized_path;
pub use data_model_types::CatalogItem;
pub use data_model_types::CatalogPath;
pub use data_model_types::CatalogRegistration;
pub use data_model_types::NexusDataType;
pub use data_model_utilities::str_eq;
pub use data_model_utilities::DataModelUtilities;
pub use representation::joined_pairs;
pub use representation::pairs_of;
pub use representation::param_keys_distinct;
pub use representation::param_keys_valid;
pub use representation::param_suffix;
pub use representation::params_wf;
pub use representation::Representation;
pub use representation::RepresentationParameters;
pub use resource::rep_ids_distinct;
pub use resource::Representations;
pub use resource::Resource;
pub use resource::ResourceId;
pub use resource_catalog::resource_ids_distinct;
pub use resource_catalog::ResourceCatalog;
pub use resource_catalog::ResourceCatalogId;
pub use resource_catalog::Resources;
pub use properties::entry_keys_distinct;
pub use properties::map_of_entries;
pub use properties::Properties;

pub use data_model_extensions::chosen_unit;
pub use data_model_extensions::dec_str;
pub use data_model_extensions::digit_char;
pub use data_model_extensions::lemma_unit_string_largest_unit;
pub use data_model_extensions::lemma_unit_string_round_trip;
pub use data_model_extensions::step_divisor;
pub use data_model_extensions::u64_to_decimal;
pub use data_model_extensions::unit_scale;
pub use data_model_extensions::unit_string;
pub use data_model_extensions::unit_suffix;
pub use data_model_extensions::unit_value;
pub use data_model_extensions::DataModelExtensions;
pub use shared::time_delta_nanos_of;
pub use shared::SamplePeriod;

pub use identifiers::is_id_char;
pub use identifiers::is_id_start_char;
pub use identifiers::is_valid_catalog_id;
pub use identifiers::is_valid_id;
pub use identifiers::validate_catalog_id;
pub use identifiers::validate_resource_id;
