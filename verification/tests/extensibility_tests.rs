use nexus_extensibility::data_model::CatalogItem;
use nexus_extensibility::data_model::CatalogPath;
use nexus_extensibility::data_model::CatalogRegistration;
use nexus_extensibility::data_model::NexusDataType;
use nexus_extensibility::data_model::Representation;
use nexus_extensibility::data_model::ResourceBuilder;
use nexus_extensibility::data_model::ResourceCatalogBuilder;
use nexus_extensibility::data_model::ResourceCatalogId;
use nexus_extensibility::data_model::ResourceId;
use nexus_extensibility::data_model::SamplePeriod;
use nexus_extensibility::extensibility::CatalogTimeRange;
use nexus_extensibility::extensibility::DataSourceContext;
use nexus_extensibility::extensibility::ExtensibilityUtilities;
use nexus_extensibility::extensibility::LogLevel;
use nexus_extensibility::extensibility::Logger;
use nexus_extensibility::extensibility::ReadRequest;
use nexus_extensibility::extensibility::UpgradableDataSource;
use nexus_extensibility::extensibility::STATUS_VALID;

fn float64_representation(period_nanoseconds: i64) -> Representation {
    Representation {
        data_type: NexusDataType::FLOAT64,
        sample_period: SamplePeriod::from_nanos(period_nanoseconds).unwrap(),
        parameters: None,
    }
}

#[test]
fn element_counts_follow_the_sample_period() {
    let period = SamplePeriod::from_nanos(1_000_000_000).unwrap();
    let count = ExtensibilityUtilities::calculate_element_count(0, 10_000_000_000, &period);
    assert_eq!(10, count);
    // a partial trailing period is cut off
    let partial = ExtensibilityUtilities::calculate_element_count(0, 10_500_000_000, &period);
    assert_eq!(10, partial);
    let empty = ExtensibilityUtilities::calculate_element_count(5, 5, &period);
    assert_eq!(0, empty);
}

#[test]
fn buffers_span_ten_periods_of_float64() {
    let representation = float64_representation(1_000_000_000);
    let (data, status) = ExtensibilityUtilities::create_buffers(&representation, 0, 10_000_000_000);
    assert_eq!(80, data.len());
    assert_eq!(10, status.len());
    assert!(data.iter().all(|&b| b == 0));
    assert!(status.iter().all(|&b| b == 0));
}

#[test]
fn cancelled_reads_leave_a_valid_prefix_and_an_invalid_suffix() {
    let representation = float64_representation(1_000_000_000);
    let (mut data, mut status) =
        ExtensibilityUtilities::create_buffers(&representation, 0, 10_000_000_000);
    let mut cancel_flag = false;
    let element = vec![1u8, 2, 3, 4, 5, 6, 7, 8];
    for index in 0..status.len() {
        if index == 4 {
            // the caller cancels after four elements
            cancel_flag = true;
        }
        if cancel_flag {
            break;
        }
        ExtensibilityUtilities::write_sample(&mut data, &mut status, 8, index, &element);
    }
    for index in 0..status.len() {
        let expected_valid = index < 4;
        assert_eq!(
            expected_valid,
            ExtensibilityUtilities::sample_is_valid(&status, index)
        );
    }
    assert_eq!(STATUS_VALID, status[0]);
    assert_eq!(&data[0..8], &[1, 2, 3, 4, 5, 6, 7, 8]);
    assert_eq!(&data[24..32], &[1, 2, 3, 4, 5, 6, 7, 8]);
    assert!(data[32..].iter().all(|&b| b == 0));
}

struct ListLogger {
    messages: std::cell::RefCell<Vec<String>>,
}

impl Logger for ListLogger {
    fn log(&self, _log_level: LogLevel, message: &str) {
        self.messages.borrow_mut().push(message.to_string());
    }
}

#[test]
fn loggers_receive_messages() {
    let logger = ListLogger { messages: std::cell::RefCell::new(Vec::new()) };
    logger.log(LogLevel::Information, "started");
    logger.log(LogLevel::Warning, "slow");
    assert_eq!(vec!["started".to_string(), "slow".to_string()], *logger.messages.borrow());
}

struct PrefixingSource;

impl UpgradableDataSource for PrefixingSource {
    fn upgrade_source_configuration(&self, configuration: String) -> String {
        format!("v2:{configuration}")
    }
}

#[test]
fn upgradable_sources_migrate_configurations() {
    let source = PrefixingSource;
    assert_eq!("v2:old", source.upgrade_source_configuration("old".to_string()));
}

#[test]
fn contexts_carry_locator_and_configuration() {
    let locator = url::Url::parse("https://example.org/data").unwrap();
    let context: DataSourceContext<String> = DataSourceContext {
        resource_locator: Some(locator),
        source_configuration: "cfg".to_string(),
        request_configuration: None,
    };
    assert_eq!("cfg", context.source_configuration);
    assert_eq!(
        "https://example.org/data",
        context.resource_locator.unwrap().as_str()
    );
}

#[test]
fn read_requests_carry_their_buffers() {
    let representation = float64_representation(1_000_000_000);
    let (data, status) = ExtensibilityUtilities::create_buffers(&representation, 0, 3_000_000_000);
    let catalog = ResourceCatalogBuilder::new(
        ResourceCatalogId::try_new("/sensors".to_string()).unwrap(),
    )
    .build()
    .unwrap();
    let resource = ResourceBuilder::new(ResourceId::try_new("t1".to_string()).unwrap())
        .build()
        .unwrap();
    let request = ReadRequest {
        original_resource_name: "t1".to_string(),
        catalog_item: CatalogItem {
            catalog,
            resource,
            representation,
            parameters: None,
        },
        data,
        status,
    };
    assert_eq!(24, request.data.len());
    assert_eq!(3, request.status.len());
    assert_eq!("t1", request.original_resource_name);
    assert_eq!("1_s", request.catalog_item.representation.id());
}

#[test]
fn time_ranges_signal_no_data_with_inverted_bounds() {
    let no_data = CatalogTimeRange { begin: 1, end: 0 };
    assert!(no_data.begin > no_data.end);
    let some_data = CatalogTimeRange { begin: 0, end: 86_400_000_000_000 };
    assert!(some_data.begin <= some_data.end);
}

#[test]
fn registrations_carry_their_path() {
    let registration = CatalogRegistration {
        path: CatalogPath::new("/a/b".to_string()).unwrap(),
        title: Some("Example".to_string()),
        is_transient: false,
        link_target: None,
    };
    assert_eq!("/a/b", registration.path.as_str());
    assert!(!registration.is_transient);
}
