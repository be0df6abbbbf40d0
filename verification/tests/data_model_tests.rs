use chrono::TimeDelta;
use nexus_extensibility::data_model::CatalogPath;
use nexus_extensibility::data_model::DataModelUtilities;
use nexus_extensibility::data_model::NexusDataType;
use nexus_extensibility::data_model::Representation;
use nexus_extensibility::data_model::RepresentationParameters;
use nexus_extensibility::data_model::Resource;
use nexus_extensibility::data_model::ResourceCatalogId;
use nexus_extensibility::data_model::ResourceId;
use nexus_extensibility::data_model::Resources;
use nexus_extensibility::data_model::SamplePeriod;
use nexus_extensibility::error::NexusError;

#[test]
fn can_validate_catalog_id() {
    let cases: [(&str, bool); 9] = [
        ("/a", true),
        ("/_a", true),
        ("/ab_c", true),
        ("/a9_b/c__99", true),
        ("", false),
        ("/", false),
        ("/a/", false),
        ("/9", false),
        ("a", false),
    ];
    for (id, is_valid) in cases {
        let result = ResourceCatalogId::try_new(id.to_string());
        assert_eq!(is_valid, result.is_ok(), "catalog id {id:?}");
    }
}

#[test]
fn can_validate_resource_id() {
    let cases: [(&str, bool); 11] = [
        ("_temp", true),
        ("temp", true),
        ("Temp", true),
        ("Temp_1", true),
        ("", false),
        ("1temp", false),
        ("te\u{00df}p", false),
        ("\u{00aa}\u{266b}", false),
        ("tem p", false),
        ("tem-p", false),
        ("tem*p", false),
    ];
    for (id, is_valid) in cases {
        let result = ResourceId::try_new(id.to_string());
        assert_eq!(is_valid, result.is_ok(), "resource id {id:?}");
        if !is_valid {
            assert_eq!(NexusError::InvalidIdentifier, result.unwrap_err());
        }
    }
}

#[test]
fn can_validate_representation_sample_period() {
    let one_minute = TimeDelta::minutes(1);
    assert!(SamplePeriod::try_new(one_minute).is_ok());

    let zero = TimeDelta::zero();
    let result = SamplePeriod::try_new(zero);
    assert_eq!(NexusError::InvalidSamplePeriod, result.unwrap_err());
}

#[test]
fn can_validate_resources() {
    let id = ResourceId::try_new("R1".to_string()).unwrap();

    let result = Resources::try_new(vec![Resource {
        id,
        properties: None,
        representations: None,
    }]);

    assert!(result.is_ok());
}

#[test]
fn sample_period_rejects_non_positive_nanoseconds() {
    assert_eq!(
        NexusError::InvalidSamplePeriod,
        SamplePeriod::from_nanos(0).unwrap_err()
    );
    assert_eq!(
        NexusError::InvalidSamplePeriod,
        SamplePeriod::from_nanos(-25).unwrap_err()
    );
    assert_eq!(
        NexusError::InvalidSamplePeriod,
        SamplePeriod::try_new(TimeDelta::nanoseconds(-1)).unwrap_err()
    );
    let period = SamplePeriod::from_nanos(1).unwrap();
    assert_eq!(1, period.as_nanos());
}

#[test]
fn can_validate_catalog_paths() {
    let accepted = ["/a", "/a9_b/c__99", "/"];
    for path in accepted {
        let built = CatalogPath::new(path.to_string()).unwrap();
        assert_eq!(path, built.as_str());
    }
    let rejected = ["", "/a/", "/9", "/a//b", "/a b"];
    for path in rejected {
        let result = CatalogPath::new(path.to_string());
        assert_eq!(NexusError::InvalidIdentifier, result.unwrap_err(), "path {path:?}");
    }
    // a missing leading slash is supplied before validation
    assert!(CatalogPath::is_valid_path("a"));
    assert!(CatalogPath::new("a9_b/c__99".to_string()).is_ok());
    assert!(!CatalogPath::is_valid_path("a/"));
}

#[test]
fn parameter_keys_follow_the_identifier_grammar() {
    let good = vec![("a".to_string(), "1".to_string()), ("b_2".to_string(), "x y".to_string())];
    assert!(RepresentationParameters::validate_parameters(&good));
    assert!(RepresentationParameters::try_new(good).is_ok());

    let bad_key = vec![("1a".to_string(), "1".to_string())];
    assert!(!RepresentationParameters::validate_parameters(&bad_key));
    assert_eq!(
        NexusError::InvalidParameterKey,
        RepresentationParameters::try_new(bad_key).unwrap_err()
    );

    let repeated_key = vec![
        ("a".to_string(), "1".to_string()),
        ("a".to_string(), "2".to_string()),
    ];
    assert!(!RepresentationParameters::validate_parameters(&repeated_key));
    assert_eq!(
        NexusError::DuplicateIdentifier,
        RepresentationParameters::try_new(repeated_key).unwrap_err()
    );
}

#[test]
fn can_render_parameter_strings() {
    let parameters = RepresentationParameters::try_new(vec![
        ("kind".to_string(), "mean".to_string()),
        ("window".to_string(), "10".to_string()),
    ])
    .unwrap();
    let rendered = DataModelUtilities::get_representation_parameter_string(&Some(parameters));
    assert_eq!(Some("(kind=mean,window=10)".to_string()), rendered);

    assert_eq!(None, DataModelUtilities::get_representation_parameter_string(&None));

    let empty = RepresentationParameters::try_new(Vec::new()).unwrap();
    let rendered_empty = DataModelUtilities::get_representation_parameter_string(&Some(empty));
    assert_eq!(Some("()".to_string()), rendered_empty);
}

#[test]
fn representation_ids_derive_from_period_and_parameters() {
    let plain = Representation {
        data_type: NexusDataType::FLOAT64,
        sample_period: SamplePeriod::from_nanos(1_000_000_000).unwrap(),
        parameters: None,
    };
    assert_eq!("1_s", plain.id());

    let with_parameters = Representation {
        data_type: NexusDataType::FLOAT64,
        sample_period: SamplePeriod::from_nanos(1_000_000_000).unwrap(),
        parameters: Some(
            RepresentationParameters::try_new(vec![("kind".to_string(), "mean".to_string())])
                .unwrap(),
        ),
    };
    assert_eq!("1_s(kind=mean)", with_parameters.id());
}

#[test]
fn element_sizes_follow_the_data_type() {
    let sizes: [(NexusDataType, i32); 10] = [
        (NexusDataType::UINT8, 1),
        (NexusDataType::INT8, 1),
        (NexusDataType::UINT16, 2),
        (NexusDataType::INT16, 2),
        (NexusDataType::UINT32, 4),
        (NexusDataType::INT32, 4),
        (NexusDataType::UINT64, 8),
        (NexusDataType::INT64, 8),
        (NexusDataType::FLOAT32, 4),
        (NexusDataType::FLOAT64, 8),
    ];
    for (data_type, expected) in sizes {
        let representation = Representation {
            data_type,
            sample_period: SamplePeriod::from_nanos(1).unwrap(),
            parameters: None,
        };
        assert_eq!(expected, representation.element_size());
    }
}
