use nexus_extensibility::data_model::NexusDataType;
use nexus_extensibility::data_model::Representation;
use nexus_extensibility::data_model::RepresentationParameters;
use nexus_extensibility::data_model::ResourceBuilder;
use nexus_extensibility::data_model::ResourceCatalogBuilder;
use nexus_extensibility::data_model::ResourceCatalogId;
use nexus_extensibility::data_model::ResourceId;
use nexus_extensibility::data_model::SamplePeriod;
use nexus_extensibility::error::NexusError;

fn one_second_representation() -> Representation {
    Representation {
        data_type: NexusDataType::FLOAT64,
        sample_period: SamplePeriod::from_nanos(1_000_000_000).unwrap(),
        parameters: None,
    }
}

#[test]
fn duplicate_representation_ids_fail_the_resource_build() {
    let id = ResourceId::try_new("temperature".to_string()).unwrap();
    let result = ResourceBuilder::new(id)
        .add_representation(one_second_representation())
        .add_representation(one_second_representation())
        .build();
    assert_eq!(NexusError::DuplicateIdentifier, result.unwrap_err());
}

#[test]
fn representations_differing_only_by_parameters_build() {
    let id = ResourceId::try_new("temperature".to_string()).unwrap();
    let averaged = Representation {
        data_type: NexusDataType::FLOAT64,
        sample_period: SamplePeriod::from_nanos(1_000_000_000).unwrap(),
        parameters: Some(
            RepresentationParameters::try_new(vec![("kind".to_string(), "mean".to_string())])
                .unwrap(),
        ),
    };
    let resource = ResourceBuilder::new(id)
        .add_representation(one_second_representation())
        .add_representation(averaged)
        .build()
        .unwrap();
    assert_eq!(2, resource.representations.unwrap().len());
}

#[test]
fn duplicate_resource_ids_fail_the_catalog_build() {
    let catalog_id = ResourceCatalogId::try_new("/sensors".to_string()).unwrap();
    let first = ResourceBuilder::new(ResourceId::try_new("t1".to_string()).unwrap())
        .build()
        .unwrap();
    let second = ResourceBuilder::new(ResourceId::try_new("t1".to_string()).unwrap())
        .build()
        .unwrap();
    let result = ResourceCatalogBuilder::new(catalog_id)
        .add_resource(first)
        .add_resource(second)
        .build();
    assert_eq!(NexusError::DuplicateIdentifier, result.unwrap_err());
}

#[test]
fn distinct_resource_ids_build() {
    let catalog_id = ResourceCatalogId::try_new("/sensors".to_string()).unwrap();
    let first = ResourceBuilder::new(ResourceId::try_new("t1".to_string()).unwrap())
        .build()
        .unwrap();
    let second = ResourceBuilder::new(ResourceId::try_new("t2".to_string()).unwrap())
        .build()
        .unwrap();
    let catalog = ResourceCatalogBuilder::new(catalog_id)
        .add_resource(first)
        .add_resources(vec![second])
        .build()
        .unwrap();
    let resources = catalog.resources.unwrap();
    assert_eq!(2, resources.len());
    assert_eq!("t1", resources.get(0).id.as_str());
    assert_eq!("t2", resources.get(1).id.as_str());
}

#[test]
fn builder_properties_are_last_write_wins() {
    let id = ResourceId::try_new("temperature".to_string()).unwrap();
    let resource = ResourceBuilder::new(id)
        .with_property("site".to_string(), "north".to_string())
        .with_property("site".to_string(), "south".to_string())
        .with_unit("celsius".to_string())
        .with_description("outdoor temperature".to_string())
        .with_warning("uncalibrated".to_string())
        .with_groups(vec!["weather".to_string(), "raw".to_string()])
        .build()
        .unwrap();
    let properties = resource.properties.unwrap();
    assert_eq!(Some(&"south".to_string()), properties.get("site"));
    assert_eq!(Some(&"celsius".to_string()), properties.get("unit"));
    assert_eq!(Some(&"outdoor temperature".to_string()), properties.get("description"));
    assert_eq!(Some(&"uncalibrated".to_string()), properties.get("warning"));
    assert_eq!(Some(&"weather,raw".to_string()), properties.get("groups"));
    assert_eq!(None, properties.get("absent"));
    assert_eq!(5, properties.len());
}

#[test]
fn catalog_builder_sets_readme_and_license() {
    let catalog_id = ResourceCatalogId::try_new("/sensors".to_string()).unwrap();
    let catalog = ResourceCatalogBuilder::new(catalog_id)
        .with_readme("hello".to_string())
        .with_license("MIT".to_string())
        .with_property("owner".to_string(), "lab".to_string())
        .build()
        .unwrap();
    let properties = catalog.properties.unwrap();
    assert_eq!(Some(&"hello".to_string()), properties.get("readme"));
    assert_eq!(Some(&"MIT".to_string()), properties.get("license"));
    assert_eq!(Some(&"lab".to_string()), properties.get("owner"));
}
