//! The resource catalog builder: accumulates properties and resources and
//! validates the resource identifier uniqueness exactly once, at `build`.

use super::properties::Properties;
use super::resource::Resource;
use super::resource_builder::opt_list;
use super::resource_builder::props_map;
use super::resource_catalog::resource_ids_distinct;
use super::resource_catalog::ResourceCatalog;
use super::resource_catalog::ResourceCatalogId;
use super::resource_catalog::Resources;
use crate::error::NexusError;
use vstd::prelude::*;

verus! {

/// Accumulates the parts of a resource catalog; `build` validates them.
#[derive(Debug)]
pub struct ResourceCatalogBuilder {
    /// The catalog identifier, validated at its own construction.
    pub id: ResourceCatalogId,
    /// The properties collected so far.
    pub properties: Option<Properties>,
    /// The resources collected so far, not yet checked for duplicates.
    pub resources: Option<Vec<Resource>>,
}

impl ResourceCatalogBuilder {
    /// Starts a builder for the catalog named `id`.
    pub fn new(id: ResourceCatalogId) -> (r: ResourceCatalogBuilder)
        ensures
            r.id == id,
            r.properties is None,
            r.resources is None,
    {
        ResourceCatalogBuilder { id, properties: None, resources: None }
    }

    /// Adds a property; a later value under the same key wins.
    pub fn with_property(self, key: String, value: String) -> (r: Self)
        ensures
            r.id == self.id,
            r.resources == self.resources,
            r.properties is Some,
            r.properties->0@ == props_map(self.properties).insert(key@, value@),
    {
        let mut properties = match self.properties {
            Option::Some(p) => p,
            Option::None => Properties::new(),
        };
        properties.set(key, value);
        ResourceCatalogBuilder {
            id: self.id,
            properties: Some(properties),
            resources: self.resources,
        }
    }

    /// Adds a readme, under the fixed property key `readme`.
    pub fn with_readme(self, readme: String) -> (r: Self)
        ensures
            r.id == self.id,
            r.resources == self.resources,
            r.properties is Some,
            r.properties->0@ == props_map(self.properties).insert("readme"@, readme@),
    {
        self.with_property("readme".to_owned(), readme)
    }

    /// Adds a license, under the fixed property key `license`.
    pub fn with_license(self, license: String) -> (r: Self)
        ensures
            r.id == self.id,
            r.resources == self.resources,
            r.properties is Some,
            r.properties->0@ == props_map(self.properties).insert("license"@, license@),
    {
        self.with_property("license".to_owned(), license)
    }

    /// Adds one resource.
    pub fn add_resource(self, resource: Resource) -> (r: Self)
        ensures
            r.id == self.id,
            r.properties == self.properties,
            r.resources is Some,
            r.resources->0@ == opt_list(self.resources).push(resource),
    {
        let mut items = match self.resources {
            Option::Some(v) => v,
            Option::None => Vec::new(),
        };
        items.push(resource);
        ResourceCatalogBuilder { id: self.id, properties: self.properties, resources: Some(items) }
    }

    /// Adds a list of resources, keeping their order.
    pub fn add_resources(self, resources: Vec<Resource>) -> (r: Self)
        ensures
            r.id == self.id,
            r.properties == self.properties,
            r.resources is Some,
            r.resources->0@ == opt_list(self.resources) + resources@,
    {
        let mut items = match self.resources {
            Option::Some(v) => v,
            Option::None => Vec::new(),
        };
        let mut incoming = resources;
        items.append(&mut incoming);
        ResourceCatalogBuilder { id: self.id, properties: self.properties, resources: Some(items) }
    }

    /// Builds the resource catalog. Fails with `DuplicateIdentifier` exactly
    /// when two collected resources share an identifier; otherwise the
    /// catalog carries the identifier, properties and resources as collected.
    pub fn build(self) -> (r: Result<ResourceCatalog, NexusError>)
        ensures
            r is Ok <==> (self.resources is Some ==> resource_ids_distinct(self.resources->0@)),
            r is Err ==> r->Err_0 == NexusError::DuplicateIdentifier,
            r is Ok ==> r->Ok_0.id == self.id,
            r is Ok ==> r->Ok_0.properties == self.properties,
            r is Ok ==> match self.resources {
                Option::None => r->Ok_0.resources is None,
                Option::Some(v) => r->Ok_0.resources is Some && r->Ok_0.resources->0@ == v@,
            },
    {
        match self.resources {
            Option::None => Ok(
                ResourceCatalog { id: self.id, properties: self.properties, resources: None },
            ),
            Option::Some(v) => match Resources::try_new(v) {
                Ok(resources) => Ok(
                    ResourceCatalog {
                        id: self.id,
                        properties: self.properties,
                        resources: Some(resources),
                    },
                ),
                Err(e) => Err(e),
            },
        }
    }
}

} // verus!
