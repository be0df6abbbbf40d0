//! Resource catalogs: top-level containers of resources, addressed by a
//! validated catalog identifier, with pairwise distinct resource identifiers
//! among their children.

use super::data_model_utilities::str_eq;
use super::identifiers::is_valid_catalog_id;
use super::identifiers::validate_catalog_id;
use super::properties::Properties;
use super::resource::Resource;
use crate::error::NexusError;
use vstd::prelude::*;

verus! {

/// A validated resource catalog identifier: one or more `/segment` groups.
#[derive(Debug)]
pub struct ResourceCatalogId(String);

impl View for ResourceCatalogId {
    type V = Seq<char>;

    closed spec fn view(&self) -> Seq<char> {
        self.0@
    }
}

impl ResourceCatalogId {
    /// Every value of this type satisfies the catalog identifier grammar.
    #[verifier::type_invariant]
    pub open spec fn valid(self) -> bool {
        is_valid_catalog_id(self.view())
    }

    /// Wraps an identifier string. Fails with `InvalidIdentifier` exactly
    /// when the string does not satisfy the catalog identifier grammar; the
    /// bare root `"/"` is not a catalog identifier.
    pub fn try_new(id: String) -> (r: Result<ResourceCatalogId, NexusError>)
        ensures
            r is Ok <==> is_valid_catalog_id(id@),
            r is Ok ==> r->Ok_0@ == id@,
            r is Err ==> r->Err_0 == NexusError::InvalidIdentifier,
    {
        if validate_catalog_id(id.as_str()) {
            Ok(ResourceCatalogId(id))
        } else {
            Err(NexusError::InvalidIdentifier)
        }
    }

    /// Reads the identifier back as a string.
    pub fn as_str(&self) -> (r: &str)
        ensures
            r@ == self@,
    {
        self.0.as_str()
    }
}

/// The identifiers of the resources are pairwise distinct.
pub open spec fn resource_ids_distinct(s: Seq<Resource>) -> bool {
    forall|i: int, j: int| 0 <= i < j < s.len() ==> s[i].id@ != s[j].id@
}

/// A list of resources whose identifiers are pairwise distinct within it.
#[derive(Debug)]
pub struct Resources {
    items: Vec<Resource>,
}

impl View for Resources {
    type V = Seq<Resource>;

    closed spec fn view(&self) -> Seq<Resource> {
        self.items@
    }
}

impl Resources {
    /// Every value of this type holds pairwise distinct resource identifiers.
    #[verifier::type_invariant]
    pub open spec fn wf(self) -> bool {
        resource_ids_distinct(self.view())
    }

    /// Decides whether the identifiers of the listed resources are pairwise
    /// distinct.
    pub fn validate_resources(resources: &Vec<Resource>) -> (b: bool)
        ensures
            b == resource_ids_distinct(resources@),
    {
        let n = resources.len();
        let mut i: usize = 0;
        while i < n
            invariant
                0 <= i <= n,
                n == resources@.len(),
                forall|p: int, q: int|
                    0 <= p < q < n && p < i ==> resources@[p].id@ != resources@[q].id@,
            decreases n - i,
        {
            let mut j: usize = i + 1;
            while j < n
                invariant
                    0 <= i < j <= n,
                    n == resources@.len(),
                    forall|q: int| i < q < j ==> resources@[i as int].id@ != resources@[q].id@,
                decreases n - j,
            {
                if str_eq(resources[i].id.as_str(), resources[j].id.as_str()) {
                    return false;
                }
                j += 1;
            }
            i += 1;
        }
        true
    }

    /// Wraps a resource list. Fails with `DuplicateIdentifier` exactly when
    /// two entries share a resource identifier.
    pub fn try_new(resources: Vec<Resource>) -> (r: Result<Resources, NexusError>)
        ensures
            r is Ok <==> resource_ids_distinct(resources@),
            r is Ok ==> r->Ok_0@ == resources@,
            r is Err ==> r->Err_0 == NexusError::DuplicateIdentifier,
    {
        if Resources::validate_resources(&resources) {
            Ok(Resources { items: resources })
        } else {
            Err(NexusError::DuplicateIdentifier)
        }
    }

    /// The number of resources.
    pub fn len(&self) -> (r: usize)
        ensures
            r == self@.len(),
    {
        self.items.len()
    }

    /// The resource at `index`, in the order supplied at construction.
    pub fn get(&self, index: usize) -> (r: &Resource)
        requires
            index < self@.len(),
        ensures
            *r == self@[index as int],
    {
        &self.items[index]
    }
}

/// A top-level container of resources.
#[derive(Debug)]
pub struct ResourceCatalog {
    /// The catalog identifier.
    pub id: ResourceCatalogId,
    /// The properties.
    pub properties: Option<Properties>,
    /// The list of resources.
    pub resources: Option<Resources>,
}

} // verus!
