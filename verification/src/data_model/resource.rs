//! Resources: named data streams within a catalog, each holding a list of
//! representations whose derived identifiers must be pairwise distinct.

use super::data_model_utilities::str_eq;
use super::identifiers::is_valid_id;
use super::identifiers::validate_resource_id;
use super::properties::Properties;
use super::representation::Representation;
use crate::error::NexusError;
use vstd::prelude::*;

verus! {

/// A validated resource identifier.
#[derive(Debug)]
pub struct ResourceId(String);

impl View for ResourceId {
    type V = Seq<char>;

    closed spec fn view(&self) -> Seq<char> {
        self.0@
    }
}

impl ResourceId {
    /// Every value of this type satisfies the resource identifier grammar.
    #[verifier::type_invariant]
    pub open spec fn valid(self) -> bool {
        is_valid_id(self.view())
    }

    /// Wraps an identifier string. Fails with `InvalidIdentifier` exactly
    /// when the string does not satisfy the resource identifier grammar.
    pub fn try_new(id: String) -> (r: Result<ResourceId, NexusError>)
        ensures
            r is Ok <==> is_valid_id(id@),
            r is Ok ==> r->Ok_0@ == id@,
            r is Err ==> r->Err_0 == NexusError::InvalidIdentifier,
    {
        if validate_resource_id(id.as_str()) {
            Ok(ResourceId(id))
        } else {
            Err(NexusError::InvalidIdentifier)
        }
    }

    /// Reads the identifier back as a string.
    pub fn as_str(&self) -> (r: &str)
        ensures
            r@ == self@,
    {
        self.0.as_str()
    }
}

/// The derived identifiers of the representations are pairwise distinct.
pub open spec fn rep_ids_distinct(s: Seq<Representation>) -> bool {
    forall|i: int, j: int| 0 <= i < j < s.len() ==> s[i].spec_id() != s[j].spec_id()
}

/// A list of representations whose derived identifiers are pairwise
/// distinct within it.
#[derive(Debug)]
pub struct Representations {
    items: Vec<Representation>,
}

impl View for Representations {
    type V = Seq<Representation>;

    closed spec fn view(&self) -> Seq<Representation> {
        self.items@
    }
}

impl Representations {
    /// Every value of this type holds pairwise distinct derived identifiers.
    #[verifier::type_invariant]
    pub open spec fn wf(self) -> bool {
        rep_ids_distinct(self.view())
    }

    /// Decides whether the derived identifiers of the listed representations
    /// are pairwise distinct.
    pub fn validate_representations(representations: &Vec<Representation>) -> (b: bool)
        ensures
            b == rep_ids_distinct(representations@),
    {
        let n = representations.len();
        let mut i: usize = 0;
        while i < n
            invariant
                0 <= i <= n,
                n == representations@.len(),
                forall|p: int, q: int|
                    0 <= p < q < n && p < i ==> representations@[p].spec_id()
                        != representations@[q].spec_id(),
            decreases n - i,
        {
            let id_i = representations[i].id();
            let mut j: usize = i + 1;
            while j < n
                invariant
                    0 <= i < j <= n,
                    n == representations@.len(),
                    id_i@ == representations@[i as int].spec_id(),
                    forall|q: int|
                        i < q < j ==> representations@[i as int].spec_id()
                            != representations@[q].spec_id(),
                decreases n - j,
            {
                let id_j = representations[j].id();
                if str_eq(id_i.as_str(), id_j.as_str()) {
                    return false;
                }
                j += 1;
            }
            i += 1;
        }
        true
    }

    /// Wraps a representation list. Fails with `DuplicateIdentifier` exactly
    /// when two entries collapse to the same derived identifier.
    pub fn try_new(representations: Vec<Representation>) -> (r: Result<Representations, NexusError>)
        ensures
            r is Ok <==> rep_ids_distinct(representations@),
            r is Ok ==> r->Ok_0@ == representations@,
            r is Err ==> r->Err_0 == NexusError::DuplicateIdentifier,
    {
        if Representations::validate_representations(&representations) {
            Ok(Representations { items: representations })
        } else {
            Err(NexusError::DuplicateIdentifier)
        }
    }

    /// The number of representations.
    pub fn len(&self) -> (r: usize)
        ensures
            r == self@.len(),
    {
        self.items.len()
    }

    /// The representation at `index`, in the order supplied at construction.
    pub fn get(&self, index: usize) -> (r: &Representation)
        requires
            index < self@.len(),
        ensures
            *r == self@[index as int],
    {
        &self.items[index]
    }
}

/// A named data stream within a catalog.
#[derive(Debug)]
pub struct Resource {
    /// The resource identifier.
    pub id: ResourceId,
    /// The properties.
    pub properties: Option<Properties>,
    /// The list of representations.
    pub representations: Option<Representations>,
}

} // verus!
