//! The resource builder: accumulates properties and representations and
//! validates the derived-identifier uniqueness of the representations
//! exactly once, at `build`.

use super::properties::Properties;
use super::representation::Representation;
use super::resource::rep_ids_distinct;
use super::resource::Representations;
use super::resource::Resource;
use super::resource::ResourceId;
use crate::error::NexusError;
use vstd::prelude::*;

verus! {

/// The map held by an optional property set; empty for `None`.
pub open spec fn props_map(properties: Option<Properties>) -> Map<Seq<char>, Seq<char>> {
    match properties {
        Option::None => Map::empty(),
        Option::Some(p) => p@,
    }
}

/// The list held by an optional vector; empty for `None`.
pub open spec fn opt_list<T>(items: Option<Vec<T>>) -> Seq<T> {
    match items {
        Option::None => Seq::empty(),
        Option::Some(v) => v@,
    }
}

/// The parts joined with `,` between them, in order.
pub open spec fn join_comma(parts: Seq<Seq<char>>) -> Seq<char>
    decreases parts.len(),
{
    if parts.len() == 0 {
        Seq::empty()
    } else if parts.len() == 1 {
        parts[0]
    } else {
        join_comma(parts.drop_last()) + seq![','] + parts.last()
    }
}

/// Joins the strings with `,` between them.
fn join_comma_exec(parts: &Vec<String>) -> (r: String)
    ensures
        r@ == join_comma(parts@.map_values(|p: String| p@)),
{
    let ghost views = parts@.map_values(|p: String| p@);
    let n = parts.len();
    let mut s = String::new();
    let mut i: usize = 0;
    while i < n
        invariant
            0 <= i <= n,
            n == parts@.len(),
            views == parts@.map_values(|p: String| p@),
            s@ == join_comma(views.take(i as int)),
        decreases n - i,
    {
        if i > 0 {
            s.append(",");
        }
        s.append(parts[i].as_str());
        proof {
            reveal_strlit(",");
            assert(views.take(i + 1 as int).drop_last() =~= views.take(i as int));
            assert(views.take(i + 1 as int).last() == views[i as int]);
            assert(s@ =~= join_comma(views.take(i + 1 as int)));
        }
        i += 1;
    }
    proof {
        assert(views.take(n as int) =~= views);
    }
    s
}

/// Accumulates the parts of a resource; `build` validates them.
#[derive(Debug)]
pub struct ResourceBuilder {
    /// The resource identifier, validated at its own construction.
    pub id: ResourceId,
    /// The properties collected so far.
    pub properties: Option<Properties>,
    /// The representations collected so far, not yet checked for duplicates.
    pub representations: Option<Vec<Representation>>,
}

impl ResourceBuilder {
    /// Starts a builder for the resource named `id`.
    pub fn new(id: ResourceId) -> (r: ResourceBuilder)
        ensures
            r.id == id,
            r.properties is None,
            r.representations is None,
    {
        ResourceBuilder { id, properties: None, representations: None }
    }

    /// Adds a property; a later value under the same key wins.
    pub fn with_property(self, key: String, value: String) -> (r: Self)
        ensures
            r.id == self.id,
            r.representations == self.representations,
            r.properties is Some,
            r.properties->0@ == props_map(self.properties).insert(key@, value@),
    {
        let mut properties = match self.properties {
            Option::Some(p) => p,
            Option::None => Properties::new(),
        };
        properties.set(key, value);
        ResourceBuilder {
            id: self.id,
            properties: Some(properties),
            representations: self.representations,
        }
    }

    /// Adds a unit, under the fixed property key `unit`.
    pub fn with_unit(self, unit: String) -> (r: Self)
        ensures
            r.id == self.id,
            r.representations == self.representations,
            r.properties is Some,
            r.properties->0@ == props_map(self.properties).insert("unit"@, unit@),
    {
        self.with_property("unit".to_owned(), unit)
    }

    /// Adds a description, under the fixed property key `description`.
    pub fn with_description(self, description: String) -> (r: Self)
        ensures
            r.id == self.id,
            r.representations == self.representations,
            r.properties is Some,
            r.properties->0@ == props_map(self.properties).insert("description"@, description@),
    {
        self.with_property("description".to_owned(), description)
    }

    /// Adds a warning, under the fixed property key `warning`.
    pub fn with_warning(self, warning: String) -> (r: Self)
        ensures
            r.id == self.id,
            r.representations == self.representations,
            r.properties is Some,
            r.properties->0@ == props_map(self.properties).insert("warning"@, warning@),
    {
        self.with_property("warning".to_owned(), warning)
    }

    /// Adds groups, joined with `,` under the fixed property key `groups`.
    pub fn with_groups(self, groups: Vec<String>) -> (r: Self)
        ensures
            r.id == self.id,
            r.representations == self.representations,
            r.properties is Some,
            r.properties->0@ == props_map(self.properties).insert(
                "groups"@,
                join_comma(groups@.map_values(|p: String| p@)),
            ),
    {
        let groups_value = join_comma_exec(&groups);
        self.with_property("groups".to_owned(), groups_value)
    }

    /// Adds one representation.
    pub fn add_representation(self, representation: Representation) -> (r: Self)
        ensures
            r.id == self.id,
            r.properties == self.properties,
            r.representations is Some,
            r.representations->0@ == opt_list(self.representations).push(representation),
    {
        let mut items = match self.representations {
            Option::Some(v) => v,
            Option::None => Vec::new(),
        };
        items.push(representation);
        ResourceBuilder { id: self.id, properties: self.properties, representations: Some(items) }
    }

    /// Adds a list of representations, keeping their order.
    pub fn add_representations(self, representations: Vec<Representation>) -> (r: Self)
        ensures
            r.id == self.id,
            r.properties == self.properties,
            r.representations is Some,
            r.representations->0@ == opt_list(self.representations) + representations@,
    {
        let mut items = match self.representations {
            Option::Some(v) => v,
            Option::None => Vec::new(),
        };
        let mut incoming = representations;
        items.append(&mut incoming);
        ResourceBuilder { id: self.id, properties: self.properties, representations: Some(items) }
    }

    /// Builds the resource. Fails with `DuplicateIdentifier` exactly when two
    /// collected representations collapse to the same derived identifier;
    /// otherwise the resource carries the identifier, properties and
    /// representations as collected.
    pub fn build(self) -> (r: Result<Resource, NexusError>)
        ensures
            r is Ok <==> (self.representations is Some ==> rep_ids_distinct(
                self.representations->0@,
            )),
            r is Err ==> r->Err_0 == NexusError::DuplicateIdentifier,
            r is Ok ==> r->Ok_0.id == self.id,
            r is Ok ==> r->Ok_0.properties == self.properties,
            r is Ok ==> match self.representations {
                Option::None => r->Ok_0.representations is None,
                Option::Some(v) => r->Ok_0.representations is Some
                    && r->Ok_0.representations->0@ == v@,
            },
    {
        match self.representations {
            Option::None => Ok(
                Resource { id: self.id, properties: self.properties, representations: None },
            ),
            Option::Some(v) => match Representations::try_new(v) {
                Ok(reps) => Ok(
                    Resource {
                        id: self.id,
                        properties: self.properties,
                        representations: Some(reps),
                    },
                ),
                Err(e) => Err(e),
            },
        }
    }
}

} // verus!
