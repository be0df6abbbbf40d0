//! Shared data model types: the numeric data type enumeration, catalog paths
//! and catalog registrations.

use super::identifiers::is_valid_catalog_id;
use super::identifiers::validate_catalog_id;
use super::properties::Properties;
use super::representation::Representation;
use super::resource::Resource;
use super::resource_catalog::ResourceCatalog;
use crate::error::NexusError;
use vstd::prelude::*;

verus! {

/// The numeric data types a representation can carry.
#[derive(Clone, Copy, Debug, PartialEq, Eq, Structural)]
pub enum NexusDataType {
    /// Unsigned 8-bit integer.
    UINT8,
    /// Signed 8-bit integer.
    INT8,
    /// Unsigned 16-bit integer.
    UINT16,
    /// Signed 16-bit integer.
    INT16,
    /// Unsigned 32-bit integer.
    UINT32,
    /// Signed 32-bit integer.
    INT32,
    /// Unsigned 64-bit integer.
    UINT64,
    /// Signed 64-bit integer.
    INT64,
    /// 32-bit floating-point number.
    FLOAT32,
    /// 64-bit floating-point number.
    FLOAT64,
}

/// The wire tag of a data type: the low byte holds the width in bits, the
/// high nibble tells integers, signed integers and floats apart.
pub open spec fn data_type_code(t: NexusDataType) -> u16 {
    match t {
        NexusDataType::UINT8 => 0x108,
        NexusDataType::INT8 => 0x208,
        NexusDataType::UINT16 => 0x110,
        NexusDataType::INT16 => 0x210,
        NexusDataType::UINT32 => 0x120,
        NexusDataType::INT32 => 0x220,
        NexusDataType::UINT64 => 0x140,
        NexusDataType::INT64 => 0x240,
        NexusDataType::FLOAT32 => 0x320,
        NexusDataType::FLOAT64 => 0x340,
    }
}

/// The width in bytes of one element of data type `t`.
pub open spec fn element_size_of(t: NexusDataType) -> int {
    match t {
        NexusDataType::UINT8 => 1,
        NexusDataType::INT8 => 1,
        NexusDataType::UINT16 => 2,
        NexusDataType::INT16 => 2,
        NexusDataType::UINT32 => 4,
        NexusDataType::INT32 => 4,
        NexusDataType::UINT64 => 8,
        NexusDataType::INT64 => 8,
        NexusDataType::FLOAT32 => 4,
        NexusDataType::FLOAT64 => 8,
    }
}

/// The element width is exactly what the wire tag embeds: the tag's low byte
/// shifted down by three turns a width in bits into a width in bytes.
pub proof fn lemma_element_size_matches_code(t: NexusDataType)
    ensures
        element_size_of(t) == (data_type_code(t) & 0xFF) >> 3,
{
    assert((0x108u16 & 0xFF) >> 3 == 1) by (bit_vector);
    assert((0x208u16 & 0xFF) >> 3 == 1) by (bit_vector);
    assert((0x110u16 & 0xFF) >> 3 == 2) by (bit_vector);
    assert((0x210u16 & 0xFF) >> 3 == 2) by (bit_vector);
    assert((0x120u16 & 0xFF) >> 3 == 4) by (bit_vector);
    assert((0x220u16 & 0xFF) >> 3 == 4) by (bit_vector);
    assert((0x140u16 & 0xFF) >> 3 == 8) by (bit_vector);
    assert((0x240u16 & 0xFF) >> 3 == 8) by (bit_vector);
    assert((0x320u16 & 0xFF) >> 3 == 4) by (bit_vector);
    assert((0x340u16 & 0xFF) >> 3 == 8) by (bit_vector);
}

/// The path grammar: the root `"/"`, or anything that is a catalog
/// identifier once a missing leading slash has been supplied.
pub open spec fn is_valid_path(s: Seq<char>) -> bool {
    (s.len() == 1 && s[0] == '/') || is_valid_catalog_id(normalized_path(s))
}

/// The path with a leading slash supplied when it is missing.
pub open spec fn normalized_path(s: Seq<char>) -> Seq<char> {
    if s.len() > 0 && s[0] == '/' {
        s
    } else {
        seq!['/'] + s
    }
}

/// An absolute or relative catalog path. The root `"/"` is a valid path;
/// any other value must, after a leading `/` is supplied if absent, consist
/// of one or more `/segment` groups.
#[derive(Debug)]
pub struct CatalogPath(String);

impl View for CatalogPath {
    type V = Seq<char>;

    closed spec fn view(&self) -> Seq<char> {
        self.0@
    }
}

impl CatalogPath {
    /// Every value of this type satisfies the path grammar.
    #[verifier::type_invariant]
    pub open spec fn valid(self) -> bool {
        is_valid_path(self.view())
    }

    /// Wraps a path string. Fails with `InvalidIdentifier` exactly when the
    /// string does not satisfy the path grammar; the string is stored as
    /// supplied, without normalization.
    pub fn new(path: String) -> (r: Result<CatalogPath, NexusError>)
        ensures
            r is Ok <==> is_valid_path(path@),
            r is Ok ==> r->Ok_0@ == path@,
            r is Err ==> r->Err_0 == NexusError::InvalidIdentifier,
    {
        if CatalogPath::is_valid_path(path.as_str()) {
            Ok(CatalogPath(path))
        } else {
            Err(NexusError::InvalidIdentifier)
        }
    }

    /// Decides the path grammar, normalizing a missing leading slash first.
    pub fn is_valid_path(path: &str) -> (b: bool)
        ensures
            b == is_valid_path(path@),
    {
        let n = path.unicode_len();
        if n == 1 && path.get_char(0) == '/' {
            return true;
        }
        if n > 0 && path.get_char(0) == '/' {
            proof {
                assert(normalized_path(path@) == path@);
            }
            validate_catalog_id(path)
        } else {
            let mut prefixed = slash_string();
            prefixed.append(path);
            proof {
                assert(prefixed@ == normalized_path(path@));
            }
            validate_catalog_id(prefixed.as_str())
        }
    }

    /// Reads the path back as a string.
    pub fn as_str(&self) -> (r: &str)
        ensures
            r@ == self@,
    {
        self.0.as_str()
    }
}

fn slash_string() -> (r: String)
    ensures
        r@ =~= seq!['/'],
{
    let r = "/".to_owned();
    proof {
        reveal_strlit("/");
        assert(r@ =~= seq!['/']);
    }
    r
}

/// Describes where a catalog attaches in the global hierarchy.
#[derive(Debug)]
pub struct CatalogRegistration {
    /// The absolute or relative path of the catalog.
    pub path: CatalogPath,
    /// An optional title.
    pub title: Option<String>,
    /// Whether the catalog and its children are reloaded on each request.
    pub is_transient: bool,
    /// An optional link target (another absolute catalog path) which makes
    /// this catalog a softlink.
    pub link_target: Option<String>,
}

/// A fully addressable data stream: a catalog, a resource within it and a
/// representation of that resource, plus optional parameter overrides.
#[derive(Debug)]
pub struct CatalogItem {
    /// The catalog.
    pub catalog: ResourceCatalog,
    /// The resource.
    pub resource: Resource,
    /// The representation.
    pub representation: Representation,
    /// The optional representation parameter overrides.
    pub parameters: Option<Properties>,
}

} // verus!
