//! Small helpers over the data model: exact string comparison and the
//! rendering of representation parameter lists.

use super::representation::param_suffix;
use super::representation::RepresentationParameters;
use vstd::prelude::*;

verus! {

/// Helper methods over the data model types.
pub struct DataModelUtilities;

impl DataModelUtilities {
    /// Renders an optional parameter list as `(k1=v1,k2=v2,...)`, in the
    /// order supplied; `None` stays `None`.
    pub fn get_representation_parameter_string(
        parameters: &Option<RepresentationParameters>,
    ) -> (r: Option<String>)
        ensures
            match parameters {
                Option::None => r is None,
                Option::Some(p) => r is Some && r->0@ == param_suffix(p.pairs()),
            },
    {
        match parameters {
            Option::Some(value) => Some(value.to_parameter_string()),
            Option::None => None,
        }
    }
}

/// Compares two strings character by character.
pub fn str_eq(a: &str, b: &str) -> (r: bool)
    ensures
        r == (a@ == b@),
{
    let n = a.unicode_len();
    let m = b.unicode_len();
    if n != m {
        return false;
    }
    let mut i: usize = 0;
    while i < n
        invariant
            0 <= i <= n,
            n == a@.len(),
            n == b@.len(),
            forall|j: int| 0 <= j < i ==> a@[j] == b@[j],
        decreases n - i,
    {
        if a.get_char(i) != b.get_char(i) {
            return false;
        }
        i += 1;
    }
    proof {
        assert(a@ =~= b@);
    }
    true
}

} // verus!
