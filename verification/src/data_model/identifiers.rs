//! The identifier grammars: resource identifiers and catalog identifiers.
//!
//! A resource identifier begins with an ASCII letter or an underscore and
//! continues with ASCII letters, digits or underscores. A catalog identifier
//! is one or more `/`-prefixed segments, each a resource-identifier shape.

use vstd::prelude::*;

verus! {

/// A character that may begin an identifier: an ASCII letter or `_`.
pub open spec fn is_id_start_char(c: char) -> bool {
    ('a' <= c && c <= 'z') || ('A' <= c && c <= 'Z') || c == '_'
}

/// A character that may continue an identifier: an ASCII letter, digit or `_`.
pub open spec fn is_id_char(c: char) -> bool {
    is_id_start_char(c) || ('0' <= c && c <= '9')
}

/// The resource identifier grammar: non-empty, a start character first,
/// identifier characters everywhere after it.
pub open spec fn is_valid_id(s: Seq<char>) -> bool {
    &&& s.len() > 0
    &&& is_id_start_char(s[0])
    &&& forall|i: int| 1 <= i < s.len() ==> is_id_char(#[trigger] s[i])
}

/// The catalog identifier grammar: one or more groups of `/` followed by a
/// resource-identifier-shaped segment, with no empty segment and no trailing
/// slash.
pub open spec fn is_valid_catalog_id(s: Seq<char>) -> bool {
    &&& s.len() >= 2
    &&& s[0] == '/'
    &&& s[s.len() - 1] != '/'
    &&& forall|i: int| 0 <= i < s.len() ==> s[i] == '/' || is_id_char(#[trigger] s[i])
    &&& forall|i: int| 1 <= i < s.len() && s[i - 1] == '/' ==> is_id_start_char(#[trigger] s[i])
}

fn check_id_start_char(c: char) -> (b: bool)
    ensures
        b == is_id_start_char(c),
{
    ('a' <= c && c <= 'z') || ('A' <= c && c <= 'Z') || c == '_'
}

fn check_id_char(c: char) -> (b: bool)
    ensures
        b == is_id_char(c),
{
    check_id_start_char(c) || ('0' <= c && c <= '9')
}

/// Decides whether `s` is a legal resource identifier.
pub fn validate_resource_id(s: &str) -> (b: bool)
    ensures
        b == is_valid_id(s@),
{
    let n = s.unicode_len();
    if n == 0 {
        return false;
    }
    if !check_id_start_char(s.get_char(0)) {
        return false;
    }
    let mut i: usize = 1;
    while i < n
        invariant
            1 <= i <= n,
            n == s@.len(),
            forall|j: int| 1 <= j < i ==> is_id_char(#[trigger] s@[j]),
        decreases n - i,
    {
        if !check_id_char(s.get_char(i)) {
            return false;
        }
        i += 1;
    }
    true
}

/// Decides whether `s` is a legal catalog identifier. The root `"/"` is not
/// one: a catalog identifier always names at least one segment.
pub fn validate_catalog_id(s: &str) -> (b: bool)
    ensures
        b == is_valid_catalog_id(s@),
{
    let n = s.unicode_len();
    if n < 2 {
        return false;
    }
    if s.get_char(0) != '/' {
        return false;
    }
    if s.get_char(n - 1) == '/' {
        return false;
    }
    let mut i: usize = 1;
    while i < n
        invariant
            1 <= i <= n,
            n == s@.len(),
            s@[0] == '/',
            forall|j: int| 0 <= j < i ==> s@[j] == '/' || is_id_char(#[trigger] s@[j]),
            forall|j: int| 1 <= j < i && s@[j - 1] == '/' ==> is_id_start_char(#[trigger] s@[j]),
        decreases n - i,
    {
        let c = s.get_char(i);
        let prev = s.get_char(i - 1);
        if prev == '/' {
            if !check_id_start_char(c) {
                return false;
            }
        } else {
            if c != '/' && !check_id_char(c) {
                return false;
            }
        }
        i += 1;
    }
    true
}

} // verus!
