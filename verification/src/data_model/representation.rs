//! Representations: one materialization of a resource's data at a specific
//! sampling interval, with optional processing parameters. The identifier of
//! a representation is derived: the canonical unit string of its sample
//! period, followed by the rendered parameter list when one is present.

use super::data_model_extensions::unit_string;
use super::data_model_extensions::DataModelExtensions;
use super::data_model_utilities::str_eq;
use super::data_model_types::element_size_of;
use super::data_model_types::NexusDataType;
use super::identifiers::is_valid_id;
use super::identifiers::validate_resource_id;
use super::shared::SamplePeriod;
use crate::error::NexusError;
use vstd::prelude::*;

verus! {

/// The key/value pairs of an entry sequence, as character sequences.
pub open spec fn pairs_of(entries: Seq<(String, String)>) -> Seq<(Seq<char>, Seq<char>)> {
    entries.map_values(|p: (String, String)| (p.0@, p.1@))
}

/// Every key satisfies the resource identifier grammar.
pub open spec fn param_keys_valid(ps: Seq<(Seq<char>, Seq<char>)>) -> bool {
    forall|i: int| 0 <= i < ps.len() ==> is_valid_id((#[trigger] ps[i]).0)
}

/// No two pairs share a key.
pub open spec fn param_keys_distinct(ps: Seq<(Seq<char>, Seq<char>)>) -> bool {
    forall|i: int, j: int| 0 <= i < j < ps.len() ==> ps[i].0 != ps[j].0
}

/// A legal parameter list: valid keys, no repeated key. Values are
/// unconstrained.
pub open spec fn params_wf(ps: Seq<(Seq<char>, Seq<char>)>) -> bool {
    param_keys_valid(ps) && param_keys_distinct(ps)
}

/// The pairs joined as `k1=v1,k2=v2,...`, in the order supplied.
pub open spec fn joined_pairs(ps: Seq<(Seq<char>, Seq<char>)>) -> Seq<char>
    decreases ps.len(),
{
    if ps.len() == 0 {
        Seq::empty()
    } else if ps.len() == 1 {
        ps[0].0 + seq!['='] + ps[0].1
    } else {
        joined_pairs(ps.drop_last()) + seq![','] + ps.last().0 + seq!['='] + ps.last().1
    }
}

/// The rendered parameter list: `(k1=v1,k2=v2,...)`.
pub open spec fn param_suffix(ps: Seq<(Seq<char>, Seq<char>)>) -> Seq<char> {
    seq!['('] + joined_pairs(ps) + seq![')']
}

fn check_param_keys_valid(entries: &Vec<(String, String)>) -> (b: bool)
    ensures
        b == param_keys_valid(pairs_of(entries@)),
{
    let n = entries.len();
    let mut i: usize = 0;
    while i < n
        invariant
            0 <= i <= n,
            n == entries@.len(),
            forall|j: int| 0 <= j < i ==> is_valid_id((#[trigger] pairs_of(entries@)[j]).0),
        decreases n - i,
    {
        if !validate_resource_id(entries[i].0.as_str()) {
            proof {
                assert(!is_valid_id((pairs_of(entries@)[i as int]).0));
            }
            return false;
        }
        i += 1;
    }
    true
}

fn check_param_keys_distinct(entries: &Vec<(String, String)>) -> (b: bool)
    ensures
        b == param_keys_distinct(pairs_of(entries@)),
{
    let n = entries.len();
    let mut i: usize = 0;
    while i < n
        invariant
            0 <= i <= n,
            n == entries@.len(),
            forall|p: int, q: int|
                0 <= p < q < n && p < i ==> pairs_of(entries@)[p].0 != pairs_of(entries@)[q].0,
        decreases n - i,
    {
        let mut j: usize = i + 1;
        while j < n
            invariant
                0 <= i < j <= n,
                n == entries@.len(),
                forall|q: int| i < q < j ==> pairs_of(entries@)[i as int].0 != pairs_of(entries@)[q].0,
            decreases n - j,
        {
            if str_eq(entries[i].0.as_str(), entries[j].0.as_str()) {
                proof {
                    assert((pairs_of(entries@)[i as int]).0 == (pairs_of(entries@)[j as int]).0);
                }
                return false;
            }
            j += 1;
        }
        i += 1;
    }
    true
}

/// An insertion-ordered list of representation parameters: keys in the
/// resource identifier grammar, each key at most once, free-form values.
#[derive(Debug)]
pub struct RepresentationParameters {
    entries: Vec<(String, String)>,
}

impl RepresentationParameters {
    /// The parameter pairs, in the order supplied.
    pub closed spec fn pairs(self) -> Seq<(Seq<char>, Seq<char>)> {
        pairs_of(self.entries@)
    }

    /// Every value of this type holds a legal parameter list.
    #[verifier::type_invariant]
    pub open spec fn wf(self) -> bool {
        params_wf(self.pairs())
    }

    /// Decides whether an entry list is a legal parameter list: every key in
    /// the resource identifier grammar and no key repeated.
    pub fn validate_parameters(parameters: &Vec<(String, String)>) -> (b: bool)
        ensures
            b == params_wf(pairs_of(parameters@)),
    {
        let valid = check_param_keys_valid(parameters);
        if !valid {
            return false;
        }
        check_param_keys_distinct(parameters)
    }

    /// Wraps an entry list. Fails with `InvalidParameterKey` when some key
    /// breaks the identifier grammar, and with `DuplicateIdentifier` when the
    /// keys are well-formed but one of them is repeated.
    pub fn try_new(parameters: Vec<(String, String)>) -> (r: Result<
        RepresentationParameters,
        NexusError,
    >)
        ensures
            r is Ok <==> params_wf(pairs_of(parameters@)),
            r is Ok ==> r->Ok_0.pairs() == pairs_of(parameters@),
            !param_keys_valid(pairs_of(parameters@)) ==> r == Err::<
                RepresentationParameters,
                NexusError,
            >(NexusError::InvalidParameterKey),
            param_keys_valid(pairs_of(parameters@)) && !param_keys_distinct(pairs_of(parameters@))
                ==> r == Err::<RepresentationParameters, NexusError>(
                NexusError::DuplicateIdentifier,
            ),
    {
        if !check_param_keys_valid(&parameters) {
            Err(NexusError::InvalidParameterKey)
        } else if !check_param_keys_distinct(&parameters) {
            Err(NexusError::DuplicateIdentifier)
        } else {
            Ok(RepresentationParameters { entries: parameters })
        }
    }

    /// The number of parameters.
    pub fn param_count(&self) -> (r: usize)
        ensures
            r == self.pairs().len(),
    {
        self.entries.len()
    }

    /// The key of the parameter at `index`.
    pub fn key_at(&self, index: usize) -> (r: &String)
        requires
            index < self.pairs().len(),
        ensures
            r@ == self.pairs()[index as int].0,
    {
        &self.entries[index].0
    }

    /// The value of the parameter at `index`.
    pub fn value_at(&self, index: usize) -> (r: &String)
        requires
            index < self.pairs().len(),
        ensures
            r@ == self.pairs()[index as int].1,
    {
        &self.entries[index].1
    }

    /// Renders the list as `(k1=v1,k2=v2,...)`, in the order supplied.
    pub fn to_parameter_string(&self) -> (r: String)
        ensures
            r@ == param_suffix(self.pairs()),
    {
        let n = self.entries.len();
        let mut s = lit_string("(");
        let ghost ps = self.pairs();
        proof {
            reveal_strlit("(");
            assert(s@ =~= seq!['('] + joined_pairs(ps.take(0)));
        }
        let mut i: usize = 0;
        while i < n
            invariant
                0 <= i <= n,
                n == self.entries@.len(),
                ps == self.pairs(),
                s@ == seq!['('] + joined_pairs(ps.take(i as int)),
            decreases n - i,
        {
            if i > 0 {
                s.append(",");
            }
            s.append(self.entries[i].0.as_str());
            s.append("=");
            s.append(self.entries[i].1.as_str());
            proof {
                reveal_strlit(",");
                reveal_strlit("=");
                assert(ps.take(i + 1 as int).drop_last() =~= ps.take(i as int));
                assert(ps.take(i + 1 as int).last() == ps[i as int]);
                assert(ps[i as int].0 == self.entries@[i as int].0@);
                assert(ps[i as int].1 == self.entries@[i as int].1@);
                assert(s@ =~= seq!['('] + joined_pairs(ps.take(i + 1 as int)));
            }
            i += 1;
        }
        s.append(")");
        proof {
            reveal_strlit(")");
            assert(ps.take(n as int) =~= ps);
            assert(s@ =~= param_suffix(self.pairs()));
        }
        s
    }
}

fn lit_string(lit: &str) -> (r: String)
    ensures
        r@ == lit@,
{
    lit.to_owned()
}

/// One materialization of a resource's data: a numeric data type, a sample
/// period, and optional processing parameters.
#[derive(Debug)]
pub struct Representation {
    /// The data type.
    pub data_type: NexusDataType,
    /// The sample period.
    pub sample_period: SamplePeriod,
    /// The optional list of parameters.
    pub parameters: Option<RepresentationParameters>,
}

impl Representation {
    /// The derived identifier: the canonical unit string of the sample
    /// period, followed by the rendered parameter list when one is present.
    pub open spec fn spec_id(self) -> Seq<char> {
        unit_string(self.sample_period.nanos() as nat) + match self.parameters {
            Option::None => Seq::<char>::empty(),
            Option::Some(p) => param_suffix(p.pairs()),
        }
    }

    /// The identifier of the representation, derived from its sample period
    /// and parameters.
    pub fn id(&self) -> (r: String)
        ensures
            r@ == self.spec_id(),
    {
        let mut s = DataModelExtensions::to_unit_string(&self.sample_period);
        match &self.parameters {
            Option::None => {
                proof {
                    assert(s@ =~= self.spec_id());
                }
                s
            },
            Option::Some(p) => {
                let suffix = p.to_parameter_string();
                s.append(suffix.as_str());
                proof {
                    assert(s@ =~= self.spec_id());
                }
                s
            },
        }
    }

    /// The width in bytes of one element of this representation.
    pub fn element_size(&self) -> (r: i32)
        ensures
            r == element_size_of(self.data_type),
    {
        match self.data_type {
            NexusDataType::UINT8 => 1,
            NexusDataType::INT8 => 1,
            NexusDataType::UINT16 => 2,
            NexusDataType::INT16 => 2,
            NexusDataType::UINT32 => 4,
            NexusDataType::INT32 => 4,
            NexusDataType::UINT64 => 8,
            NexusDataType::INT64 => 8,
            NexusDataType::FLOAT32 => 4,
            NexusDataType::FLOAT64 => 8,
        }
    }
}

} // verus!
