//! Buffer sizing and filling for the read protocol. A read spans
//! `floor((end - begin) / sample period)` elements; the data buffer holds
//! that many elements of the representation's width, the status buffer one
//! byte per element, and both start zeroed, which marks every sample missing
//! until it is explicitly written and marked valid.

use crate::data_model::element_size_of;
use crate::data_model::Representation;
use crate::data_model::SamplePeriod;
use vstd::arithmetic::div_mod::lemma_div_pos_is_pos;
use vstd::arithmetic::mul::lemma_mul_inequality;
use vstd::prelude::*;

verus! {

/// The status byte that marks a sample valid: the ASCII digit one. Any
/// other byte in a status buffer marks the sample as missing.
pub const STATUS_VALID: u8 = 49;

fn zero_vec(n: usize) -> (r: Vec<u8>)
    ensures
        r@.len() == n,
        forall|i: int| 0 <= i < n ==> r@[i] == 0,
{
    let mut v: Vec<u8> = Vec::new();
    let mut i: usize = 0;
    while i < n
        invariant
            0 <= i <= n,
            v@.len() == i,
            forall|j: int| 0 <= j < i ==> v@[j] == 0,
        decreases n - i,
    {
        v.push(0);
        i += 1;
    }
    v
}

/// Helper methods around the read protocol's buffers.
pub struct ExtensibilityUtilities;

impl ExtensibilityUtilities {
    /// The number of whole sample periods between `begin` and `end`, both in
    /// nanoseconds since the Unix epoch.
    pub fn calculate_element_count(begin: i64, end: i64, sample_period: &SamplePeriod) -> (r: usize)
        requires
            begin <= end,
            end - begin <= i64::MAX,
            (end - begin) / (sample_period.nanos() as int) <= usize::MAX,
        ensures
            r == (end - begin) / (sample_period.nanos() as int),
    {
        let period = sample_period.as_nanos();
        let span = (end - begin) as u64;
        let count = span / period;
        count as usize
    }

    /// Creates the data and status buffers for a read of the given
    /// representation between `begin` and `end`: the data buffer holds one
    /// element of the representation's width per whole sample period in the
    /// range, the status buffer one byte per element, and both are zeroed,
    /// marking every sample missing.
    pub fn create_buffers(representation: &Representation, begin: i64, end: i64) -> (r: (
        Vec<u8>,
        Vec<u8>,
    ))
        requires
            begin <= end,
            end - begin <= i64::MAX,
            ((end - begin) / (representation.sample_period.nanos() as int)) * element_size_of(
                representation.data_type,
            ) <= usize::MAX,
        ensures
            r.0@.len() == ((end - begin) / (representation.sample_period.nanos() as int))
                * element_size_of(representation.data_type),
            r.1@.len() == (end - begin) / (representation.sample_period.nanos() as int),
            forall|i: int| 0 <= i < r.0@.len() ==> r.0@[i] == 0,
            forall|i: int| 0 <= i < r.1@.len() ==> r.1@[i] == 0,
    {
        proof {
            use_type_invariant(&representation.sample_period);
            let count = (end - begin) / (representation.sample_period.nanos() as int);
            lemma_div_pos_is_pos(end - begin, representation.sample_period.nanos() as int);
            let es = element_size_of(representation.data_type);
            lemma_mul_inequality(1, es, count);
            assert(1 * count == count) by (nonlinear_arith);
            assert(es * count == count * es) by (nonlinear_arith);
        }
        let element_count = ExtensibilityUtilities::calculate_element_count(
            begin,
            end,
            &representation.sample_period,
        );
        let element_size = representation.element_size();
        let data = zero_vec(element_count * (element_size as usize));
        let status = zero_vec(element_count);
        (data, status)
    }

    /// Writes the bytes of one element into the data buffer and marks its
    /// status byte valid; every other position of both buffers is untouched.
    pub fn write_sample(
        data: &mut Vec<u8>,
        status: &mut Vec<u8>,
        element_size: usize,
        index: usize,
        element: &Vec<u8>,
    )
        requires
            old(data)@.len() == old(status)@.len() * element_size,
            element@.len() == element_size,
            index < old(status)@.len(),
        ensures
            final(status)@ == old(status)@.update(index as int, STATUS_VALID),
            final(data)@.len() == old(data)@.len(),
            forall|k: int|
                0 <= k < element_size ==> final(data)@[index * element_size + k] == element@[k],
            forall|k: int|
                0 <= k < old(data)@.len() && !(index * element_size <= k < index * element_size
                    + element_size) ==> final(data)@[k] == old(data)@[k],
    {
        let data_len = data.len();
        proof {
            let es = element_size as int;
            lemma_mul_inequality(index as int + 1, old(status)@.len() as int, es);
            assert((index as int + 1) * es == index as int * es + es) by (nonlinear_arith);
            assert(index as int * es >= 0) by (nonlinear_arith)
                requires
                    index as int >= 0,
                    es >= 0,
            ;
        }
        let base = index * element_size;
        let mut j: usize = 0;
        while j < element_size
            invariant
                0 <= j <= element_size,
                base == index * element_size,
                base + element_size <= data@.len(),
                data@.len() == data_len,
                element@.len() == element_size,
                data@.len() == old(data)@.len(),
                status@ == old(status)@,
                forall|k: int| 0 <= k < j ==> data@[base + k] == element@[k],
                forall|k: int|
                    0 <= k < old(data)@.len() && !(base <= k < base + j) ==> data@[k] == old(
                        data,
                    )@[k],
            decreases element_size - j,
        {
            data.set(base + j, element[j]);
            j += 1;
        }
        status.set(index, STATUS_VALID);
    }

    /// Reads the status byte of one sample: true exactly when the sample was
    /// marked valid.
    pub fn sample_is_valid(status: &Vec<u8>, index: usize) -> (r: bool)
        requires
            index < status@.len(),
        ensures
            r == (status@[index as int] == STATUS_VALID),
    {
        status[index] == STATUS_VALID
    }
}

} // verus!
