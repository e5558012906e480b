//! The vector lift: a fixed-length sequence of measurements, combined
//! elementwise, with the whole operation absent on a length mismatch.

use vstd::prelude::*;

use crate::fp::Fp;
use crate::scalar::UnifiedNumber;
use crate::scalar::is_difference;
use crate::scalar::is_sum;

verus! {

/// An ordered, fixed-length sequence of measurements. Two vectors combine
/// only when their lengths are equal.
#[derive(Debug)]
pub struct UnifiedVector {
    pub elements: Vec<UnifiedNumber>,
}

/// The record an elementwise sum leaves: as long as the left operand, each
/// element the scalar sum of the operands' elements under the handed-in
/// numbers.
pub open spec fn is_elementwise_sum(
    a: UnifiedVector,
    b: UnifiedVector,
    values: Seq<Fp>,
    uncertainties: Seq<Fp>,
    r: UnifiedVector,
) -> bool {
    &&& r.elements@.len() == a.elements@.len()
    &&& forall|i: int|
        0 <= i < a.elements@.len() ==> is_sum(
            a.elements@[i],
            b.elements@[i],
            values[i],
            uncertainties[i],
            #[trigger] r.elements@[i],
        )
}

/// The record an elementwise difference leaves.
pub open spec fn is_elementwise_difference(
    a: UnifiedVector,
    b: UnifiedVector,
    values: Seq<Fp>,
    uncertainties: Seq<Fp>,
    r: UnifiedVector,
) -> bool {
    &&& r.elements@.len() == a.elements@.len()
    &&& forall|i: int|
        0 <= i < a.elements@.len() ==> is_difference(
            a.elements@[i],
            b.elements@[i],
            values[i],
            uncertainties[i],
            #[trigger] r.elements@[i],
        )
}

impl UnifiedVector {
    pub fn new(elements: Vec<UnifiedNumber>) -> (r: UnifiedVector)
        ensures
            r.elements == elements,
    {
        UnifiedVector { elements }
    }

    /// Elementwise sum: absent exactly when the lengths differ. The host
    /// hands one evaluated value and uncertainty per element of `self`.
    pub fn add(&self, other: &UnifiedVector, values: Vec<Fp>, uncertainties: Vec<Fp>) -> (r: Option<
        UnifiedVector,
    >)
        requires
            values@.len() == self.elements@.len(),
            uncertainties@.len() == self.elements@.len(),
        ensures
            (r is Some) <==> self.elements@.len() == other.elements@.len(),
            r matches Some(v) ==> is_elementwise_sum(*self, *other, values@, uncertainties@, v),
    {
        if self.elements.len() != other.elements.len() {
            return None;
        }
        let ghost all_values = values@;
        let ghost all_uncertainties = uncertainties@;
        let mut values = values;
        let mut uncertainties = uncertainties;
        let mut out: Vec<UnifiedNumber> = Vec::new();
        let mut i: usize = 0;
        while i < self.elements.len()
            invariant
                i <= self.elements@.len(),
                self.elements@.len() == other.elements@.len(),
                all_values.len() == self.elements@.len(),
                all_uncertainties.len() == self.elements@.len(),
                values@ == all_values.skip(i as int),
                uncertainties@ == all_uncertainties.skip(i as int),
                out@.len() == i,
                forall|j: int|
                    0 <= j < i ==> is_sum(
                        self.elements@[j],
                        other.elements@[j],
                        all_values[j],
                        all_uncertainties[j],
                        #[trigger] out@[j],
                    ),
            decreases self.elements@.len() - i,
        {
            let value = values.remove(0);
            let uncertainty = uncertainties.remove(0);
            proof {
                assert(all_values.skip(i as int).remove(0) =~= all_values.skip(i + 1));
                assert(all_uncertainties.skip(i as int).remove(0) =~= all_uncertainties.skip(
                    i + 1,
                ));
            }
            let n = self.elements[i].add(&other.elements[i], value, uncertainty);
            out.push(n);
            i = i + 1;
        }
        Some(UnifiedVector { elements: out })
    }

    /// Elementwise difference: absent exactly when the lengths differ. The
    /// host hands one evaluated value and uncertainty per element of `self`.
    pub fn subtract(&self, other: &UnifiedVector, values: Vec<Fp>, uncertainties: Vec<Fp>) -> (r:
        Option<UnifiedVector>)
        requires
            values@.len() == self.elements@.len(),
            uncertainties@.len() == self.elements@.len(),
        ensures
            (r is Some) <==> self.elements@.len() == other.elements@.len(),
            r matches Some(v) ==> is_elementwise_difference(
                *self,
                *other,
                values@,
                uncertainties@,
                v,
            ),
    {
        if self.elements.len() != other.elements.len() {
            return None;
        }
        let ghost all_values = values@;
        let ghost all_uncertainties = uncertainties@;
        let mut values = values;
        let mut uncertainties = uncertainties;
        let mut out: Vec<UnifiedNumber> = Vec::new();
        let mut i: usize = 0;
        while i < self.elements.len()
            invariant
                i <= self.elements@.len(),
                self.elements@.len() == other.elements@.len(),
                all_values.len() == self.elements@.len(),
                all_uncertainties.len() == self.elements@.len(),
                values@ == all_values.skip(i as int),
                uncertainties@ == all_uncertainties.skip(i as int),
                out@.len() == i,
                forall|j: int|
                    0 <= j < i ==> is_difference(
                        self.elements@[j],
                        other.elements@[j],
                        all_values[j],
                        all_uncertainties[j],
                        #[trigger] out@[j],
                    ),
            decreases self.elements@.len() - i,
        {
            let value = values.remove(0);
            let uncertainty = uncertainties.remove(0);
            proof {
                assert(all_values.skip(i as int).remove(0) =~= all_values.skip(i + 1));
                assert(all_uncertainties.skip(i as int).remove(0) =~= all_uncertainties.skip(
                    i + 1,
                ));
            }
            let n = self.elements[i].subtract(&other.elements[i], value, uncertainty);
            out.push(n);
            i = i + 1;
        }
        Some(UnifiedVector { elements: out })
    }
}

} // verus!
