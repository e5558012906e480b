//! The matrix lift: an ordered sequence of row vectors, combined row by
//! row. Only the row counts are compared up front; each row pair's length
//! check happens inside the row operation, so a jagged matrix is
//! constructible and fails only at the row that actually mismatches.

use vstd::prelude::*;

use crate::fp::Fp;
use crate::vector::UnifiedVector;
use crate::vector::is_elementwise_difference;
use crate::vector::is_elementwise_sum;

verus! {

/// An ordered sequence of row vectors. Nothing validates that the rows are
/// of one width; shape is checked lazily, at the point of combination.
#[derive(Debug)]
pub struct UnifiedMatrix {
    pub rows: Vec<UnifiedVector>,
}

/// Both operands have this many rows and every row pair is of equal
/// length: exactly the condition under which a rowwise combination
/// succeeds.
pub open spec fn rows_conform(a: UnifiedMatrix, b: UnifiedMatrix) -> bool {
    &&& a.rows@.len() == b.rows@.len()
    &&& forall|i: int|
        0 <= i < a.rows@.len() ==> (#[trigger] a.rows@[i]).elements@.len()
            == b.rows@[i].elements@.len()
}

/// The record a rowwise sum leaves: as many rows as the left operand, each
/// the elementwise sum of the operands' rows under the handed-in numbers.
pub open spec fn is_rowwise_sum(
    a: UnifiedMatrix,
    b: UnifiedMatrix,
    values: Seq<Vec<Fp>>,
    uncertainties: Seq<Vec<Fp>>,
    r: UnifiedMatrix,
) -> bool {
    &&& r.rows@.len() == a.rows@.len()
    &&& forall|i: int|
        0 <= i < a.rows@.len() ==> is_elementwise_sum(
            a.rows@[i],
            b.rows@[i],
            values[i]@,
            uncertainties[i]@,
            #[trigger] r.rows@[i],
        )
}

/// The record a rowwise difference leaves.
pub open spec fn is_rowwise_difference(
    a: UnifiedMatrix,
    b: UnifiedMatrix,
    values: Seq<Vec<Fp>>,
    uncertainties: Seq<Vec<Fp>>,
    r: UnifiedMatrix,
) -> bool {
    &&& r.rows@.len() == a.rows@.len()
    &&& forall|i: int|
        0 <= i < a.rows@.len() ==> is_elementwise_difference(
            a.rows@[i],
            b.rows@[i],
            values[i]@,
            uncertainties[i]@,
            #[trigger] r.rows@[i],
        )
}

impl UnifiedMatrix {
    pub fn new(rows: Vec<UnifiedVector>) -> (r: UnifiedMatrix)
        ensures
            r.rows == rows,
    {
        UnifiedMatrix { rows }
    }

    /// Rowwise sum: absent exactly when the row counts differ or some row
    /// pair is of unequal length. The host hands one evaluated value and
    /// uncertainty per element of `self`, row by row.
    pub fn add(&self, other: &UnifiedMatrix, values: Vec<Vec<Fp>>, uncertainties: Vec<Vec<Fp>>)
        -> (r: Option<UnifiedMatrix>)
        requires
            values@.len() == self.rows@.len(),
            uncertainties@.len() == self.rows@.len(),
            forall|i: int|
                0 <= i < self.rows@.len() ==> (#[trigger] values@[i])@.len()
                    == self.rows@[i].elements@.len(),
            forall|i: int|
                0 <= i < self.rows@.len() ==> (#[trigger] uncertainties@[i])@.len()
                    == self.rows@[i].elements@.len(),
        ensures
            (r is Some) <==> rows_conform(*self, *other),
            r matches Some(m) ==> is_rowwise_sum(*self, *other, values@, uncertainties@, m),
    {
        if self.rows.len() != other.rows.len() {
            return None;
        }
        let ghost all_values = values@;
        let ghost all_uncertainties = uncertainties@;
        let mut values = values;
        let mut uncertainties = uncertainties;
        let mut out: Vec<UnifiedVector> = Vec::new();
        let mut i: usize = 0;
        while i < self.rows.len()
            invariant
                i <= self.rows@.len(),
                self.rows@.len() == other.rows@.len(),
                all_values.len() == self.rows@.len(),
                all_uncertainties.len() == self.rows@.len(),
                forall|j: int|
                    0 <= j < self.rows@.len() ==> (#[trigger] all_values[j])@.len()
                        == self.rows@[j].elements@.len(),
                forall|j: int|
                    0 <= j < self.rows@.len() ==> (#[trigger] all_uncertainties[j])@.len()
                        == self.rows@[j].elements@.len(),
                values@ == all_values.skip(i as int),
                uncertainties@ == all_uncertainties.skip(i as int),
                out@.len() == i,
                forall|j: int|
                    0 <= j < i ==> (#[trigger] self.rows@[j]).elements@.len()
                        == other.rows@[j].elements@.len(),
                forall|j: int|
                    0 <= j < i ==> is_elementwise_sum(
                        self.rows@[j],
                        other.rows@[j],
                        all_values[j]@,
                        all_uncertainties[j]@,
                        #[trigger] out@[j],
                    ),
            decreases self.rows@.len() - i,
        {
            let row_values = values.remove(0);
            let row_uncertainties = uncertainties.remove(0);
            proof {
                assert(all_values.skip(i as int).remove(0) =~= all_values.skip(i + 1));
                assert(all_uncertainties.skip(i as int).remove(0) =~= all_uncertainties.skip(
                    i + 1,
                ));
            }
            match self.rows[i].add(&other.rows[i], row_values, row_uncertainties) {
                Some(row) => {
                    out.push(row);
                },
                None => {
                    proof {
                        assert(self.rows@[i as int].elements@.len()
                            != other.rows@[i as int].elements@.len());
                    }
                    return None;
                },
            }
            i = i + 1;
        }
        Some(UnifiedMatrix { rows: out })
    }

    /// Rowwise difference: absent exactly when the row counts differ or
    /// some row pair is of unequal length. The host hands one evaluated
    /// value and uncertainty per element of `self`, row by row.
    pub fn subtract(&self, other: &UnifiedMatrix, values: Vec<Vec<Fp>>, uncertainties: Vec<
        Vec<Fp>,
    >) -> (r: Option<UnifiedMatrix>)
        requires
            values@.len() == self.rows@.len(),
            uncertainties@.len() == self.rows@.len(),
            forall|i: int|
                0 <= i < self.rows@.len() ==> (#[trigger] values@[i])@.len()
                    == self.rows@[i].elements@.len(),
            forall|i: int|
                0 <= i < self.rows@.len() ==> (#[trigger] uncertainties@[i])@.len()
                    == self.rows@[i].elements@.len(),
        ensures
            (r is Some) <==> rows_conform(*self, *other),
            r matches Some(m) ==> is_rowwise_difference(*self, *other, values@, uncertainties@, m),
    {
        if self.rows.len() != other.rows.len() {
            return None;
        }
        let ghost all_values = values@;
        let ghost all_uncertainties = uncertainties@;
        let mut values = values;
        let mut uncertainties = uncertainties;
        let mut out: Vec<UnifiedVector> = Vec::new();
        let mut i: usize = 0;
        while i < self.rows.len()
            invariant
                i <= self.rows@.len(),
                self.rows@.len() == other.rows@.len(),
                all_values.len() == self.rows@.len(),
                all_uncertainties.len() == self.rows@.len(),
                forall|j: int|
                    0 <= j < self.rows@.len() ==> (#[trigger] all_values[j])@.len()
                        == self.rows@[j].elements@.len(),
                forall|j: int|
                    0 <= j < self.rows@.len() ==> (#[trigger] all_uncertainties[j])@.len()
                        == self.rows@[j].elements@.len(),
                values@ == all_values.skip(i as int),
                uncertainties@ == all_uncertainties.skip(i as int),
                out@.len() == i,
                forall|j: int|
                    0 <= j < i ==> (#[trigger] self.rows@[j]).elements@.len()
                        == other.rows@[j].elements@.len(),
                forall|j: int|
                    0 <= j < i ==> is_elementwise_difference(
                        self.rows@[j],
                        other.rows@[j],
                        all_values[j]@,
                        all_uncertainties[j]@,
                        #[trigger] out@[j],
                    ),
            decreases self.rows@.len() - i,
        {
            let row_values = values.remove(0);
            let row_uncertainties = uncertainties.remove(0);
            proof {
                assert(all_values.skip(i as int).remove(0) =~= all_values.skip(i + 1));
                assert(all_uncertainties.skip(i as int).remove(0) =~= all_uncertainties.skip(
                    i + 1,
                ));
            }
            match self.rows[i].subtract(&other.rows[i], row_values, row_uncertainties) {
                Some(row) => {
                    out.push(row);
                },
                None => {
                    proof {
                        assert(self.rows@[i as int].elements@.len()
                            != other.rows@[i as int].elements@.len());
                    }
                    return None;
                },
            }
            i = i + 1;
        }
        Some(UnifiedMatrix { rows: out })
    }
}

} // verus!
