//! Marking the entries of an extended Noir witness as public or private
//! before it is secret-shared.

use vstd::prelude::*;

verus! {

/// A witness value together with whether it is a public input.
#[derive(Debug, Clone, Copy, PartialEq, Eq)]
pub enum WitnessEntry<T> {
    Public(T),
    Private(T),
}

impl<T> WitnessEntry<T> {
    /// The value, whatever its visibility.
    pub open spec fn value(self) -> T {
        match self {
            WitnessEntry::Public(v) => v,
            WitnessEntry::Private(v) => v,
        }
    }
}

/// Whether the witness index `index`, cast to `u32` as the witness is
/// enumerated, is among the public input indices.
pub open spec fn is_public_index(public_inputs: Seq<u32>, index: int) -> bool {
    public_inputs.contains(index as u32)
}

/// The witness with every entry marked: public where its index is listed
/// among the public inputs, private otherwise.
pub open spec fn tagged_witness<T>(witness: Seq<T>, public_inputs: Seq<u32>) -> Seq<WitnessEntry<T>> {
    Seq::new(
        witness.len(),
        |i: int|
            if is_public_index(public_inputs, i) {
                WitnessEntry::Public(witness[i])
            } else {
                WitnessEntry::Private(witness[i])
            },
    )
}

/// Whether `index` occurs in `public_inputs`.
fn lists_index(public_inputs: &[u32], index: u32) -> (found: bool)
    ensures
        found == public_inputs@.contains(index),
{
    let mut k: usize = 0;
    while k < public_inputs.len()
        invariant
            k <= public_inputs@.len(),
            forall|m: int| 0 <= m < k ==> public_inputs@[m] != index,
        decreases public_inputs@.len() - k,
    {
        if public_inputs[k] == index {
            return true;
        }
        k = k + 1;
    }
    false
}

/// Marks each witness value public or private by whether its index is
/// listed in `public_inputs`.
pub fn tag_witness<T: Copy>(witness: &Vec<T>, public_inputs: &[u32]) -> (tagged: Vec<WitnessEntry<T>>)
    ensures
        tagged@ == tagged_witness(witness@, public_inputs@),
        tagged@.len() == witness@.len(),
        forall|i: int| 0 <= i < witness@.len() ==> {
            &&& ((#[trigger] tagged@[i]) is Public <==> public_inputs@.contains(i as u32))
            &&& tagged@[i].value() == witness@[i]
        },
{
    let mut tagged: Vec<WitnessEntry<T>> = Vec::new();
    let mut idx: usize = 0;
    while idx < witness.len()
        invariant
            idx <= witness@.len(),
            tagged@ == tagged_witness(witness@, public_inputs@).subrange(0, idx as int),
        decreases witness@.len() - idx,
    {
        let value = witness[idx];
        if lists_index(public_inputs, idx as u32) {
            tagged.push(WitnessEntry::Public(value));
        } else {
            tagged.push(WitnessEntry::Private(value));
        }
        idx = idx + 1;
        assert(tagged@ =~= tagged_witness(witness@, public_inputs@).subrange(0, idx as int));
    }
    assert(tagged_witness(witness@, public_inputs@).subrange(0, idx as int) =~= tagged_witness(witness@, public_inputs@));
    proof {
        lemma_tagging_marks_listed_indices(witness@, public_inputs@);
    }
    tagged
}

/// Marking follows the list, at every index and whatever the index: entry
/// `i` of the marked witness is public exactly when `i` (as a `u32`) is
/// listed among the public inputs, and it holds the witness value `i`.
pub proof fn lemma_tagging_marks_listed_indices<T>(witness: Seq<T>, public_inputs: Seq<u32>)
    ensures
        tagged_witness(witness, public_inputs).len() == witness.len(),
        forall|i: int| 0 <= i < witness.len() ==> {
            &&& ((#[trigger] tagged_witness(witness, public_inputs)[i]) is Public
                <==> public_inputs.contains(i as u32))
            &&& tagged_witness(witness, public_inputs)[i].value() == witness[i]
        },
{
}

/// Marking loses nothing: the values of the marked witness are the witness,
/// in order.
pub proof fn lemma_tagging_keeps_values<T>(witness: Seq<T>, public_inputs: Seq<u32>)
    ensures
        tagged_witness(witness, public_inputs).map_values(|e: WitnessEntry<T>| e.value()) == witness,
{
    assert(tagged_witness(witness, public_inputs).map_values(|e: WitnessEntry<T>| e.value()) =~= witness);
}

} // verus!
