//! Proofs and the shape of their public values.

use vstd::prelude::*;

verus! {

/// A proof as it is kept and passed on: the serialized transcript, the public
/// values it was made for, and the circuit and degree that locate its
/// verifying key.
///
/// A public value is held in its serialized form. The values are grouped by
/// instance column, in the order in which the circuit declares its columns.
#[derive(Clone, Debug)]
pub struct Proof {
    pub degree: u32,
    pub data: Vec<u8>,
    pub instances: Vec<Vec<Vec<u8>>>,
    pub circuit_name: String,
}

/// Whether `instances` has one column for each declared count, each holding
/// exactly that many values.
pub open spec fn shape_matches(instances: Seq<Vec<Vec<u8>>>, counts: Seq<usize>) -> bool {
    &&& instances.len() == counts.len()
    &&& forall|i: int| 0 <= i < counts.len() ==> (#[trigger] instances[i])@.len() == counts[i]
}

/// Tests whether the public values have the declared shape.
pub fn arity_matches(instances: &Vec<Vec<Vec<u8>>>, counts: &Vec<usize>) -> (ok: bool)
    ensures
        ok == shape_matches(instances@, counts@),
{
    if instances.len() != counts.len() {
        return false;
    }
    let mut i: usize = 0;
    while i < counts.len()
        invariant
            0 <= i <= counts.len(),
            instances.len() == counts.len(),
            forall|j: int| 0 <= j < i ==> (#[trigger] instances@[j])@.len() == counts@[j],
        decreases counts.len() - i,
    {
        if instances[i].len() != counts[i] {
            return false;
        }
        i = i + 1;
    }
    true
}

/// A copy of `source`.
pub fn copy_of<T: Copy>(source: &Vec<T>) -> (copy: Vec<T>)
    ensures
        copy@ == source@,
{
    let mut copy: Vec<T> = Vec::new();
    let mut i: usize = 0;
    while i < source.len()
        invariant
            0 <= i <= source.len(),
            copy@ == source@.subrange(0, i as int),
        decreases source.len() - i,
    {
        copy.push(source[i]);
        i = i + 1;
        assert(copy@ =~= source@.subrange(0, i as int));
    }
    assert(copy@ =~= source@);
    copy
}

impl Proof {
    /// Puts a proof together from its parts.
    pub fn from(degree: u32, data: Vec<u8>, instances: Vec<Vec<Vec<u8>>>, circuit_name: String) -> (proof: Proof)
        ensures
            proof.degree == degree,
            proof.data == data,
            proof.instances == instances,
            proof.circuit_name == circuit_name,
    {
        Proof { degree, data, instances, circuit_name }
    }
}

} // verus!
