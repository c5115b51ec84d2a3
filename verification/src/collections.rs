//! Collection workouts: building a vector of numbers, shifting every element,
//! and keying a map by a number.

use std::collections::HashMap;
use vstd::prelude::*;

verus! {

broadcast use vstd::std_specs::hash::group_hash_axioms;

/// Builds the demonstration vector `[1, 2, 3, 12, 24]`.
pub fn build_demo_vector() -> (v: Vec<i32>)
    ensures
        v@ == seq![1i32, 2i32, 3i32, 12i32, 24i32],
{
    let mut v: Vec<i32> = Vec::new();
    v.push(1);
    v.push(2);
    v.push(3);
    v.push(12);
    v.push(24);
    proof {
        assert(v@ =~= seq![1i32, 2i32, 3i32, 12i32, 24i32]);
    }
    v
}

/// Adds `delta` to every element of the vector, in place.
pub fn add_to_each(v: &mut Vec<i32>, delta: i32)
    requires
        forall|j: int|
            0 <= j < old(v)@.len() ==> i32::MIN <= #[trigger] old(v)@[j] + delta <= i32::MAX,
    ensures
        final(v)@.len() == old(v)@.len(),
        forall|j: int| 0 <= j < old(v)@.len() ==> final(v)@[j] == old(v)@[j] + delta,
{
    let n = v.len();
    let mut i: usize = 0;
    while i < n
        invariant
            i <= n,
            n == v@.len(),
            v@.len() == old(v)@.len(),
            forall|j: int|
                0 <= j < old(v)@.len() ==> i32::MIN <= #[trigger] old(v)@[j] + delta <= i32::MAX,
            forall|j: int| 0 <= j < i ==> v@[j] == old(v)@[j] + delta,
            forall|j: int| i <= j < n ==> v@[j] == old(v)@[j],
        decreases n - i,
    {
        let x = v[i];
        v[i] = x + delta;
        i = i + 1;
    }
}

/// Builds a map holding the one association `1 -> 2`.
pub fn build_number_map() -> (m: HashMap<i32, i32>)
    ensures
        m@ == map![1i32 => 2i32],
{
    let mut m: HashMap<i32, i32> = HashMap::new();
    m.insert(1, 2);
    proof {
        assert(m@ =~= map![1i32 => 2i32]);
    }
    m
}

} // verus!
