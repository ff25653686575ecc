use vstd::prelude::*;

verus! {

/// The index of the first occurrence of `x` in `v`, if any.
pub fn position_u64(v: &Vec<u64>, x: u64) -> (r: Option<usize>)
    ensures
        match r {
            Some(i) => v@.index_of_first(x) == Some(i as int) && i < v@.len(),
            None => v@.index_of_first(x) == None::<int>,
        },
{
    let mut i: usize = 0;
    while i < v.len()
        invariant
            i <= v@.len(),
            forall|j: int| 0 <= j < i ==> v@[j] != x,
        decreases v@.len() - i,
    {
        if v[i] == x {
            proof {
                v@.index_of_first_ensures(x);
                assert(v@.contains(x));
                let k = v@.index_of_first(x)->0;
                if k < i {
                    assert(v@[k] != x);
                } else if k > i {
                }
            }
            return Some(i);
        }
        i = i + 1;
    }
    proof {
        v@.index_of_first_ensures(x);
        if v@.contains(x) {
            let k = choose|k: int| 0 <= k < v@.len() && v@[k] == x;
        }
    }
    None
}

/// Whether `x` occurs in `v`.
pub fn contains_u64(v: &Vec<u64>, x: u64) -> (b: bool)
    ensures
        b == v@.contains(x),
{
    proof {
        v@.index_of_first_ensures(x);
    }
    position_u64(v, x).is_some()
}

/// Removes the first occurrence of `x` from `v`, if there is one.
pub fn remove_value_u64(v: &mut Vec<u64>, x: u64)
    ensures
        final(v)@ == old(v)@.remove_value(x),
{
    match position_u64(v, x) {
        Some(i) => {
            v.remove(i);
        },
        None => {},
    }
}

} // verus!

verus! {

/// A copy of a list of plain values.
pub fn copy_vec<T: Copy>(v: &Vec<T>) -> (r: Vec<T>)
    ensures
        r@ == v@,
{
    let mut r: Vec<T> = Vec::new();
    let mut i: usize = 0;
    while i < v.len()
        invariant
            i <= v@.len(),
            r@ == v@.subrange(0, i as int),
        decreases v@.len() - i,
    {
        r.push(v[i]);
        i = i + 1;
        assert(r@ =~= v@.subrange(0, i as int));
    }
    assert(v@.subrange(0, v@.len() as int) =~= v@);
    r
}

} // verus!

verus! {

/// A copy of a list of identifiers.
pub fn copy_u64s(v: &Vec<u64>) -> (r: Vec<u64>)
    ensures
        r@ == v@,
{
    copy_vec(v)
}

/// The list without every occurrence of `x`, other elements in order.
pub fn without_u64(v: &Vec<u64>, x: u64) -> (r: Vec<u64>)
    ensures
        r@ == v@.filter(|y: u64| y != x),
{
    let mut r: Vec<u64> = Vec::new();
    let mut i: usize = 0;
    while i < v.len()
        invariant
            i <= v@.len(),
            r@ == v@.subrange(0, i as int).filter(|y: u64| y != x),
        decreases v@.len() - i,
    {
        proof {
            assert(v@.subrange(0, i + 1).drop_last() =~= v@.subrange(0, i as int));
            reveal_with_fuel(Seq::filter, 1);
        }
        if v[i] != x {
            r.push(v[i]);
        }
        i = i + 1;
    }
    assert(v@.subrange(0, v@.len() as int) =~= v@);
    r
}

} // verus!
