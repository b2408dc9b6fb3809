//! Moving the items of one vector into another.

use vstd::prelude::*;

verus! {

/// The items of `v` in the opposite order.
pub fn reversed<T>(v: Vec<T>) -> (r: Vec<T>)
    ensures
        r@ == v@.reverse(),
{
    let ghost whole = v@;
    let mut rest = v;
    let mut out: Vec<T> = Vec::new();
    while rest.len() > 0
        invariant
            rest@.len() + out@.len() == whole.len(),
            rest@ == whole.subrange(0, rest@.len() as int),
            forall|j: int| 0 <= j < out@.len() ==> out@[j] == whole[whole.len() - 1 - j],
        decreases rest.len(),
    {
        let item = rest.pop().unwrap();
        out.push(item);
    }
    assert(out@ =~= whole.reverse());
    out
}

/// A copy of a list of texts.
pub fn clone_texts(v: &Vec<String>) -> (r: Vec<String>)
    ensures
        r@ == v@,
{
    let mut out: Vec<String> = Vec::new();
    let mut i: usize = 0;
    while i < v.len()
        invariant
            i <= v.len(),
            out@ == v@.subrange(0, i as int),
        decreases v.len() - i,
    {
        out.push(v[i].clone());
        assert(out@ =~= v@.subrange(0, i + 1));
        i += 1;
    }
    assert(v@.subrange(0, v@.len() as int) =~= v@);
    out
}

} // verus!
