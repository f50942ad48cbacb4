use vstd::prelude::*;

verus! {

/// The characters of each argument, in order.
pub open spec fn strs(v: Seq<String>) -> Seq<Seq<char>> {
    v.map_values(|s: String| s@)
}

/// The arguments of `v` from `start` on, in order.
pub fn tail(v: &Vec<String>, start: usize) -> (r: Vec<String>)
    requires
        start <= v@.len(),
    ensures
        strs(r@) == strs(v@).subrange(start as int, v@.len() as int),
{
    let mut r: Vec<String> = Vec::new();
    let mut i: usize = start;
    while i < v.len()
        invariant
            start <= i <= v@.len(),
            strs(r@) == strs(v@).subrange(start as int, i as int),
        decreases v@.len() - i,
    {
        let ghost prev = r@;
        let s: String = v[i].clone();
        assert(s@ == v@[i as int]@);
        r.push(s);
        assert(r@ == prev.push(s));
        assert(strs(r@) =~= strs(prev).push(s@));
        assert(strs(r@) =~= strs(v@).subrange(start as int, i + 1));
        i += 1;
    }
    r
}

/// A copy of the arguments.
pub fn copy_args(v: &Vec<String>) -> (r: Vec<String>)
    ensures
        strs(r@) == strs(v@),
{
    let r = tail(v, 0);
    assert(strs(v@).subrange(0, v@.len() as int) =~= strs(v@));
    r
}

} // verus!
