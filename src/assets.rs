use vstd::prelude::*;

verus! {

/// The entries that could be read, in directory order.
pub open spec fn readable<T, E>(s: Seq<Result<T, E>>) -> Seq<T>
    decreases s.len(),
{
    if s.len() == 0 {
        Seq::empty()
    } else {
        let rest = readable(s.drop_last());
        match s.last() {
            Ok(v) => rest.push(v),
            Err(_) => rest,
        }
    }
}

/// The failures met while reading entries, in directory order.
pub open spec fn failures<T, E>(s: Seq<Result<T, E>>) -> Seq<E>
    decreases s.len(),
{
    if s.len() == 0 {
        Seq::empty()
    } else {
        let rest = failures(s.drop_last());
        match s.last() {
            Err(e) => rest.push(e),
            Ok(_) => rest,
        }
    }
}

/// Every readable entry is kept: an entry read without failure is in the pool.
pub proof fn lemma_readable_kept<T, E>(s: Seq<Result<T, E>>, i: int)
    requires
        0 <= i < s.len(),
        s[i] is Ok,
    ensures
        readable(s).contains(s[i]->Ok_0),
    decreases s.len(),
{
    if i == s.len() - 1 {
        assert(readable(s).last() == s[i]->Ok_0);
    } else {
        lemma_readable_kept(s.drop_last(), i);
        let r = readable(s.drop_last());
        let j = choose|j: int| 0 <= j < r.len() && r[j] == s[i]->Ok_0;
        if s.last() is Ok {
            assert(readable(s)[j] == s[i]->Ok_0);
        }
    }
}

/// Splits the results of a directory scan into the asset pool and the failures,
/// both in scan order. A failed entry is left out of the pool and does not stop
/// the scan.
pub fn partition_entries<T, E>(entries: Vec<Result<T, E>>) -> (r: (Vec<T>, Vec<E>))
    ensures
        r.0@ == readable(entries@),
        r.1@ == failures(entries@),
{
    let ghost all = entries@;
    let mut rest = entries;
    let n: usize = rest.len();
    let mut pool: Vec<T> = Vec::new();
    let mut errors: Vec<E> = Vec::new();
    let mut k: usize = 0;
    while rest.len() > 0
        invariant
            k <= all.len(),
            all.len() <= usize::MAX,
            rest@ == all.subrange(k as int, all.len() as int),
            pool@ == readable(all.subrange(0, k as int)),
            errors@ == failures(all.subrange(0, k as int)),
        decreases rest@.len(),
    {
        let e = rest.remove(0);
        assert(all.subrange(0, k + 1).drop_last() =~= all.subrange(0, k as int));
        assert(all.subrange(0, k + 1).last() == e);
        match e {
            Ok(v) => pool.push(v),
            Err(x) => errors.push(x),
        }
        k = k + 1;
        assert(rest@ =~= all.subrange(k as int, all.len() as int));
    }
    assert(all.subrange(0, k as int) =~= all);
    (pool, errors)
}

} // verus!
