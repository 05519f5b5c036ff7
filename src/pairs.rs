//! The unordered pairs of distinct charges, each joined by a line in the
//! scene.
use vstd::prelude::*;

verus! {

/// The pairs `(i, j)` with `i < j < n`, for a fixed `i`, by increasing `j`.
pub open spec fn row(i: nat, n: nat) -> Seq<(usize, usize)> {
    Seq::new(
        if i + 1 <= n {
            (n - i - 1) as nat
        } else {
            0
        },
        |k: int| (i as usize, (i + 1 + k) as usize),
    )
}

/// The pairs `(a, b)` with `a < i` and `a < b < n`, ordered by `a`, then `b`.
pub open spec fn pairs_before(i: nat, n: nat) -> Seq<(usize, usize)>
    decreases i,
{
    if i == 0 {
        Seq::empty()
    } else {
        pairs_before((i - 1) as nat, n) + row((i - 1) as nat, n)
    }
}

/// Every pair of indices `(i, j)` with `i < j < n`, ordered by `i`, then `j`.
pub fn charge_pairs(n: usize) -> (r: Vec<(usize, usize)>)
    ensures
        r@ == pairs_before(n as nat, n as nat),
{
    let mut v: Vec<(usize, usize)> = Vec::new();
    let mut i: usize = 0;
    while i < n
        invariant
            i <= n,
            v@ == pairs_before(i as nat, n as nat),
        decreases n - i,
    {
        let mut j: usize = i + 1;
        while j < n
            invariant
                i < n,
                i + 1 <= j <= n,
                v@ == pairs_before(i as nat, n as nat) + row(i as nat, n as nat).take(j - i - 1),
            decreases n - j,
        {
            let ghost before = v@;
            v.push((i, j));
            assert(row(i as nat, n as nat).take(j - i) =~= row(i as nat, n as nat).take(j - i - 1).push((i, j)));
            assert(v@ =~= before.push((i, j)));
            j = j + 1;
        }
        assert(row(i as nat, n as nat).take(n - i - 1) =~= row(i as nat, n as nat));
        i = i + 1;
    }
    v
}

/// A pair is listed exactly when its first index is below its second, and
/// its second below the number of charges.
pub proof fn lemma_pairs_listed(n: usize, a: usize, b: usize)
    ensures
        pairs_before(n as nat, n as nat).contains((a, b)) <==> (a < b && b < n),
{
    lemma_pairs_before(n as nat, n as nat, a, b);
}

proof fn lemma_pairs_before(i: nat, n: nat, a: usize, b: usize)
    requires
        i <= n <= usize::MAX,
    ensures
        pairs_before(i, n).contains((a, b)) <==> (a < i && a < b && b < n),
    decreases i,
{
    if i == 0 {
        assert(pairs_before(i, n) =~= Seq::<(usize, usize)>::empty());
    } else {
        let p = (i - 1) as nat;
        lemma_pairs_before(p, n, a, b);
        let r = row(p, n);
        let prev = pairs_before(p, n);
        let all = prev + r;
        assert(pairs_before(i, n) == all);
        if a < i && a < b && b < n {
            if a == p {
                let m = b - p - 1;
                assert(r[m] == (a, b));
                assert(all[prev.len() + m] == (a, b));
            } else {
                let k = choose|k: int| 0 <= k < prev.len() && prev[k] == (a, b);
                assert(all[k] == (a, b));
            }
            assert(all.contains((a, b)));
        }
        if all.contains((a, b)) {
            let k = choose|k: int| 0 <= k < all.len() && all[k] == (a, b);
            if k >= prev.len() {
                let m = k - prev.len();
                assert(all[k] == r[m]);
                assert(r[m] == (p as usize, (p + 1 + m) as usize));
            } else {
                assert(all[k] == prev[k]);
                assert(prev.contains((a, b)));
            }
            assert(a < i && a < b && b < n);
        }
    }
}

} // verus!
