//! Order-preserving selection and lookup over vectors.
use vstd::prelude::*;

verus! {

/// The elements of `s` whose `mask` entry is set, in order.
pub open spec fn select<T>(s: Seq<T>, mask: Seq<bool>) -> Seq<T>
    decreases s.len(),
{
    if s.len() == 0 {
        s
    } else if mask[s.len() - 1] {
        select(s.drop_last(), mask).push(s.last())
    } else {
        select(s.drop_last(), mask)
    }
}

/// What a mask keeps is no longer than the sequence, and holds exactly the
/// elements at the positions the mask marks.
pub proof fn lemma_select_members<T>(s: Seq<T>, mask: Seq<bool>)
    requires
        mask.len() >= s.len(),
    ensures
        select(s, mask).len() <= s.len(),
        forall|x: T| #[trigger] select(s, mask).contains(x) <==> exists|i: int|
            0 <= i < s.len() && mask[i] && s[i] == x,
    decreases s.len(),
{
    if s.len() > 0 {
        let p = s.drop_last();
        lemma_select_members(p, mask);
        assert forall|x: T| #[trigger] select(s, mask).contains(x) <==> exists|i: int|
            0 <= i < s.len() && mask[i] && s[i] == x by {
            let r = select(s, mask);
            let q = select(p, mask);
            if r.contains(x) {
                let j = choose|j: int| 0 <= j < r.len() && r[j] == x;
                if mask[s.len() - 1] && j == q.len() {
                    assert(s[s.len() - 1] == x);
                } else {
                    assert(q[j] == x);
                    assert(q.contains(x));
                    let i = choose|i: int| 0 <= i < p.len() && mask[i] && p[i] == x;
                    assert(s[i] == x);
                }
            }
            if exists|i: int| 0 <= i < s.len() && mask[i] && s[i] == x {
                let i = choose|i: int| 0 <= i < s.len() && mask[i] && s[i] == x;
                if i == s.len() - 1 {
                    assert(r[r.len() - 1] == x);
                } else {
                    assert(p[i] == x);
                    assert(q.contains(x));
                    let j = choose|j: int| 0 <= j < q.len() && q[j] == x;
                    if mask[s.len() - 1] {
                        assert(r[j] == x);
                    }
                }
            }
        }
    }
}

/// Keeps the elements of `v` whose `mask` entry is set, in order.
pub fn retain_by_mask<T>(v: &mut Vec<T>, mask: &Vec<bool>)
    requires
        old(v).len() == mask.len(),
    ensures
        final(v)@ == select(old(v)@, mask@),
{
    let ghost orig = v@;
    let mut i: usize = 0;
    let mut j: usize = 0;
    while j < mask.len()
        invariant
            orig.len() == mask@.len(),
            j <= mask@.len(),
            i <= j,
            select(orig.subrange(0, j as int), mask@).len() == i,
            v@ == select(orig.subrange(0, j as int), mask@) + orig.subrange(
                j as int,
                orig.len() as int,
            ),
        decreases mask@.len() - j,
    {
        let ghost before = orig.subrange(0, j as int);
        let ghost after = orig.subrange(0, j + 1);
        assert(after.drop_last() =~= before);
        assert(v@[i as int] == orig[j as int]);
        if mask[j] {
            i = i + 1;
            assert(v@ =~= select(after, mask@) + orig.subrange(j + 1, orig.len() as int));
        } else {
            v.remove(i);
            assert(v@ =~= select(after, mask@) + orig.subrange(j + 1, orig.len() as int));
        }
        j = j + 1;
    }
    assert(orig.subrange(0, orig.len() as int) =~= orig);
    assert(v@ =~= select(orig, mask@));
}

} // verus!
