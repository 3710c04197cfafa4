use vstd::prelude::*;

use crate::status::LetterStatus;

verus! {

/// No letter appears twice as a key.
pub open spec fn unique_keys(s: Seq<(char, LetterStatus)>) -> bool {
    forall|i: int, j: int|
        0 <= i < s.len() && 0 <= j < s.len() && i != j ==> #[trigger] s[i].0 != #[trigger] s[j].0
}

/// The map that a list of (letter, status) entries stands for.
pub open spec fn pairs_map(s: Seq<(char, LetterStatus)>) -> Map<char, LetterStatus>
    decreases s.len(),
{
    if s.len() == 0 {
        Map::empty()
    } else {
        pairs_map(s.drop_last()).insert(s.last().0, s.last().1)
    }
}

/// Records that letter `c` was seen with status `st`, keeping the more informative status.
pub open spec fn upgrade(k: Map<char, LetterStatus>, c: char, st: LetterStatus) -> Map<
    char,
    LetterStatus,
> {
    if k.contains_key(c) && st.spec_rank() <= k[c].spec_rank() {
        k
    } else {
        k.insert(c, st)
    }
}

/// Folds a round's changes, in order, into the knowledge `k`.
pub open spec fn absorb(k: Map<char, LetterStatus>, changes: Seq<(char, LetterStatus)>) -> Map<
    char,
    LetterStatus,
>
    decreases changes.len(),
{
    if changes.len() == 0 {
        k
    } else {
        upgrade(absorb(k, changes.drop_last()), changes.last().0, changes.last().1)
    }
}

pub proof fn lemma_pairs_map_lookup(s: Seq<(char, LetterStatus)>, c: char)
    requires
        unique_keys(s),
    ensures
        pairs_map(s).contains_key(c) <==> exists|i: int| 0 <= i < s.len() && s[i].0 == c,
        forall|i: int| 0 <= i < s.len() && s[i].0 == c ==> pairs_map(s)[c] == s[i].1,
    decreases s.len(),
{
    if s.len() > 0 {
        let t = s.drop_last();
        assert(unique_keys(t));
        lemma_pairs_map_lookup(t, c);
        if pairs_map(s).contains_key(c) && s.last().0 != c {
            let i = choose|i: int| 0 <= i < t.len() && t[i].0 == c;
            assert(s[i].0 == c);
        }
        if exists|i: int| 0 <= i < s.len() && s[i].0 == c {
            let i = choose|i: int| 0 <= i < s.len() && s[i].0 == c;
            if i < t.len() {
                assert(t[i].0 == c);
            }
        }
        assert forall|i: int| 0 <= i < s.len() && s[i].0 == c implies pairs_map(s)[c] == s[i].1 by {
            if i < s.len() - 1 {
                assert(t[i].0 == c);
                assert(s[s.len() - 1].0 != c);
            }
        }
    }
}

proof fn lemma_pairs_map_set(s: Seq<(char, LetterStatus)>, j: int, st: LetterStatus)
    requires
        unique_keys(s),
        0 <= j < s.len(),
    ensures
        unique_keys(s.update(j, (s[j].0, st))),
        pairs_map(s.update(j, (s[j].0, st))) == pairs_map(s).insert(s[j].0, st),
{
    let u = s.update(j, (s[j].0, st));
    assert(unique_keys(u)) by {
        assert forall|a: int, b: int|
            0 <= a < u.len() && 0 <= b < u.len() && a != b implies #[trigger] u[a].0
            != #[trigger] u[b].0 by {
            assert(u[a].0 == s[a].0 && u[b].0 == s[b].0);
        }
    }
    assert forall|c: char| #[trigger] pairs_map(u).contains_key(c) <==> pairs_map(s).insert(
        s[j].0,
        st,
    ).contains_key(c) by {
        lemma_pairs_map_lookup(s, c);
        lemma_pairs_map_lookup(u, c);
        if exists|i: int| 0 <= i < s.len() && s[i].0 == c {
            let i = choose|i: int| 0 <= i < s.len() && s[i].0 == c;
            assert(u[i].0 == c);
        }
        if exists|i: int| 0 <= i < u.len() && u[i].0 == c {
            let i = choose|i: int| 0 <= i < u.len() && u[i].0 == c;
            assert(s[i].0 == c);
        }
    }
    assert forall|c: char| #[trigger] pairs_map(u).contains_key(c) implies pairs_map(u)[c]
        == pairs_map(s).insert(s[j].0, st)[c] by {
        lemma_pairs_map_lookup(s, c);
        lemma_pairs_map_lookup(u, c);
        let i = choose|i: int| 0 <= i < u.len() && u[i].0 == c;
        assert(s[i].0 == c);
    }
    assert(pairs_map(u) =~= pairs_map(s).insert(s[j].0, st));
}

/// Upgrades the entry of letter `c` in `k` with status `st`, adding it if absent.
pub fn record(k: &mut Vec<(char, LetterStatus)>, c: char, st: LetterStatus)
    requires
        unique_keys(old(k)@),
    ensures
        unique_keys(final(k)@),
        pairs_map(final(k)@) == upgrade(pairs_map(old(k)@), c, st),
{
    let n = k.len();
    let mut i: usize = 0;
    while i < n
        invariant
            n == k.len(),
            k@ == old(k)@,
            unique_keys(k@),
            0 <= i <= n,
            forall|j: int| 0 <= j < i ==> k@[j].0 != c,
        decreases n - i,
    {
        if k[i].0 == c {
            proof {
                lemma_pairs_map_lookup(k@, c);
            }
            if st.rank() > k[i].1.rank() {
                proof {
                    lemma_pairs_map_set(k@, i as int, st);
                }
                k.set(i, (c, st));
            }
            return;
        }
        i = i + 1;
    }
    proof {
        lemma_pairs_map_lookup(k@, c);
        assert(k@.push((c, st)).drop_last() =~= k@);
        let p = k@.push((c, st));
        assert forall|a: int, b: int|
            0 <= a < p.len() && 0 <= b < p.len() && a != b implies #[trigger] p[a].0
            != #[trigger] p[b].0 by {
            if a < k@.len() && b < k@.len() {
                assert(k@[a].0 != k@[b].0);
            }
        }
    }
    k.push((c, st));
}

} // verus!
