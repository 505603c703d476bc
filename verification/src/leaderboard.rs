//! The leaderboard: a nickname-to-score table with unique names, kept in
//! insertion order, with a sorted view for display.
//!
//! `insert` unconditionally overwrites any existing score for the nickname;
//! callers decide when the new score should win. `sorted_vec` lists every
//! entry in non-increasing score order; ties keep the table's own
//! (deterministic) order.

use vstd::prelude::*;

verus! {

broadcast use vstd::seq_lib::group_to_multiset_ensures;

/// The score recorded for a name: the first (and, in a well-formed table,
/// only) entry carrying that name, if any.
pub open spec fn spec_lookup_in(s: Seq<(String, usize)>, name: Seq<char>) -> Option<usize>
    decreases s.len(),
{
    if s.len() == 0 {
        None
    } else if s[0].0@ == name {
        Some(s[0].1)
    } else {
        spec_lookup_in(s.drop_first(), name)
    }
}

/// Entries listed in non-increasing score order.
pub open spec fn spec_sorted_desc(s: Seq<(String, usize)>) -> bool {
    forall|i: int, j: int| 0 <= i <= j < s.len() ==> s[i].1 >= s[j].1
}

/// `p` maps each position of `res` to the position of `src` it came from: a
/// bijection that reproduces `res` from `src` and keeps entries of equal
/// score in their `src` order. Together with sortedness this pins the
/// listing down to one deterministic arrangement.
pub open spec fn spec_stable_arrangement(
    p: Seq<int>,
    src: Seq<(String, usize)>,
    res: Seq<(String, usize)>,
) -> bool {
    &&& p.len() == src.len()
    &&& res.len() == src.len()
    &&& forall|k: int| 0 <= k < p.len() ==> 0 <= #[trigger] p[k] < src.len()
    &&& forall|k1: int, k2: int|
        #![trigger p[k1], p[k2]]
        0 <= k1 < k2 < p.len() ==> p[k1] != p[k2]
    &&& forall|k: int| 0 <= k < p.len() ==> #[trigger] res[k] == src[p[k]]
    &&& forall|k1: int, k2: int|
        #![trigger p[k1], p[k2]]
        0 <= k1 < k2 < p.len() && res[k1].1 == res[k2].1 ==> p[k1] < p[k2]
}

/// A persisted nickname-to-score table.
pub struct Leaderboard {
    pub entries: Vec<(String, usize)>,
}

impl Leaderboard {
    /// Structural invariant: nicknames are unique.
    pub open spec fn wf(self) -> bool {
        forall|i: int, j: int|
            0 <= i < j < self.entries@.len() ==> self.entries@[i].0@ != self.entries@[j].0@
    }

    /// The score recorded for a name, if any.
    pub open spec fn spec_lookup(self, name: Seq<char>) -> Option<usize> {
        spec_lookup_in(self.entries@, name)
    }

    /// An empty table.
    pub fn new() -> (lb: Leaderboard)
        ensures
            lb.wf(),
            lb.entries@.len() == 0,
    {
        Leaderboard { entries: Vec::new() }
    }

    /// Read access to the entries, in table order.
    pub fn iter(&self) -> (r: &Vec<(String, usize)>)
        ensures
            r@ == self.entries@,
    {
        &self.entries
    }

    /// The score recorded for a nickname, if any.
    pub fn get(&self, nickname: &str) -> (r: Option<usize>)
        ensures
            r == self.spec_lookup(nickname@),
    {
        let key: String = nickname.to_owned();
        let n = self.entries.len();
        let mut i: usize = 0;
        while i < n
            invariant
                i <= n,
                n == self.entries@.len(),
                key@ == nickname@,
                forall|j: int| 0 <= j < i ==> self.entries@[j].0@ != nickname@,
            decreases n - i,
        {
            if self.entries[i].0 == key {
                proof {
                    lemma_lookup_first_match(self.entries@, nickname@, i as int);
                }
                return Some(self.entries[i].1);
            }
            i = i + 1;
        }
        proof {
            lemma_lookup_no_match(self.entries@, nickname@);
        }
        None
    }

    /// Records `score` for `nickname`, overwriting any existing score for
    /// that nickname unconditionally; every other name keeps its score and
    /// its position, and a new name is appended at the end.
    pub fn insert(&mut self, nickname: &str, score: usize)
        requires
            old(self).wf(),
        ensures
            final(self).wf(),
            final(self).spec_lookup(nickname@) == Some(score),
            forall|name: Seq<char>|
                name != nickname@ ==> final(self).spec_lookup(name) == old(self).spec_lookup(name),
            forall|j: int|
                0 <= j < old(self).entries@.len() ==> final(self).entries@[j].0@
                    == old(self).entries@[j].0@,
            old(self).spec_lookup(nickname@) == Option::<usize>::None
                ==> final(self).entries@.len() == old(self).entries@.len() + 1
                && final(self).entries@.last().0@ == nickname@
                && final(self).entries@.last().1 == score,
            old(self).spec_lookup(nickname@) != Option::<usize>::None
                ==> final(self).entries@.len() == old(self).entries@.len(),
    {
        let key: String = nickname.to_owned();
        let n = self.entries.len();
        let mut i: usize = 0;
        while i < n
            invariant
                i <= n,
                *self == *old(self),
                n == self.entries@.len(),
                old(self).wf(),
                key@ == nickname@,
                forall|j: int| 0 <= j < i ==> self.entries@[j].0@ != nickname@,
            decreases n - i,
        {
            if self.entries[i].0 == key {
                let ghost prior = self.entries@;
                self.entries.remove(i);
                self.entries.insert(i, (key, score));
                proof {
                    let e = self.entries@[i as int];
                    assert(self.entries@ =~= prior.update(i as int, e));
                    assert(e.0@ == nickname@);
                    assert(e.1 == score);
                    assert forall|x: int| 0 <= x < prior.len() implies self.entries@[x].0@
                        == prior[x].0@ by {
                        if x != i {
                            assert(self.entries@[x] == prior[x]);
                        }
                    }
                    lemma_lookup_first_match(self.entries@, nickname@, i as int);
                    lemma_lookup_first_match(prior, nickname@, i as int);
                    assert forall|name: Seq<char>| name != nickname@ implies spec_lookup_in(
                        self.entries@,
                        name,
                    ) == spec_lookup_in(prior, name) by {
                        lemma_lookup_update_same_name(prior, i as int, e, name);
                    }
                }
                return ;
            }
            i = i + 1;
        }
        let ghost prior = self.entries@;
        self.entries.push((key, score));
        proof {
            let e = self.entries@.last();
            assert(self.entries@ == prior.push(e));
            assert(e.0@ == nickname@);
            assert(e.1 == score);
            assert forall|x: int| 0 <= x < prior.len() implies self.entries@[x] == prior[x] by {}
            lemma_lookup_first_match(self.entries@, nickname@, prior.len() as int);
            lemma_lookup_no_match(prior, nickname@);
            assert forall|name: Seq<char>| name != nickname@ implies spec_lookup_in(
                self.entries@,
                name,
            ) == spec_lookup_in(prior, name) by {
                lemma_lookup_push(prior, e, name);
            }
        }
    }

    /// Every entry, cloned, in non-increasing score order; ties keep the
    /// table's own order (a stable arrangement), so the listing is
    /// deterministic.
    pub fn sorted_vec(&self) -> (res: Vec<(String, usize)>)
        ensures
            res@.len() == self.entries@.len(),
            spec_sorted_desc(res@),
            res@.to_multiset() == self.entries@.to_multiset(),
            exists|p: Seq<int>| #[trigger] spec_stable_arrangement(p, self.entries@, res@),
    {
        let n = self.entries.len();
        let mut res: Vec<(String, usize)> = Vec::new();
        let ghost mut perm: Seq<int> = Seq::empty();
        let mut i: usize = 0;
        while i < n
            invariant
                i <= n,
                n == self.entries@.len(),
                res@.len() == i,
                perm.len() == i,
                spec_sorted_desc(res@),
                res@.to_multiset() == self.entries@.take(i as int).to_multiset(),
                forall|k: int| 0 <= k < i ==> 0 <= #[trigger] perm[k] < i,
                forall|k1: int, k2: int|
                    #![trigger perm[k1], perm[k2]]
                    0 <= k1 < k2 < i ==> perm[k1] != perm[k2],
                forall|k: int| 0 <= k < i ==> #[trigger] res@[k] == self.entries@[perm[k]],
                forall|k1: int, k2: int|
                    #![trigger perm[k1], perm[k2]]
                    0 <= k1 < k2 < i && res@[k1].1 == res@[k2].1 ==> perm[k1] < perm[k2],
            decreases n - i,
        {
            let entry = &self.entries[i];
            let item = (entry.0.clone(), entry.1);
            assert(item == self.entries@[i as int]);
            let mut k: usize = 0;
            while k < res.len() && res[k].1 >= item.1
                invariant
                    k <= res@.len(),
                    forall|j: int| 0 <= j < k ==> res@[j].1 >= item.1,
                decreases res@.len() - k,
            {
                k = k + 1;
            }
            let ghost before = res@;
            let ghost perm_before = perm;
            res.insert(k, item);
            proof {
                perm = perm.insert(k as int, i as int);
                vstd::seq_lib::to_multiset_insert(before, k as int, item);
                vstd::seq_lib::to_multiset_build(self.entries@.take(i as int), self.entries@[i as int]);
                assert(self.entries@.take(i + 1) =~= self.entries@.take(i as int).push(
                    self.entries@[i as int],
                ));
                assert forall|a: int| 0 <= a < res@.len() implies #[trigger] res@[a]
                    == self.entries@[perm[a]] && 0 <= perm[a] < i + 1 by {
                    if a < k {
                        assert(res@[a] == before[a]);
                        assert(perm[a] == perm_before[a]);
                    } else if a > k {
                        assert(res@[a] == before[a - 1]);
                        assert(perm[a] == perm_before[a - 1]);
                    }
                }
                assert(spec_sorted_desc(res@)) by {
                    assert forall|a: int, b: int| 0 <= a <= b < res@.len() implies res@[a].1
                        >= res@[b].1 by {
                        if a < k {
                            assert(res@[a] == before[a]);
                        }
                        if b > k {
                            assert(res@[b] == before[b - 1]);
                        }
                    }
                }
                assert forall|a: int, b: int|
                    #![trigger perm[a], perm[b]]
                    0 <= a < b < res@.len() implies perm[a] != perm[b] && (res@[a].1 == res@[b].1
                    ==> perm[a] < perm[b]) by {
                    if b < k {
                        assert(perm[a] == perm_before[a] && perm[b] == perm_before[b]);
                        assert(res@[a] == before[a] && res@[b] == before[b]);
                    } else if a < k && b == k {
                        // an entry left of the new one came from an earlier pass
                        assert(perm[a] == perm_before[a] && perm[a] < i);
                    } else if a < k && b > k {
                        assert(perm[a] == perm_before[a] && perm[b] == perm_before[b - 1]);
                        assert(res@[a] == before[a] && res@[b] == before[b - 1]);
                    } else if a == k {
                        // entries right of the insertion point score strictly less
                        assert(perm[b] == perm_before[b - 1] && res@[b] == before[b - 1]);
                        assert(before[b - 1].1 <= before[k as int].1);
                        assert(before[k as int].1 < item.1);
                    } else {
                        assert(perm[a] == perm_before[a - 1] && perm[b] == perm_before[b - 1]);
                        assert(res@[a] == before[a - 1] && res@[b] == before[b - 1]);
                    }
                }
            }
            i = i + 1;
        }
        proof {
            assert(self.entries@.take(n as int) =~= self.entries@);
            assert(spec_stable_arrangement(perm, self.entries@, res@));
        }
        res
    }
}

/// If the first `i` entries miss the name and entry `i` carries it, the
/// lookup returns entry `i`'s score.
proof fn lemma_lookup_first_match(s: Seq<(String, usize)>, name: Seq<char>, i: int)
    requires
        0 <= i < s.len(),
        s[i].0@ == name,
        forall|j: int| 0 <= j < i ==> s[j].0@ != name,
    ensures
        spec_lookup_in(s, name) == Some(s[i].1),
    decreases i,
{
    if i > 0 {
        lemma_lookup_first_match(s.drop_first(), name, i - 1);
    }
}

/// If no entry carries the name, the lookup returns nothing.
proof fn lemma_lookup_no_match(s: Seq<(String, usize)>, name: Seq<char>)
    requires
        forall|j: int| 0 <= j < s.len() ==> s[j].0@ != name,
    ensures
        spec_lookup_in(s, name) == Option::<usize>::None,
    decreases s.len(),
{
    if s.len() > 0 {
        lemma_lookup_no_match(s.drop_first(), name);
    }
}

/// Overwriting one entry with an entry of the same name leaves the lookup of
/// every other name unchanged.
proof fn lemma_lookup_update_same_name(
    s: Seq<(String, usize)>,
    i: int,
    e: (String, usize),
    name: Seq<char>,
)
    requires
        0 <= i < s.len(),
        s[i].0@ == e.0@,
        name != e.0@,
    ensures
        spec_lookup_in(s.update(i, e), name) == spec_lookup_in(s, name),
    decreases i,
{
    let s2 = s.update(i, e);
    if i == 0 {
        assert(s2.drop_first() =~= s.drop_first());
    } else {
        assert(s2.drop_first() =~= s.drop_first().update(i - 1, e));
        lemma_lookup_update_same_name(s.drop_first(), i - 1, e, name);
    }
}

/// Appending an entry leaves the lookup of every other name unchanged.
proof fn lemma_lookup_push(s: Seq<(String, usize)>, e: (String, usize), name: Seq<char>)
    requires
        name != e.0@,
    ensures
        spec_lookup_in(s.push(e), name) == spec_lookup_in(s, name),
    decreases s.len(),
{
    if s.len() == 0 {
        assert(s.push(e).drop_first() =~= Seq::<(String, usize)>::empty());
        assert(s.push(e)[0] == e);
        assert(spec_lookup_in(Seq::<(String, usize)>::empty(), name) == Option::<usize>::None);
    } else {
        assert(s.push(e)[0] == s[0]);
        assert(s.push(e).drop_first() =~= s.drop_first().push(e));
        lemma_lookup_push(s.drop_first(), e, name);
    }
}

/// The seeded default table: four fixed rivals and the reserved "You" entry
/// starting at zero, in name order.
impl Default for Leaderboard {
    fn default() -> (lb: Leaderboard)
        ensures
            lb.wf(),
            lb.entries@.len() == 5,
            lb.spec_lookup("Democracy Officer"@) == Some(8300usize),
            lb.spec_lookup("Eagle-1"@) == Some(14500usize),
            lb.spec_lookup("John Helldiver"@) == Some(20000usize),
            lb.spec_lookup("Pelican-1"@) == Some(11200usize),
            lb.spec_lookup("You"@) == Some(0usize),
            lb.entries@[0].0@ == "Democracy Officer"@,
            lb.entries@[1].0@ == "Eagle-1"@,
            lb.entries@[2].0@ == "John Helldiver"@,
            lb.entries@[3].0@ == "Pelican-1"@,
            lb.entries@[4].0@ == "You"@,
    {
        let mut lb = Leaderboard::new();
        proof {
            reveal_strlit("Democracy Officer");
            reveal_strlit("Eagle-1");
            reveal_strlit("John Helldiver");
            reveal_strlit("Pelican-1");
            reveal_strlit("You");
        }
        assert("Democracy Officer"@.len() == 17);
        assert("Eagle-1"@.len() == 7);
        assert("John Helldiver"@.len() == 14);
        assert("Pelican-1"@.len() == 9);
        assert("You"@.len() == 3);
        assert("Democracy Officer"@ != "Eagle-1"@);
        assert("Democracy Officer"@ != "John Helldiver"@);
        assert("Democracy Officer"@ != "Pelican-1"@);
        assert("Democracy Officer"@ != "You"@);
        assert("Eagle-1"@ != "John Helldiver"@);
        assert("Eagle-1"@ != "Pelican-1"@);
        assert("Eagle-1"@ != "You"@);
        assert("John Helldiver"@ != "Pelican-1"@);
        assert("John Helldiver"@ != "You"@);
        assert("Pelican-1"@ != "You"@);
        lb.insert("Democracy Officer", 8300);
        lb.insert("Eagle-1", 14500);
        lb.insert("John Helldiver", 20000);
        lb.insert("Pelican-1", 11200);
        lb.insert("You", 0);
        lb
    }
}

} // verus!
