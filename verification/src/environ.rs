//! The environment of a program, as a message: the variables of the local
//! process or of a remote session.
use vstd::prelude::*;

verus! {

/// EnvMsg holds the environment variables of the program as `(key, value)`
/// entries; when a key occurs more than once, its last entry counts. Two
/// environments are equal when they define the same variables with the same
/// values, whatever the order of their entries.
#[derive(Debug, Clone, Eq)]
pub struct EnvMsg {
    /// Environment entries, in order.
    pub vars: Vec<(String, String)>,
}

/// The views of environment entries.
pub open spec fn entry_views(v: Seq<(String, String)>) -> Seq<(Seq<char>, Seq<char>)> {
    v.map_values(|p: (String, String)| (p.0@, p.1@))
}

/// The variables that a sequence of entries defines: each key maps to the
/// value of its last entry.
pub open spec fn env_map(e: Seq<(Seq<char>, Seq<char>)>) -> Map<Seq<char>, Seq<char>>
    decreases e.len(),
{
    if e.len() == 0 {
        Map::empty()
    } else {
        env_map(e.drop_last()).insert(e.last().0, e.last().1)
    }
}

impl View for EnvMsg {
    type V = Map<Seq<char>, Seq<char>>;

    open spec fn view(&self) -> Map<Seq<char>, Seq<char>> {
        env_map(entry_views(self.vars@))
    }
}

/// A key that no entry has is not defined.
pub proof fn lemma_env_absent(e: Seq<(Seq<char>, Seq<char>)>, k: Seq<char>)
    requires
        forall|j: int| 0 <= j < e.len() ==> #[trigger] e[j].0 != k,
    ensures
        !env_map(e).contains_key(k),
    decreases e.len(),
{
    if e.len() > 0 {
        assert forall|j: int| 0 <= j < e.drop_last().len() implies #[trigger] e.drop_last()[j].0
            != k by {
            assert(e.drop_last()[j] == e[j]);
        }
        lemma_env_absent(e.drop_last(), k);
    }
}

/// A key is defined by its last entry: its value is that entry's value.
pub proof fn lemma_env_last(e: Seq<(Seq<char>, Seq<char>)>, k: Seq<char>, i: int)
    requires
        0 <= i < e.len(),
        e[i].0 == k,
        forall|j: int| i < j < e.len() ==> #[trigger] e[j].0 != k,
    ensures
        env_map(e).contains_key(k),
        env_map(e)[k] == e[i].1,
    decreases e.len(),
{
    if i < e.len() - 1 {
        assert forall|j: int| i < j < e.drop_last().len() implies #[trigger] e.drop_last()[j].0
            != k by {
            assert(e.drop_last()[j] == e[j]);
        }
        lemma_env_last(e.drop_last(), k, i);
        assert(e.last().0 != k);
    }
}

/// Whether no two entries have the same key.
pub open spec fn keys_distinct(e: Seq<(Seq<char>, Seq<char>)>) -> bool {
    forall|i: int, j: int| 0 <= i < j < e.len() ==> #[trigger] e[i].0 != #[trigger] e[j].0
}

/// The index of the first entry with the key `k`, or -1 when no entry has
/// it.
pub open spec fn key_position(e: Seq<(Seq<char>, Seq<char>)>, k: Seq<char>) -> int
    decreases e.len(),
{
    if e.len() == 0 {
        -1
    } else if e[0].0 == k {
        0
    } else {
        let r = key_position(e.drop_first(), k);
        if r < 0 {
            -1
        } else {
            r + 1
        }
    }
}

/// The entries that `(key, value)` entries come to when each key is kept
/// once: at the place of its first entry, with the value of its last.
pub open spec fn merged_entries(e: Seq<(Seq<char>, Seq<char>)>) -> Seq<(Seq<char>, Seq<char>)>
    decreases e.len(),
{
    if e.len() == 0 {
        Seq::empty()
    } else {
        let m = merged_entries(e.drop_last());
        let i = key_position(m, e.last().0);
        if i < 0 {
            m.push(e.last())
        } else {
            m.update(i, e.last())
        }
    }
}

/// Where no key occurs twice, the entry with a key is the first with it.
proof fn lemma_key_position(e: Seq<(Seq<char>, Seq<char>)>, k: Seq<char>, idx: int)
    requires
        keys_distinct(e),
        0 <= idx < e.len(),
        e[idx].0 == k,
    ensures
        key_position(e, k) == idx,
    decreases e.len(),
{
    if idx > 0 {
        assert(e[0].0 != e[idx].0);
        let t = e.drop_first();
        assert(t[idx - 1] == e[idx]);
        assert forall|i: int, j: int| 0 <= i < j < t.len() implies #[trigger] t[i].0
            != #[trigger] t[j].0 by {
            assert(t[i] == e[i + 1] && t[j] == e[j + 1]);
        }
        lemma_key_position(t, k, idx - 1);
    }
}

/// A key that no entry has has no position.
proof fn lemma_key_position_absent(e: Seq<(Seq<char>, Seq<char>)>, k: Seq<char>)
    requires
        forall|j: int| 0 <= j < e.len() ==> #[trigger] e[j].0 != k,
    ensures
        key_position(e, k) == -1,
    decreases e.len(),
{
    if e.len() > 0 {
        assert(e[0].0 != k);
        let t = e.drop_first();
        assert forall|j: int| 0 <= j < t.len() implies #[trigger] t[j].0 != k by {
            assert(t[j] == e[j + 1]);
        }
        lemma_key_position_absent(t, k);
    }
}

/// Giving the entry of a key a new value, where no key occurs twice, sets
/// that key to the new value.
proof fn lemma_env_update(e: Seq<(Seq<char>, Seq<char>)>, idx: int, p: (Seq<char>, Seq<char>))
    requires
        keys_distinct(e),
        0 <= idx < e.len(),
        e[idx].0 == p.0,
    ensures
        env_map(e.update(idx, p)) == env_map(e).insert(p.0, p.1),
        keys_distinct(e.update(idx, p)),
    decreases e.len(),
{
    let u = e.update(idx, p);
    assert forall|i: int, j: int| 0 <= i < j < u.len() implies #[trigger] u[i].0 != #[trigger] u[j].0 by {
        assert(e[i].0 != e[j].0);
    }
    if idx == e.len() - 1 {
        assert(u.drop_last() =~= e.drop_last());
        assert(env_map(u) =~= env_map(e).insert(p.0, p.1));
    } else {
        assert(u.drop_last() =~= e.drop_last().update(idx, p));
        assert(e.last().0 != p.0) by {
            assert(e[idx].0 != e[e.len() - 1].0);
        }
        assert(keys_distinct(e.drop_last())) by {
            assert forall|i: int, j: int| 0 <= i < j < e.drop_last().len() implies
                #[trigger] e.drop_last()[i].0 != #[trigger] e.drop_last()[j].0 by {
                assert(e[i].0 != e[j].0);
            }
        }
        lemma_env_update(e.drop_last(), idx, p);
        assert(u.last() == e.last());
        assert(env_map(u) =~= env_map(e).insert(p.0, p.1));
    }
}

/// A key that some entry has is defined.
pub proof fn lemma_env_present(e: Seq<(Seq<char>, Seq<char>)>, i: int)
    requires
        0 <= i < e.len(),
    ensures
        env_map(e).contains_key(e[i].0),
    decreases e.len(),
{
    if i < e.len() - 1 {
        assert(e.drop_last()[i] == e[i]);
        lemma_env_present(e.drop_last(), i);
    }
}

/// Every defined key is the key of some entry.
pub proof fn lemma_env_keys(e: Seq<(Seq<char>, Seq<char>)>, k: Seq<char>)
    requires
        env_map(e).contains_key(k),
    ensures
        exists|j: int| 0 <= j < e.len() && #[trigger] e[j].0 == k,
    decreases e.len(),
{
    if e.last().0 != k {
        lemma_env_keys(e.drop_last(), k);
        let j = choose|j: int| 0 <= j < e.drop_last().len() && #[trigger] e.drop_last()[j].0 == k;
        assert(e[j] == e.drop_last()[j]);
    } else {
        assert(e[e.len() - 1].0 == k);
    }
}

/// Setting an environment then reading a key gives the value of the key's
/// last entry, and an empty value for a key that no entry has.
pub proof fn law_env_read_after_new(pairs: Seq<(String, String)>, k: Seq<char>, i: int)
    requires
        0 <= i < pairs.len(),
        pairs[i].0@ == k,
        forall|j: int| i < j < pairs.len() ==> (#[trigger] pairs[j]).0@ != k,
    ensures
        env_map(entry_views(pairs)).contains_key(k),
        env_map(entry_views(pairs))[k] == pairs[i].1@,
{
    let e = entry_views(pairs);
    assert forall|j: int| i < j < e.len() implies #[trigger] e[j].0 != k by {
        assert(e[j].0 == pairs[j].0@);
    }
    lemma_env_last(e, k, i);
}

impl EnvMsg {
    /// Creates an environment from `(key, value)` pairs: a key that occurs
    /// more than once is kept once, with the value of its last pair.
    pub fn new(pairs: Vec<(String, String)>) -> (e: EnvMsg)
        ensures
            entry_views(e.vars@) == merged_entries(entry_views(pairs@)),
            e@ == env_map(entry_views(pairs@)),
            keys_distinct(entry_views(e.vars@)),
            keys_distinct(entry_views(pairs@)) ==> e.vars@ == pairs@,
    {
        let ghost pv = entry_views(pairs@);
        let mut out = EnvMsg { vars: Vec::new() };
        let mut i: usize = 0;
        proof {
            assert(entry_views(out.vars@) =~= Seq::<(Seq<char>, Seq<char>)>::empty());
            assert(entry_views(pairs@.subrange(0, 0)) =~= Seq::<(Seq<char>, Seq<char>)>::empty());
            assert(out.vars@ =~= pairs@.subrange(0, 0));
        }
        while i < pairs.len()
            invariant
                i <= pairs@.len(),
                pv == entry_views(pairs@),
                out@ == env_map(entry_views(pairs@.subrange(0, i as int))),
                entry_views(out.vars@) == merged_entries(entry_views(pairs@.subrange(0, i as int))),
                keys_distinct(entry_views(out.vars@)),
                keys_distinct(pv) ==> out.vars@ == pairs@.subrange(0, i as int),
            decreases pairs@.len() - i,
        {
            let k = pairs[i].0.clone();
            let v = pairs[i].1.clone();
            let ghost before = out.vars@;
            let ghost ev = entry_views(before);
            proof {
                assert(entry_views(pairs@.subrange(0, i + 1)) =~= entry_views(
                    pairs@.subrange(0, i as int),
                ).push((k@, v@)));
                assert(entry_views(pairs@.subrange(0, i + 1)).drop_last() =~= entry_views(
                    pairs@.subrange(0, i as int),
                ));
            }
            match out.last_index_of(k.as_str()) {
                Some(idx) => {
                    proof {
                        assert(ev[idx as int].0 == k@);
                        lemma_env_update(ev, idx as int, (k@, v@));
                        lemma_key_position(ev, k@, idx as int);
                        if keys_distinct(pv) {
                            assert(pv[idx as int].0 == pairs@[idx as int].0@);
                            assert(pv[i as int].0 == k@);
                        }
                    }
                    out.vars.set(idx, (k, v));
                    proof {
                        assert(entry_views(out.vars@) =~= ev.update(idx as int, (k@, v@)));
                    }
                },
                None => {
                    proof {
                        assert forall|j: int| 0 <= j < ev.len() implies #[trigger] ev[j].0 != k@ by {
                            if ev[j].0 == k@ {
                                lemma_env_present(ev, j);
                            }
                        }
                        lemma_key_position_absent(ev, k@);
                    }
                    out.vars.push((k, v));
                    proof {
                        assert(entry_views(out.vars@) =~= ev.push((k@, v@)));
                        assert(entry_views(out.vars@).drop_last() =~= ev);
                        if keys_distinct(pv) {
                            assert(out.vars@ =~= pairs@.subrange(0, i + 1));
                        }
                    }
                },
            }
            i = i + 1;
        }
        proof {
            assert(pairs@.subrange(0, pairs@.len() as int) =~= pairs@);
        }
        out
    }

    /// Returns the index of the last entry whose key is `key`.
    fn last_index_of(&self, key: &str) -> (r: Option<usize>)
        ensures
            r matches Some(i) ==> i < self.vars@.len() && self.vars@[i as int].0@ == key@
                && self@.contains_key(key@) && self@[key@] == self.vars@[i as int].1@,
            r is None ==> !self@.contains_key(key@),
    {
        let k = key.to_owned();
        let ghost e = entry_views(self.vars@);
        let mut i = self.vars.len();
        while i > 0
            invariant
                i <= self.vars@.len(),
                e == entry_views(self.vars@),
                k@ == key@,
                forall|j: int| i <= j < e.len() ==> #[trigger] e[j].0 != key@,
            decreases i,
        {
            if self.vars[i - 1].0 == k {
                proof {
                    lemma_env_last(e, key@, i - 1);
                }
                return Some(i - 1);
            }
            i = i - 1;
        }
        proof {
            lemma_env_absent(e, key@);
        }
        None
    }

    /// Returns whether every variable of this environment is set to the same
    /// value in `other`.
    fn defines_within(&self, other: &EnvMsg) -> (r: bool)
        ensures
            r == self@.submap_of(other@),
    {
        let ghost e = entry_views(self.vars@);
        let mut i: usize = 0;
        while i < self.vars.len()
            invariant
                i <= self.vars@.len(),
                e == entry_views(self.vars@),
                forall|j: int|
                    0 <= j < i ==> other@.contains_key(#[trigger] e[j].0) && other@[e[j].0]
                        == self@[e[j].0],
            decreases self.vars@.len() - i,
        {
            let key = self.vars[i].0.as_str();
            proof {
                assert(e[i as int].0 == key@);
                lemma_env_present(e, i as int);
            }
            match (self.last_index_of(key), other.last_index_of(key)) {
                (Some(a), Some(b)) => {
                    if self.vars[a].1 != other.vars[b].1 {
                        return false;
                    }
                },
                _ => {
                    return false;
                },
            }
            i = i + 1;
        }
        proof {
            assert forall|k: Seq<char>| #[trigger] self@.contains_key(k) implies other@.contains_key(
                k,
            ) && other@[k] == self@[k] by {
                lemma_env_keys(e, k);
            }
        }
        true
    }

    /// Returns the value of the environment variable `key`, or an empty
    /// string when it is not set.
    pub fn getenv(&self, key: &str) -> (v: String)
        ensures
            v@ == (if self@.contains_key(key@) {
                self@[key@]
            } else {
                Seq::empty()
            }),
    {
        match self.last_index_of(key) {
            Some(i) => self.vars[i].1.clone(),
            None => String::new(),
        }
    }

    /// Returns the value of the environment variable `key` and whether it is
    /// set; the value is empty when it is not.
    pub fn lookup_env(&self, key: &str) -> (r: (String, bool))
        ensures
            r.1 == self@.contains_key(key@),
            r.0@ == (if r.1 {
                self@[key@]
            } else {
                Seq::empty()
            }),
    {
        match self.last_index_of(key) {
            Some(i) => (self.vars[i].1.clone(), true),
            None => (String::new(), false),
        }
    }
}

impl PartialEq for EnvMsg {
    fn eq(&self, other: &EnvMsg) -> (r: bool) {
        let r = self.defines_within(other) && other.defines_within(self);
        proof {
            if self@.submap_of(other@) && other@.submap_of(self@) {
                assert forall|k: Seq<char>| #[trigger] self@.dom().contains(k) == other@.dom().contains(
                    k,
                ) by {
                    if self@.dom().contains(k) {
                        assert(other@.dom().contains(k));
                    }
                    if other@.dom().contains(k) {
                        assert(self@.dom().contains(k));
                    }
                }
                assert(self@ =~= other@);
            }
        }
        r
    }
}

impl vstd::std_specs::cmp::PartialEqSpecImpl for EnvMsg {
    open spec fn obeys_eq_spec() -> bool {
        true
    }

    open spec fn eq_spec(&self, other: &EnvMsg) -> bool {
        self@ == other@
    }
}

} // verus!
