//! The field-driver registry: which tags a driver emits for, and at what
//! cadence. A driver shell owns the clock, the waveform and the tasks; the
//! registry holds the decisions they poll.

use vstd::prelude::*;

verus! {

/// The registered cadences, keyed by tag name; a later registration of a
/// name replaces its cadence.
pub open spec fn cadence_map(s: Seq<(String, u64)>) -> Map<Seq<char>, u64>
    decreases s.len(),
{
    if s.len() == 0 {
        Map::empty()
    } else {
        cadence_map(s.drop_last()).insert(s.last().0@, s.last().1)
    }
}

/// Whether the entries carry pairwise distinct names.
pub open spec fn distinct_names(s: Seq<(String, u64)>) -> bool {
    forall|i: int, j: int| 0 <= i < j < s.len() ==> s[i].0@ != s[j].0@
}

proof fn lemma_cadence_map_domain(s: Seq<(String, u64)>)
    ensures
        forall|k: Seq<char>|
            #[trigger] cadence_map(s).dom().contains(k) <==> exists|i: int|
                0 <= i < s.len() && #[trigger] s[i].0@ == k,
    decreases s.len(),
{
    if s.len() > 0 {
        let t = s.drop_last();
        lemma_cadence_map_domain(t);
        assert forall|k: Seq<char>| #[trigger] cadence_map(s).dom().contains(k) implies exists|
            i: int,
        | 0 <= i < s.len() && #[trigger] s[i].0@ == k by {
            if k == s.last().0@ {
                assert(s[s.len() - 1].0@ == k);
            } else {
                assert(cadence_map(t).dom().contains(k));
                let i = choose|i: int| 0 <= i < t.len() && #[trigger] t[i].0@ == k;
                assert(t[i] == s[i]);
                assert(s[i].0@ == k);
            }
        }
        assert forall|k: Seq<char>|
            exists|i: int| 0 <= i < s.len() && #[trigger] s[i].0@ == k implies #[trigger] cadence_map(
            s,
        ).dom().contains(k) by {
            let i = choose|i: int| 0 <= i < s.len() && #[trigger] s[i].0@ == k;
            if i < s.len() - 1 {
                assert(t[i] == s[i]);
                assert(t[i].0@ == k);
                assert(cadence_map(t).dom().contains(k));
            }
        }
    }
}

proof fn lemma_cadence_map_value(s: Seq<(String, u64)>, i: int)
    requires
        distinct_names(s),
        0 <= i < s.len(),
    ensures
        cadence_map(s).dom().contains(s[i].0@),
        cadence_map(s)[s[i].0@] == s[i].1,
    decreases s.len(),
{
    if i == s.len() - 1 {
    } else {
        lemma_cadence_map_value(s.drop_last(), i);
        assert(s.drop_last()[i] == s[i]);
        assert(s[s.len() - 1].0@ != s[i].0@);
    }
}

proof fn lemma_cadence_map_update(s: Seq<(String, u64)>, i: int, e: (String, u64))
    requires
        distinct_names(s),
        0 <= i < s.len(),
        s[i].0@ == e.0@,
    ensures
        cadence_map(s.update(i, e)) =~= cadence_map(s).insert(e.0@, e.1),
    decreases s.len(),
{
    let s2 = s.update(i, e);
    if i == s.len() - 1 {
        assert(s2.drop_last() =~= s.drop_last());
        assert(s2.last() == e);
    } else {
        lemma_cadence_map_update(s.drop_last(), i, e);
        assert(s2.drop_last() =~= s.drop_last().update(i, e));
        assert(s2.last() == s.last());
        assert(s.last().0@ != e.0@);
    }
}

/// Which tags a driver emits for, each with its cadence in milliseconds.
pub struct DriverRegistry {
    default_rate_ms: u64,
    tags: Vec<(String, u64)>,
}

impl View for DriverRegistry {
    type V = Map<Seq<char>, u64>;

    closed spec fn view(&self) -> Map<Seq<char>, u64> {
        cadence_map(self.tags@)
    }
}

impl DriverRegistry {
    /// The registry keeps one cadence per name.
    pub closed spec fn wf(&self) -> bool {
        distinct_names(self.tags@)
    }

    /// The driver's intrinsic cadence, used where a registration names
    /// none.
    pub closed spec fn default_rate_spec(&self) -> u64 {
        self.default_rate_ms
    }

    /// An empty registry with the given intrinsic cadence.
    pub fn new(default_rate_ms: u64) -> (r: Self)
        ensures
            r.wf(),
            r@ == Map::<Seq<char>, u64>::empty(),
            r.default_rate_spec() == default_rate_ms,
    {
        DriverRegistry { default_rate_ms, tags: Vec::new() }
    }

    /// The intrinsic cadence, in milliseconds.
    pub fn default_poll_rate(&self) -> (r: u64)
        ensures
            r == self.default_rate_spec(),
    {
        self.default_rate_ms
    }

    /// Declare interest in a tag, at the given cadence or, where none is
    /// given, the intrinsic one. Registering a name again replaces its
    /// cadence.
    pub fn register_tag(&mut self, name: String, poll_rate: Option<u64>)
        requires
            old(self).wf(),
        ensures
            final(self).wf(),
            final(self)@ == old(self)@.insert(
                name@,
                match poll_rate {
                    Some(rate) => rate,
                    None => old(self).default_rate_spec(),
                },
            ),
            final(self).default_rate_spec() == old(self).default_rate_spec(),
    {
        let rate = match poll_rate {
            Some(r) => r,
            None => self.default_rate_ms,
        };
        let mut i: usize = 0;
        while i < self.tags.len()
            invariant
                old(self).wf(),
                i <= self.tags@.len(),
                forall|j: int| 0 <= j < i ==> (#[trigger] self.tags@[j]).0@ != name@,
                self == old(self),
                rate == (match poll_rate {
                    Some(r) => r,
                    None => old(self).default_rate_spec(),
                }),
            decreases self.tags@.len() - i,
        {
            if self.tags[i].0 == name {
                proof {
                    lemma_cadence_map_update(self.tags@, i as int, (name, rate));
                }
                self.tags.set(i, (name, rate));
                proof {
                    assert forall|a: int, b: int|
                        0 <= a < b < self.tags@.len() implies (#[trigger] self.tags@[a]).0@ != (
                    #[trigger] self.tags@[b]).0@ by {
                        assert(self.tags@[a].0@ == old(self).tags@[a].0@);
                        assert(self.tags@[b].0@ == old(self).tags@[b].0@);
                        assert(old(self).tags@[a].0@ != old(self).tags@[b].0@);
                    }
                }
                return ;
            }
            i = i + 1;
        }
        proof {
            lemma_cadence_map_domain(self.tags@);
            assert(self.tags@.push((name, rate)).drop_last() =~= self.tags@);
        }
        self.tags.push((name, rate));
    }

    /// The registered tags and cadences: exactly the pairs of the registry,
    /// each name once, in no promised order.
    pub fn entries(&self) -> (r: &Vec<(String, u64)>)
        requires
            self.wf(),
        ensures
            forall|i: int, j: int| 0 <= i < j < r@.len() ==> r@[i].0@ != r@[j].0@,
            forall|i: int|
                0 <= i < r@.len() ==> self@.dom().contains(#[trigger] r@[i].0@)
                    && self@[r@[i].0@] == r@[i].1,
            forall|k: Seq<char>|
                #[trigger] self@.dom().contains(k) ==> exists|i: int|
                    0 <= i < r@.len() && #[trigger] r@[i].0@ == k,
    {
        proof {
            lemma_cadence_map_domain(self.tags@);
            assert forall|i: int|
                0 <= i < self.tags@.len() implies self@.dom().contains(
                #[trigger] self.tags@[i].0@) && self@[self.tags@[i].0@] == self.tags@[i].1 by {
                lemma_cadence_map_value(self.tags@, i);
            }
        }
        &self.tags
    }
}

} // verus!
