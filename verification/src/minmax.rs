//! Running statistics over a series of observed values.

use vstd::prelude::*;

verus! {

/// Minimum, maximum and ordering of the values observed so far.
#[derive(Debug, Clone, Copy, PartialEq, Eq, Structural)]
pub struct MinMax {
    /// Number of observations.
    pub nb: i32,
    /// Smallest observation, meaningful once `nb` is not zero.
    pub min: i32,
    /// Largest observation, meaningful once `nb` is not zero.
    pub max: i32,
    /// Most recent observation.
    pub last: i32,
    /// Whether no observation was smaller than the one before it.
    pub ordre: bool,
}

/// The tracker that has observed nothing.
pub open spec fn empty_min_max() -> MinMax {
    MinMax { nb: 0, min: 0, max: 0, last: 0, ordre: true }
}

/// The tracker `m` after it has observed `valeur`.
pub open spec fn observe(m: MinMax, valeur: i32) -> MinMax {
    MinMax {
        nb: (m.nb + 1) as i32,
        min: if m.nb == 0 || valeur < m.min { valeur } else { m.min },
        max: if m.nb == 0 || m.max < valeur { valeur } else { m.max },
        last: valeur,
        ordre: m.ordre && (m.nb == 0 || m.last <= valeur),
    }
}

/// The tracker `m` after it has observed the values of `s`, first to last.
pub open spec fn observe_all(m: MinMax, s: Seq<i32>) -> MinMax
    decreases s.len(),
{
    if s.len() == 0 {
        m
    } else {
        observe(observe_all(m, s.drop_last()), s.last())
    }
}

/// Whether no element of `s` is smaller than the one before it.
pub open spec fn non_decreasing(s: Seq<i32>) -> bool {
    forall|i: int, j: int| 0 <= i <= j < s.len() ==> s[i] <= s[j]
}

/// Whether `m` summarises exactly the observations `s`.
pub open spec fn summarises(m: MinMax, s: Seq<i32>) -> bool {
    &&& m.nb == s.len()
    &&& m.ordre == non_decreasing(s)
    &&& s.len() > 0 ==> {
        &&& m.last == s.last()
        &&& s.contains(m.min)
        &&& s.contains(m.max)
        &&& forall|i: int| 0 <= i < s.len() ==> m.min <= #[trigger] s[i] <= m.max
    }
    &&& s.len() == 0 ==> m == empty_min_max()
}

impl MinMax {
    /// Records one more observation.
    pub fn add(&mut self, valeur: i32)
        requires
            old(self).nb < i32::MAX,
        ensures
            *final(self) == observe(*old(self), valeur),
    {
        if self.nb == 0 {
            self.min = valeur;
            self.max = valeur;
        } else {
            if self.min > valeur {
                self.min = valeur;
            }
            if self.max < valeur {
                self.max = valeur;
            }
        }
        if self.ordre {
            if self.nb != 0 && self.last > valeur {
                self.ordre = false;
            }
        }
        self.nb += 1;
        self.last = valeur;
    }
}

impl Default for MinMax {
    fn default() -> (m: MinMax)
        ensures
            m == (MinMax { nb: 0, min: 0, max: 0, last: 0, ordre: false }),
    {
        MinMax { nb: 0, min: 0, max: 0, last: 0, ordre: false }
    }
}

/// Creates a tracker that has observed nothing.
pub fn create_min_max() -> (m: MinMax)
    ensures
        m == empty_min_max(),
{
    MinMax { nb: 0, min: 0, max: 0, last: 0, ordre: true }
}

/// A fresh tracker that has observed `s`, a series short enough to be
/// counted, summarises it: it holds the length, the smallest and the largest
/// value, the last value, and whether the series never decreases.
pub proof fn lemma_observe_all_summarises(s: Seq<i32>)
    requires
        s.len() <= i32::MAX,
    ensures
        summarises(observe_all(empty_min_max(), s), s),
    decreases s.len(),
{
    if s.len() > 0 {
        let p = s.drop_last();
        let v = s.last();
        lemma_observe_all_summarises(p);
        let mp = observe_all(empty_min_max(), p);
        let m = observe_all(empty_min_max(), s);
        assert(m == observe(mp, v));
        assert forall|i: int| 0 <= i < p.len() implies p[i] == s[i] by {}
        if p.len() == 0 {
            assert(s[0] == v);
            assert(non_decreasing(s));
        } else {
            assert(p.last() == s[s.len() - 2]);
            if mp.ordre && mp.last <= v {
                assert forall|i: int, j: int| 0 <= i <= j < s.len() implies s[i] <= s[j] by {
                    if j < p.len() {
                        assert(p[i] <= p[j]);
                    } else if i < p.len() {
                        assert(p[i] <= p[p.len() - 1]);
                    }
                }
            } else if mp.ordre {
                assert(!(s[s.len() - 2] <= s[s.len() - 1]));
            } else {
                let (i, j) = choose|i: int, j: int| 0 <= i <= j < p.len() && !(p[i] <= p[j]);
                assert(!(s[i] <= s[j]));
            }
            let kmin = choose|k: int| 0 <= k < p.len() && p[k] == mp.min;
            let kmax = choose|k: int| 0 <= k < p.len() && p[k] == mp.max;
            assert(s[kmin] == mp.min);
            assert(s[kmax] == mp.max);
        }
        assert(s[s.len() - 1] == v);
        assert(s.contains(m.min));
        assert(s.contains(m.max));
        assert forall|i: int| 0 <= i < s.len() implies m.min <= #[trigger] s[i] <= m.max by {
            if i < p.len() {
                assert(mp.min <= p[i] <= mp.max);
            }
        }
    }
}

} // verus!
