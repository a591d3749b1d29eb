//! The shape constraints that the shaper page switches: whether the shaper
//! constrains shapes at all, and the set of ratios it snaps to.

use vstd::prelude::*;

verus! {

/// A ratio that the shaper page can switch on.
#[derive(Clone, Copy, Debug, PartialEq, Eq, Structural)]
pub enum ConstraintRatio {
    OneToOne,
    ThreeToTwo,
    Golden,
}

/// The constraints of the shaper: whether they apply, and the ratios, each
/// held once.
pub struct ShaperConstraints {
    enabled: bool,
    ratios: Vec<ConstraintRatio>,
}

/// The states of the page's switches.
#[derive(Clone, Copy, Debug, PartialEq, Eq, Structural)]
pub struct ConstraintSwitches {
    pub enabled: bool,
    pub one_to_one: bool,
    pub three_to_two: bool,
    pub golden: bool,
}

impl ShaperConstraints {
    /// The set of ratios.
    pub closed spec fn ratio_set(self) -> Set<ConstraintRatio> {
        self.ratios@.to_set()
    }

    /// Whether the constraints apply.
    pub closed spec fn is_enabled(self) -> bool {
        self.enabled
    }

    /// Returns whether the constraints apply.
    pub fn enabled(&self) -> (r: bool)
        ensures
            r == self.is_enabled(),
    {
        self.enabled
    }

    /// Each ratio is held once.
    pub closed spec fn wf(self) -> bool {
        self.ratios@.no_duplicates()
    }

    /// No constraints: switched off, with no ratios.
    pub fn new() -> (c: Self)
        ensures
            c.wf(),
            !c.is_enabled(),
            c.ratio_set() == Set::<ConstraintRatio>::empty(),
    {
        let c = ShaperConstraints { enabled: false, ratios: Vec::new() };
        proof {
            assert(c.ratios@.to_set() =~= Set::<ConstraintRatio>::empty());
        }
        c
    }

    /// Constraints with the given ratios, each taken once.
    pub fn with_ratios(enabled: bool, ratios: &Vec<ConstraintRatio>) -> (c: Self)
        ensures
            c.wf(),
            c.is_enabled() == enabled,
            c.ratio_set() == ratios@.to_set(),
    {
        let mut c = ShaperConstraints { enabled, ratios: Vec::new() };
        proof {
            assert(c.ratios@.to_set() =~= Set::<ConstraintRatio>::empty());
        }
        let mut i: usize = 0;
        while i < ratios.len()
            invariant
                i <= ratios@.len(),
                c.wf(),
                c.is_enabled() == enabled,
                c.ratio_set() == ratios@.subrange(0, i as int).to_set(),
            decreases ratios@.len() - i,
        {
            c.set_ratio(ratios[i], true);
            proof {
                assert(ratios@.subrange(0, i + 1).to_set() =~= ratios@.subrange(0, i as int).to_set().insert(
                    ratios@[i as int],
                )) by {
                    assert(ratios@.subrange(0, i + 1) =~= ratios@.subrange(0, i as int).push(
                        ratios@[i as int],
                    ));
                    ratios@.subrange(0, i as int).lemma_push_to_set_commute(ratios@[i as int]);
                }
            }
            i = i + 1;
        }
        proof {
            assert(ratios@.subrange(0, i as int) =~= ratios@);
        }
        c
    }

    /// Whether the ratio is switched on.
    pub fn has_ratio(&self, ratio: ConstraintRatio) -> (r: bool)
        ensures
            r == self.ratio_set().contains(ratio),
    {
        let mut i: usize = 0;
        while i < self.ratios.len()
            invariant
                i <= self.ratios@.len(),
                forall|j: int| 0 <= j < i ==> self.ratios@[j] != ratio,
            decreases self.ratios@.len() - i,
        {
            if self.ratios[i] == ratio {
                proof {
                    assert(self.ratios@.contains(ratio));
                }
                return true;
            }
            i = i + 1;
        }
        proof {
            assert(!self.ratios@.contains(ratio));
        }
        false
    }

    /// A ratio's switch changed: the ratio is added when it is on and
    /// removed when it is off.
    pub fn set_ratio(&mut self, ratio: ConstraintRatio, on: bool)
        requires
            old(self).wf(),
        ensures
            final(self).wf(),
            final(self).is_enabled() == old(self).is_enabled(),
            final(self).ratio_set() == (if on {
                old(self).ratio_set().insert(ratio)
            } else {
                old(self).ratio_set().remove(ratio)
            }),
    {
        let present = self.has_ratio(ratio);
        if on {
            if !present {
                let ghost before = self.ratios@;
                self.ratios.push(ratio);
                proof {
                    before.lemma_push_to_set_commute(ratio);
                    assert(self.ratios@ == before.push(ratio));
                    assert forall|a: int, b: int|
                        0 <= a < self.ratios@.len() && 0 <= b < self.ratios@.len() && a != b implies self.ratios@[a]
                        != self.ratios@[b] by {
                        if a == before.len() {
                            assert(!before.contains(ratio));
                            assert(self.ratios@[b] == before[b]);
                        } else if b == before.len() {
                            assert(!before.contains(ratio));
                            assert(self.ratios@[a] == before[a]);
                        }
                    }
                }
            } else {
                proof {
                    assert(self.ratio_set().insert(ratio) =~= self.ratio_set());
                }
            }
        } else {
            let ghost before = self.ratios@;
            let mut kept: Vec<ConstraintRatio> = Vec::new();
            let mut i: usize = 0;
            while i < self.ratios.len()
                invariant
                    i <= self.ratios@.len(),
                    before == self.ratios@,
                    before.no_duplicates(),
                    kept@.no_duplicates(),
                    forall|x: ConstraintRatio| #[trigger]
                        kept@.contains(x) <==> (before.subrange(0, i as int).contains(x) && x != ratio),
                decreases self.ratios@.len() - i,
            {
                let x = self.ratios[i];
                let ghost k0 = kept@;
                let ghost sub = before.subrange(0, i as int);
                if x != ratio {
                    kept.push(x);
                    proof {
                        assert(!k0.contains(x)) by {
                            if k0.contains(x) {
                                let m = choose|m: int| 0 <= m < sub.len() && sub[m] == x;
                                assert(before[m] == before[i as int]);
                            }
                        }
                        assert forall|a: int, b: int|
                            0 <= a < kept@.len() && 0 <= b < kept@.len() && a != b implies kept@[a]
                            != kept@[b] by {
                            if a == k0.len() {
                                assert(kept@[b] == k0[b]);
                                assert(k0.contains(k0[b]));
                            } else if b == k0.len() {
                                assert(kept@[a] == k0[a]);
                                assert(k0.contains(k0[a]));
                            }
                        }
                    }
                }
                proof {
                    let sub1 = before.subrange(0, i + 1);
                    assert(sub1 =~= sub.push(x));
                    assert forall|y: ConstraintRatio| #[trigger]
                        kept@.contains(y) <==> (sub1.contains(y) && y != ratio) by {
                        // what the new prefix holds
                        if sub1.contains(y) {
                            let m = choose|m: int| 0 <= m < sub1.len() && sub1[m] == y;
                            if m < sub.len() {
                                assert(sub[m] == y);
                                assert(sub.contains(y));
                            } else {
                                assert(y == x);
                            }
                        }
                        if sub.contains(y) {
                            let m = choose|m: int| 0 <= m < sub.len() && sub[m] == y;
                            assert(sub1[m] == y);
                        }
                        assert(sub1[sub.len() as int] == x);
                        // what the kept list holds
                        if x != ratio {
                            assert(kept@ == k0.push(x));
                            if kept@.contains(y) {
                                let m = choose|m: int| 0 <= m < kept@.len() && kept@[m] == y;
                                if m < k0.len() {
                                    assert(k0[m] == y);
                                    assert(k0.contains(y));
                                }
                            }
                            if k0.contains(y) {
                                let m = choose|m: int| 0 <= m < k0.len() && k0[m] == y;
                                assert(kept@[m] == y);
                            }
                            assert(kept@[k0.len() as int] == x);
                        }
                    }
                }
                i = i + 1;
            }
            self.ratios = kept;
            proof {
                assert(before.subrange(0, before.len() as int) =~= before);
                assert(self.ratio_set() =~= before.to_set().remove(ratio));
            }
        }
    }

    /// Switches the constraints on or off.
    pub fn set_enabled(&mut self, enabled: bool)
        ensures
            final(self).is_enabled() == enabled,
            final(self).ratio_set() == old(self).ratio_set(),
            old(self).wf() ==> final(self).wf(),
    {
        self.enabled = enabled;
    }

    /// The states of the page's switches for the constraints.
    pub fn switch_states(&self) -> (s: ConstraintSwitches)
        ensures
            s == (ConstraintSwitches {
                enabled: self.is_enabled(),
                one_to_one: self.ratio_set().contains(ConstraintRatio::OneToOne),
                three_to_two: self.ratio_set().contains(ConstraintRatio::ThreeToTwo),
                golden: self.ratio_set().contains(ConstraintRatio::Golden),
            }),
    {
        ConstraintSwitches {
            enabled: self.enabled,
            one_to_one: self.has_ratio(ConstraintRatio::OneToOne),
            three_to_two: self.has_ratio(ConstraintRatio::ThreeToTwo),
            golden: self.has_ratio(ConstraintRatio::Golden),
        }
    }
}

/// A switch shows what was last set through it, and the other ratios keep
/// their state.
pub proof fn lemma_switch_shows_last_set(
    before: Set<ConstraintRatio>,
    ratio: ConstraintRatio,
    on: bool,
    other: ConstraintRatio,
)
    requires
        other != ratio,
    ensures
        (if on {
            before.insert(ratio)
        } else {
            before.remove(ratio)
        }).contains(ratio) == on,
        (if on {
            before.insert(ratio)
        } else {
            before.remove(ratio)
        }).contains(other) == before.contains(other),
{
}

} // verus!
