//! The DMX output: the values of the channels of every universe written so
//! far. A channel keeps its value until it is written again.
use vstd::prelude::*;

use crate::patch::{DMX_CHANNEL_MAX, DMX_CHANNEL_MIN};

verus! {

/// The DMX values of the universes written so far, each universe with all
/// its channels, in the order the universes were first written.
#[derive(Debug)]
pub struct Multiverse {
    universes: Vec<(u16, Vec<u8>)>,
}

/// The index of the universe with this number.
pub open spec fn universe_index(us: Seq<(u16, Seq<u8>)>, universe: u16) -> Option<int> {
    if exists|i: int| 0 <= i < us.len() && #[trigger] us[i].0 == universe {
        Some(choose|i: int| 0 <= i < us.len() && #[trigger] us[i].0 == universe)
    } else {
        None
    }
}

/// The value of channel `c` of universe `u` after writing `values` to
/// universe `universe` one after the other, where it was `before`: the last
/// value written to it, or `before`.
pub open spec fn written_value(values: Seq<(u16, u8)>, universe: u16, u: u16, c: u16, before: u8) -> u8
    decreases values.len(),
{
    if values.len() == 0 {
        before
    } else if u == universe && values.last().0 == c {
        values.last().1
    } else {
        written_value(values.drop_last(), universe, u, c, before)
    }
}

impl Multiverse {
    #[verifier::type_invariant]
    spec fn well_formed(self) -> bool {
        &&& forall|i: int| 0 <= i < self.universes@.len() ==> #[trigger] self.universes@[i].1@.len() == 512
        &&& forall|i: int, j: int|
            0 <= i < self.universes@.len() && 0 <= j < self.universes@.len() && i != j
                ==> #[trigger] self.universes@[i].0 != #[trigger] self.universes@[j].0
    }

    /// The universes as plain values.
    pub closed spec fn view_universes(self) -> Seq<(u16, Seq<u8>)> {
        self.universes@.map_values(|u: (u16, Vec<u8>)| (u.0, u.1@))
    }

    /// The value of a channel: what was last written to it, or zero.
    pub closed spec fn value_at(self, universe: u16, channel: u16) -> u8 {
        match universe_index(self.view_universes(), universe) {
            Some(i) => if DMX_CHANNEL_MIN <= channel <= DMX_CHANNEL_MAX {
                self.view_universes()[i].1[channel - 1]
            } else {
                0
            },
            None => 0,
        }
    }

    /// The numbers of the universes written so far.
    pub closed spec fn universe_ids(self) -> Set<u16> {
        Set::new(|u: u16| universe_index(self.view_universes(), u) is Some)
    }

    /// A multiverse with no universe written.
    pub fn new() -> (r: Multiverse)
        ensures
            forall|u: u16, c: u16| r.value_at(u, c) == 0,
            r.universe_ids() == Set::<u16>::empty(),
    {
        let r = Multiverse { universes: Vec::new() };
        assert(r.universe_ids() =~= Set::<u16>::empty());
        r
    }

    /// The position of the universe with this number.
    fn position(&self, universe: u16) -> (r: Option<usize>)
        ensures
            match r {
                Some(i) => i < self.universes@.len() && universe_index(self.view_universes(), universe)
                    == Some(i as int),
                None => universe_index(self.view_universes(), universe) is None,
            },
    {
        proof {
            use_type_invariant(self);
        }
        let n = self.universes.len();
        let ghost us = self.view_universes();
        for i in 0..n
            invariant
                n == self.universes@.len(),
                us == self.view_universes(),
                us.len() == n,
                forall|a: int, b: int|
                    0 <= a < self.universes@.len() && 0 <= b < self.universes@.len() && a != b
                        ==> #[trigger] self.universes@[a].0 != #[trigger] self.universes@[b].0,
                forall|j: int| 0 <= j < i ==> #[trigger] us[j].0 != universe,
        {
            if self.universes[i].0 == universe {
                proof {
                    assert(us[i as int].0 == universe);
                    let k = choose|k: int| 0 <= k < us.len() && #[trigger] us[k].0 == universe;
                    assert(self.universes@[k].0 == self.universes@[i as int].0);
                    assert(k == i);
                }
                return Some(i);
            }
        }
        None
    }

    /// The value of a channel: what was last written to it, or zero.
    pub fn value(&self, universe: u16, channel: u16) -> (r: u8)
        ensures
            r == self.value_at(universe, channel),
    {
        proof {
            use_type_invariant(self);
        }
        match self.position(universe) {
            Some(i) => {
                if DMX_CHANNEL_MIN <= channel && channel <= DMX_CHANNEL_MAX {
                    assert(self.universes@[i as int].1@.len() == 512);
                    self.universes[i].1[(channel - 1) as usize]
                } else {
                    0
                }
            },
            None => 0,
        }
    }

    /// Writes a value to a channel of a universe; every other channel keeps
    /// its value.
    pub fn set_value(&mut self, universe: u16, channel: u16, value: u8)
        requires
            DMX_CHANNEL_MIN <= channel <= DMX_CHANNEL_MAX,
        ensures
            final(self).value_at(universe, channel) == value,
            forall|u: u16, c: u16|
                (u, c) != (universe, channel) ==> #[trigger] final(self).value_at(u, c) == old(
                    self,
                ).value_at(u, c),
            final(self).universe_ids() == old(self).universe_ids().insert(universe),
    {
        proof {
            use_type_invariant(&*self);
        }
        let ghost old_us = self.view_universes();
        let pos = self.position(universe);
        let mut parts = Multiverse { universes: Vec::new() };
        std::mem::swap(self, &mut parts);
        let Multiverse { universes: mut us } = parts;
        let ghost before = us@;
        match pos {
            Some(i) => {
                let (u, mut slots) = us.remove(i);
                assert(slots@.len() == 512);
                slots.set((channel - 1) as usize, value);
                us.insert(i, (u, slots));
                assert(us@ =~= before.update(i as int, us@[i as int]));
            },
            None => {
                let mut slots: Vec<u8> = Vec::new();
                for k in 0..512usize
                    invariant
                        slots@.len() == k,
                        forall|j: int| 0 <= j < k ==> slots@[j] == 0,
                {
                    slots.push(0);
                }
                slots.set((channel - 1) as usize, value);
                us.push((universe, slots));
            },
        }
        proof {
            let new_us = us@.map_values(|u: (u16, Vec<u8>)| (u.0, u.1@));
            match pos {
                Some(i) => {
                    assert(forall|j: int| 0 <= j < us@.len() && j != i ==> us@[j] == before[j]);
                    assert(forall|j: int| 0 <= j < us@.len() ==> #[trigger] us@[j].0 == before[j].0);
                },
                None => {
                    assert(forall|j: int| 0 <= j < before.len() ==> us@[j] == before[j]);
                },
            }
            assert forall|u: u16| universe_index(new_us, u) == (if u == universe {
                match pos {
                    Some(i) => Some(i as int),
                    None => Some(before.len() as int),
                }
            } else {
                universe_index(old_us, u)
            }) by {
                match pos {
                    Some(i) => {
                        assert(new_us.len() == old_us.len());
                        assert(forall|j: int| 0 <= j < new_us.len() ==> #[trigger] new_us[j].0 == old_us[j].0);
                        assert(forall|j: int| 0 <= j < new_us.len() ==> #[trigger] new_us[j].0 == old_us[j].0);
                        if exists|k: int| 0 <= k < new_us.len() && #[trigger] new_us[k].0 == u {
                            let k = choose|k: int| 0 <= k < new_us.len() && #[trigger] new_us[k].0 == u;
                            assert(old_us[k].0 == u);
                            let k2 = choose|k: int| 0 <= k < old_us.len() && #[trigger] old_us[k].0 == u;
                            assert(new_us[k2].0 == u);
                        } else {
                            if exists|k: int| 0 <= k < old_us.len() && #[trigger] old_us[k].0 == u {
                                let k = choose|k: int| 0 <= k < old_us.len() && #[trigger] old_us[k].0 == u;
                                assert(new_us[k].0 == u);
                            }
                        }
                    },
                    None => {
                        let m = old_us.len() as int;
                        assert(new_us[m].0 == universe);
                        if exists|k: int| 0 <= k < new_us.len() && #[trigger] new_us[k].0 == u {
                            let k = choose|k: int| 0 <= k < new_us.len() && #[trigger] new_us[k].0 == u;
                            if k < m {
                                assert(old_us[k].0 == u);
                            }
                            if u != universe {
                                let k2 = choose|k: int| 0 <= k < old_us.len() && #[trigger] old_us[k].0 == u;
                                assert(new_us[k2].0 == u);
                            }
                        } else {
                            if exists|k: int| 0 <= k < old_us.len() && #[trigger] old_us[k].0 == u {
                                let k = choose|k: int| 0 <= k < old_us.len() && #[trigger] old_us[k].0 == u;
                                assert(new_us[k].0 == u);
                            }
                        }
                    },
                }
            }
        }
        proof {
            assert forall|j: int| 0 <= j < us@.len() implies #[trigger] us@[j].1@.len() == 512 by {
                if j < before.len() && (pos is None || j != pos.unwrap()) {
                    assert(us@[j] == before[j]);
                }
            }
            assert forall|a: int, b: int|
                0 <= a < us@.len() && 0 <= b < us@.len() && a != b implies #[trigger] us@[a].0
                != #[trigger] us@[b].0 by {
                match pos {
                    Some(i) => {
                        assert(us@[a].0 == before[a].0);
                        assert(us@[b].0 == before[b].0);
                    },
                    None => {
                        if a < before.len() && b < before.len() {
                            assert(us@[a] == before[a]);
                            assert(us@[b] == before[b]);
                        } else if a < before.len() {
                            assert(us@[a] == before[a]);
                            assert(old_us[a].0 == before[a].0);
                            assert(old_us[a].0 != universe);
                        } else {
                            assert(us@[b] == before[b]);
                            assert(old_us[b].0 == before[b].0);
                            assert(old_us[b].0 != universe);
                        }
                    },
                }
            }
        }
        *self = Multiverse { universes: us };
        proof {
            assert(self.universe_ids() =~= old(self).universe_ids().insert(universe));
        }
    }

    /// Writes channel values to a universe, one after the other.
    pub fn write_channels(&mut self, universe: u16, values: &[(u16, u8)])
        requires
            forall|i: int| 0 <= i < values@.len() ==> DMX_CHANNEL_MIN <= #[trigger] values@[i].0 <= DMX_CHANNEL_MAX,
        ensures
            forall|u: u16, c: u16|
                #[trigger] final(self).value_at(u, c) == written_value(values@, universe, u, c, old(self).value_at(u, c)),
    {
        let n = values.len();
        for i in 0..n
            invariant
                n == values@.len(),
                forall|k: int| 0 <= k < values@.len() ==> DMX_CHANNEL_MIN <= #[trigger] values@[k].0 <= DMX_CHANNEL_MAX,
                forall|u: u16, c: u16|
                    #[trigger] self.value_at(u, c) == written_value(
                        values@.subrange(0, i as int),
                        universe,
                        u,
                        c,
                        old(self).value_at(u, c),
                    ),
        {
            let (c, v) = values[i];
            let ghost prev = *self;
            self.set_value(universe, c, v);
            proof {
                assert(values@.subrange(0, i + 1).drop_last() =~= values@.subrange(0, i as int));
                assert forall|u: u16, c2: u16| #[trigger] self.value_at(u, c2) == written_value(
                    values@.subrange(0, i + 1),
                    universe,
                    u,
                    c2,
                    old(self).value_at(u, c2),
                ) by {
                    assert(prev.value_at(u, c2) == written_value(
                        values@.subrange(0, i as int),
                        universe,
                        u,
                        c2,
                        old(self).value_at(u, c2),
                    ));
                }
            }
        }
        assert(values@.subrange(0, n as int) =~= values@);
    }

    /// The universes written so far, each with the values of its channels
    /// (channel `c` at index `c - 1`), in the order they were first written.
    pub fn universes(&self) -> (r: &[(u16, Vec<u8>)])
        ensures
            r@.map_values(|u: (u16, Vec<u8>)| (u.0, u.1@)) == self.view_universes(),
    {
        self.universes.as_slice()
    }
}

} // verus!
