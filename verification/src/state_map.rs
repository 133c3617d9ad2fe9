//! A verified association map from 32-bit key codes to input states.
//!
//! The tracker keeps one of these per key space. Entries live in a vector
//! whose key codes are pairwise distinct; the map it stands for is the view.

use vstd::prelude::*;

use crate::input::InputState;

verus! {

/// No key code occurs twice in the entry list.
pub open spec fn distinct_keys(s: Seq<(u32, InputState)>) -> bool {
    forall|i: int, j: int| 0 <= i < j < s.len() ==> s[i].0 != s[j].0
}

/// The map an entry list stands for. A later entry would win, though a
/// well-formed list never holds a key twice.
pub open spec fn entries_map(s: Seq<(u32, InputState)>) -> Map<u32, InputState>
    decreases s.len(),
{
    if s.len() == 0 {
        Map::empty()
    } else {
        entries_map(s.drop_last()).insert(s.last().0, s.last().1)
    }
}

/// A key code is in the map exactly when some entry carries it.
pub proof fn lemma_entries_map_dom(s: Seq<(u32, InputState)>, key: u32)
    ensures
        entries_map(s).dom().contains(key) <==> exists|i: int|
            0 <= i < s.len() && s[i].0 == key,
    decreases s.len(),
{
    if s.len() > 0 {
        lemma_entries_map_dom(s.drop_last(), key);
        if s.last().0 == key {
            assert(s[s.len() - 1].0 == key);
        } else if exists|i: int| 0 <= i < s.len() && s[i].0 == key {
            let i = choose|i: int| 0 <= i < s.len() && s[i].0 == key;
            assert(s.drop_last()[i] == s[i]);
        }
    }
}

/// With distinct key codes, the entry at any index gives the map's value at
/// its key.
pub proof fn lemma_entries_map_at(s: Seq<(u32, InputState)>, i: int)
    requires
        distinct_keys(s),
        0 <= i < s.len(),
    ensures
        entries_map(s).dom().contains(s[i].0),
        entries_map(s)[s[i].0] == s[i].1,
    decreases s.len(),
{
    if i < s.len() - 1 {
        lemma_entries_map_at(s.drop_last(), i);
        assert(s.drop_last()[i] == s[i]);
        assert(s[i].0 != s.last().0);
    }
}

/// What one frame's aging does to a single state: a fresh press becomes held,
/// anything else keeps its state (a released entry is dropped by the map,
/// not rewritten).
pub open spec fn aged_state(state: InputState) -> InputState {
    if state == InputState::Pressed {
        InputState::Down
    } else {
        state
    }
}

/// What one frame's aging does to a whole map: `Pressed` entries become
/// `Down`, `Down` entries stay, `Released` entries are removed.
pub open spec fn aged_map(m: Map<u32, InputState>) -> Map<u32, InputState> {
    Map::new(
        |key: u32| m.dom().contains(key) && m[key] != InputState::Released,
        |key: u32| aged_state(m[key]),
    )
}

/// A small verified association map from 32-bit key codes to input states.
#[derive(Debug)]
pub struct StateMap {
    entries: Vec<(u32, InputState)>,
}

impl View for StateMap {
    type V = Map<u32, InputState>;

    closed spec fn view(&self) -> Map<u32, InputState> {
        entries_map(self.entries@)
    }
}

impl StateMap {
    #[verifier::type_invariant]
    spec fn wf(self) -> bool {
        distinct_keys(self.entries@)
    }

    /// An empty map.
    pub fn new() -> (result: Self)
        ensures
            result@ == Map::<u32, InputState>::empty(),
    {
        StateMap { entries: Vec::new() }
    }

    /// Remove every entry.
    pub fn clear(&mut self)
        ensures
            final(self)@ == Map::<u32, InputState>::empty(),
    {
        self.entries = Vec::new();
    }

    /// The entries with `key` taken out, in their original order.
    fn filtered_entries(&self, key: u32) -> (out: Vec<(u32, InputState)>)
        ensures
            distinct_keys(out@),
            entries_map(out@) == self@.remove(key),
            forall|l: int| 0 <= l < out@.len() ==> out@[l].0 != key,
    {
        proof {
            use_type_invariant(&*self);
        }
        let ghost s = self.entries@;
        let mut out: Vec<(u32, InputState)> = Vec::new();
        let mut i: usize = 0;
        while i < self.entries.len()
            invariant
                i <= self.entries.len(),
                self.entries@ == s,
                distinct_keys(s),
                distinct_keys(out@),
                forall|l: int| 0 <= l < out@.len() ==> out@[l].0 != key,
                forall|l: int|
                    0 <= l < out@.len() ==> exists|j: int| 0 <= j < i && s[j].0 == #[trigger] out@[l].0,
                entries_map(out@) == entries_map(s.take(i as int)).remove(key),
            decreases self.entries.len() - i,
        {
            let ghost prefix = s.take(i as int);
            let ghost prev_out = out@;
            let (k, st) = self.entries[i];
            proof {
                assert(s.take(i as int + 1).drop_last() =~= prefix);
                assert(s.take(i as int + 1).last() == s[i as int]);
                assert(s[i as int] == (k, st));
            }
            if k != key {
                proof {
                    assert(forall|l: int| 0 <= l < prev_out.len() ==> prev_out[l].0 != k);
                }
                out.push((k, st));
                proof {
                    assert(out@.drop_last() =~= prev_out);
                    assert(entries_map(prefix).remove(key).insert(k, st)
                        =~= entries_map(prefix).insert(k, st).remove(key));
                }
            } else {
                proof {
                    assert(entries_map(prefix).insert(k, st).remove(key)
                        =~= entries_map(prefix).remove(key));
                }
            }
            i = i + 1;
        }
        proof {
            assert(s.take(s.len() as int) =~= s);
        }
        out
    }

    /// Overwrite the entry for a key code, creating it if absent.
    pub fn set(&mut self, key: u32, state: InputState)
        ensures
            final(self)@ == old(self)@.insert(key, state),
    {
        let mut out = self.filtered_entries(key);
        let ghost filtered = out@;
        out.push((key, state));
        proof {
            assert(out@.drop_last() =~= filtered);
            assert(entries_map(filtered).insert(key, state) =~= old(self)@.insert(key, state));
        }
        self.entries = out;
    }

    /// Age every entry by one frame: `Pressed` becomes `Down`, `Down` stays,
    /// `Released` entries are removed.
    pub fn age(&mut self)
        ensures
            final(self)@ == aged_map(old(self)@),
    {
        proof {
            use_type_invariant(&*self);
        }
        let ghost s = self.entries@;
        let mut out: Vec<(u32, InputState)> = Vec::new();
        let mut i: usize = 0;
        while i < self.entries.len()
            invariant
                i <= self.entries.len(),
                self.entries@ == s,
                distinct_keys(s),
                distinct_keys(out@),
                forall|l: int|
                    0 <= l < out@.len() ==> exists|j: int| 0 <= j < i && s[j].0 == #[trigger] out@[l].0,
                entries_map(out@) == aged_map(entries_map(s.take(i as int))),
            decreases self.entries.len() - i,
        {
            let ghost prefix = s.take(i as int);
            let ghost prev_out = out@;
            let (k, st) = self.entries[i];
            proof {
                assert(s.take(i as int + 1).drop_last() =~= prefix);
                assert(s.take(i as int + 1).last() == s[i as int]);
                assert(s[i as int] == (k, st));
                lemma_entries_map_dom(prefix, k);
            }
            match st {
                InputState::Pressed | InputState::Down => {
                    proof {
                        assert(forall|l: int| 0 <= l < prev_out.len() ==> prev_out[l].0 != k);
                    }
                    out.push((k, InputState::Down));
                    proof {
                        assert(out@.drop_last() =~= prev_out);
                        assert(aged_map(entries_map(prefix)).insert(k, InputState::Down)
                            =~= aged_map(entries_map(prefix).insert(k, st)));
                    }
                },
                InputState::Released => {
                    proof {
                        assert(aged_map(entries_map(prefix))
                            =~= aged_map(entries_map(prefix).insert(k, st)));
                    }
                },
            }
            i = i + 1;
        }
        proof {
            assert(s.take(s.len() as int) =~= s);
        }
        self.entries = out;
    }

    /// Look a key code up; absence is not an error.
    pub fn get(&self, key: u32) -> (result: Option<InputState>)
        ensures
            result == if self@.dom().contains(key) {
                Some(self@[key])
            } else {
                None::<InputState>
            },
    {
        proof {
            use_type_invariant(&*self);
        }
        let mut i: usize = 0;
        while i < self.entries.len()
            invariant
                i <= self.entries.len(),
                distinct_keys(self.entries@),
                forall|j: int| 0 <= j < i ==> self.entries@[j].0 != key,
            decreases self.entries.len() - i,
        {
            if self.entries[i].0 == key {
                proof {
                    lemma_entries_map_at(self.entries@, i as int);
                }
                return Some(self.entries[i].1);
            }
            i = i + 1;
        }
        proof {
            lemma_entries_map_dom(self.entries@, key);
        }
        None
    }
}

} // verus!
