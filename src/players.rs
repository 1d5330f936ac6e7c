use vstd::prelude::*;
use crate::model::{App, AppView, RESCAN_PERIOD};

verus! {

/// `i` is the first position at which `x` occurs in `s`.
pub open spec fn is_first_index(s: Seq<Seq<char>>, x: Seq<char>, i: int) -> bool {
    &&& 0 <= i < s.len()
    &&& s[i] == x
    &&& forall|j: int| 0 <= j < i ==> s[j] != x
}

/// Where the selection lands in a freshly enumerated list `found`, given the
/// identity that was selected before: its first position there, else 0.
pub open spec fn selection_in(found: Seq<Seq<char>>, prev: Option<Seq<char>>) -> int {
    match prev {
        Some(p) => if found.contains(p) {
            choose|i: int| is_first_index(found, p, i)
        } else {
            0
        },
        None => 0,
    }
}

impl AppView {
    /// The identity currently selected, if any.
    pub open spec fn selected_name(self) -> Option<Seq<char>> {
        if 0 <= self.selected_player < self.player_names.len() {
            Some(self.player_names[self.selected_player])
        } else {
            None
        }
    }

    /// The snapshot after an enumeration of the running players; `None`
    /// stands for a discovery source that could not be reached.
    pub open spec fn enumerated(self, found: Option<Seq<Seq<char>>>) -> AppView {
        match found {
            Some(ns) => if ns.len() > 0 {
                AppView {
                    player_names: ns,
                    selected_player: selection_in(ns, self.selected_name()),
                    ..self
                }
            } else {
                AppView { player_names: Seq::empty(), selected_player: 0, ..self }
            },
            None => AppView { player_names: Seq::empty(), selected_player: 0, ..self },
        }
    }

    /// The snapshot with the next player selected, wrapping around.
    pub open spec fn with_next_player(self) -> AppView {
        if self.player_names.len() == 0 {
            self
        } else {
            AppView {
                selected_player: (self.selected_player + 1) % (self.player_names.len() as int),
                ..self
            }
        }
    }

    /// The snapshot with the previous player selected, wrapping around.
    pub open spec fn with_prev_player(self) -> AppView {
        if self.player_names.len() == 0 {
            self
        } else if self.selected_player == 0 {
            AppView { selected_player: self.player_names.len() - 1, ..self }
        } else {
            AppView { selected_player: self.selected_player - 1, ..self }
        }
    }
}

/// If `found` holds `x` and `i` is its first position, the chosen position is `i`.
proof fn lemma_first_index_unique(found: Seq<Seq<char>>, x: Seq<char>, i: int)
    requires
        is_first_index(found, x, i),
    ensures
        found.contains(x),
        selection_in(found, Some(x)) == i,
{
    assert(found[i] == x);
    let c = choose|c: int| is_first_index(found, x, c);
    assert(is_first_index(found, x, c));
    if c < i {
        assert(found[c] != x);
    } else if i < c {
        assert(found[i] != x);
    }
}

/// The first position of `x` in `found`, if it occurs.
fn position_of(found: &Vec<String>, x: &String) -> (r: Option<usize>)
    ensures
        match r {
            Some(i) => is_first_index(texts_of(found), x@, i as int),
            None => !texts_of(found).contains(x@),
        },
{
    let mut i: usize = 0;
    while i < found.len()
        invariant
            i <= found.len(),
            forall|j: int| 0 <= j < i ==> texts_of(found)[j] != x@,
        decreases found.len() - i,
    {
        if found[i] == *x {
            return Some(i);
        }
        i = i + 1;
    }
    proof {
        if texts_of(found).contains(x@) {
            let k = choose|k: int| 0 <= k < texts_of(found).len() && texts_of(found)[k] == x@;
            assert(texts_of(found)[k] != x@);
        }
    }
    None
}

spec fn texts_of(v: &Vec<String>) -> Seq<Seq<char>> {
    crate::model::texts(v@)
}

impl App {
    /// Takes in the result of enumerating the running players (`None` where the
    /// discovery source could not be reached) and keeps the selected identity
    /// selected where it is still there.
    pub fn refresh_players(&mut self, found: Option<Vec<String>>)
        requires
            old(self)@.wf(),
        ensures
            final(self)@ == old(self)@.enumerated(
                match found {
                    Some(v) => Some(crate::model::texts(v@)),
                    None => None,
                },
            ),
            final(self)@.wf(),
    {
        let ghost before = self@;
        match found {
            Some(names) => {
                if names.len() == 0 {
                    self.player_names = Vec::new();
                    self.selected_player = 0;
                    assert(self@.player_names =~= Seq::<Seq<char>>::empty());
                } else {
                    let idx: usize = if self.player_names.len() == 0 {
                        0
                    } else {
                        match position_of(&names, &self.player_names[self.selected_player]) {
                            Some(i) => {
                                proof {
                                    lemma_first_index_unique(texts_of(&names), before.player_names[before.selected_player], i as int);
                                }
                                i
                            },
                            None => 0,
                        }
                    };
                    self.player_names = names;
                    self.selected_player = idx;
                }
            },
            None => {
                self.player_names = Vec::new();
                self.selected_player = 0;
                assert(self@.player_names =~= Seq::<Seq<char>>::empty());
            },
        }
        assert(self@ == before.enumerated(
            match found {
                Some(v) => Some(crate::model::texts(v@)),
                None => None,
            },
        ));
    }

    /// The identity of the selected player, to be looked up on the bus.
    pub fn current_player(&self) -> (r: Option<String>)
        requires
            self@.wf(),
        ensures
            match r {
                Some(s) => self@.selected_name() == Some(s@),
                None => self@.player_names.len() == 0,
            },
    {
        if self.player_names.len() == 0 {
            None
        } else {
            Some(self.player_names[self.selected_player].clone())
        }
    }

    /// Selects the next player, wrapping around; returns whether a player is
    /// selected, in which case the state is to be refreshed at once.
    pub fn next_player(&mut self) -> (refresh: bool)
        requires
            old(self)@.wf(),
        ensures
            final(self)@ == old(self)@.with_next_player(),
            final(self)@.wf(),
            refresh == (old(self)@.player_names.len() > 0),
    {
        if self.player_names.len() == 0 {
            false
        } else {
            self.selected_player = (self.selected_player + 1) % self.player_names.len();
            true
        }
    }

    /// Selects the previous player, wrapping around; returns whether a player
    /// is selected, in which case the state is to be refreshed at once.
    pub fn prev_player(&mut self) -> (refresh: bool)
        requires
            old(self)@.wf(),
        ensures
            final(self)@ == old(self)@.with_prev_player(),
            final(self)@.wf(),
            refresh == (old(self)@.player_names.len() > 0),
    {
        if self.player_names.len() == 0 {
            false
        } else {
            self.selected_player = if self.selected_player == 0 {
                self.player_names.len() - 1
            } else {
                self.selected_player - 1
            };
            true
        }
    }

    /// Counts one tick; returns whether the player list is due to be
    /// enumerated again. The state itself is refreshed on every tick.
    pub fn tick(&mut self) -> (rescan: bool)
        requires
            old(self).tick_count < u64::MAX,
        ensures
            final(self)@ == (AppView { tick_count: (old(self).tick_count + 1) as u64, ..old(self)@ }),
            rescan == (final(self).tick_count % RESCAN_PERIOD == 0),
    {
        self.tick_count = self.tick_count + 1;
        self.tick_count % RESCAN_PERIOD == 0
    }
}

} // verus!
