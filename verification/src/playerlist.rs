//! One of a server's player lists, such as its ban list or its admin list.
use crate::error::{ServerError, ServerErrorView};
use crate::text::str_equal;
use vstd::prelude::*;

verus! {

/// A list of player names.
#[derive(Debug)]
pub struct Playerlist {
    playerlist: Vec<String>,
}

impl View for Playerlist {
    type V = Seq<Seq<char>>;

    closed spec fn view(&self) -> Seq<Seq<char>> {
        self.playerlist@.map_values(|p: String| p@)
    }
}

/// The list without any entry equal to `player`.
pub open spec fn without(s: Seq<Seq<char>>, player: Seq<char>) -> Seq<Seq<char>> {
    s.filter(|p: Seq<char>| p != player)
}

impl Playerlist {
    /// A list of the given names, in order.
    pub fn new(players: Vec<String>) -> (r: Self)
        ensures
            r@ == players@.map_values(|p: String| p@),
    {
        Playerlist { playerlist: players }
    }

    /// The names in the list, in order.
    pub fn players(&self) -> (r: &Vec<String>)
        ensures
            r@.map_values(|p: String| p@) == self@,
    {
        &self.playerlist
    }

    /// Whether the list holds a name.
    pub fn contains(&self, player: &str) -> (r: bool)
        ensures
            r == self@.contains(player@),
    {
        let ghost s = self@;
        let mut j: usize = 0;
        while j < self.playerlist.len()
            invariant
                j <= self.playerlist.len(),
                s == self@,
                s.len() == self.playerlist.len(),
                forall|k: int| 0 <= k < j ==> s[k] != player@,
            decreases self.playerlist.len() - j,
        {
            assert(s[j as int] == self.playerlist@[j as int]@);
            if str_equal(self.playerlist[j].as_str(), player) {
                return true;
            }
            j = j + 1;
        }
        false
    }

    /// Adds a player at the end of the list. Fails with `PlayerAlreadyExists`, changing nothing,
    /// when the list already holds the name.
    pub fn add(&mut self, player: String) -> (r: Result<(), ServerError>)
        ensures
            old(self)@.contains(player@) ==> (err_is(r, ServerErrorView::PlayerAlreadyExists(player@))
                && final(self)@ == old(self)@),
            !old(self)@.contains(player@) ==> (r is Ok && final(self)@ == old(self)@.push(player@)),
    {
        if self.contains(player.as_str()) {
            return Err(ServerError::PlayerAlreadyExists(player));
        }
        let ghost before = self.playerlist@;
        let ghost p = player@;
        self.playerlist.push(player);
        assert(self.playerlist@.map_values(|q: String| q@) =~= before.map_values(|q: String| q@).push(
            p,
        ));
        Ok(())
    }

    /// Removes every entry of a player. Fails with `NoSuchPlayer`, changing nothing, when the
    /// list does not hold the name.
    pub fn remove(&mut self, player: &str) -> (r: Result<(), ServerError>)
        ensures
            !old(self)@.contains(player@) ==> (err_is(r, ServerErrorView::NoSuchPlayer(player@))
                && final(self)@ == old(self)@),
            old(self)@.contains(player@) ==> (r is Ok && final(self)@ == without(
                old(self)@,
                player@,
            )),
    {
        let ghost s = self@;
        let mut kept: Vec<String> = Vec::new();
        let mut removed = false;
        let mut j: usize = 0;
        while j < self.playerlist.len()
            invariant
                j <= self.playerlist.len(),
                s == self@,
                s.len() == self.playerlist.len(),
                kept@.map_values(|q: String| q@) == without(s.take(j as int), player@),
                removed == s.take(j as int).contains(player@),
            decreases self.playerlist.len() - j,
        {
            let ghost t = s.take(j as int);
            assert(s.take(j + 1) =~= t.push(s[j as int]));
            assert(s[j as int] == self.playerlist@[j as int]@);
            proof {
                Seq::filter_distributes_over_add(t, seq![s[j as int]], |p: Seq<char>| p != player@);
                assert(t.push(s[j as int]) =~= t + seq![s[j as int]]);
            }
            if str_equal(self.playerlist[j].as_str(), player) {
                removed = true;
                proof { lemma_without_single(s[j as int], player@); }
                assert(without(s.take(j + 1), player@) =~= without(t, player@));
                assert(s.take(j + 1).contains(player@)) by {
                    assert(s.take(j + 1)[j as int] == player@);
                }
            } else {
                let ghost before = kept@;
                kept.push(self.playerlist[j].clone());
                proof { lemma_without_single(s[j as int], player@); }
                assert(kept@.map_values(|q: String| q@) =~= before.map_values(|q: String| q@).push(
                    s[j as int],
                ));
                assert(without(s.take(j + 1), player@) =~= without(t, player@).push(s[j as int]));
                if removed {
                    assert(s.take(j + 1).contains(player@)) by {
                        let w = choose|i: int| 0 <= i < t.len() && t[i] == player@;
                        assert(s.take(j + 1)[w] == player@);
                    }
                } else {
                    let ghost u = s.take(j + 1);
                    assert(!u.contains(player@)) by {
                        assert forall|i: int| 0 <= i < j + 1 implies #[trigger] u[i] != player@ by {
                            if i < j {
                                assert(u[i] == t[i]);
                            }
                        }
                    }
                }
            }
            j = j + 1;
        }
        assert(s.take(self.playerlist.len() as int) =~= s);
        if !removed {
            return Err(ServerError::NoSuchPlayer(player.to_string()));
        }
        self.playerlist = kept;
        Ok(())
    }
}

/// Whether a result is an error with the given meaning.
pub open spec fn err_is(r: Result<(), ServerError>, e: ServerErrorView) -> bool {
    r matches Err(x) && x@ == e
}

/// Adding a player that is not in the list and removing it again gives the list back.
pub proof fn law_add_then_remove(s: Seq<Seq<char>>, player: Seq<char>)
    requires
        !s.contains(player),
    ensures
        without(s.push(player), player) == s,
{
    Seq::filter_distributes_over_add(s, seq![player], |p: Seq<char>| p != player);
    assert(s.push(player) =~= s + seq![player]);
    lemma_without_single(player, player);
    lemma_filter_keeps_all(s, player);
}

/// Filtering a name out of a one-entry list.
proof fn lemma_without_single(x: Seq<char>, player: Seq<char>)
    ensures
        without(seq![x], player) == (if x == player {
            Seq::<Seq<char>>::empty()
        } else {
            seq![x]
        }),
{
    reveal_with_fuel(Seq::filter, 2);
    assert(seq![x].drop_last() =~= Seq::<Seq<char>>::empty());
    assert(seq![x].last() == x);
    if x != player {
        assert(Seq::<Seq<char>>::empty().push(x) =~= seq![x]);
    }
}

/// Filtering out a name that is not in the list keeps the list as it is.
proof fn lemma_filter_keeps_all(s: Seq<Seq<char>>, player: Seq<char>)
    requires
        !s.contains(player),
    ensures
        without(s, player) == s,
    decreases s.len(),
{
    reveal(Seq::filter);
    if s.len() > 0 {
        let t = s.drop_last();
        assert(!t.contains(player)) by {
            if t.contains(player) {
                let w = choose|i: int| 0 <= i < t.len() && t[i] == player;
                assert(s[w] == player);
            }
        }
        lemma_filter_keeps_all(t, player);
        assert(s.last() != player);
        assert(without(s, player) =~= without(t, player).push(s.last()));
        assert(t.push(s.last()) =~= s);
    }
}

/// After a player was removed, the list no longer holds the name.
pub proof fn law_remove_removes(s: Seq<Seq<char>>, player: Seq<char>)
    ensures
        !without(s, player).contains(player),
{
    let w = without(s, player);
    if w.contains(player) {
        let i = choose|i: int| 0 <= i < w.len() && w[i] == player;
        s.lemma_filter_pred(|p: Seq<char>| p != player, i);
    }
}

} // verus!
