//! The players of a running server, tracked from the events the server reports.
use crate::error::{err_view, ServerError, ServerErrorView, StatusUpdateError, StatusUpdateErrorView};
use crate::settings::network::SocketAddress;
use crate::status::{peer_state_named, PeerState};
use crate::text::str_equal;
use crate::version::{decimal, parse_i32_str, push_decimal, spec_parse_i32};
use vstd::prelude::*;

verus! {

/// A player of a server.
#[derive(Debug)]
pub struct Player {
    /// The player's username, once the player has joined.
    pub username: Option<String>,
    /// The player's peer ID, once known.
    pub peer_id: Option<i32>,
    /// The player's address, if any.
    pub peer_address: Option<SocketAddress>,
    /// When the player last connected, in milliseconds since the Unix epoch.
    pub connection_time: i64,
    /// When the player joined, in milliseconds since the Unix epoch.
    pub join_time: Option<i64>,
    /// When the player left, in milliseconds since the Unix epoch.
    pub leave_time: Option<i64>,
    /// The player's peer state.
    pub state: PeerState,
}

/// The meaning of a [`Player`].
pub struct PlayerView {
    pub username: Option<Seq<char>>,
    pub peer_id: Option<i32>,
    pub peer_address: Option<SocketAddress>,
    pub connection_time: i64,
    pub join_time: Option<i64>,
    pub leave_time: Option<i64>,
    pub state: PeerState,
}

impl View for Player {
    type V = PlayerView;

    open spec fn view(&self) -> PlayerView {
        PlayerView {
            username: match self.username {
                Some(u) => Some(u@),
                None => None,
            },
            peer_id: self.peer_id,
            peer_address: self.peer_address,
            connection_time: self.connection_time,
            join_time: self.join_time,
            leave_time: self.leave_time,
            state: self.state,
        }
    }
}

/// The players of a server, and which of them was last modified by a connecting peer.
#[derive(Debug)]
pub struct Players {
    players: Vec<Player>,
    last_modified: usize,
}

/// The meaning of a [`Players`].
pub struct PlayersView {
    pub players: Seq<PlayerView>,
    pub last_modified: nat,
}

/// The meanings of a list of players.
pub open spec fn player_views(s: Seq<Player>) -> Seq<PlayerView> {
    s.map_values(|p: Player| p@)
}

impl View for Players {
    type V = PlayersView;

    closed spec fn view(&self) -> PlayersView {
        PlayersView { players: player_views(self.players@), last_modified: self.last_modified as nat }
    }
}

/// The index of the first player for which `f` holds, or the number of players.
pub open spec fn first_where(s: Seq<PlayerView>, f: spec_fn(PlayerView) -> bool) -> int
    decreases s.len(),
{
    if s.len() == 0 {
        0
    } else if f(s[0]) {
        0
    } else {
        1 + first_where(s.drop_first(), f)
    }
}

/// The index of the first player with a username, or the number of players.
pub open spec fn first_named(s: Seq<PlayerView>, username: Seq<char>) -> int {
    first_where(s, |p: PlayerView| p.username == Some(username))
}

/// The index of the first player with a peer ID, or the number of players.
pub open spec fn first_with_peer(s: Seq<PlayerView>, id: i32) -> int {
    first_where(s, |p: PlayerView| p.peer_id == Some(id))
}

/// The first player for which `f` holds is at `m` when it fails for the players before `m` and
/// holds for the one at `m`.
pub proof fn lemma_first_where_at(s: Seq<PlayerView>, f: spec_fn(PlayerView) -> bool, m: int)
    requires
        0 <= m <= s.len(),
        forall|k: int| 0 <= k < m ==> !f(#[trigger] s[k]),
        m < s.len() ==> f(s[m]),
    ensures
        first_where(s, f) == m,
    decreases m,
{
    if m > 0 {
        let t = s.drop_first();
        assert(!f(s[0]));
        assert forall|k: int| 0 <= k < m - 1 implies !f(#[trigger] t[k]) by {
            assert(t[k] == s[k + 1]);
        }
        if m - 1 < t.len() {
            assert(t[m - 1] == s[m]);
        }
        lemma_first_where_at(t, f, m - 1);
    }
}

/// The decimal text of a signed integer.
pub open spec fn signed_decimal(v: int) -> Seq<char> {
    if v < 0 {
        seq!['-'] + decimal((-v) as nat)
    } else {
        decimal(v as nat)
    }
}

/// The decimal text of a signed integer.
pub fn i32_to_string(v: i32) -> (r: String)
    ensures
        r@ == signed_decimal(v as int),
{
    let mut out = String::new();
    if v < 0 {
        out.append("-");
        proof {
            reveal_strlit("-");
        }
        let m: i64 = -(v as i64);
        push_decimal(&mut out, m as u64);
    } else {
        push_decimal(&mut out, v as u64);
    }
    assert(out@ =~= signed_decimal(v as int));
    out
}

/// The player who has just connected from an address.
pub open spec fn connecting_player(address: SocketAddress, now: i64) -> PlayerView {
    PlayerView {
        username: None,
        peer_id: None,
        peer_address: Some(address),
        connection_time: now,
        join_time: None,
        leave_time: None,
        state: PeerState::Ready,
    }
}

/// A copy of a player.
fn copy_player(p: &Player) -> (r: Player)
    ensures
        r@ == p@,
{
    Player {
        username: match &p.username {
            Some(u) => Some(u.clone()),
            None => None,
        },
        peer_id: p.peer_id,
        peer_address: p.peer_address,
        connection_time: p.connection_time,
        join_time: p.join_time,
        leave_time: p.leave_time,
        state: p.state,
    }
}

/// The index of the first player with a username, or the number of players.
fn find_named(players: &Vec<Player>, username: &str) -> (r: usize)
    ensures
        r == first_named(player_views(players@), username@),
{
    let ghost s = player_views(players@);
    let ghost f = |p: PlayerView| p.username == Some(username@);
    let mut j: usize = 0;
    while j < players.len()
        invariant
            j <= players.len(),
            s == player_views(players@),
            f == (|p: PlayerView| p.username == Some(username@)),
            forall|k: int| 0 <= k < j ==> !f(#[trigger] s[k]),
        decreases players.len() - j,
    {
        let hit = match &players[j].username {
            Some(n) => str_equal(n.as_str(), username),
            None => false,
        };
        if hit {
            proof {
                assert(s[j as int] == players@[j as int]@);
                lemma_first_where_at(s, f, j as int);
            }
            return j;
        }
        assert(s[j as int] == players@[j as int]@);
        j = j + 1;
    }
    proof {
        lemma_first_where_at(s, f, s.len() as int);
    }
    j
}

/// The index of the first player with a peer ID, or the number of players.
fn find_peer(players: &Vec<Player>, id: i32) -> (r: usize)
    ensures
        r == first_with_peer(player_views(players@), id),
{
    let ghost s = player_views(players@);
    let ghost f = |p: PlayerView| p.peer_id == Some(id);
    let mut j: usize = 0;
    while j < players.len()
        invariant
            j <= players.len(),
            s == player_views(players@),
            f == (|p: PlayerView| p.peer_id == Some(id)),
            forall|k: int| 0 <= k < j ==> !f(#[trigger] s[k]),
        decreases players.len() - j,
    {
        assert(s[j as int] == players@[j as int]@);
        if players[j].peer_id == Some(id) {
            proof {
                lemma_first_where_at(s, f, j as int);
            }
            return j;
        }
        j = j + 1;
    }
    proof {
        lemma_first_where_at(s, f, s.len() as int);
    }
    j
}

/// Puts a player in place of the one at index `i`.
fn replace_player(players: &mut Vec<Player>, i: usize, p: Player)
    requires
        i < old(players).len(),
    ensures
        player_views(final(players)@) == player_views(old(players)@).update(i as int, p@),
{
    let ghost before = players@;
    let _ = players.remove(i);
    players.insert(i, p);
    assert(players@ =~= before.update(i as int, p));
    assert(player_views(players@) =~= player_views(before).update(i as int, p@));
}

/// What a result of an update is, with no error.
pub open spec fn updated(p: PlayersView) -> (PlayersView, Result<(), StatusUpdateErrorView>) {
    (p, Ok(()))
}

/// What a result of an update is that failed with `e` and changed nothing.
pub open spec fn refused(
    p: PlayersView,
    e: StatusUpdateErrorView,
) -> (PlayersView, Result<(), StatusUpdateErrorView>) {
    (p, Err(e))
}

/// The players after a peer connected from an address at a time: the new player, in the
/// `Ready` state, is added at the end and is the last modified player.
pub open spec fn connection_outcome(o: PlayersView, address: SocketAddress, now: i64) -> PlayersView {
    PlayersView {
        players: o.players.push(connecting_player(address, now)),
        last_modified: o.players.len(),
    }
}

/// The players after the last modified player got a peer ID, and the result: it fails when
/// there is no last modified player or the ID is not an integer.
pub open spec fn new_peer_outcome(o: PlayersView, id: Seq<char>) -> (PlayersView, Result<
    (),
    StatusUpdateErrorView,
>) {
    let i = o.last_modified as int;
    if i >= o.players.len() {
        refused(
            o,
            StatusUpdateErrorView::Server(
                ServerErrorView::NoLastModifiedPlayer(i as usize, o.players.len() as usize),
            ),
        )
    } else {
        match spec_parse_i32(id) {
            Err(e) => refused(o, StatusUpdateErrorView::InvalidPeerId(e)),
            Ok(v) => updated(
                PlayersView {
                    players: o.players.update(i, PlayerView { peer_id: Some(v), ..o.players[i] }),
                    ..o
                },
            ),
        }
    }
}

/// The players after the peer with an ID changed to a named state, and the result: the first
/// player with the ID gets the state, and becomes the last modified player when the state is
/// `InGame`; it fails when the ID is not an integer, no player has it, or no state has the name.
pub open spec fn peer_state_outcome(o: PlayersView, id: Seq<char>, state: Seq<char>) -> (
    PlayersView,
    Result<(), StatusUpdateErrorView>,
) {
    match spec_parse_i32(id) {
        Err(e) => refused(o, StatusUpdateErrorView::InvalidPeerId(e)),
        Ok(v) => {
            let k = first_with_peer(o.players, v);
            if k >= o.players.len() {
                refused(
                    o,
                    StatusUpdateErrorView::Server(ServerErrorView::NoSuchPlayer(signed_decimal(v as int))),
                )
            } else {
                match peer_state_named(state) {
                    None => refused(o, StatusUpdateErrorView::UnknownPeerState(state)),
                    Some(st) => updated(
                        PlayersView {
                            players: o.players.update(k, PlayerView { state: st, ..o.players[k] }),
                            last_modified: if st == PeerState::InGame {
                                k as nat
                            } else {
                                o.last_modified
                            },
                        },
                    ),
                }
            }
        },
    }
}

/// The players after a player with a username joined at a time, and the result. The last
/// modified player is taken out of the list; when a disconnected player of the same username is
/// in it, that player takes over the connection, else the taken player gets the username and is
/// added at the end. It fails when there is no last modified player (changing nothing) or when a
/// player of the same username is still connected (the taken player is then dropped).
pub open spec fn joined_outcome(o: PlayersView, username: Seq<char>, now: i64) -> (
    PlayersView,
    Result<(), StatusUpdateErrorView>,
) {
    let i = o.last_modified as int;
    if i >= o.players.len() {
        refused(
            o,
            StatusUpdateErrorView::Server(
                ServerErrorView::NoLastModifiedPlayer(i as usize, o.players.len() as usize),
            ),
        )
    } else {
        let taken = o.players[i];
        let rest = o.players.remove(i);
        let k = first_named(rest, username);
        if k < rest.len() && rest[k].state != PeerState::Disconnected {
            refused(
                PlayersView { players: rest, ..o },
                StatusUpdateErrorView::Server(ServerErrorView::PlayerAlreadyExists(username)),
            )
        } else if k < rest.len() {
            updated(
                PlayersView {
                    players: rest.update(
                        k,
                        PlayerView {
                            peer_id: taken.peer_id,
                            peer_address: taken.peer_address,
                            state: taken.state,
                            connection_time: taken.connection_time,
                            join_time: Some(now),
                            leave_time: None,
                            ..rest[k]
                        },
                    ),
                    ..o
                },
            )
        } else {
            updated(
                PlayersView {
                    players: rest.push(
                        PlayerView {
                            username: Some(username),
                            join_time: Some(now),
                            leave_time: None,
                            ..taken
                        },
                    ),
                    ..o
                },
            )
        }
    }
}

/// The players after the player with a username left at a time, and the result: the first
/// player with the username is marked disconnected; it fails when no player has the username.
pub open spec fn remove_outcome(o: PlayersView, username: Seq<char>, now: i64) -> (
    PlayersView,
    Result<(), StatusUpdateErrorView>,
) {
    let k = first_named(o.players, username);
    if k >= o.players.len() {
        refused(o, StatusUpdateErrorView::Server(ServerErrorView::NoSuchPlayer(username)))
    } else {
        updated(
            PlayersView {
                players: o.players.update(
                    k,
                    PlayerView { state: PeerState::Disconnected, leave_time: Some(now), ..o.players[k] },
                ),
                ..o
            },
        )
    }
}

/// The first player for which `f` holds lies within the list, and `f` fails for every player
/// before it.
pub proof fn lemma_first_where_bound(s: Seq<PlayerView>, f: spec_fn(PlayerView) -> bool)
    ensures
        0 <= first_where(s, f) <= s.len(),
        first_where(s, f) < s.len() ==> f(s[first_where(s, f)]),
        forall|k: int| 0 <= k < first_where(s, f) ==> !f(#[trigger] s[k]),
    decreases s.len(),
{
    if s.len() > 0 && !f(s[0]) {
        let t = s.drop_first();
        lemma_first_where_bound(t, f);
        assert forall|k: int| 0 <= k < first_where(s, f) implies !f(#[trigger] s[k]) by {
            if k > 0 {
                assert(s[k] == t[k - 1]);
            }
        }
    }
}

/// No two players have the same username.
pub open spec fn usernames_unique(s: Seq<PlayerView>) -> bool {
    forall|i: int, j: int|
        0 <= i < s.len() && 0 <= j < s.len() && i != j && (#[trigger] s[i]).username is Some
            ==> s[i].username != (#[trigger] s[j]).username
}

/// Every update of the players keeps their usernames unique: a connecting peer has no username,
/// peer IDs and states leave usernames as they are, a player joins under a username only where
/// no other player has it, and a leaving player keeps it.
pub proof fn law_usernames_stay_unique(
    o: PlayersView,
    address: SocketAddress,
    id: Seq<char>,
    state: Seq<char>,
    username: Seq<char>,
    now: i64,
)
    requires
        usernames_unique(o.players),
    ensures
        usernames_unique(connection_outcome(o, address, now).players),
        usernames_unique(new_peer_outcome(o, id).0.players),
        usernames_unique(peer_state_outcome(o, id, state).0.players),
        usernames_unique(joined_outcome(o, username, now).0.players),
        usernames_unique(remove_outcome(o, username, now).0.players),
{
    let s = o.players;
    let c = connection_outcome(o, address, now).players;
    assert forall|i: int, j: int|
        0 <= i < c.len() && 0 <= j < c.len() && i != j && (#[trigger] c[i]).username is Some
            implies c[i].username != (#[trigger] c[j]).username by {
        if i < s.len() && j < s.len() {
            assert(c[i] == s[i] && c[j] == s[j]);
        }
    }
    let i0 = o.last_modified as int;
    if 0 <= i0 < s.len() {
        let rest = s.remove(i0);
        assert forall|i: int, j: int|
            0 <= i < rest.len() && 0 <= j < rest.len() && i != j && (#[trigger] rest[i]).username is Some
                implies rest[i].username != (#[trigger] rest[j]).username by {
            let a = if i < i0 { i } else { i + 1 };
            let b = if j < i0 { j } else { j + 1 };
            assert(rest[i] == s[a] && rest[j] == s[b]);
        }
        let f = |p: PlayerView| p.username == Some(username);
        lemma_first_where_bound(rest, f);
        let k = first_named(rest, username);
        let j = joined_outcome(o, username, now).0.players;
        if k < rest.len() {
            assert forall|a: int, b: int|
                0 <= a < j.len() && 0 <= b < j.len() && a != b && (#[trigger] j[a]).username is Some
                    implies j[a].username != (#[trigger] j[b]).username by {
                assert(j[a].username == rest[a].username);
                assert(j[b].username == rest[b].username);
            }
        } else {
            assert forall|a: int, b: int|
                0 <= a < j.len() && 0 <= b < j.len() && a != b && (#[trigger] j[a]).username is Some
                    implies j[a].username != (#[trigger] j[b]).username by {
                if a < rest.len() && b < rest.len() {
                    assert(j[a] == rest[a] && j[b] == rest[b]);
                } else if a < rest.len() {
                    assert(j[a] == rest[a]);
                    assert(!f(rest[a]));
                } else {
                    assert(j[b] == rest[b]);
                    assert(!f(rest[b]));
                }
            }
        }
        let n = new_peer_outcome(o, id).0.players;
        assert forall|a: int, b: int|
            0 <= a < n.len() && 0 <= b < n.len() && a != b && (#[trigger] n[a]).username is Some
                implies n[a].username != (#[trigger] n[b]).username by {
            assert(n[a].username == s[a].username);
            assert(n[b].username == s[b].username);
        }
    }
    if let Ok(v) = spec_parse_i32(id) {
        let g = |p: PlayerView| p.peer_id == Some(v);
        lemma_first_where_bound(s, g);
        let p = peer_state_outcome(o, id, state).0.players;
        assert(p.len() == s.len());
        assert forall|a: int, b: int|
            0 <= a < p.len() && 0 <= b < p.len() && a != b && (#[trigger] p[a]).username is Some
                implies p[a].username != (#[trigger] p[b]).username by {
            assert(p[a].username == s[a].username);
            assert(p[b].username == s[b].username);
        }
    }
    let f = |p: PlayerView| p.username == Some(username);
    lemma_first_where_bound(s, f);
    let r = remove_outcome(o, username, now).0.players;
    assert forall|a: int, b: int|
        0 <= a < r.len() && 0 <= b < r.len() && a != b && (#[trigger] r[a]).username is Some
            implies r[a].username != (#[trigger] r[b]).username by {
        assert(r[a].username == s[a].username);
        assert(r[b].username == s[b].username);
    }
}

/// A player who joined is listed under the username, joined at that time and not left.
pub proof fn law_joined_player_is_listed(o: PlayersView, username: Seq<char>, now: i64)
    requires
        joined_outcome(o, username, now).1 is Ok,
    ensures
        ({
            let p = joined_outcome(o, username, now).0.players;
            exists|k: int|
                0 <= k < p.len() && (#[trigger] p[k]).username == Some(username) && p[k].join_time
                    == Some(now) && p[k].leave_time is None
        }),
{
    let i = o.last_modified as int;
    let rest = o.players.remove(i);
    let f = |p: PlayerView| p.username == Some(username);
    lemma_first_where_bound(rest, f);
    let k = first_named(rest, username);
    let p = joined_outcome(o, username, now).0.players;
    if k < rest.len() {
        assert(p[k].username == rest[k].username);
        assert(p[k].username == Some(username));
    } else {
        assert(p[rest.len() as int].username == Some(username));
    }
}

/// A player who left is, as the first player of the username, disconnected and left at that
/// time.
pub proof fn law_removed_player_is_disconnected(o: PlayersView, username: Seq<char>, now: i64)
    requires
        remove_outcome(o, username, now).1 is Ok,
    ensures
        ({
            let p = remove_outcome(o, username, now).0.players;
            let k = first_named(o.players, username);
            &&& 0 <= k < p.len()
            &&& p[k].username == Some(username)
            &&& p[k].state == PeerState::Disconnected
            &&& p[k].leave_time == Some(now)
        }),
{
    let f = |p: PlayerView| p.username == Some(username);
    lemma_first_where_bound(o.players, f);
}

impl Default for Players {
    fn default() -> (r: Self)
        ensures
            r@ == (PlayersView { players: Seq::empty(), last_modified: 0 }),
    {
        let r = Players { players: Vec::new(), last_modified: 0 };
        assert(player_views(r.players@) =~= Seq::empty());
        r
    }
}

impl Players {
    /// The current players.
    pub fn get(&self) -> (r: Vec<Player>)
        ensures
            player_views(r@) == self@.players,
    {
        let mut r: Vec<Player> = Vec::new();
        let mut j: usize = 0;
        while j < self.players.len()
            invariant
                j <= self.players.len(),
                player_views(r@) == player_views(self.players@).take(j as int),
            decreases self.players.len() - j,
        {
            let ghost before = r@;
            let c = copy_player(&self.players[j]);
            r.push(c);
            assert(player_views(r@) =~= player_views(before).push(c@));
            assert(player_views(self.players@).take(j + 1) =~= player_views(self.players@).take(
                j as int,
            ).push(self.players@[j as int]@));
            j = j + 1;
        }
        assert(player_views(self.players@).take(j as int) =~= player_views(self.players@));
        r
    }

    /// Adds a player who has just connected from an address, at the given time (milliseconds
    /// since the Unix epoch), in the `Ready` state, and makes it the last modified player.
    pub fn connection_accepted(&mut self, address: SocketAddress, now: i64)
        requires
            old(self)@.players.len() < usize::MAX,
        ensures
            final(self)@ == connection_outcome(old(self)@, address, now),
    {
        let ghost before = self.players@;
        self.players.push(
            Player {
                username: None,
                peer_id: None,
                peer_address: Some(address),
                connection_time: now,
                join_time: None,
                leave_time: None,
                state: PeerState::Ready,
            },
        );
        self.last_modified = self.players.len() - 1;
        assert(player_views(self.players@) =~= player_views(before).push(
            connecting_player(address, now),
        ));
    }

    /// Sets the peer ID of the last modified player. Fails, and changes nothing, when there is
    /// no such player or the ID is not an integer.
    pub fn new_peer(&mut self, id: &str) -> (r: Result<(), StatusUpdateError>)
        ensures
            (final(self)@, err_view(r)) == new_peer_outcome(old(self)@, id@),
    {
        let i = self.last_modified;
        if i >= self.players.len() {
            return Err(
                StatusUpdateError::Server(ServerError::NoLastModifiedPlayer(i, self.players.len())),
            );
        }
        let v = match parse_i32_str(id) {
            Ok(v) => v,
            Err(e) => return Err(StatusUpdateError::InvalidPeerId(e)),
        };
        let mut p = copy_player(&self.players[i]);
        p.peer_id = Some(v);
        replace_player(&mut self.players, i, p);
        Ok(())
    }

    /// Sets the state of the first player with a peer ID; a player who is now in-game becomes
    /// the last modified player. Fails, and changes nothing, when the ID is not an integer, no
    /// player has it, or the state has no such name.
    pub fn peer_state_change(&mut self, id: &str, state: &str) -> (r: Result<(), StatusUpdateError>)
        ensures
            (final(self)@, err_view(r)) == peer_state_outcome(old(self)@, id@, state@),
    {
        let v = match parse_i32_str(id) {
            Ok(v) => v,
            Err(e) => return Err(StatusUpdateError::InvalidPeerId(e)),
        };
        let k = find_peer(&self.players, v);
        if k >= self.players.len() {
            return Err(StatusUpdateError::Server(ServerError::NoSuchPlayer(i32_to_string(v))));
        }
        let st = match PeerState::from_name(state) {
            Some(st) => st,
            None => return Err(StatusUpdateError::UnknownPeerState(state.to_string())),
        };
        let mut p = copy_player(&self.players[k]);
        p.state = st;
        replace_player(&mut self.players, k, p);
        if st == PeerState::InGame {
            self.last_modified = k;
        }
        Ok(())
    }

    /// Finalises a joining player at the given time. The last modified player is taken out of the
    /// list; when a disconnected player of the same username is in it, that player takes over
    /// the connection, else the taken player gets the username and is added at the end. Fails
    /// when there is no last modified player (changing nothing) or when a player of the same
    /// username is still connected (the taken player is then dropped).
    pub fn joined(&mut self, username: &str, now: i64) -> (r: Result<(), StatusUpdateError>)
        ensures
            (final(self)@, err_view(r)) == joined_outcome(old(self)@, username@, now),
    {
        let i = self.last_modified;
        if i >= self.players.len() {
            return Err(
                StatusUpdateError::Server(ServerError::NoLastModifiedPlayer(i, self.players.len())),
            );
        }
        let ghost before = self.players@;
        let mut taken = self.players.remove(i);
        assert(player_views(self.players@) =~= player_views(before).remove(i as int));
        let k = find_named(&self.players, username);
        if k < self.players.len() {
            if self.players[k].state != PeerState::Disconnected {
                return Err(
                    StatusUpdateError::Server(ServerError::PlayerAlreadyExists(username.to_string())),
                );
            }
            let mut p = copy_player(&self.players[k]);
            p.peer_id = taken.peer_id;
            p.peer_address = taken.peer_address;
            p.state = taken.state;
            p.connection_time = taken.connection_time;
            p.join_time = Some(now);
            p.leave_time = None;
            replace_player(&mut self.players, k, p);
        } else {
            let ghost rest = self.players@;
            taken.username = Some(username.to_string());
            taken.join_time = Some(now);
            taken.leave_time = None;
            self.players.push(taken);
            assert(player_views(self.players@) =~= player_views(rest).push(taken@));
        }
        Ok(())
    }

    /// Marks the first player with a username as disconnected, having left at the given time.
    /// Fails, and changes nothing, when no player has the username.
    pub fn remove(&mut self, username: &str, now: i64) -> (r: Result<(), StatusUpdateError>)
        ensures
            (final(self)@, err_view(r)) == remove_outcome(old(self)@, username@, now),
    {
        let k = find_named(&self.players, username);
        if k >= self.players.len() {
            return Err(StatusUpdateError::Server(ServerError::NoSuchPlayer(username.to_string())));
        }
        let mut p = copy_player(&self.players[k]);
        p.state = PeerState::Disconnected;
        p.leave_time = Some(now);
        replace_player(&mut self.players, k, p);
        Ok(())
    }
}

} // verus!
