use vstd::prelude::*;
use crate::model::{AppView, LoopMode, PlayerReading, VOLUME_FULL};
use crate::players::{is_first_index, selection_in};
use crate::dispatch::{following_loop, lowered, raised};
use crate::refresh::{album_of, artist_of, length_of, loop_of, number_or_zero, status_of, title_of};

verus! {

/// The volume after `n` steps up from `v`.
pub open spec fn raised_times(v: u64, n: nat) -> u64
    decreases n,
{
    if n == 0 {
        v
    } else {
        raised(raised_times(v, (n - 1) as nat))
    }
}

/// The volume after `n` steps down from `v`.
pub open spec fn lowered_times(v: u64, n: nat) -> u64
    decreases n,
{
    if n == 0 {
        v
    } else {
        lowered(lowered_times(v, (n - 1) as nat))
    }
}

/// An enumeration that finds no player, or cannot reach the discovery
/// source, leaves an empty list with the selection at 0, and the refresh
/// that follows shows every field at its default, whatever was read.
pub proof fn lemma_empty_enumeration_defaults(
    before: AppView,
    found: Option<Seq<Seq<char>>>,
    reading: Option<PlayerReading>,
)
    requires
        before.wf(),
        found matches Some(ns) ==> ns.len() == 0,
    ensures
        before.enumerated(found).player_names.len() == 0,
        before.enumerated(found).selected_player == 0,
        before.enumerated(found).wf(),
        before.enumerated(found).refreshed(reading).has_defaults(),
        before.enumerated(found).refreshed(reading).selected_player == 0,
{
}

/// A new enumeration keeps the selected identity selected, at its first
/// position in the new list, where the list still holds it; otherwise the
/// selection falls back to 0.
pub proof fn lemma_selection_follows_identity(before: AppView, ns: Seq<Seq<char>>)
    requires
        before.wf(),
        before.player_names.len() > 0,
        ns.len() > 0,
    ensures
        ns.contains(before.player_names[before.selected_player]) ==> {
            let after = before.enumerated(Some(ns));
            &&& after.player_names[after.selected_player] == before.player_names[before.selected_player]
            &&& is_first_index(ns, before.player_names[before.selected_player], after.selected_player)
        },
        !ns.contains(before.player_names[before.selected_player])
            ==> before.enumerated(Some(ns)).selected_player == 0,
        before.enumerated(Some(ns)).wf(),
{
    let x = before.player_names[before.selected_player];
    if ns.contains(x) {
        let k = choose|k: int| 0 <= k < ns.len() && ns[k] == x;
        lemma_first_exists(ns, x, k);
        let i = selection_in(ns, Some(x));
        assert(is_first_index(ns, x, i));
    }
}

proof fn lemma_first_exists(s: Seq<Seq<char>>, x: Seq<char>, k: int)
    requires
        0 <= k < s.len(),
        s[k] == x,
    ensures
        exists|i: int| is_first_index(s, x, i),
    decreases k,
{
    if forall|j: int| 0 <= j < k ==> s[j] != x {
        assert(is_first_index(s, x, k));
    } else {
        let j = choose|j: int| 0 <= j < k && s[j] == x;
        lemma_first_exists(s, x, j);
    }
}

/// However many volume steps are taken, from any starting value, the volume
/// asked for stays within silence and full volume.
pub proof fn lemma_volume_steps_bounded(v: u64, n: nat)
    requires
        n > 0,
    ensures
        raised_times(v, n) <= VOLUME_FULL,
        lowered_times(v, n) <= VOLUME_FULL,
        raised_times(v, n) >= 0,
        lowered_times(v, n) >= 0,
{
}

/// Cycling the loop mode stays within Off, Track and Playlist, changes the
/// mode each time, and returns to it after three steps.
pub proof fn lemma_loop_cycle_period_three(m: LoopMode)
    requires
        m != LoopMode::Unsupported,
    ensures
        following_loop(m) != LoopMode::Unsupported,
        following_loop(m) != m,
        following_loop(following_loop(m)) != m,
        following_loop(following_loop(following_loop(m))) == m,
{
}

/// Each field of a refresh comes from its own query alone: with a player
/// selected, every field shows what its query returned, or that field's
/// default where its query failed. So a failure of the volume query alone
/// leaves every other field as it was read.
pub proof fn lemma_refresh_isolation(before: AppView, r: PlayerReading)
    requires
        before.player_names.len() > 0,
    ensures
        ({
            let a = before.refreshed(Some(r));
            &&& a.title == title_of(r.metadata)
            &&& a.artist == artist_of(r.metadata)
            &&& a.album == album_of(r.metadata)
            &&& a.duration == length_of(r.metadata)
            &&& a.position == number_or_zero(r.position)
            &&& a.playback_status == status_of(r.status)
            &&& a.volume == number_or_zero(r.volume)
            &&& a.loop_status == loop_of(r.loop_status)
            &&& a.shuffle == (r.shuffle matches Some(b) && b)
        }),
        ({
            let a = before.refreshed(Some(r));
            let b = before.refreshed(Some(PlayerReading { volume: None, ..r }));
            &&& b.volume == 0
            &&& a.title == b.title
            &&& a.artist == b.artist
            &&& a.album == b.album
            &&& a.duration == b.duration
            &&& a.position == b.position
            &&& a.playback_status == b.playback_status
            &&& a.loop_status == b.loop_status
            &&& a.shuffle == b.shuffle
        }),
{
}

} // verus!
