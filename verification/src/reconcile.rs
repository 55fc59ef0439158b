//! How a message of the worker, or a choice of the user, changes the state,
//! and which part of the presentation has to be refreshed afterwards.
//!
//! Every transition is given twice: as a function on views, which says what
//! the transition is, and as a method of [`AppState`], which carries it out.

use vstd::prelude::*;
use vstd::string::StringExecFns;
use crate::text::{copy_opt_text, is_text, opt_text};
use crate::types::{
    default_grace_period, default_smart_switching, zone_infos_view, zones_view, AppState,
    AppStateView, ConnectionStatus, MessageView, NowPlayingData, PlaybackState, PreferenceView,
    SidecarMessage, StatusView, TrackView, Zone, ZoneInfo, ZoneInfoView, ZonePreference, ZoneView,
};

verus! {

/// The zone id by which the worker reports that nothing is connected any more.
pub const DISCONNECTED_ZONE: &'static str = "__disconnected__";

/// The shortest time between two menu rebuilds that zone lists cause, in milliseconds.
pub const REBUILD_WINDOW_MS: u64 = 1000;

/// Which parts of the presentation have to be refreshed. Where both are
/// asked for, the menu is rebuilt first.
#[derive(Clone, Copy, Debug, PartialEq, Eq, Structural)]
pub struct RefreshPlan {
    pub rebuild_menu: bool,
    pub update_icon: bool,
}

/// Nothing to refresh.
pub open spec fn no_refresh() -> RefreshPlan {
    RefreshPlan { rebuild_menu: false, update_icon: false }
}

/// The icon alone.
pub open spec fn icon_refresh() -> RefreshPlan {
    RefreshPlan { rebuild_menu: false, update_icon: true }
}

/// The menu alone.
pub open spec fn menu_refresh() -> RefreshPlan {
    RefreshPlan { rebuild_menu: true, update_icon: false }
}

/// The index of the first zone at or after `from` whose id is `id`.
pub open spec fn first_zone(zones: Seq<ZoneView>, id: Seq<char>, from: int) -> Option<int>
    decreases zones.len() - from,
{
    if from < 0 || from >= zones.len() {
        None
    } else if zones[from].zone_id == id {
        Some(from)
    } else {
        first_zone(zones, id, from + 1)
    }
}

/// Whether some zone has the id `id`.
pub open spec fn has_zone(zones: Seq<ZoneView>, id: Seq<char>) -> bool {
    exists|i: int| 0 <= i < zones.len() && (#[trigger] zones[i]).zone_id == id
}

/// `first_zone` finds a zone exactly where one exists, and then the first.
pub proof fn lemma_first_zone(zones: Seq<ZoneView>, id: Seq<char>, from: int)
    requires
        0 <= from,
    ensures
        match first_zone(zones, id, from) {
            Some(i) => {
                &&& from <= i < zones.len()
                &&& zones[i].zone_id == id
                &&& forall|k: int| from <= k < i ==> (#[trigger] zones[k]).zone_id != id
            },
            None => forall|k: int| from <= k < zones.len() ==> (#[trigger] zones[k]).zone_id != id,
        },
    decreases zones.len() - from,
{
    if from < zones.len() && zones[from].zone_id != id {
        lemma_first_zone(zones, id, from + 1);
    }
}

/// The index of the first zone whose id is `id`.
pub fn find_zone(zones: &Vec<Zone>, id: &String) -> (found: Option<usize>)
    ensures
        match found {
            Some(i) => i < zones.len() && first_zone(zones_view(zones@), id@, 0) == Some(i as int),
            None => first_zone(zones_view(zones@), id@, 0) is None,
        },
{
    let mut i: usize = 0;
    while i < zones.len()
        invariant
            i <= zones.len(),
            first_zone(zones_view(zones@), id@, 0) == first_zone(zones_view(zones@), id@, i as int),
        decreases zones.len() - i,
    {
        if zones[i].zone_id == *id {
            return Some(i);
        }
        i += 1;
    }
    None
}

/// Whether a track reported for `zone_id` becomes the track that is shown.
///
/// With the automatic preference the active zone stays: its own reports are
/// shown, those of other zones are not. While no zone is active, the first
/// zone that reports a track as playing becomes active. With a pinned zone,
/// exactly its reports are shown.
pub open spec fn should_display(
    preference: PreferenceView,
    active: Option<Seq<char>>,
    zone_id: Seq<char>,
    state: PlaybackState,
) -> bool {
    match preference {
        PreferenceView::Auto => match active {
            Some(a) => a == zone_id,
            None => state == PlaybackState::Playing,
        },
        PreferenceView::Selected { zone_id: pinned, .. } => pinned == zone_id,
    }
}

/// Decides whether a track reported for `zone_id` becomes the track that is shown.
pub fn decide_display(
    preference: &ZonePreference,
    active: &Option<String>,
    zone_id: &String,
    state: PlaybackState,
) -> (shown: bool)
    ensures
        shown == should_display(preference@, opt_text(*active), zone_id@, state),
{
    match preference {
        ZonePreference::Auto => match active {
            Some(a) => *a == *zone_id,
            None => state == PlaybackState::Playing,
        },
        ZonePreference::Selected { zone_id: pinned, .. } => *pinned == *zone_id,
    }
}

/// A zone after a track was reported for `zone_id`: the zone of that id
/// caches the track and the time, any other zone is untouched.
pub open spec fn touch(zone: ZoneView, zone_id: Seq<char>, track: TrackView, now: u64) -> ZoneView {
    if zone.zone_id == zone_id {
        ZoneView { now_playing: Some(track), state_changed_at: now, ..zone }
    } else {
        zone
    }
}

/// The zone list after a track was reported for `zone_id`.
pub open spec fn touch_all(
    zones: Seq<ZoneView>,
    zone_id: Seq<char>,
    track: TrackView,
    now: u64,
) -> Seq<ZoneView> {
    Seq::new(zones.len(), |i: int| touch(zones[i], zone_id, track, now))
}

/// The state after the worker reported `track` for `zone_id` at time `now`.
///
/// The reserved id [`DISCONNECTED_ZONE`] clears the track and the active
/// zone, whatever else the message or the state holds. Any other id updates
/// the zone of that id, if there is one, and the track is shown if
/// [`should_display`] says so; the zone then becomes the active one.
pub open spec fn after_now_playing(
    state: AppStateView,
    zone_id: Seq<char>,
    track: TrackView,
    now: u64,
) -> AppStateView {
    if zone_id == DISCONNECTED_ZONE@ {
        AppStateView { current_track: None, active_zone_id: None, ..state }
    } else {
        let zones = touch_all(state.all_zones, zone_id, track, now);
        if should_display(state.zone_preference, state.active_zone_id, zone_id, track.state) {
            AppStateView {
                all_zones: zones,
                current_track: Some(track),
                active_zone_id: Some(zone_id),
                ..state
            }
        } else {
            AppStateView { all_zones: zones, ..state }
        }
    }
}

/// What to refresh after the worker reported `track` for `zone_id`: the icon
/// where the shown track was cleared or replaced, else nothing.
pub open spec fn refresh_after_now_playing(
    state: AppStateView,
    zone_id: Seq<char>,
    track: TrackView,
) -> RefreshPlan {
    if zone_id == DISCONNECTED_ZONE@ || should_display(
        state.zone_preference,
        state.active_zone_id,
        zone_id,
        track.state,
    ) {
        icon_refresh()
    } else {
        no_refresh()
    }
}

/// Caches `track` and `now` in every zone of the id `zone_id`.
fn touch_zones(zones: &mut Vec<Zone>, zone_id: &String, track: &NowPlayingData, now: u64)
    ensures
        zones_view(final(zones)@) == touch_all(zones_view(old(zones)@), zone_id@, track@, now),
{
    let mut i: usize = 0;
    while i < zones.len()
        invariant
            i <= zones.len(),
            zones.len() == old(zones).len(),
            forall|k: int|
                0 <= k < i ==> (#[trigger] zones@[k])@ == touch(
                    old(zones)@[k]@,
                    zone_id@,
                    track@,
                    now,
                ),
            forall|k: int| i <= k < zones.len() ==> (#[trigger] zones@[k])@ == old(zones)@[k]@,
        decreases zones.len() - i,
    {
        if zones[i].zone_id == *zone_id {
            let touched = Zone {
                zone_id: zones[i].zone_id.clone(),
                display_name: zones[i].display_name.clone(),
                state: zones[i].state,
                now_playing: Some(track.clone()),
                state_changed_at: now,
            };
            zones.set(i, touched);
        }
        i += 1;
    }
    assert(zones_view(zones@) =~= touch_all(zones_view(old(zones)@), zone_id@, track@, now));
}

/// Whether two zone lists differ in a way the menu shows: in their length,
/// in an id that only one of them holds, or in the name or the state of a
/// zone that both hold.
pub open spec fn zones_changed(old: Seq<ZoneView>, new: Seq<ZoneView>) -> bool {
    ||| old.len() != new.len()
    ||| exists|i: int| 0 <= i < old.len() && !has_zone(new, (#[trigger] old[i]).zone_id)
    ||| exists|j: int| 0 <= j < new.len() && !has_zone(old, (#[trigger] new[j]).zone_id)
    ||| exists|i: int, j: int|
        0 <= i < old.len() && 0 <= j < new.len() && (#[trigger] old[i]).zone_id == (
        #[trigger] new[j]).zone_id && (old[i].display_name != new[j].display_name || old[i].state
            != new[j].state)
}

/// Whether the zone `zone` agrees in name and state with every zone of its id
/// in `others`, and `others` holds such a zone.
spec fn matched_in(zone: ZoneView, others: Seq<ZoneView>) -> bool {
    &&& has_zone(others, zone.zone_id)
    &&& forall|j: int|
        0 <= j < others.len() && (#[trigger] others[j]).zone_id == zone.zone_id ==> {
            &&& others[j].display_name == zone.display_name
            &&& others[j].state == zone.state
        }
}

/// Looks through `others` for the zones of the id of `zone`.
fn zone_matched(zone: &Zone, others: &Vec<Zone>) -> (matched: bool)
    ensures
        matched == matched_in(zone@, zones_view(others@)),
{
    let ghost seen = zones_view(others@);
    let mut found = false;
    let mut j: usize = 0;
    while j < others.len()
        invariant
            j <= others.len(),
            seen == zones_view(others@),
            found <==> exists|k: int| 0 <= k < j && (#[trigger] seen[k]).zone_id == zone@.zone_id,
            forall|k: int|
                0 <= k < j && (#[trigger] seen[k]).zone_id == zone@.zone_id ==> {
                    &&& seen[k].display_name == zone@.display_name
                    &&& seen[k].state == zone@.state
                },
        decreases others.len() - j,
    {
        if others[j].zone_id == zone.zone_id {
            assert(seen[j as int].zone_id == zone@.zone_id);
            if !(others[j].display_name == zone.display_name) || others[j].state != zone.state {
                return false;
            }
            found = true;
        }
        j += 1;
    }
    found
}

/// Whether `old` and `new` differ in a way the menu shows.
pub fn zones_differ(old: &Vec<Zone>, new: &Vec<Zone>) -> (changed: bool)
    ensures
        changed == zones_changed(zones_view(old@), zones_view(new@)),
{
    let ghost o = zones_view(old@);
    let ghost n = zones_view(new@);
    if old.len() != new.len() {
        return true;
    }
    let mut i: usize = 0;
    while i < old.len()
        invariant
            i <= old.len(),
            o == zones_view(old@),
            n == zones_view(new@),
            forall|k: int| 0 <= k < i ==> matched_in(#[trigger] o[k], n),
        decreases old.len() - i,
    {
        if !zone_matched(&old[i], new) {
            proof {
                let z = o[i as int];
                if has_zone(n, z.zone_id) {
                    // Some zone of that id differs from `z` in name or state.
                    let j = choose|j: int|
                        0 <= j < n.len() && (#[trigger] n[j]).zone_id == z.zone_id && !(
                        n[j].display_name == z.display_name && n[j].state == z.state);
                    assert(o[i as int].zone_id == n[j].zone_id);
                }
            }
            return true;
        }
        i += 1;
    }
    let mut j: usize = 0;
    while j < new.len()
        invariant
            j <= new.len(),
            o == zones_view(old@),
            n == zones_view(new@),
            forall|k: int| 0 <= k < o.len() ==> matched_in(#[trigger] o[k], n),
            forall|k: int| 0 <= k < j ==> has_zone(o, (#[trigger] n[k]).zone_id),
        decreases new.len() - j,
    {
        proof {
            lemma_first_zone(o, n[j as int].zone_id, 0);
        }
        if find_zone(old, &new[j].zone_id).is_none() {
            return true;
        }
        j += 1;
    }
    proof {
        assert forall|a: int, b: int|
            0 <= a < o.len() && 0 <= b < n.len() && (#[trigger] o[a]).zone_id == (
            #[trigger] n[b]).zone_id implies !(o[a].display_name != n[b].display_name || o[a].state
            != n[b].state) by {
            assert(matched_in(o[a], n));
        }
        assert forall|a: int| 0 <= a < o.len() implies has_zone(n, (#[trigger] o[a]).zone_id) by {
            assert(matched_in(o[a], n));
        }
    }
    false
}

/// The zone that a zone list entry becomes. It keeps the time of the zone of
/// its id in `old`, or is stamped `now` if `old` holds no such zone; its
/// track takes the state of the zone.
pub open spec fn zone_from_info(info: ZoneInfoView, old: Seq<ZoneView>, now: u64) -> ZoneView {
    ZoneView {
        zone_id: info.zone_id,
        display_name: info.display_name,
        state: info.state,
        now_playing: match info.now_playing {
            Some(t) => Some(
                TrackView {
                    title: t.title,
                    artist: t.artist,
                    album: t.album,
                    state: info.state,
                    artwork: t.artwork,
                },
            ),
            None => None,
        },
        state_changed_at: match first_zone(old, info.zone_id, 0) {
            Some(i) => old[i].state_changed_at,
            None => now,
        },
    }
}

/// The zones that a zone list becomes, in its order.
pub open spec fn zones_from_infos(infos: Seq<ZoneInfoView>, old: Seq<ZoneView>, now: u64) -> Seq<
    ZoneView,
> {
    Seq::new(infos.len(), |i: int| zone_from_info(infos[i], old, now))
}

/// The new state of the active zone, if the zone `active` is in both lists
/// and its state is not the same in both.
pub open spec fn active_state_change(
    old: Seq<ZoneView>,
    new: Seq<ZoneView>,
    active: Option<Seq<char>>,
) -> Option<PlaybackState> {
    match active {
        Some(a) => match (first_zone(old, a, 0), first_zone(new, a, 0)) {
            (Some(i), Some(j)) => if old[i].state != new[j].state {
                Some(new[j].state)
            } else {
                None
            },
            _ => None,
        },
        None => None,
    }
}

/// Whether a changed zone list rebuilds the menu at `now`: only if no
/// rebuild is on record or the last one is at least [`REBUILD_WINDOW_MS`] old.
pub open spec fn rebuild_due(changed: bool, last: Option<u64>, now: u64) -> bool {
    changed && match last {
        Some(t) => now - t >= REBUILD_WINDOW_MS,
        None => true,
    }
}

/// Decides whether a changed zone list rebuilds the menu at `now`.
pub fn is_rebuild_due(changed: bool, last: Option<u64>, now: u64) -> (due: bool)
    ensures
        due == rebuild_due(changed, last, now),
{
    changed && match last {
        Some(t) => now >= t && now - t >= REBUILD_WINDOW_MS,
        None => true,
    }
}

/// A track with another playback state.
pub open spec fn with_state(track: Option<TrackView>, state: Option<PlaybackState>) -> Option<
    TrackView,
> {
    match (track, state) {
        (Some(t), Some(s)) => Some(TrackView { state: s, ..t }),
        _ => track,
    }
}

/// Whether a zone is active that the list `zones` does not hold.
pub open spec fn active_is_stale(zones: Seq<ZoneView>, active: Option<Seq<char>>) -> bool {
    match active {
        Some(a) => first_zone(zones, a, 0) is None,
        None => false,
    }
}

/// The state after the worker sent the zone list `infos` at time `now`.
///
/// The list replaces the stored one. An active zone that the list no longer
/// holds is active no more, and its track is not shown any longer. Where the
/// state of the active zone is not what it was, the shown track takes the
/// new state. Where the list rebuilds the menu, the time of the rebuild is
/// put on record with it.
pub open spec fn after_zone_list(
    state: AppStateView,
    infos: Seq<ZoneInfoView>,
    now: u64,
) -> AppStateView {
    let zones = zones_from_infos(infos, state.all_zones, now);
    let due = rebuild_due(zones_changed(state.all_zones, zones), state.last_menu_rebuild, now);
    let stale = active_is_stale(zones, state.active_zone_id);
    AppStateView {
        all_zones: zones,
        active_zone_id: if stale {
            None
        } else {
            state.active_zone_id
        },
        current_track: if stale {
            None
        } else {
            with_state(
                state.current_track,
                active_state_change(state.all_zones, zones, state.active_zone_id),
            )
        },
        last_menu_rebuild: if due {
            Some(now)
        } else {
            state.last_menu_rebuild
        },
        ..state
    }
}

/// What to refresh after the zone list `infos`: the menu where the list
/// changed and a rebuild is due; the icon where the active zone is gone or
/// its state changed. Neither depends on the other.
pub open spec fn refresh_after_zone_list(
    state: AppStateView,
    infos: Seq<ZoneInfoView>,
    now: u64,
) -> RefreshPlan {
    let zones = zones_from_infos(infos, state.all_zones, now);
    RefreshPlan {
        rebuild_menu: rebuild_due(
            zones_changed(state.all_zones, zones),
            state.last_menu_rebuild,
            now,
        ),
        update_icon: active_is_stale(zones, state.active_zone_id) || active_state_change(
            state.all_zones,
            zones,
            state.active_zone_id,
        ) is Some,
    }
}

/// Builds the zones of a zone list.
fn build_zones(infos: &Vec<ZoneInfo>, old: &Vec<Zone>, now: u64) -> (zones: Vec<Zone>)
    ensures
        zones_view(zones@) == zones_from_infos(zone_infos_view(infos@), zones_view(old@), now),
{
    let mut zones: Vec<Zone> = Vec::new();
    let mut i: usize = 0;
    while i < infos.len()
        invariant
            i <= infos.len(),
            zones.len() == i,
            forall|k: int|
                0 <= k < i ==> (#[trigger] zones@[k])@ == zone_from_info(
                    infos@[k]@,
                    zones_view(old@),
                    now,
                ),
        decreases infos.len() - i,
    {
        let info = &infos[i];
        let stamp = match find_zone(old, &info.zone_id) {
            Some(k) => old[k].state_changed_at,
            None => now,
        };
        let track = match &info.now_playing {
            Some(t) => Some(
                NowPlayingData {
                    title: t.title.clone(),
                    artist: t.artist.clone(),
                    album: t.album.clone(),
                    state: info.state,
                    artwork: copy_opt_text(&t.artwork),
                },
            ),
            None => None,
        };
        zones.push(
            Zone {
                zone_id: info.zone_id.clone(),
                display_name: info.display_name.clone(),
                state: info.state,
                now_playing: track,
                state_changed_at: stamp,
            },
        );
        i += 1;
    }
    assert(zones_view(zones@) =~= zones_from_infos(
        zone_infos_view(infos@),
        zones_view(old@),
        now,
    ));
    zones
}

/// Finds the new state of the active zone, if it changed.
fn find_active_state_change(old: &Vec<Zone>, new: &Vec<Zone>, active: &Option<String>) -> (change:
    Option<PlaybackState>)
    ensures
        change == active_state_change(zones_view(old@), zones_view(new@), opt_text(*active)),
{
    match active {
        Some(a) => match (find_zone(old, a), find_zone(new, a)) {
            (Some(i), Some(j)) => {
                proof {
                    lemma_first_zone(zones_view(old@), a@, 0);
                    lemma_first_zone(zones_view(new@), a@, 0);
                }
                if old[i].state != new[j].state {
                    Some(new[j].state)
                } else {
                    None
                }
            },
            _ => None,
        },
        None => None,
    }
}

/// The status keyword of a worker that searches for the server.
pub const STATUS_DISCOVERING: &'static str = "discovering";

/// The status keyword of a worker that is connected.
pub const STATUS_CONNECTED: &'static str = "connected";

/// The status keyword of a worker that lost its connection.
pub const STATUS_DISCONNECTED: &'static str = "disconnected";

/// The status keyword of a worker that the server has not authorized.
pub const STATUS_NOT_AUTHORIZED: &'static str = "not_authorized";

/// The error shown while the worker is not authorized.
pub const NOT_AUTHORIZED_REASON: &'static str = "not authorized";

/// What the error for an unknown status keyword starts with.
pub const UNKNOWN_STATUS_PREFIX: &'static str = "unknown status: ";

/// The error shown after the worker's output ended.
pub const WORKER_EXITED_REASON: &'static str = "worker exited";

/// The connection status that a status keyword stands for. A keyword outside
/// the vocabulary is an error that names it.
pub open spec fn status_for(keyword: Seq<char>) -> StatusView {
    if keyword == STATUS_DISCOVERING@ {
        StatusView::Discovering
    } else if keyword == STATUS_CONNECTED@ {
        StatusView::Connected
    } else if keyword == STATUS_DISCONNECTED@ {
        StatusView::Disconnected
    } else if keyword == STATUS_NOT_AUTHORIZED@ {
        StatusView::Error(NOT_AUTHORIZED_REASON@)
    } else {
        StatusView::Error(UNKNOWN_STATUS_PREFIX@ + keyword)
    }
}

/// Reads a status keyword.
pub fn parse_status(keyword: &String) -> (status: ConnectionStatus)
    ensures
        status@ == status_for(keyword@),
{
    if is_text(keyword, STATUS_DISCOVERING) {
        ConnectionStatus::Discovering
    } else if is_text(keyword, STATUS_CONNECTED) {
        ConnectionStatus::Connected
    } else if is_text(keyword, STATUS_DISCONNECTED) {
        ConnectionStatus::Disconnected
    } else if is_text(keyword, STATUS_NOT_AUTHORIZED) {
        ConnectionStatus::Error(NOT_AUTHORIZED_REASON.to_owned())
    } else {
        let mut reason = UNKNOWN_STATUS_PREFIX.to_owned();
        reason.append(keyword.as_str());
        ConnectionStatus::Error(reason)
    }
}

/// The state after its connection status became `status`.
pub open spec fn with_status(state: AppStateView, status: StatusView) -> AppStateView {
    AppStateView { connection_status: status, ..state }
}

/// The state after the user chose the zone `zone_id`: the zone is pinned
/// with the default settings, and what smart switching had on record is gone.
pub open spec fn after_selection(state: AppStateView, zone_id: Seq<char>) -> AppStateView {
    AppStateView {
        zone_preference: PreferenceView::Selected {
            zone_id,
            smart_switching: true,
            grace_period_mins: 5,
        },
        is_smart_switched: false,
        preferred_zone_stopped_at: None,
        ..state
    }
}

/// The state after the message `message`, received at `now`.
pub open spec fn after_message(
    state: AppStateView,
    message: MessageView,
    now: u64,
) -> AppStateView {
    match message {
        MessageView::NowPlaying { zone_id, title, artist, album, state: playback, artwork } => {
            after_now_playing(
                state,
                zone_id,
                TrackView { title, artist, album, state: playback, artwork },
                now,
            )
        },
        MessageView::ZoneList { zones } => after_zone_list(state, zones, now),
        MessageView::Status { state: keyword, .. } => with_status(state, status_for(keyword)),
        MessageView::Error { message } => with_status(state, StatusView::Error(message)),
    }
}

/// What to refresh after the message `message`. A status and an error always
/// rebuild the menu.
pub open spec fn refresh_after_message(
    state: AppStateView,
    message: MessageView,
    now: u64,
) -> RefreshPlan {
    match message {
        MessageView::NowPlaying { zone_id, title, artist, album, state: playback, artwork } => {
            refresh_after_now_playing(
                state,
                zone_id,
                TrackView { title, artist, album, state: playback, artwork },
            )
        },
        MessageView::ZoneList { zones } => refresh_after_zone_list(state, zones, now),
        MessageView::Status { .. } => menu_refresh(),
        MessageView::Error { .. } => menu_refresh(),
    }
}

impl AppState {
    /// Applies a report of `track` for `zone_id`, received at `now`.
    pub fn apply_now_playing(&mut self, zone_id: String, track: NowPlayingData, now: u64) -> (plan:
        RefreshPlan)
        ensures
            final(self)@ == after_now_playing(old(self)@, zone_id@, track@, now),
            plan == refresh_after_now_playing(old(self)@, zone_id@, track@),
    {
        if is_text(&zone_id, DISCONNECTED_ZONE) {
            self.current_track = None;
            self.active_zone_id = None;
            return RefreshPlan { rebuild_menu: false, update_icon: true };
        }
        touch_zones(&mut self.all_zones, &zone_id, &track, now);
        let shown = decide_display(
            &self.zone_preference,
            &self.active_zone_id,
            &zone_id,
            track.state,
        );
        if shown {
            self.current_track = Some(track);
            self.active_zone_id = Some(zone_id);
            RefreshPlan { rebuild_menu: false, update_icon: true }
        } else {
            RefreshPlan { rebuild_menu: false, update_icon: false }
        }
    }

    /// Applies the zone list `infos`, received at `now`.
    pub fn apply_zone_list(&mut self, infos: Vec<ZoneInfo>, now: u64) -> (plan: RefreshPlan)
        ensures
            final(self)@ == after_zone_list(old(self)@, zone_infos_view(infos@), now),
            plan == refresh_after_zone_list(old(self)@, zone_infos_view(infos@), now),
    {
        let zones = build_zones(&infos, &self.all_zones, now);
        let changed = zones_differ(&self.all_zones, &zones);
        let due = is_rebuild_due(changed, self.last_menu_rebuild, now);
        let stale = match &self.active_zone_id {
            Some(a) => find_zone(&zones, a).is_none(),
            None => false,
        };
        let mut update_icon = stale;
        if stale {
            self.active_zone_id = None;
            self.current_track = None;
        } else {
            match find_active_state_change(&self.all_zones, &zones, &self.active_zone_id) {
                Some(state) => {
                    update_icon = true;
                    match self.current_track.take() {
                        Some(track) => {
                            self.current_track = Some(NowPlayingData { state, ..track });
                        },
                        None => {},
                    }
                },
                None => {},
            }
        }
        if due {
            self.last_menu_rebuild = Some(now);
        }
        self.all_zones = zones;
        RefreshPlan { rebuild_menu: due, update_icon }
    }

    /// Applies a status keyword of the worker.
    pub fn apply_status(&mut self, keyword: &String) -> (plan: RefreshPlan)
        ensures
            final(self)@ == with_status(old(self)@, status_for(keyword@)),
            plan == menu_refresh(),
    {
        self.connection_status = parse_status(keyword);
        RefreshPlan { rebuild_menu: true, update_icon: false }
    }

    /// Applies an error that the worker reported.
    pub fn apply_error(&mut self, message: String) -> (plan: RefreshPlan)
        ensures
            final(self)@ == with_status(old(self)@, StatusView::Error(message@)),
            plan == menu_refresh(),
    {
        self.connection_status = ConnectionStatus::Error(message);
        RefreshPlan { rebuild_menu: true, update_icon: false }
    }

    /// Applies one message of the worker, received at `now`.
    pub fn apply(&mut self, message: SidecarMessage, now: u64) -> (plan: RefreshPlan)
        ensures
            final(self)@ == after_message(old(self)@, message@, now),
            plan == refresh_after_message(old(self)@, message@, now),
    {
        match message {
            SidecarMessage::NowPlaying { zone_id, title, artist, album, state, artwork } => {
                self.apply_now_playing(
                    zone_id,
                    NowPlayingData { title, artist, album, state, artwork },
                    now,
                )
            },
            SidecarMessage::ZoneList { zones } => self.apply_zone_list(zones, now),
            SidecarMessage::Status { state, message: _ } => self.apply_status(&state),
            SidecarMessage::Error { message } => self.apply_error(message),
        }
    }

    /// The worker's output ended without a shutdown: the status says so, and
    /// the menu is rebuilt.
    pub fn mark_worker_exited(&mut self) -> (plan: RefreshPlan)
        ensures
            final(self)@ == with_status(old(self)@, StatusView::Error(WORKER_EXITED_REASON@)),
            plan == menu_refresh(),
    {
        self.connection_status = ConnectionStatus::Error(WORKER_EXITED_REASON.to_owned());
        RefreshPlan { rebuild_menu: true, update_icon: false }
    }

    /// The user chose the zone `zone_id` in the menu. The menu is rebuilt to
    /// show the choice, then the icon is refreshed.
    pub fn select_zone(&mut self, zone_id: String) -> (plan: RefreshPlan)
        ensures
            final(self)@ == after_selection(old(self)@, zone_id@),
            plan == (RefreshPlan { rebuild_menu: true, update_icon: true }),
    {
        self.zone_preference = ZonePreference::Selected {
            zone_id,
            smart_switching: default_smart_switching(),
            grace_period_mins: default_grace_period(),
        };
        self.is_smart_switched = false;
        self.preferred_zone_stopped_at = None;
        RefreshPlan { rebuild_menu: true, update_icon: true }
    }

    /// Puts on record that the menu was rebuilt at `now`.
    pub fn mark_rebuilt(&mut self, now: u64)
        ensures
            final(self)@ == (AppStateView { last_menu_rebuild: Some(now), ..old(self)@ }),
    {
        self.last_menu_rebuild = Some(now);
    }
}

/// The reserved zone id clears the shown track and the active zone, whatever
/// the preference, the active zone and the rest of the message are, and
/// touches nothing else.
pub proof fn lemma_disconnect_clears(state: AppStateView, track: TrackView, now: u64)
    ensures
        after_now_playing(state, DISCONNECTED_ZONE@, track, now) == (AppStateView {
            current_track: None,
            active_zone_id: None,
            ..state
        }),
        refresh_after_now_playing(state, DISCONNECTED_ZONE@, track) == icon_refresh(),
{
}

/// With the automatic preference an active zone stays active when another
/// zone reports a track, and the shown track stays with it. (The reserved id
/// is no zone: it clears both.)
pub proof fn lemma_active_zone_is_sticky(
    state: AppStateView,
    zone_id: Seq<char>,
    track: TrackView,
    now: u64,
)
    requires
        state.zone_preference == PreferenceView::Auto,
        state.active_zone_id is Some,
        state.active_zone_id != Some(zone_id),
        zone_id != DISCONNECTED_ZONE@,
    ensures
        after_now_playing(state, zone_id, track, now).active_zone_id == state.active_zone_id,
        after_now_playing(state, zone_id, track, now).current_track == state.current_track,
{
}

/// After a zone list the active zone, if there is one, is a zone of the list.
pub proof fn lemma_zone_list_keeps_active_listed(
    state: AppStateView,
    infos: Seq<ZoneInfoView>,
    now: u64,
)
    ensures
        after_zone_list(state, infos, now).active_zone_id matches Some(a) ==> has_zone(
            after_zone_list(state, infos, now).all_zones,
            a,
        ),
{
    let after = after_zone_list(state, infos, now);
    if let Some(a) = after.active_zone_id {
        lemma_first_zone(after.all_zones, a, 0);
    }
}

/// A zone list rebuilds the menu only if no rebuild is on record or the one
/// on record is at least [`REBUILD_WINDOW_MS`] old, and then puts its own
/// time on record; a zone list that rebuilds nothing leaves the record alone.
pub proof fn lemma_rebuild_respects_window(state: AppStateView, infos: Seq<ZoneInfoView>, now: u64)
    ensures
        ({
            let after = after_zone_list(state, infos, now);
            if refresh_after_zone_list(state, infos, now).rebuild_menu {
                &&& state.last_menu_rebuild matches Some(last) ==> now - last >= REBUILD_WINDOW_MS
                &&& after.last_menu_rebuild == Some(now)
            } else {
                after.last_menu_rebuild == state.last_menu_rebuild
            }
        }),
{
}

/// Zone lists rebuild the menu at most once per window: after a zone list
/// that rebuilt the menu at `first`, a zone list at `second` rebuilds it
/// exactly if it changes the list and `second` is at least
/// [`REBUILD_WINDOW_MS`] later.
pub proof fn lemma_rebuilds_are_debounced(
    state: AppStateView,
    first_list: Seq<ZoneInfoView>,
    first: u64,
    second_list: Seq<ZoneInfoView>,
    second: u64,
)
    requires
        refresh_after_zone_list(state, first_list, first).rebuild_menu,
    ensures
        ({
            let between = after_zone_list(state, first_list, first);
            let listed = zones_from_infos(second_list, between.all_zones, second);
            refresh_after_zone_list(between, second_list, second).rebuild_menu == (zones_changed(
                between.all_zones,
                listed,
            ) && second - first >= REBUILD_WINDOW_MS)
        }),
{
}

/// A choice of the user, a rebuild put on record and a change of the
/// connection status leave the zones, the active zone and the shown track
/// as they are.
pub proof fn lemma_other_transitions_keep_zones_and_track(
    state: AppStateView,
    zone_id: Seq<char>,
    status: StatusView,
)
    ensures
        after_selection(state, zone_id).all_zones == state.all_zones,
        after_selection(state, zone_id).active_zone_id == state.active_zone_id,
        after_selection(state, zone_id).current_track == state.current_track,
        with_status(state, status).all_zones == state.all_zones,
        with_status(state, status).active_zone_id == state.active_zone_id,
        with_status(state, status).current_track == state.current_track,
{
}

/// A track is shown exactly when a zone is active: no message breaks this.
pub proof fn lemma_message_keeps_coherent(state: AppStateView, message: MessageView, now: u64)
    requires
        state.coherent(),
    ensures
        after_message(state, message, now).coherent(),
{
}

/// A report of a track changes no zone id, and a zone list whose ids differ
/// from one another is stored as such: while the worker lists no id twice,
/// no two stored zones share an id.
pub proof fn lemma_message_keeps_zones_distinct(state: AppStateView, message: MessageView, now: u64)
    requires
        state.zones_distinct(),
        message matches MessageView::ZoneList { zones } ==> forall|i: int, j: int|
            0 <= i < j < zones.len() ==> (#[trigger] zones[i]).zone_id != (
            #[trigger] zones[j]).zone_id,
    ensures
        after_message(state, message, now).zones_distinct(),
{
}

} // verus!
