//! The data that travels through the crate, each type with its mathematical view.
//!
//! Times are milliseconds on the caller's monotonic clock.

use vstd::prelude::*;
use crate::text::{copy_opt_text, opt_text};

verus! {

/// What a zone is doing.
#[derive(Clone, Copy, Debug, PartialEq, Eq, Structural)]
pub enum PlaybackState {
    Playing,
    Paused,
    Stopped,
    Loading,
}

/// View of [`NowPlayingInfo`].
#[verifier::ext_equal]
pub struct TrackInfoView {
    pub title: Seq<char>,
    pub artist: Seq<char>,
    pub album: Seq<char>,
    pub artwork: Option<Seq<char>>,
}

/// The track a zone list entry carries: a track without a playback state.
#[derive(Debug, PartialEq, Eq)]
pub struct NowPlayingInfo {
    pub title: String,
    pub artist: String,
    pub album: String,
    pub artwork: Option<String>,
}

impl View for NowPlayingInfo {
    type V = TrackInfoView;

    open spec fn view(&self) -> TrackInfoView {
        TrackInfoView {
            title: self.title@,
            artist: self.artist@,
            album: self.album@,
            artwork: opt_text(self.artwork),
        }
    }
}

impl Clone for NowPlayingInfo {
    fn clone(&self) -> (copy: Self)
        ensures
            copy@ == self@,
    {
        NowPlayingInfo {
            title: self.title.clone(),
            artist: self.artist.clone(),
            album: self.album.clone(),
            artwork: copy_opt_text(&self.artwork),
        }
    }
}

/// View of [`NowPlayingData`].
#[verifier::ext_equal]
pub struct TrackView {
    pub title: Seq<char>,
    pub artist: Seq<char>,
    pub album: Seq<char>,
    pub state: PlaybackState,
    pub artwork: Option<Seq<char>>,
}

/// A track together with the playback state of the zone that plays it.
#[derive(Debug, PartialEq, Eq)]
pub struct NowPlayingData {
    pub title: String,
    pub artist: String,
    pub album: String,
    pub state: PlaybackState,
    /// Cover art as a base64 data URL.
    pub artwork: Option<String>,
}

impl View for NowPlayingData {
    type V = TrackView;

    open spec fn view(&self) -> TrackView {
        TrackView {
            title: self.title@,
            artist: self.artist@,
            album: self.album@,
            state: self.state,
            artwork: opt_text(self.artwork),
        }
    }
}

impl Clone for NowPlayingData {
    fn clone(&self) -> (copy: Self)
        ensures
            copy@ == self@,
    {
        NowPlayingData {
            title: self.title.clone(),
            artist: self.artist.clone(),
            album: self.album.clone(),
            state: self.state,
            artwork: copy_opt_text(&self.artwork),
        }
    }
}

/// The view of an optional track.
pub open spec fn opt_track(track: Option<NowPlayingData>) -> Option<TrackView> {
    match track {
        Some(t) => Some(t@),
        None => None,
    }
}

/// A copy of an optional track.
pub fn copy_opt_track(track: &Option<NowPlayingData>) -> (copy: Option<NowPlayingData>)
    ensures
        opt_track(copy) == opt_track(*track),
{
    match track {
        Some(t) => Some(t.clone()),
        None => None,
    }
}

/// View of [`ZoneInfo`].
#[verifier::ext_equal]
pub struct ZoneInfoView {
    pub zone_id: Seq<char>,
    pub display_name: Seq<char>,
    pub state: PlaybackState,
    pub now_playing: Option<TrackInfoView>,
}

/// One entry of a zone list, as the worker reports it.
#[derive(Debug, PartialEq, Eq)]
pub struct ZoneInfo {
    pub zone_id: String,
    pub display_name: String,
    pub state: PlaybackState,
    pub now_playing: Option<NowPlayingInfo>,
}

impl View for ZoneInfo {
    type V = ZoneInfoView;

    open spec fn view(&self) -> ZoneInfoView {
        ZoneInfoView {
            zone_id: self.zone_id@,
            display_name: self.display_name@,
            state: self.state,
            now_playing: match self.now_playing {
                Some(t) => Some(t@),
                None => None,
            },
        }
    }
}

impl Clone for ZoneInfo {
    fn clone(&self) -> (copy: Self)
        ensures
            copy@ == self@,
    {
        ZoneInfo {
            zone_id: self.zone_id.clone(),
            display_name: self.display_name.clone(),
            state: self.state,
            now_playing: match &self.now_playing {
                Some(t) => Some(t.clone()),
                None => None,
            },
        }
    }
}

/// The views of a list of zone list entries, in order.
pub open spec fn zone_infos_view(infos: Seq<ZoneInfo>) -> Seq<ZoneInfoView> {
    Seq::new(infos.len(), |i: int| infos[i]@)
}

/// A copy of a list of zone list entries.
pub fn copy_zone_infos(infos: &Vec<ZoneInfo>) -> (copy: Vec<ZoneInfo>)
    ensures
        zone_infos_view(copy@) == zone_infos_view(infos@),
{
    let mut copy: Vec<ZoneInfo> = Vec::new();
    let mut i: usize = 0;
    while i < infos.len()
        invariant
            i <= infos.len(),
            copy.len() == i,
            forall|k: int| 0 <= k < i ==> copy@[k]@ == infos@[k]@,
        decreases infos.len() - i,
    {
        copy.push(infos[i].clone());
        i += 1;
    }
    assert(zone_infos_view(copy@) =~= zone_infos_view(infos@));
    copy
}

/// View of [`Zone`].
#[verifier::ext_equal]
pub struct ZoneView {
    pub zone_id: Seq<char>,
    pub display_name: Seq<char>,
    pub state: PlaybackState,
    pub now_playing: Option<TrackView>,
    pub state_changed_at: u64,
}

/// A zone as the state store keeps it.
#[derive(Debug, PartialEq, Eq)]
pub struct Zone {
    /// The key of the zone: no two zones of one list share it.
    pub zone_id: String,
    pub display_name: String,
    pub state: PlaybackState,
    /// The last track reported for this zone.
    pub now_playing: Option<NowPlayingData>,
    /// When the zone was first listed or last reported a track.
    pub state_changed_at: u64,
}

impl View for Zone {
    type V = ZoneView;

    open spec fn view(&self) -> ZoneView {
        ZoneView {
            zone_id: self.zone_id@,
            display_name: self.display_name@,
            state: self.state,
            now_playing: opt_track(self.now_playing),
            state_changed_at: self.state_changed_at,
        }
    }
}

impl Clone for Zone {
    fn clone(&self) -> (copy: Self)
        ensures
            copy@ == self@,
    {
        Zone {
            zone_id: self.zone_id.clone(),
            display_name: self.display_name.clone(),
            state: self.state,
            now_playing: copy_opt_track(&self.now_playing),
            state_changed_at: self.state_changed_at,
        }
    }
}

/// The views of a list of zones, in order.
pub open spec fn zones_view(zones: Seq<Zone>) -> Seq<ZoneView> {
    Seq::new(zones.len(), |i: int| zones[i]@)
}

/// A copy of a list of zones.
pub fn copy_zones(zones: &Vec<Zone>) -> (copy: Vec<Zone>)
    ensures
        zones_view(copy@) == zones_view(zones@),
{
    let mut copy: Vec<Zone> = Vec::new();
    let mut i: usize = 0;
    while i < zones.len()
        invariant
            i <= zones.len(),
            copy.len() == i,
            forall|k: int| 0 <= k < i ==> copy@[k]@ == zones@[k]@,
        decreases zones.len() - i,
    {
        copy.push(zones[i].clone());
        i += 1;
    }
    assert(zones_view(copy@) =~= zones_view(zones@));
    copy
}

/// Smart switching is on unless a preference says otherwise.
pub fn default_smart_switching() -> (on: bool)
    ensures
        on,
{
    true
}

/// The grace period of a preference that names none, in minutes.
pub fn default_grace_period() -> (minutes: u32)
    ensures
        minutes == 5,
{
    5
}

/// View of [`ZonePreference`].
#[verifier::ext_equal]
pub enum PreferenceView {
    Auto,
    Selected { zone_id: Seq<char>, smart_switching: bool, grace_period_mins: u32 },
}

/// Which zone the user wants to see.
#[derive(Debug, PartialEq, Eq)]
pub enum ZonePreference {
    /// Follow whichever zone starts playing first and stay with it.
    Auto,
    /// Show the pinned zone.
    Selected { zone_id: String, smart_switching: bool, grace_period_mins: u32 },
}

impl View for ZonePreference {
    type V = PreferenceView;

    open spec fn view(&self) -> PreferenceView {
        match self {
            ZonePreference::Auto => PreferenceView::Auto,
            ZonePreference::Selected { zone_id, smart_switching, grace_period_mins } => {
                PreferenceView::Selected {
                    zone_id: zone_id@,
                    smart_switching: *smart_switching,
                    grace_period_mins: *grace_period_mins,
                }
            },
        }
    }
}

impl Clone for ZonePreference {
    fn clone(&self) -> (copy: Self)
        ensures
            copy@ == self@,
    {
        match self {
            ZonePreference::Auto => ZonePreference::Auto,
            ZonePreference::Selected { zone_id, smart_switching, grace_period_mins } => {
                ZonePreference::Selected {
                    zone_id: zone_id.clone(),
                    smart_switching: *smart_switching,
                    grace_period_mins: *grace_period_mins,
                }
            },
        }
    }
}

impl Default for ZonePreference {
    fn default() -> (preference: Self)
        ensures
            preference@ == PreferenceView::Auto,
    {
        ZonePreference::Auto
    }
}

/// View of [`ConnectionStatus`].
#[verifier::ext_equal]
pub enum StatusView {
    Disconnected,
    Discovering,
    Connected,
    Error(Seq<char>),
}

/// How the worker stands with the music server.
#[derive(Debug, PartialEq, Eq)]
pub enum ConnectionStatus {
    Disconnected,
    Discovering,
    Connected,
    Error(String),
}

impl View for ConnectionStatus {
    type V = StatusView;

    open spec fn view(&self) -> StatusView {
        match self {
            ConnectionStatus::Disconnected => StatusView::Disconnected,
            ConnectionStatus::Discovering => StatusView::Discovering,
            ConnectionStatus::Connected => StatusView::Connected,
            ConnectionStatus::Error(reason) => StatusView::Error(reason@),
        }
    }
}

impl Clone for ConnectionStatus {
    fn clone(&self) -> (copy: Self)
        ensures
            copy@ == self@,
    {
        match self {
            ConnectionStatus::Disconnected => ConnectionStatus::Disconnected,
            ConnectionStatus::Discovering => ConnectionStatus::Discovering,
            ConnectionStatus::Connected => ConnectionStatus::Connected,
            ConnectionStatus::Error(reason) => ConnectionStatus::Error(reason.clone()),
        }
    }
}

/// View of [`AppState`].
#[verifier::ext_equal]
pub struct AppStateView {
    pub current_track: Option<TrackView>,
    pub connection_status: StatusView,
    pub all_zones: Seq<ZoneView>,
    pub zone_preference: PreferenceView,
    pub active_zone_id: Option<Seq<char>>,
    pub preferred_zone_stopped_at: Option<u64>,
    pub is_smart_switched: bool,
    pub last_menu_rebuild: Option<u64>,
}

impl AppStateView {
    /// A track is shown exactly when a zone is active.
    pub open spec fn coherent(self) -> bool {
        self.active_zone_id is Some <==> self.current_track is Some
    }

    /// No two zones of the list share an id.
    pub open spec fn zones_distinct(self) -> bool {
        distinct_ids(self.all_zones)
    }
}

/// No two zones of `zones` share an id.
pub open spec fn distinct_ids(zones: Seq<ZoneView>) -> bool {
    forall|i: int, j: int|
        0 <= i < j < zones.len() ==> (#[trigger] zones[i]).zone_id != (#[trigger] zones[j]).zone_id
}

/// The single record of what is connected, which zones exist and which one is shown.
#[derive(Debug, PartialEq, Eq)]
pub struct AppState {
    /// The track of the active zone.
    pub current_track: Option<NowPlayingData>,
    pub connection_status: ConnectionStatus,
    /// The zones of the last zone list, in its order.
    pub all_zones: Vec<Zone>,
    pub zone_preference: ZonePreference,
    /// The zone whose track is shown.
    pub active_zone_id: Option<String>,
    pub preferred_zone_stopped_at: Option<u64>,
    pub is_smart_switched: bool,
    /// When the menu was last rebuilt.
    pub last_menu_rebuild: Option<u64>,
}

impl View for AppState {
    type V = AppStateView;

    open spec fn view(&self) -> AppStateView {
        AppStateView {
            current_track: opt_track(self.current_track),
            connection_status: self.connection_status@,
            all_zones: zones_view(self.all_zones@),
            zone_preference: self.zone_preference@,
            active_zone_id: opt_text(self.active_zone_id),
            preferred_zone_stopped_at: self.preferred_zone_stopped_at,
            is_smart_switched: self.is_smart_switched,
            last_menu_rebuild: self.last_menu_rebuild,
        }
    }
}

/// The state at startup: disconnected, no zones, automatic preference.
pub open spec fn initial_state() -> AppStateView {
    AppStateView {
        current_track: None,
        connection_status: StatusView::Disconnected,
        all_zones: Seq::empty(),
        zone_preference: PreferenceView::Auto,
        active_zone_id: None,
        preferred_zone_stopped_at: None,
        is_smart_switched: false,
        last_menu_rebuild: None,
    }
}

impl Clone for AppState {
    fn clone(&self) -> (copy: Self)
        ensures
            copy@ == self@,
    {
        AppState {
            current_track: copy_opt_track(&self.current_track),
            connection_status: self.connection_status.clone(),
            all_zones: copy_zones(&self.all_zones),
            zone_preference: self.zone_preference.clone(),
            active_zone_id: copy_opt_text(&self.active_zone_id),
            preferred_zone_stopped_at: self.preferred_zone_stopped_at,
            is_smart_switched: self.is_smart_switched,
            last_menu_rebuild: self.last_menu_rebuild,
        }
    }
}

impl Default for AppState {
    fn default() -> (state: Self)
        ensures
            state@ == initial_state(),
            state@.coherent(),
            state@.zones_distinct(),
    {
        AppState {
            current_track: None,
            connection_status: ConnectionStatus::Disconnected,
            all_zones: Vec::new(),
            zone_preference: ZonePreference::Auto,
            active_zone_id: None,
            preferred_zone_stopped_at: None,
            is_smart_switched: false,
            last_menu_rebuild: None,
        }
    }
}

/// View of [`SidecarMessage`].
#[verifier::ext_equal]
#[allow(inconsistent_fields)]
pub enum MessageView {
    NowPlaying {
        zone_id: Seq<char>,
        title: Seq<char>,
        artist: Seq<char>,
        album: Seq<char>,
        state: PlaybackState,
        artwork: Option<Seq<char>>,
    },
    ZoneList { zones: Seq<ZoneInfoView> },
    Status { state: Seq<char>, message: Option<Seq<char>> },
    Error { message: Seq<char> },
}

/// One message of the worker, decoded.
#[derive(Debug, PartialEq, Eq)]
#[allow(inconsistent_fields)]
pub enum SidecarMessage {
    NowPlaying {
        zone_id: String,
        title: String,
        artist: String,
        album: String,
        state: PlaybackState,
        artwork: Option<String>,
    },
    ZoneList { zones: Vec<ZoneInfo> },
    Status { state: String, message: Option<String> },
    Error { message: String },
}

impl View for SidecarMessage {
    type V = MessageView;

    open spec fn view(&self) -> MessageView {
        match self {
            SidecarMessage::NowPlaying { zone_id, title, artist, album, state, artwork } => {
                MessageView::NowPlaying {
                    zone_id: zone_id@,
                    title: title@,
                    artist: artist@,
                    album: album@,
                    state: *state,
                    artwork: opt_text(*artwork),
                }
            },
            SidecarMessage::ZoneList { zones } => MessageView::ZoneList {
                zones: zone_infos_view(zones@),
            },
            SidecarMessage::Status { state, message } => MessageView::Status {
                state: state@,
                message: opt_text(*message),
            },
            SidecarMessage::Error { message } => MessageView::Error { message: message@ },
        }
    }
}

impl Clone for SidecarMessage {
    fn clone(&self) -> (copy: Self)
        ensures
            copy@ == self@,
    {
        match self {
            SidecarMessage::NowPlaying { zone_id, title, artist, album, state, artwork } => {
                SidecarMessage::NowPlaying {
                    zone_id: zone_id.clone(),
                    title: title.clone(),
                    artist: artist.clone(),
                    album: album.clone(),
                    state: *state,
                    artwork: copy_opt_text(artwork),
                }
            },
            SidecarMessage::ZoneList { zones } => SidecarMessage::ZoneList {
                zones: copy_zone_infos(zones),
            },
            SidecarMessage::Status { state, message } => SidecarMessage::Status {
                state: state.clone(),
                message: copy_opt_text(message),
            },
            SidecarMessage::Error { message } => SidecarMessage::Error { message: message.clone() },
        }
    }
}

} // verus!
