//! What the tray shows: the entries of the menu, the content of the icon, and
//! what a click on an entry means. Drawing and the tray itself are the
//! caller's.

use vstd::prelude::*;
use vstd::string::StringExecFns;
use crate::text::{copy_opt_text, is_text, opt_text};
use crate::types::{
    AppState, AppStateView, PlaybackState, PreferenceView, TrackView, Zone, ZonePreference,
    ZoneView,
};

verus! {

/// The title of the submenu that lists the zones.
pub const ZONES_TITLE: &'static str = "Select Zone";

/// The id of the entry that stands for an empty zone list.
pub const NO_ZONES_ID: &'static str = "no_zones";

/// The label of the entry that stands for an empty zone list.
pub const NO_ZONES_LABEL: &'static str = "No zones available";

/// The id of the entry that quits the application.
pub const QUIT_ID: &'static str = "quit";

/// The label of the entry that quits the application.
pub const QUIT_LABEL: &'static str = "Quit";

/// What follows the label of the zone that smart switching shows.
pub const SHOWING_SUFFIX: &'static str = " \u{2190} Showing";

/// The title of the icon before any track is known.
pub const INITIAL_TITLE: &'static str = "Now Playing";

/// The second line of the icon before any track is known.
pub const INITIAL_SUBTITLE: &'static str = "Waiting for music...";

/// The title of the icon while a track loads.
pub const LOADING_TITLE: &'static str = "Loading...";

/// The title of the icon that is shown when no other can be drawn.
pub const FALLBACK_TITLE: &'static str = "\u{266a}";

/// View of [`MenuEntry`].
#[verifier::ext_equal]
pub struct MenuEntryView {
    pub id: Seq<char>,
    pub label: Seq<char>,
    pub enabled: bool,
    pub checked: bool,
}

/// One entry of the menu.
#[derive(Debug, PartialEq, Eq)]
pub struct MenuEntry {
    pub id: String,
    pub label: String,
    pub enabled: bool,
    /// Whether the entry carries a check mark.
    pub checked: bool,
}

impl View for MenuEntry {
    type V = MenuEntryView;

    open spec fn view(&self) -> MenuEntryView {
        MenuEntryView {
            id: self.id@,
            label: self.label@,
            enabled: self.enabled,
            checked: self.checked,
        }
    }
}

/// The views of a list of entries, in order.
pub open spec fn entries_view(entries: Seq<MenuEntry>) -> Seq<MenuEntryView> {
    Seq::new(entries.len(), |i: int| entries[i]@)
}

/// View of [`Menu`].
#[verifier::ext_equal]
pub struct MenuView {
    pub zones_title: Seq<char>,
    pub zones: Seq<MenuEntryView>,
    pub quit: MenuEntryView,
}

/// The menu: a submenu of zones, then, below a separator, the entry that quits.
#[derive(Debug, PartialEq, Eq)]
pub struct Menu {
    pub zones_title: String,
    pub zones: Vec<MenuEntry>,
    pub quit: MenuEntry,
}

impl View for Menu {
    type V = MenuView;

    open spec fn view(&self) -> MenuView {
        MenuView {
            zones_title: self.zones_title@,
            zones: entries_view(self.zones@),
            quit: self.quit@,
        }
    }
}

/// View of [`IconContent`].
#[verifier::ext_equal]
pub struct IconView {
    pub artwork: Option<Seq<char>>,
    pub title: Seq<char>,
    pub subtitle: Seq<char>,
}

/// What the icon shows: cover art, or a placeholder where there is none, and two lines of text.
#[derive(Debug, PartialEq, Eq)]
pub struct IconContent {
    pub artwork: Option<String>,
    pub title: String,
    pub subtitle: String,
}

impl View for IconContent {
    type V = IconView;

    open spec fn view(&self) -> IconView {
        IconView { artwork: opt_text(self.artwork), title: self.title@, subtitle: self.subtitle@ }
    }
}

/// The view of an optional icon content.
pub open spec fn opt_icon(icon: Option<IconContent>) -> Option<IconView> {
    match icon {
        Some(i) => Some(i@),
        None => None,
    }
}

/// View of [`MenuAction`].
pub enum MenuActionView {
    Quit,
    Ignore,
    SelectZone(Seq<char>),
}

/// What a click on a menu entry asks for.
#[derive(Debug, PartialEq, Eq)]
pub enum MenuAction {
    /// Leave the application.
    Quit,
    /// The entry does nothing.
    Ignore,
    /// Pin the zone of this id.
    SelectZone(String),
}

impl View for MenuAction {
    type V = MenuActionView;

    open spec fn view(&self) -> MenuActionView {
        match self {
            MenuAction::Quit => MenuActionView::Quit,
            MenuAction::Ignore => MenuActionView::Ignore,
            MenuAction::SelectZone(id) => MenuActionView::SelectZone(id@),
        }
    }
}

/// The word for a playback state.
pub open spec fn state_name(state: PlaybackState) -> Seq<char> {
    match state {
        PlaybackState::Playing => "Playing"@,
        PlaybackState::Paused => "Paused"@,
        PlaybackState::Stopped => "Stopped"@,
        PlaybackState::Loading => "Loading"@,
    }
}

/// Whether the preference pins the zone `zone_id`.
pub open spec fn is_preferred(preference: PreferenceView, zone_id: Seq<char>) -> bool {
    match preference {
        PreferenceView::Selected { zone_id: pinned, .. } => pinned == zone_id,
        PreferenceView::Auto => false,
    }
}

/// Whether the zone `zone_id` is the one that smart switching shows.
pub open spec fn is_showing(state: AppStateView, zone_id: Seq<char>) -> bool {
    state.active_zone_id == Some(zone_id) && state.is_smart_switched
}

/// The label of a zone: its name, its state in brackets, and the mark of the
/// zone that smart switching shows.
pub open spec fn zone_label(name: Seq<char>, state: PlaybackState, showing: bool) -> Seq<char> {
    let plain = name + " ("@ + state_name(state) + ")"@;
    if showing {
        plain + SHOWING_SUFFIX@
    } else {
        plain
    }
}

/// The entry of a zone: its id, its label, enabled, checked if the zone is pinned.
pub open spec fn zone_entry(zone: ZoneView, state: AppStateView) -> MenuEntryView {
    MenuEntryView {
        id: zone.zone_id,
        label: zone_label(zone.display_name, zone.state, is_showing(state, zone.zone_id)),
        enabled: true,
        checked: is_preferred(state.zone_preference, zone.zone_id),
    }
}

/// The entries of the zones submenu: one per zone, in the order of the zone
/// list, or a single disabled entry where the list is empty.
pub open spec fn zone_entries(state: AppStateView) -> Seq<MenuEntryView> {
    if state.all_zones.len() == 0 {
        seq![
            MenuEntryView {
                id: NO_ZONES_ID@,
                label: NO_ZONES_LABEL@,
                enabled: false,
                checked: false,
            },
        ]
    } else {
        Seq::new(state.all_zones.len(), |i: int| zone_entry(state.all_zones[i], state))
    }
}

/// The whole menu for a state.
pub open spec fn menu_for(state: AppStateView) -> MenuView {
    MenuView {
        zones_title: ZONES_TITLE@,
        zones: zone_entries(state),
        quit: MenuEntryView { id: QUIT_ID@, label: QUIT_LABEL@, enabled: true, checked: false },
    }
}

/// The icon for a track: cover and texts while it plays, a bare placeholder
/// while it is paused, a placeholder that says so while it loads. A stopped
/// track leaves the icon as it is.
pub open spec fn icon_for_track(track: TrackView) -> Option<IconView> {
    match track.state {
        PlaybackState::Playing => Some(
            IconView { artwork: track.artwork, title: track.title, subtitle: track.artist },
        ),
        PlaybackState::Paused => Some(
            IconView { artwork: None, title: Seq::empty(), subtitle: Seq::empty() },
        ),
        PlaybackState::Loading => Some(
            IconView { artwork: None, title: LOADING_TITLE@, subtitle: Seq::empty() },
        ),
        PlaybackState::Stopped => None,
    }
}

/// The icon for a state, or `None` where the icon stays as it is: without a
/// shown track there is nothing to draw.
pub open spec fn icon_for(state: AppStateView) -> Option<IconView> {
    match state.current_track {
        Some(track) => icon_for_track(track),
        None => None,
    }
}

/// What a click on the entry `id` asks for. The ids of the two fixed entries
/// are taken; any other id is that of a zone.
pub open spec fn action_for(id: Seq<char>) -> MenuActionView {
    if id == QUIT_ID@ {
        MenuActionView::Quit
    } else if id == NO_ZONES_ID@ {
        MenuActionView::Ignore
    } else {
        MenuActionView::SelectZone(id)
    }
}

/// The presenter: it turns the state into what the tray shows.
#[derive(Clone, Copy, Debug, PartialEq, Eq)]
pub struct TrayManager {}

/// The word for a playback state.
fn playback_word(state: PlaybackState) -> (word: &'static str)
    ensures
        word@ == state_name(state),
{
    match state {
        PlaybackState::Playing => "Playing",
        PlaybackState::Paused => "Paused",
        PlaybackState::Stopped => "Stopped",
        PlaybackState::Loading => "Loading",
    }
}

impl TrayManager {
    /// A presenter.
    pub fn new() -> (manager: Self)
        ensures
            manager == (TrayManager {}),
    {
        TrayManager {}
    }

    /// The entry of one zone.
    fn build_zone_entry(zone: &Zone, state: &AppState) -> (entry: MenuEntry)
        ensures
            entry@ == zone_entry(zone@, state@),
    {
        let checked = match &state.zone_preference {
            ZonePreference::Selected { zone_id, .. } => *zone_id == zone.zone_id,
            ZonePreference::Auto => false,
        };
        let active = match &state.active_zone_id {
            Some(a) => *a == zone.zone_id,
            None => false,
        };
        let showing = active && state.is_smart_switched;
        let mut label = zone.display_name.clone();
        label.append(" (");
        label.append(playback_word(zone.state));
        label.append(")");
        if showing {
            label.append(SHOWING_SUFFIX);
        }
        MenuEntry { id: zone.zone_id.clone(), label, enabled: true, checked }
    }

    /// The entries of the zones submenu.
    pub fn build_zones_submenu(state: &AppState) -> (entries: Vec<MenuEntry>)
        ensures
            entries_view(entries@) == zone_entries(state@),
    {
        let mut entries: Vec<MenuEntry> = Vec::new();
        if state.all_zones.len() == 0 {
            entries.push(
                MenuEntry {
                    id: NO_ZONES_ID.to_owned(),
                    label: NO_ZONES_LABEL.to_owned(),
                    enabled: false,
                    checked: false,
                },
            );
            assert(entries_view(entries@) =~= zone_entries(state@));
            return entries;
        }
        let mut i: usize = 0;
        while i < state.all_zones.len()
            invariant
                i <= state.all_zones.len(),
                entries.len() == i,
                forall|k: int|
                    0 <= k < i ==> (#[trigger] entries@[k])@ == zone_entry(
                        state.all_zones@[k]@,
                        state@,
                    ),
            decreases state.all_zones.len() - i,
        {
            entries.push(Self::build_zone_entry(&state.all_zones[i], state));
            i += 1;
        }
        assert(entries_view(entries@) =~= zone_entries(state@));
        entries
    }

    /// The whole menu.
    pub fn build_menu(state: &AppState) -> (menu: Menu)
        ensures
            menu@ == menu_for(state@),
    {
        Menu {
            zones_title: ZONES_TITLE.to_owned(),
            zones: Self::build_zones_submenu(state),
            quit: MenuEntry {
                id: QUIT_ID.to_owned(),
                label: QUIT_LABEL.to_owned(),
                enabled: true,
                checked: false,
            },
        }
    }

    /// The menu after a change of the state: the same as [`Self::build_menu`].
    pub fn rebuild_menu(state: &AppState) -> (menu: Menu)
        ensures
            menu@ == menu_for(state@),
    {
        Self::build_menu(state)
    }

    /// The first menu and the first icon. The time `now` goes on record as
    /// that of the first rebuild.
    pub fn setup(&self, state: &mut AppState, now: u64) -> (shown: (Menu, IconContent))
        ensures
            final(state)@ == (AppStateView { last_menu_rebuild: Some(now), ..old(state)@ }),
            shown.0@ == menu_for(final(state)@),
            shown.1@ == (IconView {
                artwork: None,
                title: INITIAL_TITLE@,
                subtitle: INITIAL_SUBTITLE@,
            }),
    {
        state.mark_rebuilt(now);
        let menu = Self::build_menu(state);
        (menu, self.create_initial_icon())
    }

    /// What a click on the entry `id` asks for.
    pub fn handle_menu_event(id: &str) -> (action: MenuAction)
        ensures
            action@ == action_for(id@),
    {
        let id = id.to_owned();
        if is_text(&id, QUIT_ID) {
            MenuAction::Quit
        } else if is_text(&id, NO_ZONES_ID) {
            MenuAction::Ignore
        } else {
            MenuAction::SelectZone(id)
        }
    }

    /// The icon to draw for the state, or `None` where the icon stays as it is.
    pub fn update_icon(state: &AppState) -> (icon: Option<IconContent>)
        ensures
            opt_icon(icon) == icon_for(state@),
    {
        match &state.current_track {
            Some(track) => match track.state {
                PlaybackState::Playing => Some(
                    IconContent {
                        artwork: copy_opt_text(&track.artwork),
                        title: track.title.clone(),
                        subtitle: track.artist.clone(),
                    },
                ),
                PlaybackState::Paused => Some(
                    IconContent { artwork: None, title: String::new(), subtitle: String::new() },
                ),
                PlaybackState::Loading => Some(
                    IconContent {
                        artwork: None,
                        title: LOADING_TITLE.to_owned(),
                        subtitle: String::new(),
                    },
                ),
                PlaybackState::Stopped => None,
            },
            None => None,
        }
    }

    /// The icon before any track is known.
    pub fn create_initial_icon(&self) -> (icon: IconContent)
        ensures
            icon@ == (IconView {
                artwork: None,
                title: INITIAL_TITLE@,
                subtitle: INITIAL_SUBTITLE@,
            }),
    {
        IconContent {
            artwork: None,
            title: INITIAL_TITLE.to_owned(),
            subtitle: INITIAL_SUBTITLE.to_owned(),
        }
    }

    /// The icon to show when another could not be drawn.
    pub fn create_fallback_icon(&self) -> (icon: IconContent)
        ensures
            icon@ == (IconView {
                artwork: None,
                title: FALLBACK_TITLE@,
                subtitle: Seq::<char>::empty(),
            }),
    {
        IconContent { artwork: None, title: FALLBACK_TITLE.to_owned(), subtitle: String::new() }
    }

    /// An icon with the given two lines and no cover.
    pub fn update_test_icon(title: &str, artist: &str) -> (icon: IconContent)
        ensures
            icon@ == (IconView { artwork: None, title: title@, subtitle: artist@ }),
    {
        IconContent { artwork: None, title: title.to_owned(), subtitle: artist.to_owned() }
    }
}

} // verus!
