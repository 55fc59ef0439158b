use now_playing::tray::{
    IconContent, Menu, MenuAction, MenuEntry, TrayManager, FALLBACK_TITLE, SHOWING_SUFFIX,
};
use now_playing::types::{AppState, NowPlayingData, PlaybackState, Zone, ZonePreference};

fn zone(id: &str, name: &str, state: PlaybackState) -> Zone {
    Zone {
        zone_id: id.to_string(),
        display_name: name.to_string(),
        state,
        now_playing: None,
        state_changed_at: 0,
    }
}

fn entry(id: &str, label: &str, enabled: bool, checked: bool) -> MenuEntry {
    MenuEntry { id: id.to_string(), label: label.to_string(), enabled, checked }
}

fn track(state: PlaybackState) -> NowPlayingData {
    NowPlayingData {
        title: "So What".to_string(),
        artist: "Miles Davis".to_string(),
        album: "Kind of Blue".to_string(),
        state,
        artwork: Some("data:image/png;base64,AAAA".to_string()),
    }
}

#[test]
fn an_empty_zone_list_shows_one_disabled_entry() {
    let state = AppState::default();
    assert_eq!(
        TrayManager::build_zones_submenu(&state),
        vec![entry("no_zones", "No zones available", false, false)]
    );
}

#[test]
fn every_zone_has_an_entry_with_its_state() {
    let mut state = AppState::default();
    state.all_zones = vec![
        zone("a", "Kitchen", PlaybackState::Playing),
        zone("b", "Study", PlaybackState::Paused),
        zone("c", "Den", PlaybackState::Stopped),
        zone("d", "", PlaybackState::Loading),
    ];
    assert_eq!(
        TrayManager::build_zones_submenu(&state),
        vec![
            entry("a", "Kitchen (Playing)", true, false),
            entry("b", "Study (Paused)", true, false),
            entry("c", "Den (Stopped)", true, false),
            entry("d", " (Loading)", true, false),
        ]
    );
}

#[test]
fn the_pinned_zone_is_checked() {
    let mut state = AppState::default();
    state.all_zones =
        vec![zone("a", "Kitchen", PlaybackState::Playing), zone("b", "Study", PlaybackState::Paused)];
    state.zone_preference = ZonePreference::Selected {
        zone_id: "b".to_string(),
        smart_switching: true,
        grace_period_mins: 5,
    };
    state.active_zone_id = Some("b".to_string());
    assert_eq!(
        TrayManager::build_zones_submenu(&state),
        vec![entry("a", "Kitchen (Playing)", true, false), entry("b", "Study (Paused)", true, true)]
    );
}

#[test]
fn the_zone_that_smart_switching_shows_is_marked() {
    let mut state = AppState::default();
    state.all_zones =
        vec![zone("a", "Kitchen", PlaybackState::Playing), zone("b", "Study", PlaybackState::Stopped)];
    state.zone_preference = ZonePreference::Selected {
        zone_id: "b".to_string(),
        smart_switching: true,
        grace_period_mins: 5,
    };
    state.active_zone_id = Some("a".to_string());
    state.is_smart_switched = true;
    assert_eq!(SHOWING_SUFFIX, " \u{2190} Showing");
    assert_eq!(
        TrayManager::build_zones_submenu(&state),
        vec![
            entry("a", "Kitchen (Playing) \u{2190} Showing", true, false),
            entry("b", "Study (Stopped)", true, true),
        ]
    );
    state.is_smart_switched = false;
    assert_eq!(TrayManager::build_zones_submenu(&state)[0].label, "Kitchen (Playing)");
}

#[test]
fn the_menu_ends_with_quit() {
    let mut state = AppState::default();
    state.all_zones = vec![zone("a", "Kitchen", PlaybackState::Playing)];
    assert_eq!(
        TrayManager::build_menu(&state),
        Menu {
            zones_title: "Select Zone".to_string(),
            zones: vec![entry("a", "Kitchen (Playing)", true, false)],
            quit: entry("quit", "Quit", true, false),
        }
    );
    assert_eq!(TrayManager::rebuild_menu(&state), TrayManager::build_menu(&state));
}

#[test]
fn a_click_quits_does_nothing_or_picks_a_zone() {
    assert_eq!(TrayManager::handle_menu_event("quit"), MenuAction::Quit);
    assert_eq!(TrayManager::handle_menu_event("no_zones"), MenuAction::Ignore);
    assert_eq!(
        TrayManager::handle_menu_event("1601f4f798ff1773c83b77e489eaff98f7f4"),
        MenuAction::SelectZone("1601f4f798ff1773c83b77e489eaff98f7f4".to_string())
    );
    assert_eq!(TrayManager::handle_menu_event("Quit"), MenuAction::SelectZone("Quit".to_string()));
    assert_eq!(TrayManager::handle_menu_event(""), MenuAction::SelectZone(String::new()));
}

#[test]
fn the_icon_follows_the_state_of_the_track() {
    let mut state = AppState::default();
    assert_eq!(TrayManager::update_icon(&state), None);

    state.current_track = Some(track(PlaybackState::Playing));
    assert_eq!(
        TrayManager::update_icon(&state),
        Some(IconContent {
            artwork: Some("data:image/png;base64,AAAA".to_string()),
            title: "So What".to_string(),
            subtitle: "Miles Davis".to_string(),
        })
    );

    state.current_track = Some(track(PlaybackState::Paused));
    assert_eq!(
        TrayManager::update_icon(&state),
        Some(IconContent { artwork: None, title: String::new(), subtitle: String::new() })
    );

    state.current_track = Some(track(PlaybackState::Loading));
    assert_eq!(
        TrayManager::update_icon(&state),
        Some(IconContent { artwork: None, title: "Loading...".to_string(), subtitle: String::new() })
    );

    state.current_track = Some(track(PlaybackState::Stopped));
    assert_eq!(TrayManager::update_icon(&state), None);
}

#[test]
fn the_fixed_icons_have_their_texts() {
    let manager = TrayManager::new();
    assert_eq!(
        manager.create_initial_icon(),
        IconContent {
            artwork: None,
            title: "Now Playing".to_string(),
            subtitle: "Waiting for music...".to_string(),
        }
    );
    assert_eq!(FALLBACK_TITLE, "\u{266a}");
    assert_eq!(
        manager.create_fallback_icon(),
        IconContent { artwork: None, title: "\u{266a}".to_string(), subtitle: String::new() }
    );
    assert_eq!(
        TrayManager::update_test_icon("Title", "Artist"),
        IconContent { artwork: None, title: "Title".to_string(), subtitle: "Artist".to_string() }
    );
}

#[test]
fn setting_up_puts_the_first_rebuild_on_record() {
    let manager = TrayManager::new();
    let mut state = AppState::default();
    state.all_zones = vec![zone("a", "Kitchen", PlaybackState::Playing)];
    let (menu, icon) = manager.setup(&mut state, 1234);
    assert_eq!(state.last_menu_rebuild, Some(1234));
    assert_eq!(menu, TrayManager::build_menu(&state));
    assert_eq!(icon, manager.create_initial_icon());
}
