use now_playing::reconcile::{
    decide_display, find_zone, is_rebuild_due, parse_status, zones_differ, RefreshPlan,
    DISCONNECTED_ZONE, REBUILD_WINDOW_MS,
};
use now_playing::types::{
    default_grace_period, default_smart_switching, AppState, ConnectionStatus, NowPlayingData,
    NowPlayingInfo, PlaybackState, SidecarMessage, Zone, ZoneInfo, ZonePreference,
};

const NOTHING: RefreshPlan = RefreshPlan { rebuild_menu: false, update_icon: false };
const ICON: RefreshPlan = RefreshPlan { rebuild_menu: false, update_icon: true };
const MENU: RefreshPlan = RefreshPlan { rebuild_menu: true, update_icon: false };
const BOTH: RefreshPlan = RefreshPlan { rebuild_menu: true, update_icon: true };

fn track(title: &str, state: PlaybackState) -> NowPlayingData {
    NowPlayingData {
        title: title.to_string(),
        artist: "Artist".to_string(),
        album: "Album".to_string(),
        state,
        artwork: None,
    }
}

fn zone(id: &str, name: &str, state: PlaybackState) -> Zone {
    Zone {
        zone_id: id.to_string(),
        display_name: name.to_string(),
        state,
        now_playing: None,
        state_changed_at: 0,
    }
}

fn info(id: &str, name: &str, state: PlaybackState) -> ZoneInfo {
    ZoneInfo {
        zone_id: id.to_string(),
        display_name: name.to_string(),
        state,
        now_playing: None,
    }
}

fn coherent(state: &AppState) -> bool {
    state.active_zone_id.is_some() == state.current_track.is_some()
}

#[test]
fn the_state_starts_empty_and_automatic() {
    let state = AppState::default();
    assert_eq!(state.current_track, None);
    assert_eq!(state.connection_status, ConnectionStatus::Disconnected);
    assert!(state.all_zones.is_empty());
    assert_eq!(state.zone_preference, ZonePreference::Auto);
    assert_eq!(state.active_zone_id, None);
    assert_eq!(state.preferred_zone_stopped_at, None);
    assert!(!state.is_smart_switched);
    assert_eq!(state.last_menu_rebuild, None);
    assert_eq!(ZonePreference::default(), ZonePreference::Auto);
    assert!(default_smart_switching());
    assert_eq!(default_grace_period(), 5);
}

#[test]
fn equal_lists_have_not_changed() {
    let old = vec![zone("A", "Idle", PlaybackState::Stopped)];
    let new = vec![zone("A", "Idle", PlaybackState::Stopped)];
    assert!(!zones_differ(&old, &new));
    assert!(!zones_differ(&vec![], &vec![]));
}

#[test]
fn a_state_transition_is_a_change() {
    let old = vec![zone("A", "Idle", PlaybackState::Stopped)];
    let new = vec![zone("A", "Idle", PlaybackState::Playing)];
    assert!(zones_differ(&old, &new));
}

#[test]
fn additions_removals_and_renames_are_changes() {
    let a = zone("A", "Kitchen", PlaybackState::Paused);
    let b = zone("B", "Study", PlaybackState::Paused);
    assert!(zones_differ(&vec![a.clone()], &vec![a.clone(), b.clone()]));
    assert!(zones_differ(&vec![a.clone(), b.clone()], &vec![a.clone()]));
    assert!(zones_differ(&vec![a.clone()], &vec![b.clone()]));
    assert!(zones_differ(&vec![a.clone()], &vec![zone("A", "Kitchen 2", PlaybackState::Paused)]));
    assert!(zones_differ(&vec![], &vec![a.clone()]));
}

#[test]
fn order_tracks_and_times_are_no_change() {
    let a = zone("A", "Kitchen", PlaybackState::Paused);
    let b = zone("B", "Study", PlaybackState::Playing);
    assert!(!zones_differ(&vec![a.clone(), b.clone()], &vec![b.clone(), a.clone()]));
    let mut later = a.clone();
    later.state_changed_at = 99;
    later.now_playing = Some(track("Song", PlaybackState::Paused));
    assert!(!zones_differ(&vec![a], &vec![later]));
}

#[test]
fn lists_of_equal_length_with_a_repeated_id_have_changed_if_an_id_is_missing() {
    let a = zone("A", "Kitchen", PlaybackState::Paused);
    let b = zone("B", "Study", PlaybackState::Paused);
    assert!(zones_differ(&vec![a.clone(), b.clone()], &vec![a.clone(), a.clone()]));
    assert!(zones_differ(&vec![a.clone(), a.clone()], &vec![a.clone(), b.clone()]));
    let a2 = zone("A", "Kitchen", PlaybackState::Playing);
    assert!(zones_differ(&vec![a.clone(), a.clone()], &vec![a.clone(), a2]));
}

#[test]
fn find_zone_returns_the_first_zone_of_the_id() {
    let zones = vec![
        zone("A", "one", PlaybackState::Paused),
        zone("B", "two", PlaybackState::Paused),
        zone("A", "three", PlaybackState::Paused),
    ];
    assert_eq!(find_zone(&zones, &"A".to_string()), Some(0));
    assert_eq!(find_zone(&zones, &"B".to_string()), Some(1));
    assert_eq!(find_zone(&zones, &"C".to_string()), None);
    assert_eq!(find_zone(&vec![], &"A".to_string()), None);
}

#[test]
fn two_zone_lists_200ms_apart_rebuild_once() {
    let mut state = AppState::default();
    let first = state.apply_zone_list(vec![info("A", "Kitchen", PlaybackState::Stopped)], 10_000);
    assert_eq!(first, MENU);
    assert_eq!(state.last_menu_rebuild, Some(10_000));
    let second = state.apply_zone_list(vec![info("A", "Kitchen", PlaybackState::Playing)], 10_200);
    assert_eq!(second, NOTHING);
    assert_eq!(state.last_menu_rebuild, Some(10_000));
    assert_eq!(state.all_zones[0].state, PlaybackState::Playing);
}

#[test]
fn two_zone_lists_1500ms_apart_rebuild_twice() {
    let mut state = AppState::default();
    let first = state.apply_zone_list(vec![info("A", "Kitchen", PlaybackState::Stopped)], 10_000);
    assert_eq!(first, MENU);
    let second = state.apply_zone_list(vec![info("A", "Kitchen", PlaybackState::Playing)], 11_500);
    assert_eq!(second, MENU);
    assert_eq!(state.last_menu_rebuild, Some(11_500));
}

#[test]
fn a_rebuild_is_due_exactly_from_one_second_on() {
    assert_eq!(REBUILD_WINDOW_MS, 1000);
    assert!(is_rebuild_due(true, None, 0));
    assert!(!is_rebuild_due(false, None, 0));
    assert!(!is_rebuild_due(true, Some(5000), 5999));
    assert!(is_rebuild_due(true, Some(5000), 6000));
    assert!(!is_rebuild_due(false, Some(5000), 60_000));
    assert!(!is_rebuild_due(true, Some(5000), 4000));
    assert!(is_rebuild_due(true, Some(0), u64::MAX));
}

#[test]
fn an_unchanged_zone_list_rebuilds_nothing() {
    let mut state = AppState::default();
    state.apply_zone_list(vec![info("A", "Kitchen", PlaybackState::Stopped)], 1_000);
    let again = state.apply_zone_list(vec![info("A", "Kitchen", PlaybackState::Stopped)], 9_000);
    assert_eq!(again, NOTHING);
    assert_eq!(state.last_menu_rebuild, Some(1_000));
}

#[test]
fn auto_takes_the_first_zone_that_plays() {
    let mut state = AppState::default();
    let a = state.apply_now_playing("A".to_string(), track("Quiet", PlaybackState::Paused), 1);
    assert_eq!(a, NOTHING);
    assert_eq!(state.active_zone_id, None);
    assert_eq!(state.current_track, None);
    let b = state.apply_now_playing("B".to_string(), track("Loud", PlaybackState::Playing), 2);
    assert_eq!(b, ICON);
    assert_eq!(state.active_zone_id, Some("B".to_string()));
    assert_eq!(state.current_track, Some(track("Loud", PlaybackState::Playing)));
    assert!(coherent(&state));
}

#[test]
fn auto_stays_with_the_active_zone() {
    let mut state = AppState::default();
    state.apply_now_playing("A".to_string(), track("First", PlaybackState::Playing), 1);
    assert_eq!(state.active_zone_id, Some("A".to_string()));
    let other = state.apply_now_playing("B".to_string(), track("Other", PlaybackState::Playing), 2);
    assert_eq!(other, NOTHING);
    assert_eq!(state.active_zone_id, Some("A".to_string()));
    assert_eq!(state.current_track, Some(track("First", PlaybackState::Playing)));
    let own = state.apply_now_playing("A".to_string(), track("First", PlaybackState::Paused), 3);
    assert_eq!(own, ICON);
    assert_eq!(state.active_zone_id, Some("A".to_string()));
    assert_eq!(state.current_track, Some(track("First", PlaybackState::Paused)));
}

#[test]
fn a_pinned_zone_is_shown_whatever_it_does() {
    let mut state = AppState::default();
    state.select_zone("B".to_string());
    let a = state.apply_now_playing("A".to_string(), track("Loud", PlaybackState::Playing), 1);
    assert_eq!(a, NOTHING);
    assert_eq!(state.active_zone_id, None);
    let b = state.apply_now_playing("B".to_string(), track("Still", PlaybackState::Stopped), 2);
    assert_eq!(b, ICON);
    assert_eq!(state.active_zone_id, Some("B".to_string()));
    assert_eq!(state.current_track, Some(track("Still", PlaybackState::Stopped)));
}

#[test]
fn decide_display_follows_the_preference() {
    let auto = ZonePreference::Auto;
    let a = "A".to_string();
    let b = "B".to_string();
    assert!(decide_display(&auto, &None, &a, PlaybackState::Playing));
    assert!(!decide_display(&auto, &None, &a, PlaybackState::Paused));
    assert!(!decide_display(&auto, &None, &a, PlaybackState::Stopped));
    assert!(!decide_display(&auto, &None, &a, PlaybackState::Loading));
    assert!(decide_display(&auto, &Some(a.clone()), &a, PlaybackState::Stopped));
    assert!(!decide_display(&auto, &Some(b.clone()), &a, PlaybackState::Playing));
    let pinned = ZonePreference::Selected {
        zone_id: a.clone(),
        smart_switching: true,
        grace_period_mins: 5,
    };
    assert!(decide_display(&pinned, &Some(b.clone()), &a, PlaybackState::Stopped));
    assert!(!decide_display(&pinned, &Some(b.clone()), &b, PlaybackState::Playing));
    assert!(!decide_display(&pinned, &None, &b, PlaybackState::Playing));
}

#[test]
fn the_reserved_zone_clears_track_and_active_zone() {
    assert_eq!(DISCONNECTED_ZONE, "__disconnected__");
    let mut state = AppState::default();
    state.apply_zone_list(vec![info("A", "Kitchen", PlaybackState::Playing)], 5);
    state.apply_now_playing("A".to_string(), track("Song", PlaybackState::Playing), 6);
    assert_eq!(state.active_zone_id, Some("A".to_string()));
    let zones_before = state.all_zones.clone();
    let plan = state.apply_now_playing(
        "__disconnected__".to_string(),
        track("ignored", PlaybackState::Playing),
        7,
    );
    assert_eq!(plan, ICON);
    assert_eq!(state.active_zone_id, None);
    assert_eq!(state.current_track, None);
    assert_eq!(state.all_zones, zones_before);
    assert!(coherent(&state));

    let mut pinned = AppState::default();
    pinned.select_zone("__disconnected__".to_string());
    pinned.active_zone_id = Some("Z".to_string());
    pinned.current_track = Some(track("Song", PlaybackState::Paused));
    let plan = pinned.apply_now_playing(
        "__disconnected__".to_string(),
        track("ignored", PlaybackState::Stopped),
        8,
    );
    assert_eq!(plan, ICON);
    assert_eq!(pinned.active_zone_id, None);
    assert_eq!(pinned.current_track, None);

    let mut idle = AppState::default();
    let plan = idle.apply_now_playing(
        "__disconnected__".to_string(),
        track("ignored", PlaybackState::Playing),
        9,
    );
    assert_eq!(plan, ICON);
    assert_eq!(idle, AppState::default());
}

#[test]
fn a_report_is_cached_in_its_zone_only() {
    let mut state = AppState::default();
    state.apply_zone_list(
        vec![info("A", "Kitchen", PlaybackState::Paused), info("B", "Study", PlaybackState::Paused)],
        100,
    );
    state.apply_now_playing("B".to_string(), track("Song", PlaybackState::Paused), 250);
    assert_eq!(state.all_zones[0], Zone { state_changed_at: 100, ..zone("A", "Kitchen", PlaybackState::Paused) });
    assert_eq!(
        state.all_zones[1],
        Zone {
            now_playing: Some(track("Song", PlaybackState::Paused)),
            state_changed_at: 250,
            ..zone("B", "Study", PlaybackState::Paused)
        }
    );
    assert_eq!(state.active_zone_id, None);
}

#[test]
fn a_report_for_an_unlisted_zone_still_decides_the_display() {
    let mut state = AppState::default();
    state.apply_zone_list(vec![info("A", "Kitchen", PlaybackState::Paused)], 100);
    let zones_before = state.all_zones.clone();
    let plan = state.apply_now_playing("X".to_string(), track("Song", PlaybackState::Playing), 250);
    assert_eq!(plan, ICON);
    assert_eq!(state.all_zones, zones_before);
    assert_eq!(state.active_zone_id, Some("X".to_string()));
    assert_eq!(state.current_track, Some(track("Song", PlaybackState::Playing)));
}

#[test]
fn a_zone_list_keeps_the_times_of_known_zones_and_stamps_new_ones() {
    let mut state = AppState::default();
    state.apply_zone_list(vec![info("A", "Kitchen", PlaybackState::Paused)], 100);
    assert_eq!(state.all_zones[0].state_changed_at, 100);
    state.apply_zone_list(
        vec![info("B", "Study", PlaybackState::Playing), info("A", "Kitchen", PlaybackState::Playing)],
        700,
    );
    assert_eq!(state.all_zones.len(), 2);
    assert_eq!(state.all_zones[0].zone_id, "B");
    assert_eq!(state.all_zones[0].state_changed_at, 700);
    assert_eq!(state.all_zones[1].zone_id, "A");
    assert_eq!(state.all_zones[1].state_changed_at, 100);
    assert_eq!(state.all_zones[1].state, PlaybackState::Playing);
}

#[test]
fn a_zone_list_entry_brings_its_track_in_the_state_of_the_zone() {
    let mut state = AppState::default();
    let entry = ZoneInfo {
        now_playing: Some(NowPlayingInfo {
            title: "Song".to_string(),
            artist: "Singer".to_string(),
            album: "Record".to_string(),
            artwork: Some("data:image/png;base64,AAAA".to_string()),
        }),
        ..info("A", "Kitchen", PlaybackState::Loading)
    };
    state.apply_zone_list(vec![entry], 5);
    assert_eq!(
        state.all_zones[0].now_playing,
        Some(NowPlayingData {
            title: "Song".to_string(),
            artist: "Singer".to_string(),
            album: "Record".to_string(),
            state: PlaybackState::Loading,
            artwork: Some("data:image/png;base64,AAAA".to_string()),
        })
    );
}

#[test]
fn the_state_of_the_active_zone_reaches_the_shown_track() {
    let mut state = AppState::default();
    state.apply_zone_list(vec![info("A", "Kitchen", PlaybackState::Playing)], 1_000);
    state.apply_now_playing("A".to_string(), track("Song", PlaybackState::Playing), 1_100);
    let plan = state.apply_zone_list(vec![info("A", "Kitchen", PlaybackState::Paused)], 1_200);
    assert_eq!(plan, ICON);
    assert_eq!(state.current_track, Some(track("Song", PlaybackState::Paused)));
    assert_eq!(state.active_zone_id, Some("A".to_string()));
    assert_eq!(state.last_menu_rebuild, Some(1_000));

    let plan = state.apply_zone_list(vec![info("A", "Kitchen", PlaybackState::Stopped)], 5_000);
    assert_eq!(plan, BOTH);
    assert_eq!(state.current_track, Some(track("Song", PlaybackState::Stopped)));
    assert_eq!(state.last_menu_rebuild, Some(5_000));
}

#[test]
fn a_zone_list_without_the_active_zone_clears_the_shown_track() {
    let mut state = AppState::default();
    state.apply_zone_list(vec![info("A", "Kitchen", PlaybackState::Playing)], 1_000);
    state.apply_now_playing("A".to_string(), track("Song", PlaybackState::Playing), 1_100);
    let plan = state.apply_zone_list(vec![info("B", "Study", PlaybackState::Paused)], 9_000);
    assert_eq!(plan, BOTH);
    assert_eq!(state.current_track, None);
    assert_eq!(state.active_zone_id, None);
    assert!(coherent(&state));
    let plan = state.apply_now_playing("B".to_string(), track("Next", PlaybackState::Playing), 9_100);
    assert_eq!(plan, ICON);
    assert_eq!(state.active_zone_id, Some("B".to_string()));
}

#[test]
fn a_zone_list_drops_an_active_zone_that_was_never_listed() {
    let mut state = AppState::default();
    state.apply_zone_list(vec![info("A", "Kitchen", PlaybackState::Paused)], 1_000);
    state.apply_now_playing("X".to_string(), track("Song", PlaybackState::Playing), 1_100);
    assert_eq!(state.active_zone_id, Some("X".to_string()));
    let plan = state.apply_zone_list(vec![info("A", "Kitchen", PlaybackState::Paused)], 1_200);
    assert_eq!(plan, ICON);
    assert_eq!(state.active_zone_id, None);
    assert_eq!(state.current_track, None);
}

#[test]
fn status_keywords_map_to_the_connection_status() {
    assert_eq!(parse_status(&"discovering".to_string()), ConnectionStatus::Discovering);
    assert_eq!(parse_status(&"connected".to_string()), ConnectionStatus::Connected);
    assert_eq!(parse_status(&"disconnected".to_string()), ConnectionStatus::Disconnected);
    assert_eq!(
        parse_status(&"not_authorized".to_string()),
        ConnectionStatus::Error("not authorized".to_string())
    );
    assert_eq!(
        parse_status(&"rebooting".to_string()),
        ConnectionStatus::Error("unknown status: rebooting".to_string())
    );
    assert_eq!(
        parse_status(&"Connected".to_string()),
        ConnectionStatus::Error("unknown status: Connected".to_string())
    );
    assert_eq!(parse_status(&String::new()), ConnectionStatus::Error("unknown status: ".to_string()));
}

#[test]
fn a_status_and_an_error_always_rebuild_the_menu() {
    let mut state = AppState::default();
    let before = state.clone();
    assert_eq!(state.apply_status(&"connected".to_string()), MENU);
    assert_eq!(state.connection_status, ConnectionStatus::Connected);
    assert_eq!(state.apply_status(&"connected".to_string()), MENU);
    assert_eq!(state.apply_error("core unreachable".to_string()), MENU);
    assert_eq!(state.connection_status, ConnectionStatus::Error("core unreachable".to_string()));
    assert_eq!(state, AppState { connection_status: state.connection_status.clone(), ..before });
}

#[test]
fn apply_dispatches_on_the_kind_of_message() {
    let mut state = AppState::default();
    let plan = state.apply(
        SidecarMessage::ZoneList { zones: vec![info("A", "Kitchen", PlaybackState::Playing)] },
        50,
    );
    assert_eq!(plan, MENU);
    let plan = state.apply(
        SidecarMessage::NowPlaying {
            zone_id: "A".to_string(),
            title: "Song".to_string(),
            artist: "Artist".to_string(),
            album: "Album".to_string(),
            state: PlaybackState::Playing,
            artwork: None,
        },
        60,
    );
    assert_eq!(plan, ICON);
    assert_eq!(state.current_track, Some(track("Song", PlaybackState::Playing)));
    let plan = state.apply(
        SidecarMessage::Status { state: "discovering".to_string(), message: Some("x".to_string()) },
        70,
    );
    assert_eq!(plan, MENU);
    assert_eq!(state.connection_status, ConnectionStatus::Discovering);
    let plan = state.apply(SidecarMessage::Error { message: "bad".to_string() }, 80);
    assert_eq!(plan, MENU);
    assert_eq!(state.connection_status, ConnectionStatus::Error("bad".to_string()));
    assert!(coherent(&state));
}

#[test]
fn choosing_a_zone_pins_it_with_the_defaults() {
    let mut state = AppState::default();
    state.is_smart_switched = true;
    state.preferred_zone_stopped_at = Some(77);
    state.apply_now_playing("A".to_string(), track("Song", PlaybackState::Playing), 1);
    let plan = state.select_zone("B".to_string());
    assert_eq!(plan, BOTH);
    assert_eq!(
        state.zone_preference,
        ZonePreference::Selected {
            zone_id: "B".to_string(),
            smart_switching: true,
            grace_period_mins: 5,
        }
    );
    assert!(!state.is_smart_switched);
    assert_eq!(state.preferred_zone_stopped_at, None);
    assert_eq!(state.active_zone_id, Some("A".to_string()));
    assert_eq!(state.current_track, Some(track("Song", PlaybackState::Playing)));
}

#[test]
fn a_rebuild_and_a_lost_worker_are_put_on_record() {
    let mut state = AppState::default();
    state.mark_rebuilt(4_000);
    assert_eq!(state.last_menu_rebuild, Some(4_000));
    let plan = state.apply_zone_list(vec![info("A", "Kitchen", PlaybackState::Playing)], 4_500);
    assert_eq!(plan, NOTHING);
    let plan = state.mark_worker_exited();
    assert_eq!(plan, MENU);
    assert_eq!(state.connection_status, ConnectionStatus::Error("worker exited".to_string()));
}

#[test]
fn distinct_ids_stay_distinct() {
    let mut state = AppState::default();
    state.apply_zone_list(
        vec![info("A", "Kitchen", PlaybackState::Paused), info("B", "Study", PlaybackState::Paused)],
        1,
    );
    state.apply_now_playing("A".to_string(), track("Song", PlaybackState::Playing), 2);
    state.apply_status(&"connected".to_string());
    let ids: Vec<&str> = state.all_zones.iter().map(|z| z.zone_id.as_str()).collect();
    assert_eq!(ids, vec!["A", "B"]);
}
