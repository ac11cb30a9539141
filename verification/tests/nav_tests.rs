use naim_remote::api::{Api, Method};
use naim_remote::app::{Action, App, Mode, Pane};
use naim_remote::db::Track;

fn track(id: u16, artist: &str, title: &str) -> Track {
    Track {
        id,
        title: title.to_string(),
        artist: artist.to_string(),
        album: format!("{} album", artist),
        album_art_id: id,
        track_number: id,
        disc_number: 1,
        track_id: format!("trk-{}", id),
        duration: "3:20".to_string(),
        mime_type: "audio/x-flac".to_string(),
    }
}

fn api() -> Api {
    Api::new("http://sink".to_string(), "http://src".to_string())
}

/// Three tracks by two artists, interleaved.
fn small_app() -> App {
    App::new(
        api(),
        vec![track(1, "A", "T1"), track(2, "B", "T2"), track(3, "A", "T3")],
    )
}

/// Twelve tracks by twelve distinct artists, one each.
fn wide_app() -> App {
    let names = ["a", "b", "c", "d", "e", "f", "g", "h", "i", "j", "k", "l"];
    let mut tracks = Vec::new();
    for (n, name) in names.iter().enumerate() {
        tracks.push(track((n + 1) as u16, name, "T"));
    }
    App::new(api(), tracks)
}

#[test]
fn artist_list_sorted_and_deduplicated() {
    let app = small_app();
    assert_eq!(app.artists.items.len(), 2);
    assert_eq!(app.artists.items[0].name, "A");
    assert_eq!(app.artists.items[1].name, "B");
    assert_eq!(app.artists.state.selected, Some(0));
}

#[test]
fn first_artist_tracks_in_catalog_order() {
    let app = small_app();
    let titles: Vec<&str> = app
        .tracks
        .iter()
        .map(|&i| app.all_tracks[i].title.as_str())
        .collect();
    assert_eq!(titles, vec!["T1", "T3"]);
    assert_eq!(app.track_list_state.selected, None);
}

#[test]
fn album_list_sorted_and_deduplicated() {
    let app = small_app();
    assert_eq!(app.albums.items, vec!["A album".to_string(), "B album".to_string()]);
}

#[test]
fn initial_state() {
    let app = small_app();
    assert_eq!(app.mode, Mode::Normal);
    assert!(!app.should_quit);
    assert_eq!(app.current_pane, Pane::Artists);
    assert_eq!(app.search_input, "");
    assert_eq!(app.volume, None);
}

#[test]
fn selecting_artist_recomputes_tracks() {
    let mut app = small_app();
    app.on_down();
    assert_eq!(app.artists.state.selected, Some(1));
    let titles: Vec<&str> = app
        .tracks
        .iter()
        .map(|&i| app.all_tracks[i].title.as_str())
        .collect();
    assert_eq!(titles, vec!["T2"]);
    assert_eq!(app.track_list_state.selected, None);
}

#[test]
fn artist_selection_wraps() {
    let mut app = small_app();
    app.on_up();
    assert_eq!(app.artists.state.selected, Some(1));
    app.on_down();
    assert_eq!(app.artists.state.selected, Some(0));
}

#[test]
fn down_n_then_up_n_returns_to_start() {
    let mut app = wide_app();
    for _ in 0..5 {
        app.on_down();
    }
    assert_eq!(app.artists.state.selected, Some(5));
    for _ in 0..5 {
        app.on_up();
    }
    assert_eq!(app.artists.state.selected, Some(0));
}

#[test]
fn down_up_roundtrip_across_the_wrap() {
    let mut app = small_app();
    for _ in 0..7 {
        app.on_down();
    }
    for _ in 0..7 {
        app.on_up();
    }
    assert_eq!(app.artists.state.selected, Some(0));
}

#[test]
fn page_down_moves_ten() {
    let mut app = wide_app();
    app.on_page_down();
    assert_eq!(app.artists.state.selected, Some(10));
    assert_eq!(app.all_tracks[app.tracks[0]].artist, "k");
    app.on_page_up();
    assert_eq!(app.artists.state.selected, Some(0));
}

#[test]
fn page_down_past_end_wraps_to_start() {
    let mut app = wide_app();
    app.on_down();
    app.on_down();
    app.on_page_down();
    assert_eq!(app.artists.state.selected, Some(0));
}

#[test]
fn page_up_near_start_stops_at_first() {
    let mut app = wide_app();
    app.on_down();
    app.on_page_up();
    assert_eq!(app.artists.state.selected, Some(0));
}

#[test]
fn tab_selects_first_track_when_none_selected() {
    let mut app = small_app();
    let action = app.on_key('\t');
    assert!(matches!(action, Action::Nothing));
    assert_eq!(app.current_pane, Pane::Tracks);
    assert_eq!(app.track_list_state.selected, Some(0));
}

#[test]
fn tab_back_clears_track_selection() {
    let mut app = small_app();
    app.on_key('\t');
    app.on_down();
    assert_eq!(app.track_list_state.selected, Some(1));
    app.on_key('\t');
    assert_eq!(app.current_pane, Pane::Artists);
    assert_eq!(app.track_list_state.selected, None);
}

#[test]
fn tab_keeps_existing_track_selection() {
    let mut app = small_app();
    app.on_key('\t');
    app.on_down();
    app.on_key('\t');
    app.on_key('\t');
    assert_eq!(app.track_list_state.selected, Some(0));
}

#[test]
fn track_selection_wraps_both_ways() {
    let mut app = small_app();
    app.on_key('\t');
    app.on_up();
    assert_eq!(app.track_list_state.selected, Some(1));
    app.on_down();
    assert_eq!(app.track_list_state.selected, Some(0));
    app.on_down();
    app.on_down();
    assert_eq!(app.track_list_state.selected, Some(0));
}

#[test]
fn quit_key_sets_flag_and_nothing_else() {
    let mut app = small_app();
    let action = app.on_key('q');
    assert!(matches!(action, Action::Nothing));
    assert!(app.should_quit);
    assert_eq!(app.mode, Mode::Normal);
    assert_eq!(app.current_pane, Pane::Artists);
    assert_eq!(app.artists.state.selected, Some(0));
    assert_eq!(app.track_list_state.selected, None);
    assert_eq!(app.search_input, "");
    assert_eq!(app.volume, None);
}

#[test]
fn enter_enqueues_selected_track_and_advances() {
    let mut app = small_app();
    app.on_key('\t');
    let action = app.on_key('\n');
    match action {
        Action::Send(req) => {
            assert_eq!(req.method, Method::Post);
            assert_eq!(req.url, "http://sink/inputs/playqueue?where=end&clear=false");
            let body = req.body.expect("enqueue carries a payload");
            assert_eq!(body.name, "T1");
            assert_eq!(body.artistName, "A");
            assert_eq!(body.uri, "http://src/MediaItems/1.flac");
            assert_eq!(body.artwork, "http://src/AlbumArt/1-1");
        }
        other => panic!("expected a send action, got {:?}", other),
    }
    assert_eq!(app.track_list_state.selected, Some(1));
}

#[test]
fn enter_without_selection_does_nothing() {
    let mut app = small_app();
    let action = app.on_key('\n');
    assert!(matches!(action, Action::Nothing));
    assert_eq!(app.track_list_state.selected, None);
}

#[test]
fn command_keys_map_to_actions() {
    let mut app = small_app();
    assert!(matches!(app.on_key('p'), Action::Play));
    assert!(matches!(app.on_key('+'), Action::VolumeUp));
    assert!(matches!(app.on_key('-'), Action::VolumeDown));
    match app.on_key(' ') {
        Action::Send(req) => assert_eq!(req.url, "http://sink/nowplaying?cmd=playpause"),
        other => panic!("expected a send action, got {:?}", other),
    }
    match app.on_key('P') {
        Action::Send(req) => assert_eq!(req.url, "http://sink/power?system=on"),
        other => panic!("expected a send action, got {:?}", other),
    }
    match app.on_key('S') {
        Action::Send(req) => assert_eq!(req.url, "http://sink/power?system=lona"),
        other => panic!("expected a send action, got {:?}", other),
    }
    match app.on_key('C') {
        Action::Send(req) => assert_eq!(req.url, "http://sink/inputs/playqueue?clear=true"),
        other => panic!("expected a send action, got {:?}", other),
    }
}

#[test]
fn unmapped_key_is_ignored() {
    let mut app = small_app();
    let action = app.on_key('x');
    assert!(matches!(action, Action::Nothing));
    assert!(!app.should_quit);
    assert_eq!(app.mode, Mode::Normal);
    assert_eq!(app.search_input, "");
}

#[test]
fn search_input_accumulates_and_commits() {
    let mut app = small_app();
    app.on_key('/');
    assert_eq!(app.mode, Mode::SearchInput);
    app.on_key('a');
    app.on_key('b');
    assert_eq!(app.search_input, "ab");
    app.on_backspace();
    assert_eq!(app.search_input, "a");
    let action = app.on_key('\n');
    assert!(matches!(action, Action::Nothing));
    assert_eq!(app.mode, Mode::Normal);
    assert_eq!(app.search_input, "a");
}

#[test]
fn search_keys_do_not_run_commands() {
    let mut app = small_app();
    app.on_key('/');
    assert!(matches!(app.on_key('q'), Action::Nothing));
    assert!(!app.should_quit);
    assert_eq!(app.search_input, "q");
}

#[test]
fn backspace_in_normal_mode_is_a_noop() {
    let mut app = small_app();
    app.on_backspace();
    assert_eq!(app.search_input, "");
    assert_eq!(app.mode, Mode::Normal);
}

#[test]
fn backspace_on_empty_search_is_a_noop() {
    let mut app = small_app();
    app.on_key('/');
    app.on_backspace();
    assert_eq!(app.search_input, "");
}

#[test]
fn applied_volume_is_cached() {
    let mut app = small_app();
    app.apply_volume(Some(50));
    assert_eq!(app.volume, Some(50));
    app.apply_volume(None);
    assert_eq!(app.volume, None);
}

#[test]
fn tick_changes_nothing() {
    let mut app = small_app();
    app.on_tick();
    assert_eq!(app.artists.state.selected, Some(0));
    assert!(!app.should_quit);
}
