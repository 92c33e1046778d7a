use mpris_widget::metadata::{
    fetch_data, fetch_info, fetch_list, parse_line, FetchError, State,
};
use mpris_widget::PlayerMetadata;

const TWO_PLAYERS: &str = "Playing;Alice;Song A;;;;spotify\nPaused;Bob;Song B;http://art/b.png;Album B;;mpv\n";

#[test]
fn create_reads_the_state_by_name() {
    let playing = PlayerMetadata::create("spotify", "Playing", "Alice", "Song A", "Album", "url");
    assert_eq!(playing.state(), State::Playing);
    assert_eq!(playing.player(), "spotify");
    assert_eq!(playing.artist(), "Alice");
    assert_eq!(playing.title(), "Song A");
    assert_eq!(playing.album(), "Album");
    assert_eq!(playing.art_url(), "url");
    let paused = PlayerMetadata::create("p", "Paused", "", "", "", "");
    assert_eq!(paused.state(), State::Paused);
    for other in ["Stopped", "", "playing", "Playing ", "anything"] {
        let stopped = PlayerMetadata::create("p", other, "", "", "", "");
        assert_eq!(stopped.state(), State::Stopped, "{:?}", other);
    }
}

#[test]
fn display_shows_icon_artist_and_title() {
    let playing = PlayerMetadata::create("p", "Playing", "Alice", "Song A", "", "");
    assert_eq!(playing.get_display(), "Alice - Song A");
    let paused = PlayerMetadata::create("p", "Paused", "Alice", "Song A", "", "");
    assert_eq!(paused.get_display(), "\u{f28b} Alice - Song A");
    let stopped = PlayerMetadata::create("p", "Stopped", "Alice", "Song A", "", "");
    assert_eq!(stopped.get_display(), "\u{f28d} Alice - Song A");
}

#[test]
fn display_without_artist_shows_the_title_alone() {
    let playing = PlayerMetadata::create("p", "Playing", "", "Song A", "", "");
    assert_eq!(playing.get_display(), "Song A");
    let paused = PlayerMetadata::create("p", "Paused", "", "Song A", "", "");
    assert_eq!(paused.get_display(), "\u{f28b} Song A");
    let nothing = PlayerMetadata::create("p", "Playing", "", "", "", "");
    assert_eq!(nothing.get_display(), "");
}

#[test]
fn parse_line_reads_fields_by_position() {
    let record = parse_line(" Paused ; Bob ;Song B; http://art/b.png ;Album B;unused; mpv ;extra;more")
        .unwrap();
    assert_eq!(record.state(), State::Paused);
    assert_eq!(record.artist(), "Bob");
    assert_eq!(record.title(), "Song B");
    assert_eq!(record.art_url(), "http://art/b.png");
    assert_eq!(record.album(), "Album B");
    assert_eq!(record.player(), "mpv");
}

#[test]
fn parse_line_needs_seven_fields() {
    assert_eq!(parse_line("Playing;Alice;Song A").unwrap_err(), FetchError::MissingPlayerName);
    assert_eq!(parse_line("a;b;c;d;e;f").unwrap_err(), FetchError::MissingPlayerName);
    assert_eq!(parse_line("x").unwrap_err(), FetchError::MissingPlayerName);
    assert!(parse_line(";;;;;;").is_ok());
    assert_eq!(FetchError::MissingPlayerName.message(), "Could not extract player's name");
}

#[test]
fn fetch_list_reads_every_line_in_order() {
    let players = fetch_list(TWO_PLAYERS).unwrap();
    assert_eq!(players.len(), 2);
    assert_eq!(players[0].player(), "spotify");
    assert_eq!(players[0].state(), State::Playing);
    assert_eq!(players[1].player(), "mpv");
    assert_eq!(players[1].album(), "Album B");
    assert_eq!(players[1].art_url(), "http://art/b.png");
}

#[test]
fn fetch_list_ends_at_the_first_empty_line() {
    let players = fetch_list("Playing;A;T;;;;one\n\nPaused;B;U;;;;two\nbroken\n").unwrap();
    assert_eq!(players.len(), 1);
    assert_eq!(players[0].player(), "one");
    assert_eq!(fetch_list("").unwrap().len(), 0);
    assert_eq!(fetch_list("\nPlaying;A;T;;;;one\n").unwrap().len(), 0);
    assert_eq!(fetch_list("Playing;A;T;;;;one").unwrap().len(), 1);
}

#[test]
fn fetch_list_fails_on_one_malformed_line() {
    let error = fetch_list("Playing;A;T;;;;one\nbroken\nPaused;B;U;;;;two\n").unwrap_err();
    assert_eq!(error, FetchError::MissingPlayerName);
    assert!(fetch_list(" \n").is_err());
}

#[test]
fn fetch_without_selection_returns_the_first_record() {
    let (code, record, display) = fetch_data(TWO_PLAYERS, Some(0), &String::new()).unwrap();
    let record = record.unwrap();
    assert_eq!(code, Some(0));
    assert_eq!(record.player(), "spotify");
    assert_eq!(record.state(), State::Playing);
    assert_eq!(record.artist(), "Alice");
    assert_eq!(record.title(), "Song A");
    assert_eq!(record.album(), "");
    assert_eq!(record.art_url(), "");
    assert_eq!(display, "Alice - Song A");
}

#[test]
fn fetch_returns_the_selected_player() {
    let (_, record, display) = fetch_data(TWO_PLAYERS, Some(0), &String::from("mpv")).unwrap();
    assert_eq!(record.unwrap().player(), "mpv");
    assert_eq!(display, "\u{f28b} Bob - Song B");
    let (_, record, display) =
        fetch_data(TWO_PLAYERS, Some(0), &String::from("spotify")).unwrap();
    assert_eq!(record.unwrap().player(), "spotify");
    assert_eq!(display, "Alice - Song A");
}

#[test]
fn fetch_falls_back_to_the_first_record() {
    for selected in ["vlc", "MPV", "mp", "mpv "] {
        let (_, record, display) =
            fetch_data(TWO_PLAYERS, Some(0), &String::from(selected)).unwrap();
        assert_eq!(record.unwrap().player(), "spotify");
        assert_eq!(display, "Alice - Song A");
    }
}

#[test]
fn fetch_of_the_first_among_equal_names() {
    let output = "Playing;A;First;;;;mpv\nPaused;B;Second;;;;mpv\n";
    let (_, record, _) = fetch_data(output, Some(0), &String::from("mpv")).unwrap();
    assert_eq!(record.unwrap().title(), "First");
}

#[test]
fn fetch_without_selection_never_matches_by_name() {
    let output = "Playing;A;First;;;;one\nPaused;B;Second;;;;\n";
    let (_, record, _) = fetch_data(output, Some(0), &String::new()).unwrap();
    assert_eq!(record.unwrap().player(), "one");
    let output = "Playing;A;First;;;;one\nPaused;B;Second;;;;\nbroken\n";
    assert!(fetch_data(output, Some(0), &String::new()).is_err());
}

#[test]
fn fetch_of_an_empty_listing_finds_nothing() {
    for output in ["", "\n", "\nPlaying;A;T;;;;late\n"] {
        let (code, record, display) = fetch_data(output, Some(0), &String::from("mpv")).unwrap();
        assert_eq!(code, Some(0));
        assert!(record.is_none());
        assert_eq!(display, "");
    }
}

#[test]
fn fetch_hands_the_exit_code_on() {
    for code in [None, Some(0), Some(1), Some(-1), Some(i32::MAX)] {
        let (status, _, _) = fetch_data(TWO_PLAYERS, code, &String::new()).unwrap();
        assert_eq!(status, code);
    }
}

#[test]
fn fetch_fails_on_a_malformed_line() {
    let error = fetch_data("Playing;Alice;Song A\n", Some(0), &String::new()).unwrap_err();
    assert_eq!(error, FetchError::MissingPlayerName);
    let output = "Playing;A;T;;;;one\nbroken\nPaused;B;U;;;;two\n";
    assert!(fetch_data(output, Some(0), &String::new()).is_err());
    assert!(fetch_data(output, Some(0), &String::from("two")).is_err());
}

#[test]
fn fetch_stops_reading_at_the_selected_player() {
    let output = "Playing;A;T;;;;one\nbroken\nPaused;B;U;;;;two\n";
    let (_, record, _) = fetch_data(output, Some(0), &String::from("one")).unwrap();
    assert_eq!(record.unwrap().player(), "one");
}

#[test]
fn info_sums_up_a_fetch() {
    let info = fetch_info(TWO_PLAYERS, Some(0), &String::from("mpv")).unwrap();
    assert_eq!(info.code(), 0);
    assert_eq!(info.player(), "mpv");
    assert_eq!(info.display(), "\u{f28b} Bob - Song B");
    let info = fetch_info("", Some(0), &String::from("mpv")).unwrap();
    assert_eq!(info.code(), 0);
    assert_eq!(info.player(), "");
    assert_eq!(info.display(), "");
}

#[test]
fn info_counts_a_missing_exit_code_as_success() {
    let info = fetch_info(TWO_PLAYERS, None, &String::new()).unwrap();
    assert_eq!(info.code(), 0);
    assert_eq!(info.player(), "spotify");
}

#[test]
fn info_of_a_failed_listing_names_no_player() {
    let info = fetch_info(TWO_PLAYERS, Some(3), &String::new()).unwrap();
    assert_eq!(info.code(), 3);
    assert_eq!(info.player(), "");
    assert_eq!(info.display(), "Alice - Song A");
    assert!(fetch_info("broken\n", Some(3), &String::new()).is_err());
}
