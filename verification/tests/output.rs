use mpris_widget::metadata::fetch_list;
use mpris_widget::output::{format_entry, format_list, format_status, quote_json};
use mpris_widget::PlayerMetadata;

#[test]
fn status_line_is_one_object() {
    let line = format_status(&String::from("Alice - Song A"), &String::from("spotify"));
    assert_eq!(
        line,
        "{\"text\": \"Alice - Song A\", \"class\": \"custom-spotify\", \"alt\": \"spotify\", \"tooltip\": \"(spotify) Alice - Song A\"}"
    );
    assert!(!line.contains('\n'));
}

#[test]
fn status_line_of_nothing_is_blank() {
    assert_eq!(format_status(&String::new(), &String::from("spotify")), "");
    assert_eq!(format_status(&String::new(), &String::new()), "");
}

#[test]
fn status_line_without_player() {
    assert_eq!(
        format_status(&String::from("Song"), &String::new()),
        "{\"text\": \"Song\", \"class\": \"custom-\", \"alt\": \"\", \"tooltip\": \"() Song\"}"
    );
}

#[test]
fn list_entry_holds_every_field() {
    let player = PlayerMetadata::create("mpv", "Paused", "Bob", "Song B", "Album B", "http://b");
    assert_eq!(
        format_entry(&player),
        "{\"text\": \"\u{f28b} Bob - Song B\", \"class\": \"custom-mpv\", \"alt\": \"mpv\", \"artist\": \"Bob\", \"title\": \"Song B\", \"album\": \"Album B\", \"artUrl\": \"http://b\"}"
    );
}

#[test]
fn list_of_no_player_is_an_empty_array() {
    assert_eq!(format_list(&Vec::new()), "[]");
}

#[test]
fn list_of_one_player_has_no_comma_outside_the_object() {
    let players = vec![PlayerMetadata::create("mpv", "Playing", "", "T", "", "")];
    assert_eq!(
        format_list(&players),
        "[{\"text\": \"T\", \"class\": \"custom-mpv\", \"alt\": \"mpv\", \"artist\": \"\", \"title\": \"T\", \"album\": \"\", \"artUrl\": \"\"}]"
    );
}

#[test]
fn list_of_two_players_keeps_their_order() {
    let players =
        fetch_list("Playing;Alice;Song A;;;;spotify\nPaused;Bob;Song B;;;;mpv\n").unwrap();
    let text = format_list(&players);
    assert_eq!(
        text,
        "[{\"text\": \"Alice - Song A\", \"class\": \"custom-spotify\", \"alt\": \"spotify\", \"artist\": \"Alice\", \"title\": \"Song A\", \"album\": \"\", \"artUrl\": \"\"},{\"text\": \"\u{f28b} Bob - Song B\", \"class\": \"custom-mpv\", \"alt\": \"mpv\", \"artist\": \"Bob\", \"title\": \"Song B\", \"album\": \"\", \"artUrl\": \"\"}]"
    );
    assert_eq!(text.matches("{\"text\"").count(), 2);
    assert!(text.find("spotify").unwrap() < text.find("mpv").unwrap());
    assert!(!text.contains('\n'));
}

#[test]
fn json_string_escapes_quotes_backslashes_and_control_characters() {
    assert_eq!(quote_json(""), "\"\"");
    assert_eq!(quote_json("Song A"), "\"Song A\"");
    assert_eq!(quote_json("AC\"DC"), "\"AC\\\"DC\"");
    assert_eq!(quote_json("a\\b"), "\"a\\\\b\"");
    assert_eq!(quote_json("\\\""), "\"\\\\\\\"\"");
    assert_eq!(quote_json("a\tb\u{0}\u{1f}\r"), "\"a\\u0009b\\u0000\\u001f\\u000d\"");
    assert_eq!(quote_json("caf\u{e9} \u{f28b} \u{7f}"), "\"caf\u{e9} \u{f28b} \u{7f}\"");
}

#[test]
fn list_stays_an_array_when_a_field_holds_a_quote() {
    let players = fetch_list("Playing;AC\"DC;Back\\Slash;;;;mpv\n").unwrap();
    assert_eq!(
        format_list(&players),
        "[{\"text\": \"AC\\\"DC - Back\\\\Slash\", \"class\": \"custom-mpv\", \"alt\": \"mpv\", \"artist\": \"AC\\\"DC\", \"title\": \"Back\\\\Slash\", \"album\": \"\", \"artUrl\": \"\"}]"
    );
}

#[test]
fn list_object_has_the_seven_members_in_order() {
    let player = PlayerMetadata::create("p", "Playing", "a", "t", "l", "u");
    let entry = format_entry(&player);
    let keys = ["\"text\": ", "\"class\": ", "\"alt\": ", "\"artist\": ", "\"title\": ", "\"album\": ", "\"artUrl\": "];
    let mut from = 0;
    for key in keys {
        let at = entry[from..].find(key).expect(key);
        from += at + key.len();
    }
    assert_eq!(entry.matches("\": ").count(), 7);
}

#[test]
fn status_line_stays_an_object_when_a_text_holds_a_quote() {
    assert_eq!(
        format_status(&String::from("AC\"DC - Back\\Slash"), &String::from("m\"pv")),
        "{\"text\": \"AC\\\"DC - Back\\\\Slash\", \"class\": \"custom-m\\\"pv\", \"alt\": \"m\\\"pv\", \"tooltip\": \"(m\\\"pv) AC\\\"DC - Back\\\\Slash\"}"
    );
    let line = format_status(&String::from("a\nb"), &String::from("p"));
    assert!(!line.contains('\n'));
    assert!(line.contains("a\\u000ab"));
}
