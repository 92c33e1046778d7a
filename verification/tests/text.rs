use mpris_widget::text::{
    equal, get_first_line, is_whitespace_char, read_first_line, split, split_whitespace,
    starts_with, substring, to_chars, trim,
};

#[test]
fn split_keeps_empty_parts() {
    assert_eq!(split("a;b;;c", ';'), vec!["a", "b", "", "c"]);
    assert_eq!(split("", ';'), vec![""]);
    assert_eq!(split("a;", ';'), vec!["a", ""]);
    assert_eq!(split(";", ';'), vec!["", ""]);
    assert_eq!(split("no separator", ';'), vec!["no separator"]);
}

#[test]
fn split_agrees_with_std() {
    let samples = ["", " ", "a b", "a  b ", " a", "été là", "x\ny\n\nz", ";;;;;;"];
    for sample in samples {
        for sep in [' ', ';', '\n'] {
            let expected: Vec<String> = sample.split(sep).map(String::from).collect();
            assert_eq!(split(sample, sep), expected);
        }
    }
}

#[test]
fn trim_removes_surrounding_whitespace_only() {
    assert_eq!(trim("  Song A \t"), "Song A");
    assert_eq!(trim(""), "");
    assert_eq!(trim(" \n\r\t "), "");
    assert_eq!(trim("a  b"), "a  b");
    assert_eq!(trim("\u{a0}\u{3000}caf\u{e9}\u{2028}"), "caf\u{e9}");
}

#[test]
fn whitespace_is_the_unicode_property() {
    let mut code: u32 = 0;
    while code <= 0x10ffff {
        if let Some(c) = char::from_u32(code) {
            assert_eq!(is_whitespace_char(c), c.is_whitespace(), "U+{:04X}", code);
        }
        code += 1;
    }
}

#[test]
fn starts_with_compares_prefixes() {
    assert!(starts_with("--no-server", "--"));
    assert!(starts_with("--no-server", "--no-server"));
    assert!(starts_with("--no-server-at-all", "--no-server"));
    assert!(!starts_with("--no", "--no-server"));
    assert!(!starts_with("-", "--"));
    assert!(starts_with("anything", ""));
    assert!(starts_with("", ""));
}

#[test]
fn equal_compares_characters() {
    assert!(equal("Playing", "Playing"));
    assert!(!equal("Playing", "playing"));
    assert!(!equal("Playing", "Playing "));
    assert!(equal("", ""));
}

#[test]
fn to_chars_and_substring_count_characters() {
    assert_eq!(to_chars("h\u{e9}!"), vec!['h', '\u{e9}', '!']);
    assert_eq!(substring("h\u{e9}llo", 1, 3), "\u{e9}l");
    assert_eq!(substring("abc", 0, 3), "abc");
    assert_eq!(substring("abc", 2, 2), "");
}

#[test]
fn first_line_stops_at_the_line_feed() {
    assert_eq!(get_first_line("spotify\nrest\n"), "spotify\n");
    assert_eq!(get_first_line("spotify"), "spotify");
    assert_eq!(get_first_line(""), "");
    assert_eq!(get_first_line("\nspotify"), "\n");
    assert_eq!(read_first_line("spotify\nrest\n"), "spotify");
    assert_eq!(read_first_line("spotify"), "spotify");
    assert_eq!(read_first_line(""), "");
    assert_eq!(read_first_line("\nspotify"), "");
}

#[test]
fn written_name_is_read_back() {
    for name in ["spotify", "", "music player daemon", "caf\u{e9}"] {
        let written = String::from(name);
        assert_eq!(read_first_line(&written), name);
        let with_terminator = format!("{}\n", name);
        assert_eq!(read_first_line(&with_terminator), name);
    }
}

#[test]
fn split_parts_join_back() {
    for sample in ["", ";", "a;b;;c", "Playing;Alice;Song A;;;;spotify", "no separator"] {
        let parts = split(sample, ';');
        assert_eq!(parts.join(";"), sample);
        assert!(parts.iter().all(|part| !part.contains(';')));
    }
}

#[test]
fn trim_leaves_the_core() {
    for sample in ["", "  ", " a ", "a", "\t a b \n", "\u{2003}x\u{2003}"] {
        let core = trim(sample);
        assert_eq!(core, sample.trim());
        assert!(!core.starts_with(char::is_whitespace));
        assert!(!core.ends_with(char::is_whitespace));
    }
}

#[test]
fn split_whitespace_gives_the_words() {
    assert_eq!(split_whitespace("next  mpv"), vec!["next", "mpv"]);
    assert_eq!(split_whitespace("  a \t b\nc  "), vec!["a", "b", "c"]);
    assert_eq!(split_whitespace("word"), vec!["word"]);
    assert_eq!(split_whitespace(""), Vec::<String>::new());
    assert_eq!(split_whitespace(" \t\n"), Vec::<String>::new());
}

#[test]
fn split_whitespace_agrees_with_std() {
    let samples = ["", " ", "a b", "a  b ", " a", "\u{e9}t\u{e9} l\u{e0}", "x\ny\n\nz", "a\u{3000}b\u{a0}c", ";;"];
    for sample in samples {
        let expected: Vec<String> = sample.split_whitespace().map(String::from).collect();
        assert_eq!(split_whitespace(sample), expected);
    }
}
