use mpris_widget::config::{
    output_file_path, DEFAULT_OUTPUT_FILE, DEFAULT_OUTPUT_FILE_TAIL, LIST_PLAYERS_CMD, OUTPUT_FILE_VAR, PLAYERCTL_CMD,
    PLAYERCTL_PATH_VAR, PLAYERS_METADATA_PATH_VAR, SOCK_PATH,
};
use mpris_widget::{get_output_file_path, get_playerctl_cmd, get_players_metadata_cmd, Config};

fn build(args: &[&str]) -> Config {
    let args: Vec<String> = args.iter().map(|arg| String::from(*arg)).collect();
    Config::build(args.into_iter()).unwrap()
}

#[test]
fn build_without_arguments_runs_the_daemon() {
    for args in [&[][..], &["mpris-widget"][..]] {
        let config = build(args);
        assert_eq!(config.action(), "");
        assert_eq!(config.player(), "");
        assert!(!config.no_server());
        assert!(!config.from_output_file());
    }
}

#[test]
fn build_skips_the_program_name() {
    let config = build(&["select", "mpv"]);
    assert_eq!(config.action(), "mpv");
    assert_eq!(config.player(), "");
}

#[test]
fn build_reads_action_and_player() {
    let config = build(&["mpris-widget", "select", "mpv"]);
    assert_eq!(config.action(), "select");
    assert_eq!(config.player(), "mpv");
    assert!(!config.no_server());
    assert!(!config.from_output_file());
}

#[test]
fn build_reads_options_wherever_they_stand() {
    let config = build(&["mpris-widget", "--no-server", "next", "--from-output-file", "mpv", "x"]);
    assert_eq!(config.action(), "next");
    assert_eq!(config.player(), "mpv");
    assert!(config.no_server());
    assert!(config.from_output_file());
}

#[test]
fn build_takes_options_by_prefix_and_ignores_unknown_ones() {
    let config = build(&["mpris-widget", "--no-server=yes", "--verbose", "--from", "-x"]);
    assert_eq!(config.action(), "-x");
    assert_eq!(config.player(), "");
    assert!(config.no_server());
    assert!(!config.from_output_file());
    let config = build(&["mpris-widget", "--from-output-file-too"]);
    assert!(!config.no_server());
    assert!(config.from_output_file());
}

#[test]
fn commands_come_from_the_environment_or_the_defaults() {
    assert_eq!(get_playerctl_cmd(None), "playerctl");
    assert_eq!(get_playerctl_cmd(Some(String::from("/opt/bin/playerctl"))), "/opt/bin/playerctl");
    assert_eq!(
        get_players_metadata_cmd(None),
        "~/Documents/Github/awesomewm-mpris-widget/bin/list_players_metadata"
    );
    assert_eq!(get_players_metadata_cmd(Some(String::from("list"))), "list");
    assert_eq!(PLAYERCTL_CMD, "playerctl");
    assert_eq!(
        LIST_PLAYERS_CMD,
        "~/Documents/Github/awesomewm-mpris-widget/bin/list_players_metadata"
    );
}

#[test]
fn output_file_path_prefers_the_environment() {
    assert_eq!(get_output_file_path(Some(String::from("/tmp/out.txt"))), "/tmp/out.txt");
    assert_eq!(get_output_file_path(Some(String::new())), "");
    assert_eq!(output_file_path(Some(String::from("a")), String::from("b")), "a");
    assert_eq!(output_file_path(None, String::from("b")), "b");
}

#[test]
fn default_output_file_path_is_expanded() {
    let path = get_output_file_path(None);
    assert_ne!(path, DEFAULT_OUTPUT_FILE);
    assert!(!path.contains('$'), "{}", path);
    assert!(path.ends_with("/.local/share/mpris-widget/output.txt"), "{}", path);
    assert!(path.ends_with(DEFAULT_OUTPUT_FILE_TAIL));
    assert!(!path.is_empty());
    assert_eq!(format!("$HOME{}", DEFAULT_OUTPUT_FILE_TAIL), DEFAULT_OUTPUT_FILE);
}

#[test]
fn names_of_the_outside_world() {
    assert_eq!(SOCK_PATH, "/tmp/mpris_widget.sock");
    assert_eq!(DEFAULT_OUTPUT_FILE, "$HOME/.local/share/mpris-widget/output.txt");
    assert_eq!(PLAYERCTL_PATH_VAR, "PLAYERCTL_PATH");
    assert_eq!(PLAYERS_METADATA_PATH_VAR, "PLAYERS_METADATA_PATH");
    assert_eq!(OUTPUT_FILE_VAR, "MPRIS_OUTPUT_FILE");
}
