use mpris_widget::action::{
    action_arguments, action_outcome, needs_stored_player, plan_action, stored_player,
    ActionError, ActionPlan, PLAYER_OPTION,
};

fn plan(action: &str, player: &str, no_server: bool) -> Result<ActionPlan, ActionError> {
    plan_action(&String::from(action), &String::from(player), no_server)
}

fn arguments(action: &str, player: &str, stored: &str) -> Vec<String> {
    action_arguments(&String::from(action), &String::from(player), &String::from(stored))
}

#[test]
fn select_goes_to_the_daemon_only() {
    for no_server in [false, true] {
        match plan("select", "mpv", no_server).unwrap() {
            ActionPlan::Send { message, fallback } => {
                assert_eq!(message, b"select mpv".to_vec());
                assert!(!fallback);
            }
            other => panic!("unexpected plan {:?}", other),
        }
    }
}

#[test]
fn select_needs_a_player() {
    for no_server in [false, true] {
        assert_eq!(plan("select", "", no_server).unwrap_err(), ActionError::MissingPlayer);
    }
    assert_eq!(
        ActionError::MissingPlayer.message(),
        "'select' command needs another argument (name of the player)"
    );
}

#[test]
fn list_is_answered_on_the_spot() {
    for (player, no_server) in [("", false), ("mpv", false), ("", true)] {
        assert!(matches!(plan("list", player, no_server).unwrap(), ActionPlan::List));
    }
}

#[test]
fn transport_goes_to_the_daemon_with_fallback() {
    match plan("play-pause", "", false).unwrap() {
        ActionPlan::Send { message, fallback } => {
            assert_eq!(message, b"play-pause ".to_vec());
            assert!(fallback);
        }
        other => panic!("unexpected plan {:?}", other),
    }
    match plan("next", "mpv", false).unwrap() {
        ActionPlan::Send { message, fallback } => {
            assert_eq!(message, b"next mpv".to_vec());
            assert!(fallback);
        }
        other => panic!("unexpected plan {:?}", other),
    }
}

#[test]
fn transport_runs_directly_without_server() {
    assert!(matches!(plan("play-pause", "", true).unwrap(), ActionPlan::Execute));
    assert!(matches!(plan("Select", "", true).unwrap(), ActionPlan::Execute));
}

#[test]
fn arguments_name_the_given_player_first() {
    assert_eq!(arguments("next", "mpv", "spotify"), vec!["next", "--player", "mpv"]);
    assert_eq!(arguments("next", "mpv", ""), vec!["next", "--player", "mpv"]);
    assert_eq!(arguments("next", "", "spotify"), vec!["next", "--player", "spotify"]);
    assert_eq!(arguments("next", "", ""), vec!["next"]);
    assert_eq!(PLAYER_OPTION, "--player");
}

#[test]
fn stored_player_is_wanted_as_a_last_resort() {
    let path = String::from("/tmp/out.txt");
    assert!(needs_stored_player(&String::new(), true, &path));
    assert!(!needs_stored_player(&String::from("mpv"), true, &path));
    assert!(!needs_stored_player(&String::new(), false, &path));
    assert!(!needs_stored_player(&String::new(), true, &String::new()));
}

#[test]
fn stored_player_is_the_first_line_of_the_file() {
    assert_eq!(stored_player(Some(String::from("mpv\n"))), "mpv");
    assert_eq!(stored_player(Some(String::from("mpv"))), "mpv");
    assert_eq!(stored_player(Some(String::from("mpv\nspotify\n"))), "mpv");
    assert_eq!(stored_player(Some(String::new())), "");
    assert_eq!(stored_player(None), "");
}

#[test]
fn outcome_is_success_on_exit_code_zero_only() {
    assert!(action_outcome(Some(0), String::from("warning")).is_ok());
    for code in [Some(1), Some(-1), Some(255), None] {
        let failure = action_outcome(code, String::from("No players found\n")).unwrap_err();
        assert_eq!(failure.message(), "No players found\n");
    }
}
