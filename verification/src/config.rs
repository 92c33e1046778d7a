//! What the command line and the environment ask for.

use vstd::prelude::*;
use vstd::std_specs::iter::IteratorSpec;
use crate::text::starts_with;

verus! {

/// The program that lists the active players, unless the environment names
/// another.
pub const LIST_PLAYERS_CMD: &'static str =
    "~/Documents/Github/awesomewm-mpris-widget/bin/list_players_metadata";

/// The program that controls a player, unless the environment names another.
pub const PLAYERCTL_CMD: &'static str = "playerctl";

/// Where the selected player's name is kept, before expansion, unless the
/// environment names another file.
pub const DEFAULT_OUTPUT_FILE: &'static str = "$HOME/.local/share/mpris-widget/output.txt";

/// What [`DEFAULT_OUTPUT_FILE`] holds after the home directory.
pub const DEFAULT_OUTPUT_FILE_TAIL: &'static str = "/.local/share/mpris-widget/output.txt";

/// The path of the control channel's socket.
pub const SOCK_PATH: &'static str = "/tmp/mpris_widget.sock";

/// The environment variable that overrides [`PLAYERCTL_CMD`].
pub const PLAYERCTL_PATH_VAR: &'static str = "PLAYERCTL_PATH";

/// The environment variable that overrides [`LIST_PLAYERS_CMD`].
pub const PLAYERS_METADATA_PATH_VAR: &'static str = "PLAYERS_METADATA_PATH";

/// The environment variable that overrides the expanded
/// [`DEFAULT_OUTPUT_FILE`].
pub const OUTPUT_FILE_VAR: &'static str = "MPRIS_OUTPUT_FILE";

/// The command line as a mathematical value.
pub struct Settings {
    pub action: Seq<char>,
    pub player: Seq<char>,
    pub no_server: bool,
    pub from_output_file: bool,
}

/// What the command line asks for.
pub struct Config {
    action: String,
    player: String,
    no_server: bool,
    from_output_file: bool,
}

impl View for Config {
    type V = Settings;

    closed spec fn view(&self) -> Settings {
        Settings {
            action: self.action@,
            player: self.player@,
            no_server: self.no_server,
            from_output_file: self.from_output_file,
        }
    }
}

/// The texts of a sequence of strings.
pub open spec fn texts(strings: Seq<String>) -> Seq<Seq<char>> {
    strings.map_values(|s: String| s@)
}

/// Whether an argument is an option rather than a word.
pub open spec fn is_option(arg: Seq<char>) -> bool {
    "--"@.is_prefix_of(arg)
}

/// The arguments that are words, in order.
pub open spec fn words(args: Seq<Seq<char>>) -> Seq<Seq<char>> {
    args.filter(|arg: Seq<char>| !is_option(arg))
}

/// Whether some argument begins with `flag`.
pub open spec fn has_flag(args: Seq<Seq<char>>, flag: Seq<char>) -> bool {
    exists|i: int| 0 <= i < args.len() && flag.is_prefix_of(#[trigger] args[i])
}

/// The arguments after the program's name.
pub open spec fn settings_args(args: Seq<Seq<char>>) -> Seq<Seq<char>> {
    if args.len() > 0 {
        args.skip(1)
    } else {
        args
    }
}

/// Adding an argument adds its flag, and no other.
proof fn lemma_has_flag_push(args: Seq<Seq<char>>, arg: Seq<char>, flag: Seq<char>)
    ensures
        has_flag(args.push(arg), flag) == (has_flag(args, flag) || flag.is_prefix_of(arg)),
{
    let more = args.push(arg);
    if has_flag(args, flag) {
        let i = choose|i: int| 0 <= i < args.len() && flag.is_prefix_of(#[trigger] args[i]);
        assert(flag.is_prefix_of(more[i]));
    }
    if flag.is_prefix_of(arg) {
        assert(flag.is_prefix_of(more[args.len() as int]));
    }
    if has_flag(more, flag) {
        let i = choose|i: int| 0 <= i < more.len() && flag.is_prefix_of(#[trigger] more[i]);
        assert(i < args.len() ==> more[i] == args[i]);
    }
}

/// The two flags are options, and no argument is both.
pub proof fn lemma_flags_are_options(arg: Seq<char>)
    ensures
        "--no-server"@.is_prefix_of(arg) ==> is_option(arg),
        "--from-output-file"@.is_prefix_of(arg) ==> is_option(arg),
        !("--no-server"@.is_prefix_of(arg) && "--from-output-file"@.is_prefix_of(arg)),
{
    reveal_strlit("--");
    reveal_strlit("--no-server");
    reveal_strlit("--from-output-file");
    let file = "--from-output-file"@;
    if file.is_prefix_of(arg) {
        assert(arg[2] == arg.subrange(0, file.len() as int)[2]);
    }
}

/// The settings that a command line stands for. The first argument, the
/// program's name, is skipped. Of the others, those that begin with `--`
/// are options; the first word is the action, the second the player, both
/// empty where missing.
pub open spec fn settings_of(args: Seq<Seq<char>>) -> Settings {
    let given = settings_args(args);
    Settings {
        action: if words(given).len() > 0 {
            words(given)[0]
        } else {
            Seq::empty()
        },
        player: if words(given).len() > 1 {
            words(given)[1]
        } else {
            Seq::empty()
        },
        no_server: has_flag(given, "--no-server"@),
        from_output_file: has_flag(given, "--from-output-file"@),
    }
}

impl Config {
    /// Reads the command line, which has to come to an end. This never
    /// fails: arguments are optional and unknown options are ignored.
    pub fn build<I: Iterator<Item = String>>(mut args: I) -> (built: Result<Config, &'static str>)
        requires
            args.obeys_prophetic_iter_laws(),
            args.decrease() is Some,
        ensures
            built is Ok,
            built->Ok_0@ == settings_of(texts(args.remaining())),
    {
        let ghost all = args.remaining();
        let _ = args.next();
        let ghost given = if all.len() > 0 {
            all.skip(1)
        } else {
            all
        };
        assert(texts(given) =~= settings_args(texts(all)));
        let ghost seen: int = 0;
        let mut found: Vec<String> = Vec::new();
        let mut no_server = false;
        let mut from_output_file = false;
        proof {
            reveal(Seq::filter);
        }
        loop
            invariant
                args.obeys_prophetic_iter_laws(),
                args.decrease() is Some,
                0 <= seen <= given.len(),
                args.remaining() == given.skip(seen),
                found.deep_view() == words(texts(given).take(seen)),
                no_server == has_flag(texts(given).take(seen), "--no-server"@),
                from_output_file == has_flag(texts(given).take(seen), "--from-output-file"@),
            ensures
                found.deep_view() == words(texts(given)),
                no_server == has_flag(texts(given), "--no-server"@),
                from_output_file == has_flag(texts(given), "--from-output-file"@),
            decreases args.decrease()->0,
        {
            let ghost before = texts(given).take(seen);
            let ghost after = texts(given).take(seen + 1);
            match args.next() {
                None => {
                    assert(before =~= texts(given));
                    break ;
                },
                Some(arg) => {
                    proof {
                        assert(after.drop_last() =~= before);
                        reveal(Seq::filter);
                        lemma_has_flag_push(before, arg@, "--no-server"@);
                        lemma_has_flag_push(before, arg@, "--from-output-file"@);
                        assert(after =~= before.push(arg@));
                    }
                    if starts_with(arg.as_str(), "--no-server") {
                        no_server = true;
                    }
                    if starts_with(arg.as_str(), "--from-output-file") {
                        from_output_file = true;
                    }
                    if !starts_with(arg.as_str(), "--") {
                        found.push(arg);
                    }
                    proof {
                        seen = seen + 1;
                    }
                },
            }
        }
        let action = if found.len() > 0 {
            found[0].clone()
        } else {
            String::new()
        };
        let player = if found.len() > 1 {
            found[1].clone()
        } else {
            String::new()
        };
        Ok(Config { action, player, no_server, from_output_file })
    }

    /// The action to perform once, or the empty text to run as a daemon.
    pub fn action(&self) -> (action: &String)
        ensures
            action@ == self@.action,
    {
        &self.action
    }

    /// The player that the action is for; empty where none was named.
    pub fn player(&self) -> (player: &String)
        ensures
            player@ == self@.player,
    {
        &self.player
    }

    /// Whether the control channel is to be left alone.
    pub fn no_server(&self) -> (no_server: bool)
        ensures
            no_server == self@.no_server,
    {
        self.no_server
    }

    /// Whether the selected player's name is kept in the output file.
    pub fn from_output_file(&self) -> (from_output_file: bool)
        ensures
            from_output_file == self@.from_output_file,
    {
        self.from_output_file
    }
}

/// `envmnt::expand` with the expansion type `Unix`: `value` with each
/// `${NAME}` and `$NAME` replaced by what the environment holds for `NAME`,
/// or by nothing where it holds none. The result depends on the
/// environment. Of one value something holds whatever the environment: in
/// [`DEFAULT_OUTPUT_FILE`] the only name is `HOME`, at the start, so all
/// that follows it stays as it is, at the end of the result.
#[verifier::external_body]
fn expand_unix(value: &str) -> (expanded: String)
    ensures
        value@ == DEFAULT_OUTPUT_FILE@ ==> DEFAULT_OUTPUT_FILE_TAIL@.is_suffix_of(expanded@),
{
    let mut options = envmnt::ExpandOptions::new();
    options.expansion_type = Some(envmnt::ExpansionType::Unix);
    envmnt::expand(value, Some(options))
}

/// The default path of the output file is `$HOME` and the tail.
pub proof fn lemma_default_output_file()
    ensures
        DEFAULT_OUTPUT_FILE@ == "$HOME"@ + DEFAULT_OUTPUT_FILE_TAIL@,
        DEFAULT_OUTPUT_FILE_TAIL@.len() > 0,
{
    reveal_strlit("$HOME/.local/share/mpris-widget/output.txt");
    reveal_strlit("$HOME");
    reveal_strlit("/.local/share/mpris-widget/output.txt");
    assert(DEFAULT_OUTPUT_FILE@ =~= "$HOME"@ + DEFAULT_OUTPUT_FILE_TAIL@);
}

/// A value that the environment may override: what it configures, else the
/// default.
pub open spec fn configured_or(configured: Option<String>, default: Seq<char>) -> Seq<char> {
    match configured {
        Some(value) => value@,
        None => default,
    }
}

/// The program that controls a player: the value of the environment
/// variable [`PLAYERCTL_PATH_VAR`], given as `configured`, else
/// [`PLAYERCTL_CMD`].
pub fn get_playerctl_cmd(configured: Option<String>) -> (cmd: String)
    ensures
        cmd@ == configured_or(configured, PLAYERCTL_CMD@),
{
    match configured {
        Some(value) => value,
        None => String::from_str(PLAYERCTL_CMD),
    }
}

/// The shell command that lists the active players: the value of the
/// environment variable [`PLAYERS_METADATA_PATH_VAR`], given as
/// `configured`, else [`LIST_PLAYERS_CMD`].
pub fn get_players_metadata_cmd(configured: Option<String>) -> (cmd: String)
    ensures
        cmd@ == configured_or(configured, LIST_PLAYERS_CMD@),
{
    match configured {
        Some(value) => value,
        None => String::from_str(LIST_PLAYERS_CMD),
    }
}

/// The output file's path, given the environment's override and the
/// expanded default.
pub fn output_file_path(configured: Option<String>, expanded_default: String) -> (path: String)
    ensures
        path@ == configured_or(configured, expanded_default@),
{
    match configured {
        Some(value) => value,
        None => expanded_default,
    }
}

/// The output file's path: the value of the environment variable
/// [`OUTPUT_FILE_VAR`], given as `configured`, else
/// [`DEFAULT_OUTPUT_FILE`] as the environment expands it: the home
/// directory, if the environment names one, and the tail. Without an
/// override the path is never empty.
pub fn get_output_file_path(configured: Option<String>) -> (path: String)
    ensures
        configured matches Some(value) ==> path@ == value@,
        configured is None ==> path@.len() > 0 && DEFAULT_OUTPUT_FILE_TAIL@.is_suffix_of(path@),
{
    let expanded_default = expand_unix(DEFAULT_OUTPUT_FILE);
    proof {
        lemma_default_output_file();
    }
    output_file_path(configured, expanded_default)
}

} // verus!
