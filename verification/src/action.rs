//! One action asked for on the command line: where it goes, what the
//! control program is called with, and how its answer is judged.

use vstd::prelude::*;
use crate::message::{server_message, wire_bytes};
use crate::text::{first_line, read_first_line};

verus! {

/// The option of the control program that names a player.
pub const PLAYER_OPTION: &'static str = "--player";

/// What to do for an action, as a mathematical value.
pub enum ActionPlanView {
    Send { message: Seq<u8>, fallback: bool },
    List,
    Execute,
}

/// What to do for an action.
#[derive(Debug)]
pub enum ActionPlan {
    /// Write `message` to the control channel. Where that fails, run the
    /// control program directly if `fallback` is set, else give up with the
    /// channel's error.
    Send { message: Vec<u8>, fallback: bool },
    /// Print the list of the active players.
    List,
    /// Run the control program directly.
    Execute,
}

impl View for ActionPlan {
    type V = ActionPlanView;

    open spec fn view(&self) -> ActionPlanView {
        match self {
            ActionPlan::Send { message, fallback } => ActionPlanView::Send {
                message: message@,
                fallback: *fallback,
            },
            ActionPlan::List => ActionPlanView::List,
            ActionPlan::Execute => ActionPlanView::Execute,
        }
    }
}

/// Why an action cannot be performed.
#[derive(Debug, Clone, Copy, PartialEq, Eq, Structural)]
pub enum ActionError {
    /// `select` was given without the name of a player.
    MissingPlayer,
}

/// The plan for an action. `select` goes to the daemon and nowhere else, and
/// needs a player. `list` is answered on the spot. Any other action is a
/// transport command: it runs directly where the control channel is not to
/// be used, else it goes to the daemon, and runs directly if no daemon
/// takes it.
pub open spec fn planned(action: Seq<char>, player: Seq<char>, no_server: bool) -> Result<
    ActionPlanView,
    ActionError,
> {
    if action == "select"@ {
        if player.len() == 0 {
            Err(ActionError::MissingPlayer)
        } else {
            Ok(ActionPlanView::Send { message: wire_bytes(action, player), fallback: false })
        }
    } else if action == "list"@ {
        Ok(ActionPlanView::List)
    } else if no_server {
        Ok(ActionPlanView::Execute)
    } else {
        Ok(ActionPlanView::Send { message: wire_bytes(action, player), fallback: true })
    }
}

/// Whether the player's name is to be looked up in the output file: only
/// where none was given, the file is in use and its path is known.
pub open spec fn wants_stored_player(
    player: Seq<char>,
    from_output_file: bool,
    output_file: Seq<char>,
) -> bool {
    player.len() == 0 && from_output_file && output_file.len() > 0
}

/// The player's name that the output file holds: its first line, or nothing
/// where the file could not be read.
pub open spec fn stored_player_of(content: Option<Seq<char>>) -> Seq<char> {
    match content {
        Some(text) => first_line(text),
        None => Seq::empty(),
    }
}

/// The arguments of the control program: the action, then `--player` and a
/// name where one is known, the given player before the stored one.
pub open spec fn arguments(action: Seq<char>, player: Seq<char>, stored_player: Seq<char>) -> Seq<
    Seq<char>,
> {
    if player.len() > 0 {
        seq![action, PLAYER_OPTION@, player]
    } else if stored_player.len() > 0 {
        seq![action, PLAYER_OPTION@, stored_player]
    } else {
        seq![action]
    }
}

/// What the control program wrote to standard error when it failed.
#[derive(Debug)]
pub struct ExecFailure {
    message: String,
}

impl View for ExecFailure {
    type V = Seq<char>;

    closed spec fn view(&self) -> Seq<char> {
        self.message@
    }
}

impl ExecFailure {
    /// The control program's standard error, as it was.
    pub fn message(&self) -> (text: &String)
        ensures
            text@ == self@,
    {
        &self.message
    }
}

impl ActionError {
    /// The error in words.
    pub fn message(&self) -> (text: String)
        ensures
            text@ == "'select' command needs another argument (name of the player)"@,
    {
        String::from_str("'select' command needs another argument (name of the player)")
    }
}

/// Plans an action asked for on the command line.
pub fn plan_action(action_name: &String, player: &String, no_server: bool) -> (plan: Result<
    ActionPlan,
    ActionError,
>)
    ensures
        match plan {
            Ok(p) => planned(action_name@, player@, no_server) == Ok::<
                ActionPlanView,
                ActionError,
            >(p@),
            Err(error) => planned(action_name@, player@, no_server) == Err::<
                ActionPlanView,
                ActionError,
            >(error),
        },
{
    if crate::text::equal(action_name.as_str(), "select") {
        if player.as_str().is_empty() {
            return Err(ActionError::MissingPlayer);
        }
        Ok(ActionPlan::Send { message: server_message(action_name, player), fallback: false })
    } else if crate::text::equal(action_name.as_str(), "list") {
        Ok(ActionPlan::List)
    } else if no_server {
        Ok(ActionPlan::Execute)
    } else {
        Ok(ActionPlan::Send { message: server_message(action_name, player), fallback: true })
    }
}

/// Whether the output file is to be read before the control program runs.
pub fn needs_stored_player(
    player: &String,
    from_output_file: bool,
    output_file: &String,
) -> (needed: bool)
    ensures
        needed == wants_stored_player(player@, from_output_file, output_file@),
{
    player.as_str().is_empty() && from_output_file && !output_file.as_str().is_empty()
}

/// The player's name found in the output file, given the file's content, or
/// `None` where it could not be read.
pub fn stored_player(content: Option<String>) -> (name: String)
    ensures
        name@ == stored_player_of(
            match content {
                Some(text) => Some(text@),
                None => None,
            },
        ),
{
    match content {
        Some(text) => read_first_line(text.as_str()),
        None => String::new(),
    }
}

/// The arguments to call the control program with.
pub fn action_arguments(
    action_name: &String,
    player: &String,
    stored_player: &String,
) -> (args: Vec<String>)
    ensures
        args.deep_view() == arguments(action_name@, player@, stored_player@),
{
    let mut args: Vec<String> = Vec::new();
    args.push(action_name.clone());
    if !player.as_str().is_empty() {
        args.push(String::from_str(PLAYER_OPTION));
        args.push(player.clone());
    } else if !stored_player.as_str().is_empty() {
        args.push(String::from_str(PLAYER_OPTION));
        args.push(stored_player.clone());
    }
    args
}

/// Whether the control program ended well: with the exit code zero.
pub fn action_succeeded(code: Option<i32>) -> (succeeded: bool)
    ensures
        succeeded == (code == Some(0i32)),
{
    match code {
        Some(0) => true,
        _ => false,
    }
}

/// Judges how the control program ended: well if its exit code is zero,
/// else it failed, with what it wrote to standard error.
pub fn action_outcome(code: Option<i32>, stderr: String) -> (outcome: Result<(), ExecFailure>)
    ensures
        outcome is Ok <==> code == Some(0i32),
        outcome matches Err(failure) ==> failure@ == stderr@,
{
    if action_succeeded(code) {
        Ok(())
    } else {
        Err(ExecFailure { message: stderr })
    }
}

} // verus!
