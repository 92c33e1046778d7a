//! The coordination engine: the decisions of the daemon, as a state machine.
//!
//! The engine does nothing to the outside world. Its caller waits for what
//! happens there, tells the engine with an [`Event`], and carries out the
//! [`Reaction`]: print a line, write the output file, and do what
//! [`Next`] names, whose result is the next event.
//!
//! A run goes `Idle`, `Running`, `Draining`, `Stopped`. An action given on
//! the command line is performed once, and the run goes from `Idle` to
//! `Stopped` without ever running.

use vstd::prelude::*;
use crate::action::{
    action_arguments, arguments, planned, stored_player_of, ActionError, ActionPlanView,
};
use crate::config::{Config, Settings};
use crate::message::{
    listener_decision, wire_bytes, ConnectionView, ControlCommand, ListenerDecision,
    StreamMessage,
};
use crate::metadata::{fetch_info, fetched, info_of, FetchError, Info, InfoResponse};
use crate::output::{format_status, status_line};
use crate::text::{free_of, is_solid};

verus! {

/// The interval between two refreshes of the display, in milliseconds.
pub const REFRESH_INTERVAL_MS: u64 = 1000;

/// The interval between two looks at the queue of commands, in
/// milliseconds.
pub const COMMAND_INTERVAL_MS: u64 = 300;

/// Where a run stands.
#[derive(Debug, Clone, Copy, PartialEq, Eq, Structural)]
pub enum Phase {
    Idle,
    Running,
    Draining,
    Stopped,
}

/// The outside work whose result the engine waits for.
#[derive(Debug, Clone, Copy, PartialEq, Eq, Structural)]
pub enum Pending {
    /// None: the next event is a tick, a command or an interrupt.
    Nothing,
    /// The action given on the command line.
    Action,
    /// The start of the listener.
    Listener,
    /// A listing, asked for by a tick.
    Refresh,
    /// A listing, asked for after a command.
    ForcedRefresh,
    /// A run of the control program.
    Execution,
}

/// Why a run has failed.
#[derive(Debug, Clone, Copy, PartialEq, Eq, Structural)]
pub enum Failure {
    /// The action given on the command line could not be performed.
    Action,
    /// The listing program could not be run.
    Listing,
    /// The listing program ended with this exit code, which is not zero.
    ExitCode(i32),
    /// The listing could not be read.
    Fetch(FetchError),
    /// The listener could not be told to stop.
    Listener,
}

/// The engine's state as a mathematical value.
pub struct EngineView {
    pub phase: Phase,
    pub pending: Pending,
    /// The label last emitted.
    pub display: Seq<char>,
    /// The name of the selected player.
    pub player: Seq<char>,
    pub one_shot: bool,
    pub no_server: bool,
    pub from_output_file: bool,
    pub output_file: Seq<char>,
    pub listener_bound: bool,
    pub failure: Option<Failure>,
}

/// What happened outside, as a mathematical value.
pub enum EventView {
    Launched,
    ListenerStarted { bound: bool },
    ActionDone { succeeded: bool },
    Tick,
    Command(ControlCommand),
    Executed { succeeded: bool },
    Listed { output: Seq<char>, code: Option<i32> },
    ListFailed,
    Interrupted,
    ListenerStopped { succeeded: bool },
}

/// What the caller does next, as a mathematical value.
pub enum NextView {
    Wait,
    PerformAction,
    StartListener,
    List,
    Execute(Seq<Seq<char>>),
    StopListener { notify: bool },
    Exit(i32),
}

/// What the engine asks of its caller, as a mathematical value.
pub struct ReactionView {
    pub line: Option<Seq<char>>,
    pub file: Option<Seq<char>>,
    pub next: NextView,
}

/// The engine before anything happened.
pub open spec fn initial(settings: Settings, output_file: Seq<char>) -> EngineView {
    EngineView {
        phase: Phase::Idle,
        pending: Pending::Nothing,
        display: Seq::empty(),
        player: Seq::empty(),
        one_shot: settings.action.len() > 0,
        no_server: settings.no_server,
        from_output_file: settings.from_output_file,
        output_file,
        listener_bound: false,
        failure: None,
    }
}

/// A reaction that prints and writes nothing.
pub open spec fn silent(next: NextView) -> ReactionView {
    ReactionView { line: None, file: None, next }
}

/// An event that the engine does not expect leaves it as it is.
pub open spec fn ignored(s: EngineView) -> (EngineView, ReactionView) {
    (s, silent(NextView::Wait))
}

/// The exit code of the process: 1 once a run has failed, else 0.
pub open spec fn exit_code_of(s: EngineView) -> i32 {
    if s.failure is Some {
        1
    } else {
        0
    }
}

/// Whether the output file is kept up to date.
pub open spec fn keeps_file(s: EngineView) -> bool {
    s.from_output_file && s.output_file.len() > 0
}

/// Whether the engine waits for a listing.
pub open spec fn awaits_listing(s: EngineView) -> bool {
    s.phase == Phase::Running && (s.pending == Pending::Refresh || s.pending
        == Pending::ForcedRefresh)
}

/// The start of the process. With an action on the command line the action
/// is performed and nothing else. Without, the daemon starts: with its
/// listener, unless the control channel is to be left alone.
pub open spec fn launched(s: EngineView) -> (EngineView, ReactionView) {
    if s.phase != Phase::Idle || s.pending != Pending::Nothing {
        ignored(s)
    } else if s.one_shot {
        (EngineView { pending: Pending::Action, ..s }, silent(NextView::PerformAction))
    } else if s.no_server {
        (EngineView { phase: Phase::Running, ..s }, silent(NextView::Wait))
    } else {
        (EngineView { pending: Pending::Listener, ..s }, silent(NextView::StartListener))
    }
}

/// The listener was started. The daemon runs, whether or not the path could
/// be bound.
pub open spec fn listener_started(s: EngineView, bound: bool) -> (EngineView, ReactionView) {
    if s.phase == Phase::Idle && s.pending == Pending::Listener {
        (
            EngineView {
                phase: Phase::Running,
                pending: Pending::Nothing,
                listener_bound: bound,
                ..s
            },
            silent(NextView::Wait),
        )
    } else {
        ignored(s)
    }
}

/// The action given on the command line was performed. The run is over.
pub open spec fn action_done(s: EngineView, succeeded: bool) -> (EngineView, ReactionView) {
    if s.phase == Phase::Idle && s.pending == Pending::Action {
        let t = EngineView {
            phase: Phase::Stopped,
            pending: Pending::Nothing,
            failure: if succeeded {
                None
            } else {
                Some(Failure::Action)
            },
            ..s
        };
        (t, silent(NextView::Exit(exit_code_of(t))))
    } else {
        ignored(s)
    }
}

/// The refresh timer fired: the players are to be listed.
pub open spec fn ticked(s: EngineView) -> (EngineView, ReactionView) {
    if s.phase == Phase::Running && s.pending == Pending::Nothing {
        (EngineView { pending: Pending::Refresh, ..s }, silent(NextView::List))
    } else {
        ignored(s)
    }
}

/// A command came from the listener. `select` names the selected player and
/// calls for a refresh; the control program is not run. Any other action
/// runs the control program for the selected player.
pub open spec fn commanded(s: EngineView, command: ControlCommand) -> (EngineView, ReactionView) {
    if s.phase != Phase::Running || s.pending != Pending::Nothing {
        ignored(s)
    } else if command.action == "select"@ {
        (
            EngineView { player: command.player, pending: Pending::ForcedRefresh, ..s },
            silent(NextView::List),
        )
    } else {
        (
            EngineView { pending: Pending::Execution, ..s },
            silent(NextView::Execute(arguments(command.action, s.player, Seq::empty()))),
        )
    }
}

/// The control program ran. Success calls for a refresh; after a failure
/// the daemon goes on as before.
pub open spec fn executed(s: EngineView, succeeded: bool) -> (EngineView, ReactionView) {
    if s.phase == Phase::Running && s.pending == Pending::Execution {
        if succeeded {
            (EngineView { pending: Pending::ForcedRefresh, ..s }, silent(NextView::List))
        } else {
            (EngineView { pending: Pending::Nothing, ..s }, silent(NextView::Wait))
        }
    } else {
        ignored(s)
    }
}

/// The run has failed: the daemon drains.
pub open spec fn failing(s: EngineView, failure: Failure) -> (EngineView, ReactionView) {
    (
        EngineView {
            phase: Phase::Draining,
            pending: Pending::Nothing,
            failure: Some(failure),
            ..s
        },
        silent(NextView::StopListener { notify: s.listener_bound }),
    )
}

/// A fetch told `info`. A non-zero exit code fails the run. Otherwise the
/// state takes the fetched label and player. A line is printed if either
/// differs from the state, or if the refresh is forced; the output file, if
/// kept, is written if the player differs, or if the refresh is forced.
pub open spec fn refreshed(s: EngineView, info: Info, forced: bool) -> (EngineView, ReactionView) {
    if info.code != 0 {
        failing(s, Failure::ExitCode(info.code))
    } else {
        let new_player = info.player != s.player;
        let new_display = info.display != s.display;
        (
            EngineView {
                display: info.display,
                player: info.player,
                pending: Pending::Nothing,
                ..s
            },
            ReactionView {
                line: if forced || new_player || new_display {
                    Some(status_line(info.display, info.player))
                } else {
                    None
                },
                file: if (forced || new_player) && keeps_file(s) {
                    Some(info.player)
                } else {
                    None
                },
                next: NextView::Wait,
            },
        )
    }
}

/// The listing program ran, wrote `output` and ended with `code`. A listing
/// that cannot be read fails the run.
pub open spec fn listed(s: EngineView, output: Seq<char>, code: Option<i32>) -> (
    EngineView,
    ReactionView,
) {
    if awaits_listing(s) {
        match fetched(output, s.player) {
            Ok((record, label)) => refreshed(
                s,
                info_of(code, record, label),
                s.pending == Pending::ForcedRefresh,
            ),
            Err(error) => failing(s, Failure::Fetch(error)),
        }
    } else {
        ignored(s)
    }
}

/// The listing program could not be run: the run has failed.
pub open spec fn list_failed(s: EngineView) -> (EngineView, ReactionView) {
    if awaits_listing(s) {
        failing(s, Failure::Listing)
    } else {
        ignored(s)
    }
}

/// The process was asked to end: a blank line is printed, the output file,
/// if kept, is cleared, and the daemon drains.
pub open spec fn interrupted(s: EngineView) -> (EngineView, ReactionView) {
    if s.phase == Phase::Running {
        (
            EngineView { phase: Phase::Draining, pending: Pending::Nothing, ..s },
            ReactionView {
                line: Some(Seq::empty()),
                file: if keeps_file(s) {
                    Some(Seq::empty())
                } else {
                    None
                },
                next: NextView::StopListener { notify: s.listener_bound },
            },
        )
    } else {
        ignored(s)
    }
}

/// The listener is gone. The run is over; it has failed if it had before,
/// or if the listener could not be told to stop.
pub open spec fn listener_stopped(s: EngineView, succeeded: bool) -> (EngineView, ReactionView) {
    if s.phase == Phase::Draining {
        let t = EngineView {
            phase: Phase::Stopped,
            failure: if s.failure is None && !succeeded {
                Some(Failure::Listener)
            } else {
                s.failure
            },
            ..s
        };
        (t, silent(NextView::Exit(exit_code_of(t))))
    } else {
        ignored(s)
    }
}

/// The engine's transition function.
pub open spec fn step_of(s: EngineView, event: EventView) -> (EngineView, ReactionView) {
    match event {
        EventView::Launched => launched(s),
        EventView::ListenerStarted { bound } => listener_started(s, bound),
        EventView::ActionDone { succeeded } => action_done(s, succeeded),
        EventView::Tick => ticked(s),
        EventView::Command(command) => commanded(s, command),
        EventView::Executed { succeeded } => executed(s, succeeded),
        EventView::Listed { output, code } => listed(s, output, code),
        EventView::ListFailed => list_failed(s),
        EventView::Interrupted => interrupted(s),
        EventView::ListenerStopped { succeeded } => listener_stopped(s, succeeded),
    }
}

/// De-duplication. A tick prints a line exactly when the fetched label or
/// player differs from the display state, and the line is that of the
/// fetched pair; it writes the output file only when the player differs.
pub proof fn lemma_tick_emits_on_change_only(
    s: EngineView,
    output: Seq<char>,
    code: Option<i32>,
)
    requires
        s.phase == Phase::Running,
        s.pending == Pending::Nothing,
    ensures
        ({
            let (t, reaction) = listed(ticked(s).0, output, code);
            t.phase == Phase::Running ==> {
                &&& t.pending == Pending::Nothing
                &&& reaction.line is Some <==> t.display != s.display || t.player != s.player
                &&& reaction.line is Some ==> reaction.line == Some(
                    status_line(t.display, t.player),
                )
                &&& reaction.file is Some <==> t.player != s.player && keeps_file(s)
                &&& reaction.file is Some ==> reaction.file == Some(t.player)
            }
        }),
{
}

/// De-duplication over two ticks. Where two ticks in a row fetch the same
/// label and player, the first prints a line if the pair is new, and the
/// second prints nothing, writes nothing and leaves the state as it is.
pub proof fn lemma_identical_ticks_emit_once(
    s: EngineView,
    first_output: Seq<char>,
    first_code: Option<i32>,
    second_output: Seq<char>,
    second_code: Option<i32>,
)
    requires
        s.phase == Phase::Running,
        s.pending == Pending::Nothing,
    ensures
        ({
            let (t, first) = listed(ticked(s).0, first_output, first_code);
            let (u, second) = listed(ticked(t).0, second_output, second_code);
            t.phase == Phase::Running && u.phase == Phase::Running && u.display == t.display
                && u.player == t.player ==> {
                &&& first.line is Some <==> t.display != s.display || t.player != s.player
                &&& second.line is None
                &&& second.file is None
                &&& u == t
            }
        }),
{
    lemma_tick_emits_on_change_only(s, first_output, first_code);
    let t = listed(ticked(s).0, first_output, first_code).0;
    if t.phase == Phase::Running {
        lemma_tick_emits_on_change_only(t, second_output, second_code);
    }
}

/// `select` names the selected player, whatever the name, and does not run
/// the control program: it asks for a listing.
pub proof fn lemma_select_sets_player(s: EngineView, name: Seq<char>)
    requires
        s.phase == Phase::Running,
        s.pending == Pending::Nothing,
    ensures
        ({
            let (t, reaction) = commanded(s, ControlCommand { action: "select"@, player: name });
            &&& t.player == name
            &&& t.display == s.display
            &&& reaction.next == NextView::List
            &&& reaction.line is None
            &&& reaction.file is None
        }),
{
}

/// The fallback runs the command that the daemon would run. An action that
/// is a word, neither `select` nor `list`, given without a player, goes to
/// the daemon if one listens; the listener forwards it and the engine runs
/// the control program for its selected player. Where no daemon listens the
/// control program runs directly, for the stored player. Both runs have the
/// same arguments where the stored player is the daemon's selected player.
pub proof fn lemma_fallback_runs_same_command(
    s: EngineView,
    action: Seq<char>,
    stored: Seq<char>,
)
    requires
        s.phase == Phase::Running,
        s.pending == Pending::Nothing,
        action.len() > 0,
        is_solid(action),
        action != "select"@,
        action != "list"@,
        stored == s.player,
    ensures
        planned(action, Seq::empty(), false) == Ok::<ActionPlanView, ActionError>(
            ActionPlanView::Send { message: wire_bytes(action, Seq::empty()), fallback: true },
        ),
        listener_decision(ConnectionView::Payload(wire_bytes(action, Seq::empty())))
            == ListenerDecision::Forward(ControlCommand { action, player: Seq::empty() }),
        commanded(s, ControlCommand { action, player: Seq::empty() }).1.next == NextView::Execute(
            arguments(action, Seq::empty(), stored),
        ),
{
    crate::message::lemma_wire_round_trip(action, Seq::empty());
}

/// The place of a phase in a run.
pub open spec fn rank(phase: Phase) -> int {
    match phase {
        Phase::Idle => 0,
        Phase::Running => 1,
        Phase::Draining => 2,
        Phase::Stopped => 3,
    }
}

/// The states that a run can be in. Before the daemon runs nothing has
/// failed and no listener is bound. An action given on the command line
/// keeps the daemon from ever running. A listener is bound only where the
/// control channel is in use. A failure ends the run.
pub open spec fn well_formed(s: EngineView) -> bool {
    &&& s.listener_bound ==> !s.no_server && !s.one_shot
    &&& s.failure is Some ==> s.phase == Phase::Draining || s.phase == Phase::Stopped
    &&& match s.phase {
        Phase::Idle => {
            &&& !s.listener_bound
            &&& s.display.len() == 0
            &&& s.player.len() == 0
            &&& match s.pending {
                Pending::Nothing => true,
                Pending::Action => s.one_shot,
                Pending::Listener => !s.one_shot && !s.no_server,
                _ => false,
            }
        },
        Phase::Running => !s.one_shot && s.pending != Pending::Action && s.pending
            != Pending::Listener,
        Phase::Draining => !s.one_shot && s.pending == Pending::Nothing,
        Phase::Stopped => s.pending == Pending::Nothing,
    }
}

/// A new engine is in a state that a run can be in.
pub proof fn lemma_run_starts_well_formed(settings: Settings, output_file: Seq<char>)
    ensures
        well_formed(initial(settings, output_file)),
{
}

/// No event leads out of the states that a run can be in.
pub proof fn lemma_run_stays_well_formed(s: EngineView, event: EventView)
    requires
        well_formed(s),
    ensures
        well_formed(step_of(s, event).0),
{
}

/// A run never goes back to an earlier phase, `Stopped` is final, and what
/// the command line asked for stays as it is.
pub proof fn lemma_run_only_advances(s: EngineView, event: EventView)
    ensures
        rank(step_of(s, event).0.phase) >= rank(s.phase),
        s.phase == Phase::Stopped ==> step_of(s, event).0 == s,
        step_of(s, event).0.one_shot == s.one_shot,
        step_of(s, event).0.no_server == s.no_server,
        step_of(s, event).0.from_output_file == s.from_output_file,
        step_of(s, event).0.output_file == s.output_file,
{
}

/// The process ends only when the run has stopped, with the exit code 0
/// exactly when nothing has failed.
pub proof fn lemma_exit_tells_failure(s: EngineView, event: EventView)
    ensures
        ({
            let (t, reaction) = step_of(s, event);
            reaction.next matches NextView::Exit(code) ==> {
                &&& t.phase == Phase::Stopped
                &&& s.phase != Phase::Stopped
                &&& code == 0 <==> t.failure is None
                &&& code == 1 <==> t.failure is Some
            }
        }),
{
}

/// The display state is what was last emitted. The label changes only when
/// a listing brings another and the line for it is printed. The player
/// changes only that way or by `select`. Whenever the player changes by a
/// listing and the output file is kept, the file is written.
pub proof fn lemma_display_state_follows_emission(s: EngineView, event: EventView)
    ensures
        ({
            let (t, reaction) = step_of(s, event);
            &&& t.display != s.display ==> event is Listed && reaction.line == Some(
                status_line(t.display, t.player),
            )
            &&& t.player != s.player ==> {
                ||| event matches EventView::Command(command) && command.action == "select"@
                    && t.player == command.player
                ||| event is Listed && reaction.line == Some(status_line(t.display, t.player))
                    && (keeps_file(s) ==> reaction.file == Some(t.player))
            }
        }),
{
}

/// Whatever is printed is a single line: no line that a reaction holds has
/// a line feed in it.
pub proof fn lemma_printed_line_is_one_line(s: EngineView, event: EventView)
    ensures
        step_of(s, event).1.line matches Some(line) ==> free_of(line, '\n'),
{
    if let Some(line) = step_of(s, event).1.line {
        let t = step_of(s, event).0;
        crate::output::lemma_status_line_is_one_line(t.display, t.player);
    }
}

/// What the engine writes to the output file is read back as it was
/// written: the content is a player's name, or nothing, and it is the
/// stored player that a later run finds in the file.
pub proof fn lemma_written_player_is_read_back(s: EngineView, event: EventView)
    ensures
        ({
            let (t, reaction) = step_of(s, event);
            reaction.file matches Some(content) ==> {
                &&& stored_player_of(Some(content)) == content
                &&& content == t.player || content.len() == 0
            }
        }),
{
    if let EventView::Listed { output, code } = event {
        crate::metadata::lemma_fetched_is_one_line(output, s.player);
    }
    if let Some(content) = step_of(s, event).1.file {
        crate::text::lemma_first_line_round_trip(content, Seq::empty());
    }
}

/// What happened outside.
#[derive(Debug)]
pub enum Event {
    /// The process has started.
    Launched,
    /// The listener was started; `bound` tells whether it holds the path.
    ListenerStarted { bound: bool },
    /// The action given on the command line was performed.
    ActionDone { succeeded: bool },
    /// The refresh timer fired.
    Tick,
    /// The listener forwarded a command.
    Command(StreamMessage),
    /// The control program ran.
    Executed { succeeded: bool },
    /// The listing program ran: its standard output and its exit code.
    Listed { output: String, code: Option<i32> },
    /// The listing program could not be run.
    ListFailed,
    /// The process was asked to end.
    Interrupted,
    /// The listener has ended; `succeeded` is false where it was to be told
    /// to stop and could not be.
    ListenerStopped { succeeded: bool },
}

impl View for Event {
    type V = EventView;

    open spec fn view(&self) -> EventView {
        match self {
            Event::Launched => EventView::Launched,
            Event::ListenerStarted { bound } => EventView::ListenerStarted { bound: *bound },
            Event::ActionDone { succeeded } => EventView::ActionDone { succeeded: *succeeded },
            Event::Tick => EventView::Tick,
            Event::Command(message) => EventView::Command(message@),
            Event::Executed { succeeded } => EventView::Executed { succeeded: *succeeded },
            Event::Listed { output, code } => EventView::Listed { output: output@, code: *code },
            Event::ListFailed => EventView::ListFailed,
            Event::Interrupted => EventView::Interrupted,
            Event::ListenerStopped { succeeded } => EventView::ListenerStopped {
                succeeded: *succeeded,
            },
        }
    }
}

/// What the caller does next. The result of the work, where there is one,
/// is the next event.
#[derive(Debug)]
pub enum Next {
    /// Wait for the refresh timer, a command or an interrupt.
    Wait,
    /// Perform the action given on the command line, then report
    /// `ActionDone`.
    PerformAction,
    /// Start the listener, then report `ListenerStarted`.
    StartListener,
    /// Run the listing program, then report `Listed` or `ListFailed`.
    List,
    /// Run the control program with these arguments, then report
    /// `Executed`.
    Execute(Vec<String>),
    /// Tell the listener to stop if `notify` is set, wait for it to end,
    /// then report `ListenerStopped`.
    StopListener { notify: bool },
    /// End the process with this exit code.
    Exit(i32),
}

impl View for Next {
    type V = NextView;

    open spec fn view(&self) -> NextView {
        match self {
            Next::Wait => NextView::Wait,
            Next::PerformAction => NextView::PerformAction,
            Next::StartListener => NextView::StartListener,
            Next::List => NextView::List,
            Next::Execute(args) => NextView::Execute(args.deep_view()),
            Next::StopListener { notify } => NextView::StopListener { notify: *notify },
            Next::Exit(code) => NextView::Exit(*code),
        }
    }
}

/// The text of a string, if there is one.
pub open spec fn text_of(text: Option<String>) -> Option<Seq<char>> {
    match text {
        Some(t) => Some(t@),
        None => None,
    }
}

/// What the engine asks of its caller, in this order: print `line`, if any,
/// as one line; overwrite the output file with `file`, if any; then do
/// `next`.
#[derive(Debug)]
pub struct Reaction {
    pub line: Option<String>,
    pub file: Option<String>,
    pub next: Next,
}

impl View for Reaction {
    type V = ReactionView;

    open spec fn view(&self) -> ReactionView {
        ReactionView { line: text_of(self.line), file: text_of(self.file), next: self.next@ }
    }
}

/// The coordination engine. It owns the display state: the label last
/// emitted and the selected player's name.
#[derive(Debug)]
pub struct Engine {
    phase: Phase,
    pending: Pending,
    display: String,
    player: String,
    one_shot: bool,
    no_server: bool,
    from_output_file: bool,
    output_file: String,
    listener_bound: bool,
    failure: Option<Failure>,
}

impl View for Engine {
    type V = EngineView;

    closed spec fn view(&self) -> EngineView {
        EngineView {
            phase: self.phase,
            pending: self.pending,
            display: self.display@,
            player: self.player@,
            one_shot: self.one_shot,
            no_server: self.no_server,
            from_output_file: self.from_output_file,
            output_file: self.output_file@,
            listener_bound: self.listener_bound,
            failure: self.failure,
        }
    }
}

impl Engine {
    /// An engine for the given command line. `output_file` is the path of
    /// the output file, empty where there is none.
    pub fn new(config: &Config, output_file: String) -> (engine: Engine)
        ensures
            engine@ == initial(config@, output_file@),
    {
        Engine {
            phase: Phase::Idle,
            pending: Pending::Nothing,
            display: String::new(),
            player: String::new(),
            one_shot: !config.action().as_str().is_empty(),
            no_server: config.no_server(),
            from_output_file: config.from_output_file(),
            output_file,
            listener_bound: false,
            failure: None,
        }
    }

    /// Where the run stands.
    pub fn phase(&self) -> (phase: Phase)
        ensures
            phase == self@.phase,
    {
        self.phase
    }

    /// The label last emitted.
    pub fn display(&self) -> (display: &String)
        ensures
            display@ == self@.display,
    {
        &self.display
    }

    /// The name of the selected player.
    pub fn player(&self) -> (player: &String)
        ensures
            player@ == self@.player,
    {
        &self.player
    }

    /// The exit code that the process ends with.
    pub fn exit_code(&self) -> (code: i32)
        ensures
            code == exit_code_of(self@),
    {
        if self.failure.is_some() {
            1
        } else {
            0
        }
    }

    /// Why the run has failed, if it has.
    pub fn failure(&self) -> (failure: Option<Failure>)
        ensures
            failure == self@.failure,
    {
        self.failure
    }

    /// Ends the daemon's work with a failure and starts draining.
    fn fail(&mut self, failure: Failure) -> (reaction: Reaction)
        ensures
            final(self)@ == failing(old(self)@, failure).0,
            reaction@ == failing(old(self)@, failure).1,
    {
        self.phase = Phase::Draining;
        self.pending = Pending::Nothing;
        self.failure = Some(failure);
        let notify = self.listener_bound;
        Reaction { line: None, file: None, next: Next::StopListener { notify } }
    }

    /// Takes what a fetch told into the display state and emits what is
    /// new, or everything where the refresh is forced.
    fn refresh(&mut self, info: InfoResponse, forced: bool) -> (reaction: Reaction)
        ensures
            final(self)@ == refreshed(old(self)@, info@, forced).0,
            reaction@ == refreshed(old(self)@, info@, forced).1,
    {
        if info.code() != 0 {
            return self.fail(Failure::ExitCode(info.code()));
        }
        let new_player = !(*info.player() == self.player);
        let new_display = !(*info.display() == self.display);
        let keeps_file = self.from_output_file && !self.output_file.as_str().is_empty();
        self.display = info.display().clone();
        self.player = info.player().clone();
        self.pending = Pending::Nothing;
        let line = if forced || new_player || new_display {
            Some(format_status(&self.display, &self.player))
        } else {
            None
        };
        let file = if (forced || new_player) && keeps_file {
            Some(self.player.clone())
        } else {
            None
        };
        Reaction { line, file, next: Next::Wait }
    }

    /// Takes one event, moves to the next state and says what to do.
    pub fn step(&mut self, event: Event) -> (reaction: Reaction)
        ensures
            final(self)@ == step_of(old(self)@, event@).0,
            reaction@ == step_of(old(self)@, event@).1,
    {
        let idle = matches!(self.phase, Phase::Idle);
        let running = matches!(self.phase, Phase::Running);
        let wait = Reaction { line: None, file: None, next: Next::Wait };
        match event {
            Event::Launched => {
                if !idle || !matches!(self.pending, Pending::Nothing) {
                    wait
                } else if self.one_shot {
                    self.pending = Pending::Action;
                    Reaction { line: None, file: None, next: Next::PerformAction }
                } else if self.no_server {
                    self.phase = Phase::Running;
                    wait
                } else {
                    self.pending = Pending::Listener;
                    Reaction { line: None, file: None, next: Next::StartListener }
                }
            },
            Event::ListenerStarted { bound } => {
                if idle && matches!(self.pending, Pending::Listener) {
                    self.phase = Phase::Running;
                    self.pending = Pending::Nothing;
                    self.listener_bound = bound;
                }
                wait
            },
            Event::ActionDone { succeeded } => {
                if idle && matches!(self.pending, Pending::Action) {
                    self.phase = Phase::Stopped;
                    self.pending = Pending::Nothing;
                    self.failure = if succeeded {
                        None
                    } else {
                        Some(Failure::Action)
                    };
                    Reaction { line: None, file: None, next: Next::Exit(self.exit_code()) }
                } else {
                    wait
                }
            },
            Event::Tick => {
                if running && matches!(self.pending, Pending::Nothing) {
                    self.pending = Pending::Refresh;
                    Reaction { line: None, file: None, next: Next::List }
                } else {
                    wait
                }
            },
            Event::Command(message) => {
                if !running || !matches!(self.pending, Pending::Nothing) {
                    wait
                } else if crate::text::equal(message.action().as_str(), "select") {
                    self.player = message.player().clone();
                    self.pending = Pending::ForcedRefresh;
                    Reaction { line: None, file: None, next: Next::List }
                } else {
                    self.pending = Pending::Execution;
                    let stored = String::new();
                    let args = action_arguments(message.action(), &self.player, &stored);
                    Reaction { line: None, file: None, next: Next::Execute(args) }
                }
            },
            Event::Executed { succeeded } => {
                if running && matches!(self.pending, Pending::Execution) {
                    if succeeded {
                        self.pending = Pending::ForcedRefresh;
                        Reaction { line: None, file: None, next: Next::List }
                    } else {
                        self.pending = Pending::Nothing;
                        wait
                    }
                } else {
                    wait
                }
            },
            Event::Listed { output, code } => {
                let forced = matches!(self.pending, Pending::ForcedRefresh);
                if running && (forced || matches!(self.pending, Pending::Refresh)) {
                    match fetch_info(output.as_str(), code, &self.player) {
                        Ok(info) => self.refresh(info, forced),
                        Err(error) => self.fail(Failure::Fetch(error)),
                    }
                } else {
                    wait
                }
            },
            Event::ListFailed => {
                if running && (matches!(self.pending, Pending::ForcedRefresh) || matches!(
                    self.pending,
                    Pending::Refresh
                )) {
                    self.fail(Failure::Listing)
                } else {
                    wait
                }
            },
            Event::Interrupted => {
                if running {
                    let file = if self.from_output_file && !self.output_file.as_str().is_empty() {
                        Some(String::new())
                    } else {
                        None
                    };
                    self.phase = Phase::Draining;
                    self.pending = Pending::Nothing;
                    Reaction {
                        line: Some(String::new()),
                        file,
                        next: Next::StopListener { notify: self.listener_bound },
                    }
                } else {
                    wait
                }
            },
            Event::ListenerStopped { succeeded } => {
                if matches!(self.phase, Phase::Draining) {
                    self.phase = Phase::Stopped;
                    if self.failure.is_none() && !succeeded {
                        self.failure = Some(Failure::Listener);
                    }
                    Reaction { line: None, file: None, next: Next::Exit(self.exit_code()) }
                } else {
                    wait
                }
            },
        }
    }
}

} // verus!
