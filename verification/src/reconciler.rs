//! Keeping the model daemon on the directory that the user chose. The
//! daemon reads the directory from one environment variable when it starts,
//! so the directory in force is found by asking around, and changed by
//! writing the variable and restarting the daemon. The caller runs the
//! commands; this module reads their output and decides.

use vstd::prelude::*;
use crate::text::{
    chain, chars_of, content_lines, has_prefix, is_blank, lines_with_content, opt_text, same_text,
    slice_string, split_words, starts_with, text_of, texts, trim, trim_bounds, trimmed, words,
};

verus! {

/// How the variable is assigned in the environment of a process.
pub open spec fn assignment() -> Seq<char> {
    "OLLAMA_MODELS="@
}

/// How a command ended that the caller ran.
pub enum CommandResult {
    /// It could not be run, for the reason given.
    Unavailable(String),
    /// It ran to its end.
    Finished { success: bool, stdout: String, stderr: String },
}

/// The directory that the daemon uses when nothing tells it otherwise: under
/// the home directory, or under the current one where no home is known.
pub open spec fn default_models_dir(home: Option<Seq<char>>) -> Seq<char> {
    (match home {
        Some(h) => h,
        None => "."@,
    }) + "/.ollama/models"@
}

/// The directory that the daemon uses when nothing tells it otherwise.
pub fn default_ollama_models_dir(home: Option<&str>) -> (r: String)
    ensures
        r@ == default_models_dir(
            opt_text(home),
        ),
{
    match home {
        Some(h) => chain(h, "/.ollama/models"),
        None => chain(".", "/.ollama/models"),
    }
}

/// The process ids that a search for the daemon's processes printed: its
/// lines that are not blank, trimmed. A search that failed found none.
pub open spec fn daemon_pids(search: CommandResult) -> Seq<Seq<char>> {
    match search {
        CommandResult::Finished { success: true, stdout, .. } => content_lines(stdout@),
        _ => Seq::empty(),
    }
}

/// Reads the process ids of the daemon from the output of the search.
pub fn running_ollama_daemon_pids(search: &CommandResult) -> (r: Vec<String>)
    ensures
        texts(r@) == daemon_pids(*search),
{
    match search {
        CommandResult::Finished { success, stdout, .. } => {
            if *success {
                return lines_with_content(stdout.as_str());
            }
        },
        _ => {},
    }
    let r: Vec<String> = Vec::new();
    assert(texts(r@) =~= Seq::<Seq<char>>::empty());
    r
}

/// The value that the first assignment of the variable among `ws` gives it;
/// none where no word assigns it, or where that first assignment is empty.
pub open spec fn assigned_in(ws: Seq<Seq<char>>) -> Option<Seq<char>>
    decreases ws.len(),
{
    if ws.len() == 0 {
        None
    } else if has_prefix(ws[0], assignment()) {
        if ws[0].len() > assignment().len() {
            Some(ws[0].skip(assignment().len() as int))
        } else {
            None
        }
    } else {
        assigned_in(ws.drop_first())
    }
}

/// The directory that a process of the daemon was started with, as its
/// command line and environment show it when listed.
pub open spec fn models_dir_of_process(listing: CommandResult) -> Option<Seq<char>> {
    match listing {
        CommandResult::Finished { success: true, stdout, .. } => assigned_in(words(stdout@)),
        _ => None,
    }
}

fn first_assignment(ws: &Vec<String>) -> (r: Option<String>)
    ensures
        text_of(r) == assigned_in(texts(ws@)),
{
    let prefix = chars_of("OLLAMA_MODELS=");
    let mut i: usize = 0;
    assert(texts(ws@).skip(0) == texts(ws@));
    while i < ws.len()
        invariant
            i <= ws.len(),
            prefix@ == assignment(),
            assigned_in(texts(ws@)) == assigned_in(texts(ws@).skip(i as int)),
        decreases ws.len() - i,
    {
        let w = chars_of(ws[i].as_str());
        proof {
            assert(texts(ws@).skip(i as int)[0] == w@);
            assert(texts(ws@).skip(i as int).drop_first() == texts(ws@).skip(i + 1));
        }
        if starts_with(&w, &prefix) {
            if w.len() > prefix.len() {
                let value = slice_string(&w, prefix.len(), w.len());
                assert(w@.subrange(prefix@.len() as int, w@.len() as int) == w@.skip(
                    prefix@.len() as int,
                ));
                return Some(value);
            } else {
                return None;
            }
        }
        i += 1;
    }
    None
}

/// Reads the directory that a process of the daemon was started with from
/// the listing of the process.
pub fn ollama_models_from_daemon_pid(listing: &CommandResult) -> (r: Option<String>)
    ensures
        text_of(r) == models_dir_of_process(*listing),
{
    match listing {
        CommandResult::Finished { success, stdout, .. } => {
            if !*success {
                return None;
            }
            let ws = split_words(stdout.as_str());
            first_assignment(&ws)
        },
        _ => None,
    }
}

/// The first directory that the listings of the daemon's processes show.
pub open spec fn first_models_dir(listings: Seq<CommandResult>) -> Option<Seq<char>>
    decreases listings.len(),
{
    if listings.len() == 0 {
        None
    } else {
        match models_dir_of_process(listings[0]) {
            Some(d) => Some(d),
            None => first_models_dir(listings.drop_first()),
        }
    }
}

/// The directory that the running daemon uses: none where no process of it
/// runs; else the directory that the first of its processes to show one was
/// started with; and where none shows one, the default, which is what a
/// daemon started without the variable uses.
pub open spec fn running_models_dir(
    pids: Seq<Seq<char>>,
    listings: Seq<CommandResult>,
    default_dir: Seq<char>,
) -> Option<Seq<char>> {
    if pids.len() == 0 {
        None
    } else {
        match first_models_dir(listings) {
            Some(d) => Some(d),
            None => Some(default_dir),
        }
    }
}

fn first_dir(listings: &Vec<CommandResult>) -> (r: Option<String>)
    ensures
        text_of(r) == first_models_dir(listings@),
{
    let mut i: usize = 0;
    assert(listings@.skip(0) == listings@);
    while i < listings.len()
        invariant
            i <= listings.len(),
            first_models_dir(listings@) == first_models_dir(listings@.skip(i as int)),
        decreases listings.len() - i,
    {
        proof {
            assert(listings@.skip(i as int)[0] == listings@[i as int]);
            assert(listings@.skip(i as int).drop_first() == listings@.skip(i + 1));
        }
        match ollama_models_from_daemon_pid(&listings[i]) {
            Some(d) => {
                return Some(d);
            },
            None => {},
        }
        i += 1;
    }
    None
}

/// The directory that the running daemon uses. `listings` holds the listing
/// of each process of `pids`, in the same order.
pub fn running_ollama_models_dir(
    pids: &Vec<String>,
    listings: &Vec<CommandResult>,
    default_dir: &str,
) -> (r: Option<String>)
    ensures
        text_of(r) == running_models_dir(texts(pids@), listings@, default_dir@),
{
    assert(texts(pids@).len() == pids@.len());
    if pids.len() == 0 {
        return None;
    }
    match first_dir(listings) {
        Some(d) => Some(d),
        None => Some(default_dir.to_owned()),
    }
}

/// The directory that the user's shell has in the variable: what the shell
/// printed, trimmed, unless that is empty.
pub open spec fn shell_models_dir(printed: CommandResult) -> Option<Seq<char>> {
    match printed {
        CommandResult::Finished { stdout, .. } => if is_blank(stdout@) {
            None
        } else {
            Some(trimmed(stdout@))
        },
        CommandResult::Unavailable(_) => None,
    }
}

/// Reads the directory that the user's shell has in the variable.
pub fn get_ollama_models_dir(printed: &CommandResult) -> (r: Option<String>)
    ensures
        text_of(r) == shell_models_dir(*printed),
{
    match printed {
        CommandResult::Finished { stdout, .. } => {
            let v = chars_of(stdout.as_str());
            let (from, to) = trim_bounds(&v);
            if from < to {
                Some(slice_string(&v, from, to))
            } else {
                None
            }
        },
        CommandResult::Unavailable(_) => None,
    }
}

/// The directory in force, from the four places that may name it. The
/// running daemon is asked first, since what it does is the fact; then the
/// user's shell; then the saved settings; and where none names a directory
/// the default is in force.
pub open spec fn resolved(
    daemon: Option<Seq<char>>,
    shell: Option<Seq<char>>,
    config: Option<Seq<char>>,
    default_dir: Seq<char>,
) -> Seq<char> {
    match daemon {
        Some(a) => a,
        None => match shell {
            Some(b) => b,
            None => match config {
                Some(c) => c,
                None => default_dir,
            },
        },
    }
}

/// Resolves the directory in force.
pub fn resolve_ollama_models_dir(
    daemon: Option<String>,
    shell: Option<String>,
    config: Option<String>,
    default_dir: String,
) -> (r: String)
    ensures
        r@ == resolved(text_of(daemon), text_of(shell), text_of(config), default_dir@),
{
    match daemon {
        Some(a) => a,
        None => match shell {
            Some(b) => b,
            None => match config {
                Some(c) => c,
                None => default_dir,
            },
        },
    }
}

/// What the running daemon reports outranks the shell, the shell outranks the
/// saved settings, and the settings outrank the default.
pub proof fn law_resolution_priority(
    a: Seq<char>,
    b: Seq<char>,
    c: Seq<char>,
    shell: Option<Seq<char>>,
    config: Option<Seq<char>>,
    default_dir: Seq<char>,
)
    ensures
        resolved(Some(a), shell, config, default_dir) == a,
        resolved(None, Some(b), config, default_dir) == b,
        resolved(None, None, Some(c), default_dir) == c,
        resolved(None, None, None, default_dir) == default_dir,
{
}

/// A daemon that runs is believed whatever the shell and the settings say:
/// the directory in force is the one it was started with, and the default
/// where it was started without the variable.
pub proof fn law_running_daemon_decides(
    pids: Seq<Seq<char>>,
    listings: Seq<CommandResult>,
    shell: Option<Seq<char>>,
    config: Option<Seq<char>>,
    default_dir: Seq<char>,
)
    requires
        pids.len() > 0,
    ensures
        resolved(running_models_dir(pids, listings, default_dir), shell, config, default_dir) == (
        match first_models_dir(listings) {
            Some(d) => d,
            None => default_dir,
        }),
{
}

/// How the daemon is to be brought to the directory of an export.
pub enum DaemonSwitch {
    /// It is on that directory already.
    Keep,
    /// The variable is to be cleared, so that the daemon takes the default.
    Reset,
    /// The variable is to be set to the directory given.
    Point(String),
}

/// How the daemon is to be brought to a directory, as the contracts speak of it.
pub enum DaemonSwitchView {
    Keep,
    Reset,
    Point(Seq<char>),
}

impl View for DaemonSwitch {
    type V = DaemonSwitchView;

    open spec fn view(&self) -> DaemonSwitchView {
        match self {
            DaemonSwitch::Keep => DaemonSwitchView::Keep,
            DaemonSwitch::Reset => DaemonSwitchView::Reset,
            DaemonSwitch::Point(d) => DaemonSwitchView::Point(d@),
        }
    }
}

/// What is to be done so that a daemon on the directory `current` serves
/// `target`.
pub open spec fn switch_for(current: Seq<char>, target: Seq<char>, default_dir: Seq<char>) -> DaemonSwitchView {
    if current == target {
        DaemonSwitchView::Keep
    } else if target == default_dir {
        DaemonSwitchView::Reset
    } else {
        DaemonSwitchView::Point(target)
    }
}

/// Decides how the daemon is brought to the directory of an export.
pub fn plan_daemon_switch(current: &str, target: &str, default_dir: &str) -> (r: DaemonSwitch)
    ensures
        r@ == switch_for(current@, target@, default_dir@),
{
    if same_text(current, target) {
        DaemonSwitch::Keep
    } else if same_text(target, default_dir) {
        DaemonSwitch::Reset
    } else {
        DaemonSwitch::Point(target.to_owned())
    }
}

/// The directory that an export goes to, and a warning where that is not the
/// one that the settings name.
pub struct ExportTarget {
    pub dir: String,
    /// The directory of the settings that could not be used, if there is one.
    pub unusable: Option<String>,
}

/// Chooses the directory of an export: the one of the settings where it can
/// be written to, which `writable` says; else the default, with a warning
/// that names the directory that could not be used.
pub fn resolve_ollama_models_dir_for_export(
    configured: Option<String>,
    writable: bool,
    default_dir: String,
) -> (r: ExportTarget)
    ensures
        r.dir@ == (match configured {
            Some(c) => if writable {
                c@
            } else {
                default_dir@
            },
            None => default_dir@,
        }),
        text_of(r.unusable) == (match configured {
            Some(c) => if writable {
                None
            } else {
                Some(c@)
            },
            None => None,
        }),
{
    match configured {
        Some(c) => if writable {
            ExportTarget { dir: c, unusable: None }
        } else {
            ExportTarget { dir: default_dir, unusable: Some(c) }
        },
        None => ExportTarget { dir: default_dir, unusable: None },
    }
}

/// How long the daemon is given to stop, in milliseconds.
pub const STOP_BUDGET_MS: u64 = 4000;

/// How long the wait for the daemon to stop sleeps between two looks.
pub const STOP_POLL_MS: u64 = 300;

/// How long the daemon is given to come back, in milliseconds.
pub const START_BUDGET_MS: u64 = 6000;

/// How long the wait for the daemon to come back sleeps between two looks.
pub const START_POLL_MS: u64 = 500;

/// Where the change of the daemon's directory stands.
pub enum RestartState {
    /// The variable is being written.
    Writing,
    /// The daemon was told to quit; its processes are awaited to go, and
    /// this many milliseconds have been slept on it.
    Stopping(u64),
    /// The daemon is being launched again.
    Relaunching,
    /// The daemon was launched; its process is awaited to show, and this
    /// many milliseconds have been slept on it.
    Starting(u64),
    /// The daemon was launched again. Whether it serves yet is not known.
    Restarted,
    /// The change failed, for the reason given.
    Failed(String),
}

/// Where the change of the daemon's directory stands, as the contracts speak of it.
pub enum RestartStateView {
    Writing,
    Stopping(u64),
    Relaunching,
    Starting(u64),
    Restarted,
    Failed(Seq<char>),
}

impl View for RestartState {
    type V = RestartStateView;

    open spec fn view(&self) -> RestartStateView {
        match self {
            RestartState::Writing => RestartStateView::Writing,
            RestartState::Stopping(w) => RestartStateView::Stopping(*w),
            RestartState::Relaunching => RestartStateView::Relaunching,
            RestartState::Starting(w) => RestartStateView::Starting(*w),
            RestartState::Restarted => RestartStateView::Restarted,
            RestartState::Failed(m) => RestartStateView::Failed(m@),
        }
    }
}

/// What the caller reports of the change.
pub enum RestartInput {
    /// How the command ended that wrote the variable.
    Wrote(CommandResult),
    /// The process ids of the daemon found after the sleep.
    Pids(Vec<String>),
    /// How the command ended that launched the daemon.
    Relaunched(CommandResult),
}

/// What the caller is asked to do for the change.
pub enum RestartAction {
    /// Set the variable to the directory given, for processes started later.
    SetOverride(String),
    /// Clear the variable, for processes started later.
    ClearOverride,
    /// Ask the daemon's application to quit.
    Quit,
    /// Kill what is left of the daemon's server processes.
    KillServers,
    /// Sleep for this many milliseconds.
    Sleep(u64),
    /// Search for the daemon's processes and report their ids.
    ProbePids,
    /// Launch the daemon's application.
    Relaunch,
}

/// What the caller is asked to do for the change, as the contracts speak of it.
pub enum RestartActionView {
    SetOverride(Seq<char>),
    ClearOverride,
    Quit,
    KillServers,
    Sleep(u64),
    ProbePids,
    Relaunch,
}

impl View for RestartAction {
    type V = RestartActionView;

    open spec fn view(&self) -> RestartActionView {
        match self {
            RestartAction::SetOverride(d) => RestartActionView::SetOverride(d@),
            RestartAction::ClearOverride => RestartActionView::ClearOverride,
            RestartAction::Quit => RestartActionView::Quit,
            RestartAction::KillServers => RestartActionView::KillServers,
            RestartAction::Sleep(ms) => RestartActionView::Sleep(*ms),
            RestartAction::ProbePids => RestartActionView::ProbePids,
            RestartAction::Relaunch => RestartActionView::Relaunch,
        }
    }
}

/// What a vector of actions asks for, in order.
pub open spec fn restart_asked(v: Seq<RestartAction>) -> Seq<RestartActionView> {
    v.map_values(|a: RestartAction| a@)
}

/// What a failed command said: its standard error, trimmed; and where that
/// is empty, its standard output, trimmed.
pub open spec fn detail(stdout: Seq<char>, stderr: Seq<char>) -> Seq<char> {
    if is_blank(stderr) {
        trimmed(stdout)
    } else {
        trimmed(stderr)
    }
}

/// Why a command failed, if it did. `unavailable` opens the reason where the
/// command could not be run, `failed` where it ran and failed.
pub open spec fn command_failure(
    r: CommandResult,
    unavailable: Seq<char>,
    failed: Seq<char>,
) -> Option<Seq<char>> {
    match r {
        CommandResult::Unavailable(e) => Some(unavailable + e@),
        CommandResult::Finished { success, stdout, stderr } => if success {
            None
        } else {
            Some(failed + detail(stdout@, stderr@))
        },
    }
}

fn failure_of(r: &CommandResult, unavailable: &str, failed: &str) -> (m: Option<String>)
    ensures
        text_of(m) == command_failure(*r, unavailable@, failed@),
{
    match r {
        CommandResult::Unavailable(e) => Some(chain(unavailable, e.as_str())),
        CommandResult::Finished { success, stdout, stderr } => {
            if *success {
                None
            } else {
                let e = chars_of(stderr.as_str());
                let (from, to) = trim_bounds(&e);
                let d = if from < to {
                    slice_string(&e, from, to)
                } else {
                    trim(stdout.as_str())
                };
                Some(chain(failed, d.as_str()))
            }
        },
    }
}

/// The actions that start a change of the daemon's directory to `dir`, or to
/// the default where `dir` is none.
pub open spec fn restart_begins(dir: Option<Seq<char>>) -> Seq<RestartActionView> {
    match dir {
        Some(d) => seq![RestartActionView::SetOverride(d)],
        None => seq![RestartActionView::ClearOverride],
    }
}

/// Starts a change of the daemon's directory: to `dir`, or to the default
/// where `dir` is none. The change goes on by `restart_step`.
pub fn apply_ollama_models_dir_and_restart(dir: Option<&str>) -> (r: (
    RestartState,
    Vec<RestartAction>,
))
    ensures
        r.0@ == RestartStateView::Writing,
        restart_asked(r.1@) == restart_begins(
            opt_text(dir),
        ),
{
    let actions = match dir {
        Some(d) => vec![RestartAction::SetOverride(d.to_owned())],
        None => vec![RestartAction::ClearOverride],
    };
    proof {
        match dir {
            Some(d) => {
                assert(restart_asked(actions@) =~= seq![RestartActionView::SetOverride(d@)]);
            },
            None => {
                assert(restart_asked(actions@) =~= seq![RestartActionView::ClearOverride]);
            },
        }
    }
    (RestartState::Writing, actions)
}

/// The actions of one more look at the daemon's processes.
pub open spec fn look_again(sleep_ms: u64) -> Seq<RestartActionView> {
    seq![RestartActionView::Sleep(sleep_ms), RestartActionView::ProbePids]
}

/// The step that a change in state `s` takes on the input `i`. The variable
/// written, the daemon is told to quit and what is left of it killed; its
/// processes are looked for until none is left or the budget is used up, and
/// the daemon is launched again either way; then its process is looked for
/// until it shows or the budget is used up, and the change is done either
/// way. An input that the state does not expect changes nothing.
pub open spec fn restart_next(s: RestartStateView, i: RestartInput) -> (
    RestartStateView,
    Seq<RestartActionView>,
) {
    match (s, i) {
        (RestartStateView::Writing, RestartInput::Wrote(r)) => match command_failure(
            r,
            "launchctl failed: "@,
            "launchctl error: "@,
        ) {
            Some(m) => (RestartStateView::Failed(m), Seq::empty()),
            None => (
                RestartStateView::Stopping(0),
                seq![RestartActionView::Quit, RestartActionView::KillServers] + look_again(
                    STOP_POLL_MS,
                ),
            ),
        },
        (RestartStateView::Stopping(waited), RestartInput::Pids(pids)) => if pids@.len() == 0
            || waited + STOP_POLL_MS >= STOP_BUDGET_MS {
            (RestartStateView::Relaunching, seq![RestartActionView::Relaunch])
        } else {
            (
                RestartStateView::Stopping((waited + STOP_POLL_MS) as u64),
                look_again(STOP_POLL_MS),
            )
        },
        (RestartStateView::Relaunching, RestartInput::Relaunched(r)) => match command_failure(
            r,
            "Failed to restart Ollama: "@,
            "Failed to open Ollama app: "@,
        ) {
            Some(m) => (RestartStateView::Failed(m), Seq::empty()),
            None => (RestartStateView::Starting(0), look_again(START_POLL_MS)),
        },
        (RestartStateView::Starting(waited), RestartInput::Pids(pids)) => if pids@.len() > 0
            || waited + START_POLL_MS >= START_BUDGET_MS {
            (RestartStateView::Restarted, Seq::empty())
        } else {
            (
                RestartStateView::Starting((waited + START_POLL_MS) as u64),
                look_again(START_POLL_MS),
            )
        },
        _ => (s, Seq::empty()),
    }
}

fn no_actions() -> (r: Vec<RestartAction>)
    ensures
        restart_asked(r@) == Seq::<RestartActionView>::empty(),
{
    let r: Vec<RestartAction> = Vec::new();
    assert(restart_asked(r@) =~= Seq::<RestartActionView>::empty());
    r
}

fn another_look(sleep_ms: u64) -> (r: Vec<RestartAction>)
    ensures
        restart_asked(r@) == look_again(sleep_ms),
{
    let r = vec![RestartAction::Sleep(sleep_ms), RestartAction::ProbePids];
    assert(restart_asked(r@) =~= look_again(sleep_ms));
    r
}

/// Takes one step of a change of the daemon's directory.
pub fn restart_step(state: RestartState, input: RestartInput) -> (r: (
    RestartState,
    Vec<RestartAction>,
))
    ensures
        (r.0@, restart_asked(r.1@)) == restart_next(state@, input),
{
    match state {
        RestartState::Writing => match input {
            RestartInput::Wrote(c) => match failure_of(
                &c,
                "launchctl failed: ",
                "launchctl error: ",
            ) {
                Some(m) => (RestartState::Failed(m), no_actions()),
                None => {
                    let actions = vec![
                        RestartAction::Quit,
                        RestartAction::KillServers,
                        RestartAction::Sleep(STOP_POLL_MS),
                        RestartAction::ProbePids,
                    ];
                    assert(restart_asked(actions@) =~= seq![
                        RestartActionView::Quit,
                        RestartActionView::KillServers,
                    ] + look_again(STOP_POLL_MS));
                    (RestartState::Stopping(0), actions)
                },
            },
            _ => (RestartState::Writing, no_actions()),
        },
        RestartState::Stopping(waited) => match input {
            RestartInput::Pids(pids) => {
                if pids.len() == 0 || waited >= STOP_BUDGET_MS - STOP_POLL_MS {
                    let actions = vec![RestartAction::Relaunch];
                    assert(restart_asked(actions@) =~= seq![RestartActionView::Relaunch]);
                    (RestartState::Relaunching, actions)
                } else {
                    (RestartState::Stopping(waited + STOP_POLL_MS), another_look(STOP_POLL_MS))
                }
            },
            _ => (RestartState::Stopping(waited), no_actions()),
        },
        RestartState::Relaunching => match input {
            RestartInput::Relaunched(c) => match failure_of(
                &c,
                "Failed to restart Ollama: ",
                "Failed to open Ollama app: ",
            ) {
                Some(m) => (RestartState::Failed(m), no_actions()),
                None => (RestartState::Starting(0), another_look(START_POLL_MS)),
            },
            _ => (RestartState::Relaunching, no_actions()),
        },
        RestartState::Starting(waited) => match input {
            RestartInput::Pids(pids) => {
                if pids.len() > 0 || waited >= START_BUDGET_MS - START_POLL_MS {
                    (RestartState::Restarted, no_actions())
                } else {
                    (RestartState::Starting(waited + START_POLL_MS), another_look(START_POLL_MS))
                }
            },
            _ => (RestartState::Starting(waited), no_actions()),
        },
        RestartState::Restarted => (RestartState::Restarted, no_actions()),
        RestartState::Failed(m) => (RestartState::Failed(m), no_actions()),
    }
}

/// Whether the change is over.
pub open spec fn restart_over(s: RestartStateView) -> bool {
    s is Restarted || s is Failed
}

/// Whether the state `s` waits for the input `i`.
pub open spec fn restart_expects(s: RestartStateView, i: RestartInput) -> bool {
    match (s, i) {
        (RestartStateView::Writing, RestartInput::Wrote(_)) => true,
        (RestartStateView::Stopping(_), RestartInput::Pids(_)) => true,
        (RestartStateView::Relaunching, RestartInput::Relaunched(_)) => true,
        (RestartStateView::Starting(_), RestartInput::Pids(_)) => true,
        _ => false,
    }
}

/// How many looks are left of a wait that has slept `waited` of `budget`
/// milliseconds and sleeps `poll` between two looks.
pub open spec fn looks_left(waited: u64, budget: u64, poll: u64) -> nat {
    if waited >= budget {
        0
    } else {
        ((budget - waited + poll - 1) / (poll as int)) as nat
    }
}

/// An upper bound of the inputs that a change in state `s` still waits for.
pub open spec fn restart_rank(s: RestartStateView) -> nat {
    match s {
        RestartStateView::Writing => 4 + looks_left(0, STOP_BUDGET_MS, STOP_POLL_MS) + looks_left(
            0,
            START_BUDGET_MS,
            START_POLL_MS,
        ),
        RestartStateView::Stopping(w) => 3 + looks_left(w, STOP_BUDGET_MS, STOP_POLL_MS)
            + looks_left(0, START_BUDGET_MS, START_POLL_MS),
        RestartStateView::Relaunching => 2 + looks_left(0, START_BUDGET_MS, START_POLL_MS),
        RestartStateView::Starting(w) => 1 + looks_left(w, START_BUDGET_MS, START_POLL_MS),
        _ => 0,
    }
}

/// The change comes to an end: every input that it waits for brings it
/// nearer to it, whatever the commands and the looks report. From the start
/// it takes no more than 30 such inputs, so no more than 14 looks for the
/// daemon to stop and 12 for it to come back.
pub proof fn law_restart_ends(s: RestartStateView, i: RestartInput)
    requires
        restart_expects(s, i),
    ensures
        restart_rank(restart_next(s, i).0) < restart_rank(s),
        restart_rank(RestartStateView::Writing) == 30,
        restart_over(s) <==> restart_rank(s) == 0,
{
    match s {
        RestartStateView::Stopping(w) => {
            if w + STOP_POLL_MS < STOP_BUDGET_MS {
                assert(looks_left((w + STOP_POLL_MS) as u64, STOP_BUDGET_MS, STOP_POLL_MS)
                    < looks_left(w, STOP_BUDGET_MS, STOP_POLL_MS)) by (nonlinear_arith)
                    requires
                        w + 300 < 4000,
                        STOP_BUDGET_MS == 4000,
                        STOP_POLL_MS == 300,
                        looks_left((w + 300) as u64, 4000, 300) == ((4000 - (w + 300) + 299)
                            / 300) as nat,
                        looks_left(w, 4000, 300) == ((4000 - w + 299) / 300) as nat,
                ;
            }
        },
        RestartStateView::Starting(w) => {
            if w + START_POLL_MS < START_BUDGET_MS {
                assert(looks_left((w + START_POLL_MS) as u64, START_BUDGET_MS, START_POLL_MS)
                    < looks_left(w, START_BUDGET_MS, START_POLL_MS)) by (nonlinear_arith)
                    requires
                        w + 500 < 6000,
                        START_BUDGET_MS == 6000,
                        START_POLL_MS == 500,
                        looks_left((w + 500) as u64, 6000, 500) == ((6000 - (w + 500) + 499)
                            / 500) as nat,
                        looks_left(w, 6000, 500) == ((6000 - w + 499) / 500) as nat,
                ;
            }
        },
        _ => {},
    }
}

/// A change that is over stays as it is and asks for nothing more.
pub proof fn law_restart_over_is_final(s: RestartStateView, i: RestartInput)
    requires
        restart_over(s),
    ensures
        restart_next(s, i) == (s, Seq::<RestartActionView>::empty()),
{
}

/// The daemon is launched again whether or not its old processes were seen
/// to go, and the change is done whether or not its new process was seen:
/// only a command that fails makes the change fail.
pub proof fn law_restart_fails_on_commands_only(s: RestartStateView, i: RestartInput)
    requires
        restart_next(s, i).0 is Failed,
        !(s is Failed),
    ensures
        i is Wrote || i is Relaunched,
{
}

} // verus!
