//! The life of one job, as a state machine. The caller launches, reads,
//! waits and signals; it reports what happened as inputs, and carries out
//! the actions that each step hands back.

use vstd::prelude::*;
use crate::codec::{decoded, JobEvent, JobEventView, Payload, PayloadView};
use crate::drain::{Drain, DrainView};
use crate::json::{empty_object, insert_text, json_of, with_text, Json};
use crate::text::{chain, decimal, decimal_string, texts};

verus! {

/// The kinds of work that a job can be.
#[derive(Clone, Copy, Debug)]
pub enum JobKind {
    Cleaning,
    Dataset,
    Training,
    ExportOllama,
    ExportGguf,
    Inference,
}

impl JobKind {
    /// The first part of the name of every notification of a job of this kind.
    pub open spec fn prefix(self) -> Seq<char> {
        match self {
            JobKind::Cleaning => "cleaning"@,
            JobKind::Dataset => "dataset"@,
            JobKind::Training => "training"@,
            JobKind::ExportOllama => "export"@,
            JobKind::ExportGguf => "gguf"@,
            JobKind::Inference => "inference"@,
        }
    }

    /// How messages to the user call a job of this kind.
    pub open spec fn label(self) -> Seq<char> {
        match self {
            JobKind::Cleaning => "Cleaning"@,
            JobKind::Dataset => "Generation"@,
            JobKind::Training => "Training"@,
            JobKind::ExportOllama => "Export"@,
            JobKind::ExportGguf => "Export"@,
            JobKind::Inference => "Inference"@,
        }
    }

    /// Whether a worker of this kind has to report its end by an event of its
    /// own. Of such a worker an exit without any says that it died on the way.
    pub open spec fn needs_terminal_event(self) -> bool {
        match self {
            JobKind::Cleaning => true,
            JobKind::ExportOllama => true,
            JobKind::ExportGguf => true,
            _ => false,
        }
    }

    /// The first part of the name of every notification of a job of this kind.
    pub fn channel_prefix(self) -> (r: &'static str)
        ensures
            r@ == self.prefix(),
    {
        match self {
            JobKind::Cleaning => "cleaning",
            JobKind::Dataset => "dataset",
            JobKind::Training => "training",
            JobKind::ExportOllama => "export",
            JobKind::ExportGguf => "gguf",
            JobKind::Inference => "inference",
        }
    }

    /// How messages to the user call a job of this kind.
    pub fn display_label(self) -> (r: &'static str)
        ensures
            r@ == self.label(),
    {
        match self {
            JobKind::Cleaning => "Cleaning",
            JobKind::Dataset => "Generation",
            JobKind::Training => "Training",
            JobKind::ExportOllama => "Export",
            JobKind::ExportGguf => "Export",
            JobKind::Inference => "Inference",
        }
    }

    /// Whether a worker of this kind has to report its end by an event.
    pub fn terminal_event_required(self) -> (r: bool)
        ensures
            r == self.needs_terminal_event(),
    {
        match self {
            JobKind::Cleaning => true,
            JobKind::ExportOllama => true,
            JobKind::ExportGguf => true,
            _ => false,
        }
    }
}

/// The exit code of a process that ended on the termination signal.
pub const TERMINATED_CODE: i32 = 143;

/// How a process ended.
#[derive(Clone, Copy, Debug)]
pub enum Exit {
    /// It returned an exit code.
    Code(i32),
    /// A signal ended it, and it left no code.
    Signal,
}

impl Exit {
    /// Whether the process returned the exit code 0.
    pub open spec fn is_success(self) -> bool {
        self == Exit::Code(0)
    }

    /// Whether the process ended as one does that was told to stop.
    pub open spec fn by_signal(self) -> bool {
        self is Signal || self == Exit::Code(TERMINATED_CODE)
    }

    /// Whether the process returned the exit code 0.
    pub fn success(self) -> (r: bool)
        ensures
            r == self.is_success(),
    {
        match self {
            Exit::Code(c) => c == 0,
            Exit::Signal => false,
        }
    }

    /// Whether the process ended as one does that was told to stop.
    pub fn signalled(self) -> (r: bool)
        ensures
            r == self.by_signal(),
    {
        match self {
            Exit::Code(c) => c == TERMINATED_CODE,
            Exit::Signal => true,
        }
    }
}

/// How a job ended.
pub enum JobOutcome {
    Succeeded,
    /// It failed, for the reason given.
    Failed(String),
    Cancelled,
    TimedOut,
}

/// How a job ended, as the contracts speak of it.
pub enum OutcomeView {
    Succeeded,
    Failed(Seq<char>),
    Cancelled,
    TimedOut,
}

impl View for JobOutcome {
    type V = OutcomeView;

    open spec fn view(&self) -> OutcomeView {
        match self {
            JobOutcome::Succeeded => OutcomeView::Succeeded,
            JobOutcome::Failed(m) => OutcomeView::Failed(m@),
            JobOutcome::Cancelled => OutcomeView::Cancelled,
            JobOutcome::TimedOut => OutcomeView::TimedOut,
        }
    }
}

/// The text that stands in where a failed worker left no word of its own.
pub open spec fn generic_failure() -> Seq<char> {
    "Process exited unexpectedly. Check that mlx-lm is installed."@
}

/// The reason given for a failure: the message of the worker's own error
/// event; without one, the last lines of its standard error; without any,
/// the generic text.
pub open spec fn failure_message(d: DrainView) -> Seq<char> {
    match d.error_message {
        Some(m) => m,
        None => if d.stderr.len() > 0 {
            d.tail()
        } else {
            generic_failure()
        },
    }
}

/// How a job of kind `kind` ended, given what its output showed and how its
/// process exited.
pub open spec fn classify(kind: JobKind, d: DrainView, exit: Exit) -> OutcomeView {
    if exit.is_success() {
        if d.saw_complete {
            OutcomeView::Succeeded
        } else if d.saw_error || kind.needs_terminal_event() {
            OutcomeView::Failed(failure_message(d))
        } else {
            OutcomeView::Succeeded
        }
    } else if d.saw_error {
        OutcomeView::Failed(failure_message(d))
    } else if exit.by_signal() {
        OutcomeView::Cancelled
    } else {
        OutcomeView::Failed(failure_message(d))
    }
}

/// The reason given for a failure.
pub fn failure_text(d: &Drain) -> (r: String)
    ensures
        r@ == failure_message(d@),
{
    match &d.error_message {
        Some(m) => m.clone(),
        None => if d.stderr.len() > 0 {
            d.stderr_tail()
        } else {
            "Process exited unexpectedly. Check that mlx-lm is installed.".to_owned()
        },
    }
}

/// Classifies the end of a job.
pub fn outcome_of(kind: JobKind, d: &Drain, exit: Exit) -> (r: JobOutcome)
    ensures
        r@ == classify(kind, d@, exit),
{
    if exit.success() {
        if d.saw_complete {
            JobOutcome::Succeeded
        } else if d.saw_error || kind.terminal_event_required() {
            JobOutcome::Failed(failure_text(d))
        } else {
            JobOutcome::Succeeded
        }
    } else if d.saw_error {
        JobOutcome::Failed(failure_text(d))
    } else if exit.signalled() {
        JobOutcome::Cancelled
    } else {
        JobOutcome::Failed(failure_text(d))
    }
}

/// A time budget in words: whole minutes where it is a number of minutes,
/// seconds otherwise.
pub open spec fn budget_text(secs: u64) -> Seq<char> {
    if secs % 60 == 0 {
        decimal((secs / 60) as nat) + " minutes"@
    } else {
        decimal(secs as nat) + " seconds"@
    }
}

/// What is said of a job that ran out of its time budget of `secs` seconds.
pub open spec fn timeout_message(kind: JobKind, secs: u64) -> Seq<char> {
    kind.label() + " timed out after "@ + budget_text(secs) + " and was cancelled."@
}

/// Says that a job ran out of its time budget of `secs` seconds.
pub fn timeout_text(kind: JobKind, secs: u64) -> (r: String)
    ensures
        r@ == timeout_message(kind, secs),
{
    let mut budget = if secs % 60 == 0 {
        decimal_string(secs / 60)
    } else {
        decimal_string(secs)
    };
    if secs % 60 == 0 {
        budget.append(" minutes");
    } else {
        budget.append(" seconds");
    }
    let mut r = chain(kind.display_label(), " timed out after ");
    r.append(budget.as_str());
    r.append(" and was cancelled.");
    r
}

/// What is said of a job that was stopped.
pub open spec fn stopped_message(kind: JobKind) -> Seq<char> {
    kind.label() + " stopped, incomplete data cleaned up"@
}

/// The field that ties every notification of a job to the request it serves.
pub struct Correlation {
    pub key: String,
    pub id: String,
}

/// One tracked run of a worker program.
pub struct Job {
    pub kind: JobKind,
    pub job_id: String,
    /// The worker program.
    pub program: String,
    pub args: Vec<String>,
    /// The files and directories that the worker reads.
    pub inputs: Vec<String>,
    /// Environment variables set for the worker, as pairs of name and value.
    pub env: Vec<(String, String)>,
    /// A command that runs the worker in place of a direct launch, with its
    /// own arguments; empty where the worker is launched directly.
    pub wrapper: Vec<String>,
    /// The time budget in seconds, if the job has one.
    pub timeout_secs: Option<u64>,
    pub correlation: Correlation,
    /// The name of the output version that the job writes to, if it writes
    /// to one.
    pub tentative: Option<String>,
}

/// One tracked run of a worker program, as the contracts speak of it.
pub struct JobView {
    pub kind: JobKind,
    pub job_id: Seq<char>,
    pub program: Seq<char>,
    pub args: Seq<Seq<char>>,
    pub inputs: Seq<Seq<char>>,
    pub env: Seq<(Seq<char>, Seq<char>)>,
    pub wrapper: Seq<Seq<char>>,
    pub timeout_secs: Option<u64>,
    pub correlation_key: Seq<char>,
    pub correlation_id: Seq<char>,
    pub tentative: Option<Seq<char>>,
}

/// The names and values that a vector of pairs holds, in order.
pub open spec fn pairs(v: Seq<(String, String)>) -> Seq<(Seq<char>, Seq<char>)> {
    v.map_values(|p: (String, String)| (p.0@, p.1@))
}

impl View for Job {
    type V = JobView;

    open spec fn view(&self) -> JobView {
        JobView {
            kind: self.kind,
            job_id: self.job_id@,
            program: self.program@,
            args: texts(self.args@),
            inputs: texts(self.inputs@),
            env: pairs(self.env@),
            wrapper: texts(self.wrapper@),
            timeout_secs: self.timeout_secs,
            correlation_key: self.correlation.key@,
            correlation_id: self.correlation.id@,
            tentative: match self.tentative {
                Some(t) => Some(t@),
                None => None,
            },
        }
    }
}

/// What the sink is told: a named channel and a JSON body.
pub struct Notification {
    pub channel: String,
    pub body: serde_json::Value,
}

/// What the sink is told, as the contracts speak of it.
pub struct NotificationView {
    pub channel: Seq<char>,
    pub body: Json,
}

impl View for Notification {
    type V = NotificationView;

    open spec fn view(&self) -> NotificationView {
        NotificationView { channel: self.channel@, body: json_of(self.body) }
    }
}

/// The channel of a notification: the kind's prefix, a colon, and a name.
pub open spec fn channel(kind: JobKind, name: Seq<char>) -> Seq<char> {
    kind.prefix() + ":"@ + name
}

/// A body of one text under `key`, tied to the job.
pub open spec fn tied_body(job: JobView, key: Seq<char>, text: Seq<char>) -> Json {
    with_text(
        with_text(Json::Object(Map::<Seq<char>, Json>::empty()), key, text),
        job.correlation_key,
        job.correlation_id,
    )
}

/// The notification that hands an event of the worker on to the sink: under
/// the event's own discriminant, and tied to the job.
pub open spec fn forwarded(job: JobView, e: JobEventView) -> NotificationView {
    NotificationView {
        channel: channel(job.kind, e.discriminant),
        body: match e.payload {
            PayloadView::Record(j) => with_text(j, job.correlation_key, job.correlation_id),
            PayloadView::Line(l) => tied_body(job, "line"@, l),
        },
    }
}

/// The notification of a failure with the reason `message`.
pub open spec fn error_notice(job: JobView, message: Seq<char>) -> NotificationView {
    NotificationView {
        channel: channel(job.kind, "error"@),
        body: tied_body(job, "message"@, message),
    }
}

/// The notification of a job that was stopped.
pub open spec fn stopped_notice(job: JobView) -> NotificationView {
    NotificationView {
        channel: channel(job.kind, "stopped"@),
        body: tied_body(job, "message"@, stopped_message(job.kind)),
    }
}

/// The notification of the output version `version`, which is ready.
pub open spec fn version_notice(job: JobView, version: Seq<char>) -> NotificationView {
    NotificationView {
        channel: channel(job.kind, "version"@),
        body: tied_body(job, "version"@, version),
    }
}

/// What is said of a job that succeeded and leaves no output version.
pub open spec fn finished_message(kind: JobKind) -> Seq<char> {
    kind.label() + " finished"@
}

/// The notification of a job that succeeded and leaves no output version.
pub open spec fn finished_notice(job: JobView) -> NotificationView {
    NotificationView {
        channel: channel(job.kind, "finished"@),
        body: tied_body(job, "message"@, finished_message(job.kind)),
    }
}

fn channel_name(kind: JobKind, name: &str) -> (r: String)
    ensures
        r@ == channel(kind, name@),
{
    let mut r = chain(kind.channel_prefix(), ":");
    r.append(name);
    r
}

fn tied(job: &Job, key: &str, text: &str) -> (r: serde_json::Value)
    ensures
        json_of(r) == tied_body(job@, key@, text@),
{
    let v = insert_text(empty_object(), key, text);
    insert_text(v, job.correlation.key.as_str(), job.correlation.id.as_str())
}

/// The notification that hands an event of the worker on to the sink.
pub fn forward(job: &Job, e: JobEvent) -> (n: Notification)
    ensures
        n@ == forwarded(job@, e@),
{
    let channel = channel_name(job.kind, e.discriminant.as_str());
    let body = match e.payload {
        Payload::Record(v) => insert_text(
            v,
            job.correlation.key.as_str(),
            job.correlation.id.as_str(),
        ),
        Payload::Line(l) => tied(job, "line", l.as_str()),
    };
    Notification { channel, body }
}

/// The notification of a failure.
pub fn error_notification(job: &Job, message: &str) -> (n: Notification)
    ensures
        n@ == error_notice(job@, message@),
{
    Notification { channel: channel_name(job.kind, "error"), body: tied(job, "message", message) }
}

/// The notification of a job that was stopped.
pub fn stopped_notification(job: &Job) -> (n: Notification)
    ensures
        n@ == stopped_notice(job@),
{
    let message = chain(job.kind.display_label(), " stopped, incomplete data cleaned up");
    Notification {
        channel: channel_name(job.kind, "stopped"),
        body: tied(job, "message", message.as_str()),
    }
}

/// The notification of an output version that is ready.
pub fn version_notification(job: &Job, version: &str) -> (n: Notification)
    ensures
        n@ == version_notice(job@, version@),
{
    Notification {
        channel: channel_name(job.kind, "version"),
        body: tied(job, "version", version),
    }
}

/// The notification of a job that succeeded and leaves no output version.
pub fn finished_notification(job: &Job) -> (n: Notification)
    ensures
        n@ == finished_notice(job@),
{
    let message = chain(job.kind.display_label(), " finished");
    Notification {
        channel: channel_name(job.kind, "finished"),
        body: tied(job, "message", message.as_str()),
    }
}

/// What the caller is asked to do.
pub enum Action {
    /// Launch the worker.
    Spawn,
    /// Enter the process id of the worker in the registry.
    Register(u32),
    /// Hand an event of the worker on to the sink.
    Forward(Notification),
    /// Kill the worker.
    Kill,
    /// Take the job out of the registry.
    Unregister,
    /// Rename the output version to the name given, and report whether that
    /// worked.
    Promote(String),
    /// Delete the output version.
    Discard,
    /// Tell the sink how the job ended.
    Conclude(Notification),
}

/// What the caller is asked to do, as the contracts speak of it.
pub enum ActionView {
    Spawn,
    Register(u32),
    Forward(NotificationView),
    Kill,
    Unregister,
    Promote(Seq<char>),
    Discard,
    Conclude(NotificationView),
}

impl View for Action {
    type V = ActionView;

    open spec fn view(&self) -> ActionView {
        match self {
            Action::Spawn => ActionView::Spawn,
            Action::Register(p) => ActionView::Register(*p),
            Action::Forward(n) => ActionView::Forward(n@),
            Action::Kill => ActionView::Kill,
            Action::Unregister => ActionView::Unregister,
            Action::Promote(s) => ActionView::Promote(s@),
            Action::Discard => ActionView::Discard,
            Action::Conclude(n) => ActionView::Conclude(n@),
        }
    }
}

/// What a vector of actions asks for, in order.
pub open spec fn asked(v: Seq<Action>) -> Seq<ActionView> {
    v.map_values(|a: Action| a@)
}

/// What happened to the job.
pub enum JobInput {
    /// The job is to start.
    Start,
    /// The worker could not be launched, for the reason given.
    SpawnFailed(String),
    /// The worker runs, under the process id given if one could be had.
    Spawned(Option<u32>),
    /// A line was read from standard output.
    Stdout(String),
    /// A line was read from standard error.
    Stderr(String),
    /// The worker exited, at the time that the stamp names.
    Exited(Exit, String),
    /// Waiting for the worker failed, for the reason given.
    WaitFailed(String),
    /// The time budget of the job is used up.
    Deadline,
    /// The output version was renamed, or could not be.
    Renamed(bool),
}

/// What happened to the job, as the contracts speak of it.
pub enum JobInputView {
    Start,
    SpawnFailed(Seq<char>),
    Spawned(Option<u32>),
    Stdout(Seq<char>),
    Stderr(Seq<char>),
    Exited(Exit, Seq<char>),
    WaitFailed(Seq<char>),
    Deadline,
    Renamed(bool),
}

impl View for JobInput {
    type V = JobInputView;

    open spec fn view(&self) -> JobInputView {
        match self {
            JobInput::Start => JobInputView::Start,
            JobInput::SpawnFailed(m) => JobInputView::SpawnFailed(m@),
            JobInput::Spawned(p) => JobInputView::Spawned(*p),
            JobInput::Stdout(l) => JobInputView::Stdout(l@),
            JobInput::Stderr(l) => JobInputView::Stderr(l@),
            JobInput::Exited(e, s) => JobInputView::Exited(*e, s@),
            JobInput::WaitFailed(m) => JobInputView::WaitFailed(m@),
            JobInput::Deadline => JobInputView::Deadline,
            JobInput::Renamed(ok) => JobInputView::Renamed(*ok),
        }
    }
}

/// Where a job stands.
pub enum JobState {
    Pending,
    Spawning,
    /// The worker runs; the state holds what its output showed so far.
    Running(Drain),
    /// The worker succeeded, and its output version is being renamed to the
    /// name held here.
    Promoting(String),
    /// The job is over.
    Done(JobOutcome),
}

/// Where a job stands, as the contracts speak of it.
pub enum JobStateView {
    Pending,
    Spawning,
    Running(DrainView),
    Promoting(Seq<char>),
    Done(OutcomeView),
}

impl View for JobState {
    type V = JobStateView;

    open spec fn view(&self) -> JobStateView {
        match self {
            JobState::Pending => JobStateView::Pending,
            JobState::Spawning => JobStateView::Spawning,
            JobState::Running(d) => JobStateView::Running(d@),
            JobState::Promoting(s) => JobStateView::Promoting(s@),
            JobState::Done(o) => JobStateView::Done(o@),
        }
    }
}

/// What is asked for when a job ends otherwise than by the success of a job
/// with an output version: the worker is killed where it has to be, the job
/// leaves the registry where it was running, its output version is deleted
/// where it has one, and the sink is told.
pub open spec fn closing(job: JobView, kill: bool, running: bool, notice: NotificationView) -> Seq<
    ActionView,
> {
    (if kill {
        seq![ActionView::Kill]
    } else {
        Seq::empty()
    }) + (if running {
        seq![ActionView::Unregister]
    } else {
        Seq::empty()
    }) + (if job.tentative is Some {
        seq![ActionView::Discard]
    } else {
        Seq::empty()
    }) + seq![ActionView::Conclude(notice)]
}

/// The name under which the output version of a job is known once the
/// attempt to rename it to `stamp` is over.
pub open spec fn final_version(job: JobView, stamp: Seq<char>, renamed: bool) -> Seq<char> {
    match job.tentative {
        Some(t) => if renamed {
            stamp
        } else {
            t
        },
        None => stamp,
    }
}

/// The step that a job in state `s` takes on the input `i`: the state that
/// follows and what the caller is asked to do. An input that the state does
/// not expect changes nothing and asks for nothing.
pub open spec fn next(job: JobView, s: JobStateView, i: JobInputView) -> (
    JobStateView,
    Seq<ActionView>,
) {
    match (s, i) {
        (JobStateView::Pending, JobInputView::Start) => (
            JobStateView::Spawning,
            seq![ActionView::Spawn],
        ),
        (JobStateView::Spawning, JobInputView::SpawnFailed(m)) => (
            JobStateView::Done(OutcomeView::Failed(m)),
            closing(job, false, false, error_notice(job, m)),
        ),
        (JobStateView::Spawning, JobInputView::Spawned(pid)) => (
            JobStateView::Running(DrainView::fresh()),
            match pid {
                Some(p) => seq![ActionView::Register(p)],
                None => Seq::empty(),
            },
        ),
        (JobStateView::Running(d), JobInputView::Stdout(line)) => (
            JobStateView::Running(d.after_event(decoded(line))),
            seq![ActionView::Forward(forwarded(job, decoded(line)))],
        ),
        (JobStateView::Running(d), JobInputView::Stderr(line)) => (
            JobStateView::Running(d.after_stderr(line)),
            Seq::empty(),
        ),
        (JobStateView::Running(d), JobInputView::Exited(exit, stamp)) => match classify(
            job.kind,
            d,
            exit,
        ) {
            OutcomeView::Succeeded => if job.tentative is Some {
                (
                    JobStateView::Promoting(stamp),
                    seq![ActionView::Unregister, ActionView::Promote(stamp)],
                )
            } else {
                (
                    JobStateView::Done(OutcomeView::Succeeded),
                    closing(job, false, true, finished_notice(job)),
                )
            },
            OutcomeView::Failed(m) => (
                JobStateView::Done(OutcomeView::Failed(m)),
                closing(job, false, true, error_notice(job, m)),
            ),
            _ => (
                JobStateView::Done(OutcomeView::Cancelled),
                closing(job, false, true, stopped_notice(job)),
            ),
        },
        (JobStateView::Running(d), JobInputView::WaitFailed(m)) => (
            JobStateView::Done(OutcomeView::Failed(m)),
            closing(job, false, true, error_notice(job, m)),
        ),
        (JobStateView::Running(d), JobInputView::Deadline) => match job.timeout_secs {
            Some(secs) => (
                JobStateView::Done(OutcomeView::TimedOut),
                closing(job, true, true, error_notice(job, timeout_message(job.kind, secs))),
            ),
            None => (s, Seq::empty()),
        },
        (JobStateView::Promoting(stamp), JobInputView::Renamed(ok)) => (
            JobStateView::Done(OutcomeView::Succeeded),
            seq![ActionView::Conclude(version_notice(job, final_version(job, stamp, ok)))],
        ),
        _ => (s, Seq::empty()),
    }
}

fn close(job: &Job, kill: bool, running: bool, notice: Notification) -> (r: Vec<Action>)
    ensures
        asked(r@) == closing(job@, kill, running, notice@),
{
    let mut r: Vec<Action> = Vec::new();
    if kill {
        r.push(Action::Kill);
    }
    if running {
        r.push(Action::Unregister);
    }
    if job.tentative.is_some() {
        r.push(Action::Discard);
    }
    r.push(Action::Conclude(notice));
    assert(asked(r@) =~= closing(job@, kill, running, notice@));
    r
}

fn fail(job: &Job, message: String, running: bool) -> (r: (JobState, Vec<Action>))
    ensures
        r.0@ == JobStateView::Done(OutcomeView::Failed(message@)),
        asked(r.1@) == closing(job@, false, running, error_notice(job@, message@)),
{
    let notice = error_notification(job, message.as_str());
    let actions = close(job, false, running, notice);
    (JobState::Done(JobOutcome::Failed(message)), actions)
}

fn unchanged(state: JobState) -> (r: (JobState, Vec<Action>))
    ensures
        r.0 == state,
        asked(r.1@) == Seq::<ActionView>::empty(),
{
    let actions: Vec<Action> = Vec::new();
    assert(asked(actions@) =~= Seq::<ActionView>::empty());
    (state, actions)
}

/// Takes one step: from the state of the job and what happened to it, to the
/// state that follows and what is to be done.
pub fn step(job: &Job, state: JobState, input: JobInput) -> (r: (JobState, Vec<Action>))
    ensures
        (r.0@, asked(r.1@)) == next(job@, state@, input@),
{
    match state {
        JobState::Pending => match input {
            JobInput::Start => {
                let actions = vec![Action::Spawn];
                assert(asked(actions@) =~= seq![ActionView::Spawn]);
                (JobState::Spawning, actions)
            },
            _ => unchanged(JobState::Pending),
        },
        JobState::Spawning => match input {
            JobInput::SpawnFailed(m) => fail(job, m, false),
            JobInput::Spawned(pid) => {
                let actions = match pid {
                    Some(p) => vec![Action::Register(p)],
                    None => Vec::new(),
                };
                proof {
                    match pid {
                        Some(p) => {
                            assert(asked(actions@) =~= seq![ActionView::Register(p)]);
                        },
                        None => {
                            assert(asked(actions@) =~= Seq::<ActionView>::empty());
                        },
                    }
                }
                (JobState::Running(Drain::new()), actions)
            },
            _ => unchanged(JobState::Spawning),
        },
        JobState::Running(d) => match input {
            JobInput::Stdout(line) => {
                let mut d = d;
                let e = d.stdout_line(line.as_str());
                let n = forward(job, e);
                let actions = vec![Action::Forward(n)];
                assert(asked(actions@) =~= seq![
                    ActionView::Forward(forwarded(job@, decoded(line@))),
                ]);
                (JobState::Running(d), actions)
            },
            JobInput::Stderr(line) => {
                let mut d = d;
                d.stderr_line(line.as_str());
                let actions: Vec<Action> = Vec::new();
                assert(asked(actions@) =~= Seq::<ActionView>::empty());
                (JobState::Running(d), actions)
            },
            JobInput::Exited(exit, stamp) => match outcome_of(job.kind, &d, exit) {
                JobOutcome::Succeeded => {
                    if job.tentative.is_some() {
                        let actions = vec![Action::Unregister, Action::Promote(stamp.clone())];
                        assert(asked(actions@) =~= seq![
                            ActionView::Unregister,
                            ActionView::Promote(stamp@),
                        ]);
                        (JobState::Promoting(stamp), actions)
                    } else {
                        let actions = close(job, false, true, finished_notification(job));
                        (JobState::Done(JobOutcome::Succeeded), actions)
                    }
                },
                JobOutcome::Failed(m) => fail(job, m, true),
                _ => {
                    let actions = close(job, false, true, stopped_notification(job));
                    (JobState::Done(JobOutcome::Cancelled), actions)
                },
            },
            JobInput::WaitFailed(m) => fail(job, m, true),
            JobInput::Deadline => match job.timeout_secs {
                Some(secs) => {
                    let message = timeout_text(job.kind, secs);
                    let actions = close(
                        job,
                        true,
                        true,
                        error_notification(job, message.as_str()),
                    );
                    (JobState::Done(JobOutcome::TimedOut), actions)
                },
                None => unchanged(JobState::Running(d)),
            },
            _ => unchanged(JobState::Running(d)),
        },
        JobState::Promoting(stamp) => match input {
            JobInput::Renamed(ok) => {
                let n = match &job.tentative {
                    Some(t) => if ok {
                        version_notification(job, stamp.as_str())
                    } else {
                        version_notification(job, t.as_str())
                    },
                    None => version_notification(job, stamp.as_str()),
                };
                let actions = vec![Action::Conclude(n)];
                assert(asked(actions@) =~= seq![
                    ActionView::Conclude(
                        version_notice(job@, final_version(job@, stamp@, ok)),
                    ),
                ]);
                (JobState::Done(JobOutcome::Succeeded), actions)
            },
            _ => unchanged(JobState::Promoting(stamp)),
        },
        JobState::Done(o) => unchanged(JobState::Done(o)),
    }
}

/// The run of a job from state `s` over `inputs`, one step for each: the
/// state it ends in and everything it asked for, in order.
pub open spec fn run(job: JobView, s: JobStateView, inputs: Seq<JobInputView>) -> (
    JobStateView,
    Seq<ActionView>,
)
    decreases inputs.len(),
{
    if inputs.len() == 0 {
        (s, Seq::empty())
    } else {
        let before = run(job, s, inputs.drop_last());
        let last = next(job, before.0, inputs.last());
        (last.0, before.1 + last.1)
    }
}

/// How many times `actions` tell the sink how the job ended.
pub open spec fn conclusions(actions: Seq<ActionView>) -> nat
    decreases actions.len(),
{
    if actions.len() == 0 {
        0
    } else if actions.last() is Conclude {
        conclusions(actions.drop_last()) + 1
    } else {
        conclusions(actions.drop_last())
    }
}

/// The notifications that `actions` hand on from the worker, in order.
pub open spec fn forwards(actions: Seq<ActionView>) -> Seq<NotificationView>
    decreases actions.len(),
{
    if actions.len() == 0 {
        Seq::empty()
    } else {
        match actions.last() {
            ActionView::Forward(n) => forwards(actions.drop_last()).push(n),
            _ => forwards(actions.drop_last()),
        }
    }
}

/// The events of the lines of `inputs` that were read from standard output,
/// as they are handed on, in order.
pub open spec fn stdout_events(job: JobView, inputs: Seq<JobInputView>) -> Seq<NotificationView>
    decreases inputs.len(),
{
    if inputs.len() == 0 {
        Seq::empty()
    } else {
        match inputs.last() {
            JobInputView::Stdout(text) => stdout_events(job, inputs.drop_last()).push(
                forwarded(job, decoded(text)),
            ),
            _ => stdout_events(job, inputs.drop_last()),
        }
    }
}

/// Whether every input is a line of output, of either stream.
pub open spec fn only_output(inputs: Seq<JobInputView>) -> bool {
    forall|k: int|
        0 <= k < inputs.len() ==> (#[trigger] inputs[k] is Stdout || inputs[k] is Stderr)
}

proof fn lemma_conclusions_add(a: Seq<ActionView>, b: Seq<ActionView>)
    ensures
        conclusions(a + b) == conclusions(a) + conclusions(b),
    decreases b.len(),
{
    if b.len() == 0 {
        assert(a + b == a);
    } else {
        assert((a + b).drop_last() == a + b.drop_last());
        lemma_conclusions_add(a, b.drop_last());
    }
}

proof fn lemma_forwards_add(a: Seq<ActionView>, b: Seq<ActionView>)
    ensures
        forwards(a + b) == forwards(a) + forwards(b),
    decreases b.len(),
{
    if b.len() == 0 {
        assert(a + b == a);
        assert(forwards(a) + forwards(b) == forwards(a));
    } else {
        assert((a + b).drop_last() == a + b.drop_last());
        lemma_forwards_add(a, b.drop_last());
        assert(forwards(a) + forwards(b.drop_last()).push(b.last()->Forward_0) == (forwards(a)
            + forwards(b.drop_last())).push(b.last()->Forward_0));
    }
}

proof fn lemma_closing_concludes_once(
    job: JobView,
    kill: bool,
    running: bool,
    notice: NotificationView,
)
    ensures
        conclusions(closing(job, kill, running, notice)) == 1,
{
    let a = closing(job, kill, running, notice);
    reveal_with_fuel(conclusions, 5);
    assert(a.last() == ActionView::Conclude(notice));
    let b = a.drop_last();
    assert(forall|k: int| 0 <= k < b.len() ==> !(#[trigger] b[k] is Conclude));
    if b.len() > 0 {
        let c = b.drop_last();
        assert(b.last() == b[b.len() - 1]);
        if c.len() > 0 {
            let e = c.drop_last();
            assert(c.last() == b[c.len() - 1]);
            if e.len() > 0 {
                assert(e.last() == b[e.len() - 1]);
                assert(e.drop_last().len() == 0);
            }
        }
    }
}

proof fn lemma_step_conclusions(job: JobView, s: JobStateView, i: JobInputView)
    ensures
        conclusions(next(job, s, i).1) == (if next(job, s, i).0 is Done && !(s is Done) {
            1nat
        } else {
            0nat
        }),
        s is Done ==> next(job, s, i).0 == s,
{
    let a = next(job, s, i).1;
    reveal_with_fuel(conclusions, 3);
    if next(job, s, i).0 is Done && !(s is Done) {
        if s is Promoting {
            assert(a.drop_last().len() == 0);
        } else {
            assert forall|kill: bool, running: bool, notice: NotificationView|
                conclusions(#[trigger] closing(job, kill, running, notice)) == 1 by {
                lemma_closing_concludes_once(job, kill, running, notice);
            }
        }
    } else {
        if a.len() == 0 {
        } else if a.len() == 1 {
            assert(a.drop_last().len() == 0);
        } else {
            assert(a.len() == 2);
            assert(a.drop_last().len() == 1);
            assert(a.drop_last().drop_last().len() == 0);
        }
    }
}

/// A job that is over stays as it is, whatever happens, and asks for nothing
/// more.
pub proof fn law_done_is_final(job: JobView, outcome: OutcomeView, i: JobInputView)
    ensures
        next(job, JobStateView::Done(outcome), i) == (
            JobStateView::Done(outcome),
            Seq::<ActionView>::empty(),
        ),
{
}

/// Over any inputs, a job tells the sink exactly once how it ended: once it
/// is over it has done so, and before that it has not.
pub proof fn law_one_conclusion(job: JobView, inputs: Seq<JobInputView>)
    ensures
        conclusions(run(job, JobStateView::Pending, inputs).1) == (if run(
            job,
            JobStateView::Pending,
            inputs,
        ).0 is Done {
            1nat
        } else {
            0nat
        }),
    decreases inputs.len(),
{
    if inputs.len() > 0 {
        let before = run(job, JobStateView::Pending, inputs.drop_last());
        let last = next(job, before.0, inputs.last());
        law_one_conclusion(job, inputs.drop_last());
        lemma_step_conclusions(job, before.0, inputs.last());
        lemma_conclusions_add(before.1, last.1);
    }
}

/// A worker that exits with code 0 after a `complete` event has succeeded.
pub proof fn law_complete_succeeds(kind: JobKind, d: DrainView)
    requires
        d.saw_complete,
    ensures
        classify(kind, d, Exit::Code(0)) == OutcomeView::Succeeded,
{
}

/// A worker that reported an error with a message and then exits with
/// something other than code 0 has failed with that message, whatever its
/// standard error holds.
pub proof fn law_error_message_wins(kind: JobKind, d: DrainView, exit: Exit, message: Seq<char>)
    requires
        !exit.is_success(),
        d.saw_error,
        d.error_message == Some(message),
    ensures
        classify(kind, d, exit) == OutcomeView::Failed(message),
        forall|lines: Seq<Seq<char>>|
            classify(kind, DrainView { stderr: lines, ..d }, exit) == OutcomeView::Failed(message),
{
}

/// What the drain has seen of terminal events it does not forget: a
/// `complete` event stays seen, and the first error message stays the one.
pub proof fn law_drain_keeps(d: DrainView, e: JobEventView)
    ensures
        d.saw_complete ==> d.after_event(e).saw_complete,
        d.saw_error ==> d.after_event(e).saw_error,
        d.error_message is Some ==> d.after_event(e).error_message == d.error_message,
        e.discriminant == crate::drain::complete_discriminant() ==> d.after_event(e).saw_complete,
        e.discriminant == crate::drain::error_discriminant() && e.discriminant
            != crate::drain::complete_discriminant() ==> d.after_event(e).saw_error,
        d.after_event(e).stderr == d.stderr,
{
}

/// A worker of a kind that has to report its end, and exits with code 0 having
/// reported neither success nor failure, has failed; with nothing on standard
/// error the reason given is the generic text.
pub proof fn law_silent_exit_fails(kind: JobKind, d: DrainView)
    requires
        kind.needs_terminal_event(),
        !d.saw_complete,
    ensures
        classify(kind, d, Exit::Code(0)) == OutcomeView::Failed(failure_message(d)),
        d.error_message is None && d.stderr.len() == 0 ==> classify(kind, d, Exit::Code(0))
            == OutcomeView::Failed(generic_failure()),
{
}

/// A worker that ends as one does that was told to stop, and that reported no
/// error, counts as cancelled, not as failed.
pub proof fn law_signal_is_cancelled(kind: JobKind, d: DrainView, exit: Exit)
    requires
        exit.by_signal(),
        !d.saw_error,
    ensures
        classify(kind, d, exit) == OutcomeView::Cancelled,
{
}

/// While a worker only writes output, the job keeps running.
pub proof fn law_output_keeps_running(job: JobView, d: DrainView, inputs: Seq<JobInputView>)
    requires
        only_output(inputs),
    ensures
        run(job, JobStateView::Running(d), inputs).0 is Running,
    decreases inputs.len(),
{
    if inputs.len() > 0 {
        assert(inputs.last() == inputs[inputs.len() - 1]);
        assert forall|k: int| 0 <= k < inputs.drop_last().len() implies (
        #[trigger] inputs.drop_last()[k] is Stdout || inputs.drop_last()[k] is Stderr) by {
            assert(inputs.drop_last()[k] == inputs[k]);
        }
        law_output_keeps_running(job, d, inputs.drop_last());
    }
}

/// A job with a time budget whose worker does not exit, whatever it writes,
/// is timed out when the deadline comes: the worker is killed, the output
/// version deleted, and the sink told of the budget that was used up.
pub proof fn law_deadline_times_out(
    job: JobView,
    d: DrainView,
    inputs: Seq<JobInputView>,
    secs: u64,
)
    requires
        only_output(inputs),
        job.timeout_secs == Some(secs),
    ensures
        run(job, JobStateView::Running(d), inputs.push(JobInputView::Deadline)).0
            == JobStateView::Done(OutcomeView::TimedOut),
        run(job, JobStateView::Running(d), inputs.push(JobInputView::Deadline)).1 == run(
            job,
            JobStateView::Running(d),
            inputs,
        ).1 + closing(job, true, true, error_notice(job, timeout_message(job.kind, secs))),
        closing(job, true, true, error_notice(job, timeout_message(job.kind, secs)))[0]
            == ActionView::Kill,
{
    law_output_keeps_running(job, d, inputs);
    assert(inputs.push(JobInputView::Deadline).drop_last() == inputs);
}

/// The events of standard output reach the sink in the order in which the
/// lines were read, one for each line, and nothing else is handed on.
pub proof fn law_stdout_in_order(job: JobView, d: DrainView, inputs: Seq<JobInputView>)
    requires
        only_output(inputs),
    ensures
        forwards(run(job, JobStateView::Running(d), inputs).1) == stdout_events(job, inputs),
    decreases inputs.len(),
{
    if inputs.len() > 0 {
        let rest = inputs.drop_last();
        assert(inputs.last() == inputs[inputs.len() - 1]);
        assert forall|k: int| 0 <= k < rest.len() implies (#[trigger] rest[k] is Stdout
            || rest[k] is Stderr) by {
            assert(rest[k] == inputs[k]);
        }
        law_stdout_in_order(job, d, rest);
        law_output_keeps_running(job, d, rest);
        let before = run(job, JobStateView::Running(d), rest);
        let last = next(job, before.0, inputs.last());
        lemma_forwards_add(before.1, last.1);
        reveal_with_fuel(forwards, 2);
        if inputs.last() is Stdout {
            assert(last.1.drop_last().len() == 0);
            assert(forwards(before.1) + seq![last.1.last()->Forward_0] == forwards(before.1).push(
                last.1.last()->Forward_0,
            ));
        } else {
            assert(forwards(before.1) + Seq::<NotificationView>::empty() == forwards(before.1));
        }
    }
}

/// A success is a success whether or not the output version could be
/// renamed: the sink is told of the new name where it could, and of the name
/// that the version kept where it could not.
pub proof fn law_promotion_never_fails(
    job: JobView,
    tentative: Seq<char>,
    stamp: Seq<char>,
    renamed: bool,
)
    requires
        job.tentative == Some(tentative),
    ensures
        next(job, JobStateView::Promoting(stamp), JobInputView::Renamed(renamed)).0
            == JobStateView::Done(OutcomeView::Succeeded),
        next(job, JobStateView::Promoting(stamp), JobInputView::Renamed(renamed)).1 == seq![
            ActionView::Conclude(
                version_notice(
                    job,
                    if renamed {
                        stamp
                    } else {
                        tentative
                    },
                ),
            ),
        ],
{
}

/// The output version of a job is deleted when the job ends otherwise than by
/// success, and only then: a step asks to delete it exactly when it ends a
/// job that has one as failed, cancelled or timed out.
pub proof fn law_discard_iff_not_succeeded(job: JobView, s: JobStateView, i: JobInputView)
    ensures
        next(job, s, i).1.contains(ActionView::Discard) <==> (job.tentative is Some && !(s is Done)
            && next(job, s, i).0 is Done && next(job, s, i).0 != JobStateView::Done(
            OutcomeView::Succeeded,
        )),
{
    let a = next(job, s, i).1;
    let t = next(job, s, i).0;
    if !(s is Done) && t is Done && !(s is Promoting) {
        assert forall|kill: bool, running: bool, notice: NotificationView|
            (#[trigger] closing(job, kill, running, notice)).contains(ActionView::Discard)
                <==> job.tentative is Some by {
            let c = closing(job, kill, running, notice);
            if job.tentative is Some {
                let at = (if kill {
                    1int
                } else {
                    0int
                }) + (if running {
                    1int
                } else {
                    0int
                });
                assert(c[at] == ActionView::Discard);
            }
        }
    }
}

proof fn lemma_run_add(job: JobView, s: JobStateView, a: Seq<JobInputView>, b: Seq<JobInputView>)
    ensures
        run(job, s, a + b).0 == run(job, run(job, s, a).0, b).0,
        run(job, s, a + b).1 == run(job, s, a).1 + run(job, run(job, s, a).0, b).1,
    decreases b.len(),
{
    if b.len() == 0 {
        assert(a + b == a);
        assert(run(job, s, a).1 + Seq::<ActionView>::empty() == run(job, s, a).1);
    } else {
        assert((a + b).drop_last() == a + b.drop_last());
        assert((a + b).last() == b.last());
        lemma_run_add(job, s, a, b.drop_last());
        let mid = run(job, s, a);
        let before = run(job, mid.0, b.drop_last());
        let last = next(job, before.0, b.last());
        assert((mid.1 + before.1) + last.1 == mid.1 + (before.1 + last.1));
    }
}

proof fn lemma_run_one(job: JobView, s: JobStateView, i: JobInputView)
    ensures
        run(job, s, seq![i]).0 == next(job, s, i).0,
        run(job, s, seq![i]).1 == next(job, s, i).1,
{
    reveal_with_fuel(run, 2);
    let one = seq![i];
    assert(one.drop_last() == Seq::<JobInputView>::empty());
    assert(one.last() == i);
    assert(Seq::<ActionView>::empty() + next(job, s, i).1 == next(job, s, i).1);
}

/// While a worker only writes output, what was seen of its terminal events
/// stays seen.
proof fn lemma_output_keeps_seen(job: JobView, d: DrainView, inputs: Seq<JobInputView>)
    requires
        only_output(inputs),
    ensures
        run(job, JobStateView::Running(d), inputs).0 is Running,
        d.saw_complete ==> run(job, JobStateView::Running(d), inputs).0->Running_0.saw_complete,
        d.saw_error ==> run(job, JobStateView::Running(d), inputs).0->Running_0.saw_error,
        d.error_message is Some ==> run(
            job,
            JobStateView::Running(d),
            inputs,
        ).0->Running_0.error_message == d.error_message,
    decreases inputs.len(),
{
    if inputs.len() > 0 {
        let rest = inputs.drop_last();
        assert(inputs.last() == inputs[inputs.len() - 1]);
        assert forall|k: int| 0 <= k < rest.len() implies (#[trigger] rest[k] is Stdout
            || rest[k] is Stderr) by {
            assert(rest[k] == inputs[k]);
        }
        lemma_output_keeps_seen(job, d, rest);
    }
}

/// A worker that writes a `complete` event and then, whatever else it
/// writes, exits with code 0 has succeeded: its output version is promoted,
/// or, where it has none, the job is done.
pub proof fn law_complete_event_succeeds(
    job: JobView,
    d: DrainView,
    line: Seq<char>,
    later: Seq<JobInputView>,
    stamp: Seq<char>,
)
    requires
        decoded(line).discriminant == crate::drain::complete_discriminant(),
        only_output(later),
    ensures
        ({
            let end = run(
                job,
                JobStateView::Running(d),
                seq![JobInputView::Stdout(line)] + later + seq![
                    JobInputView::Exited(Exit::Code(0), stamp),
                ],
            ).0;
            end == JobStateView::Promoting(stamp) || end == JobStateView::Done(
                OutcomeView::Succeeded,
            )
        }),
{
    let first = seq![JobInputView::Stdout(line)];
    let last = seq![JobInputView::Exited(Exit::Code(0), stamp)];
    let start = JobStateView::Running(d);
    lemma_run_add(job, start, first + later, last);
    lemma_run_add(job, start, first, later);
    lemma_run_one(job, start, JobInputView::Stdout(line));
    let seen = d.after_event(decoded(line));
    lemma_output_keeps_seen(job, seen, later);
    lemma_run_one(
        job,
        run(job, start, first + later).0,
        JobInputView::Exited(Exit::Code(0), stamp),
    );
}

/// A worker that writes its first `error` event with a message and then,
/// whatever else it writes, exits with something other than code 0 has
/// failed with that message, whatever its standard error holds.
pub proof fn law_error_event_fails(
    job: JobView,
    d: DrainView,
    line: Seq<char>,
    message: Seq<char>,
    later: Seq<JobInputView>,
    exit: Exit,
    stamp: Seq<char>,
)
    requires
        decoded(line).discriminant == crate::drain::error_discriminant(),
        crate::drain::message_of(decoded(line)) == Some(message),
        d.error_message is None,
        only_output(later),
        !exit.is_success(),
    ensures
        run(
            job,
            JobStateView::Running(d),
            seq![JobInputView::Stdout(line)] + later + seq![JobInputView::Exited(exit, stamp)],
        ).0 == JobStateView::Done(OutcomeView::Failed(message)),
{
    let first = seq![JobInputView::Stdout(line)];
    let last = seq![JobInputView::Exited(exit, stamp)];
    let start = JobStateView::Running(d);
    lemma_run_add(job, start, first + later, last);
    lemma_run_add(job, start, first, later);
    lemma_run_one(job, start, JobInputView::Stdout(line));
    reveal_strlit("error");
    reveal_strlit("complete");
    assert(crate::drain::error_discriminant().len() != crate::drain::complete_discriminant().len());
    let seen = d.after_event(decoded(line));
    assert(seen.saw_error && seen.error_message == Some(message));
    lemma_output_keeps_seen(job, seen, later);
    lemma_run_one(job, run(job, start, first + later).0, JobInputView::Exited(exit, stamp));
}

/// How many times `actions` ask to take the job out of the registry.
pub open spec fn unregistrations(actions: Seq<ActionView>) -> nat
    decreases actions.len(),
{
    if actions.len() == 0 {
        0
    } else if actions.last() is Unregister {
        unregistrations(actions.drop_last()) + 1
    } else {
        unregistrations(actions.drop_last())
    }
}

proof fn lemma_unregistrations_add(a: Seq<ActionView>, b: Seq<ActionView>)
    ensures
        unregistrations(a + b) == unregistrations(a) + unregistrations(b),
    decreases b.len(),
{
    if b.len() == 0 {
        assert(a + b == a);
    } else {
        assert((a + b).drop_last() == a + b.drop_last());
        lemma_unregistrations_add(a, b.drop_last());
    }
}

proof fn lemma_closing_unregisters(
    job: JobView,
    kill: bool,
    running: bool,
    notice: NotificationView,
)
    ensures
        unregistrations(closing(job, kill, running, notice)) == (if running {
            1nat
        } else {
            0nat
        }),
{
    let head = (if kill {
        seq![ActionView::Kill]
    } else {
        Seq::empty()
    });
    let entry = (if running {
        seq![ActionView::Unregister]
    } else {
        Seq::empty()
    });
    let version = (if job.tentative is Some {
        seq![ActionView::Discard]
    } else {
        Seq::empty()
    });
    let tail = seq![ActionView::Conclude(notice)];
    reveal_with_fuel(unregistrations, 2);
    lemma_unregistrations_add(head + entry + version, tail);
    lemma_unregistrations_add(head + entry, version);
    lemma_unregistrations_add(head, entry);
    assert(head.drop_last().len() == 0 || head.len() == 0);
    assert(entry.drop_last().len() == 0 || entry.len() == 0);
    assert(version.drop_last().len() == 0 || version.len() == 0);
    assert(tail.drop_last().len() == 0);
}

proof fn lemma_step_unregisters(job: JobView, s: JobStateView, i: JobInputView)
    ensures
        unregistrations(next(job, s, i).1) == (if s is Running && !(next(job, s, i).0 is Running) {
            1nat
        } else {
            0nat
        }),
{
    let a = next(job, s, i).1;
    reveal_with_fuel(unregistrations, 3);
    assert forall|kill: bool, running: bool, notice: NotificationView|
        unregistrations(#[trigger] closing(job, kill, running, notice)) == (if running {
            1nat
        } else {
            0nat
        }) by {
        lemma_closing_unregisters(job, kill, running, notice);
    }
    if s is Running && next(job, s, i).0 is Promoting {
        assert(a.drop_last().len() == 1);
        assert(a.drop_last().drop_last().len() == 0);
    } else if a.len() == 1 {
        assert(a.drop_last().len() == 0);
    }
}

/// A job leaves the registry exactly once, and only after its worker ran:
/// over any inputs it is asked at most once; not while the job has yet to
/// run or runs; and once where the worker succeeded, was stopped or was timed
/// out.
pub proof fn law_unregistered_once(job: JobView, inputs: Seq<JobInputView>)
    ensures
        ({
            let end = run(job, JobStateView::Pending, inputs);
            &&& unregistrations(end.1) <= 1
            &&& end.0 is Pending || end.0 is Spawning || end.0 is Running ==> unregistrations(end.1)
                == 0
            &&& end.0 is Promoting || end.0 == JobStateView::Done(OutcomeView::Succeeded) || end.0
                == JobStateView::Done(OutcomeView::Cancelled) || end.0 == JobStateView::Done(
                OutcomeView::TimedOut,
            ) ==> unregistrations(end.1) == 1
        }),
    decreases inputs.len(),
{
    if inputs.len() > 0 {
        let before = run(job, JobStateView::Pending, inputs.drop_last());
        let last = next(job, before.0, inputs.last());
        law_unregistered_once(job, inputs.drop_last());
        lemma_step_unregisters(job, before.0, inputs.last());
        lemma_unregistrations_add(before.1, last.1);
    }
}

} // verus!
