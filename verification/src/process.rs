//! One run of the assistant's binary, as a state machine. The caller starts
//! the process, waits and kills; this module decides what each event leads
//! to and what the run amounts to in the end.

use vstd::prelude::*;
use crate::command::{build_args, command_args};
use crate::config::Config;
use crate::error::{Error, ErrorView};
use crate::text::{join, decode_lossy, texts, utf8_lossy};

verus! {

/// What a finished process left behind. `status` is the exit code, or `None`
/// where the process was ended by a signal.
#[derive(Debug, Clone, PartialEq, Eq)]
pub struct CapturedOutput {
    pub status: Option<i32>,
    pub stdout: Vec<u8>,
    pub stderr: Vec<u8>,
}

/// The mathematical value of a [`CapturedOutput`].
pub struct OutputView {
    pub status: Option<i32>,
    pub stdout: Seq<u8>,
    pub stderr: Seq<u8>,
}

impl OutputView {
    /// A process succeeded when it exited with status zero.
    pub open spec fn success(self) -> bool {
        self.status == Some(0i32)
    }
}

impl View for CapturedOutput {
    type V = OutputView;

    open spec fn view(&self) -> OutputView {
        OutputView { status: self.status, stdout: self.stdout@, stderr: self.stderr@ }
    }
}

impl CapturedOutput {
    /// Whether the process exited with status zero.
    pub fn success(&self) -> (r: bool)
        ensures
            r == self@.success(),
    {
        match self.status {
            Some(code) => code == 0,
            None => false,
        }
    }
}

/// Why no process came to run.
#[derive(Debug, Clone, PartialEq, Eq)]
pub enum SpawnFailure {
    /// The binary could not be located.
    BinaryNotFound,
    /// The binary was located, and the operating system refused the rest.
    Io(String),
}

/// The mathematical value of a [`SpawnFailure`].
pub enum SpawnFailureView {
    BinaryNotFound,
    Io(Seq<char>),
}

impl View for SpawnFailure {
    type V = SpawnFailureView;

    open spec fn view(&self) -> SpawnFailureView {
        match self {
            SpawnFailure::BinaryNotFound => SpawnFailureView::BinaryNotFound,
            SpawnFailure::Io(message) => SpawnFailureView::Io(message@),
        }
    }
}

/// Where a run stands. `Completed`, `TimedOut` and `SpawnFailed` are final.
#[derive(Debug, Clone, PartialEq, Eq)]
pub enum RunnerState {
    NotStarted,
    Running,
    Completed(CapturedOutput),
    TimedOut,
    SpawnFailed(SpawnFailure),
}

/// The mathematical value of a [`RunnerState`].
pub enum StateView {
    NotStarted,
    Running,
    Completed(OutputView),
    TimedOut,
    SpawnFailed(SpawnFailureView),
}

impl StateView {
    /// A final state: no event leads out of it.
    pub open spec fn is_final(self) -> bool {
        self is Completed || self is TimedOut || self is SpawnFailed
    }
}

impl View for RunnerState {
    type V = StateView;

    open spec fn view(&self) -> StateView {
        match self {
            RunnerState::NotStarted => StateView::NotStarted,
            RunnerState::Running => StateView::Running,
            RunnerState::Completed(output) => StateView::Completed(output@),
            RunnerState::TimedOut => StateView::TimedOut,
            RunnerState::SpawnFailed(failure) => StateView::SpawnFailed(failure@),
        }
    }
}

/// What the caller reports to the runner.
#[derive(Debug, Clone, PartialEq, Eq)]
pub enum RunnerEvent {
    /// The binary is nowhere to be found.
    BinaryMissing,
    /// The process has been started.
    Started,
    /// Starting the process, or waiting for it, failed with this message.
    Failed(String),
    /// The process has ended by itself.
    Exited(CapturedOutput),
    /// The time allowed has passed and the process has not ended.
    TimerElapsed,
}

/// The mathematical value of a [`RunnerEvent`].
pub enum EventView {
    BinaryMissing,
    Started,
    Failed(Seq<char>),
    Exited(OutputView),
    TimerElapsed,
}

impl View for RunnerEvent {
    type V = EventView;

    open spec fn view(&self) -> EventView {
        match self {
            RunnerEvent::BinaryMissing => EventView::BinaryMissing,
            RunnerEvent::Started => EventView::Started,
            RunnerEvent::Failed(message) => EventView::Failed(message@),
            RunnerEvent::Exited(output) => EventView::Exited(output@),
            RunnerEvent::TimerElapsed => EventView::TimerElapsed,
        }
    }
}

/// What the caller has to do next.
#[derive(Debug, Clone, Copy, PartialEq, Eq, Structural)]
pub enum RunnerAction {
    /// Wait for the process to end, for as long as the timeout allows.
    Await,
    /// End the process and wait until it is gone; the run is over.
    Kill,
    /// Nothing is left to do; the run is over.
    Finish,
    /// The event does not belong to the state; nothing has changed.
    Ignore,
}

/// The state that an event leads to, and the action that it calls for.
pub open spec fn transition(state: StateView, event: EventView) -> (StateView, RunnerAction) {
    match (state, event) {
        (StateView::NotStarted, EventView::BinaryMissing) => (
            StateView::SpawnFailed(SpawnFailureView::BinaryNotFound),
            RunnerAction::Finish,
        ),
        (StateView::NotStarted, EventView::Started) => (StateView::Running, RunnerAction::Await),
        (StateView::NotStarted, EventView::Failed(message)) => (
            StateView::SpawnFailed(SpawnFailureView::Io(message)),
            RunnerAction::Finish,
        ),
        (StateView::Running, EventView::Exited(output)) => (
            StateView::Completed(output),
            RunnerAction::Finish,
        ),
        (StateView::Running, EventView::TimerElapsed) => (StateView::TimedOut, RunnerAction::Kill),
        (StateView::Running, EventView::Failed(message)) => (
            StateView::SpawnFailed(SpawnFailureView::Io(message)),
            RunnerAction::Kill,
        ),
        _ => (state, RunnerAction::Ignore),
    }
}

/// The words that stand before the standard error of a failed process.
pub open spec fn failure_prefix() -> Seq<char> {
    "command failed: "@
}

/// What a finished process amounts to: its standard output as text where it
/// succeeded, and otherwise a process error that carries its standard error
/// and nothing of its standard output.
pub open spec fn classify(output: OutputView) -> Result<Seq<char>, ErrorView> {
    if output.success() {
        Ok(utf8_lossy(output.stdout))
    } else {
        Err(ErrorView::ProcessError(failure_prefix() + utf8_lossy(output.stderr)))
    }
}

/// What a run amounts to once it is over; `None` while it is not. A timeout
/// reports the seconds that were configured.
pub open spec fn outcome(state: StateView, timeout_secs: u64) -> Option<
    Result<Seq<char>, ErrorView>,
> {
    match state {
        StateView::NotStarted => None,
        StateView::Running => None,
        StateView::Completed(output) => Some(classify(output)),
        StateView::TimedOut => Some(Err(ErrorView::Timeout(timeout_secs))),
        StateView::SpawnFailed(SpawnFailureView::BinaryNotFound) => Some(
            Err(ErrorView::BinaryNotFound),
        ),
        StateView::SpawnFailed(SpawnFailureView::Io(message)) => Some(Err(ErrorView::Io(message))),
    }
}

/// The view of a text result.
pub open spec fn text_result(r: Result<String, Error>) -> Result<Seq<char>, ErrorView> {
    match r {
        Ok(text) => Ok(text@),
        Err(e) => Err(e@),
    }
}

/// The view of an optional text result.
pub open spec fn optional_text_result(r: Option<Result<String, Error>>) -> Option<
    Result<Seq<char>, ErrorView>,
> {
    match r {
        Some(inner) => Some(text_result(inner)),
        None => None,
    }
}

/// No event leads out of a final state.
pub proof fn lemma_final_states_stay(state: StateView, event: EventView)
    requires
        state.is_final(),
    ensures
        transition(state, event) == (state, RunnerAction::Ignore),
{
}

/// A run is over exactly when its state is final.
pub proof fn lemma_outcome_iff_final(state: StateView, timeout_secs: u64)
    ensures
        outcome(state, timeout_secs) is Some <==> state.is_final(),
{
}

/// A process that does not end within the time allowed is killed, and the
/// run reports a timeout with the configured seconds, whatever they are.
pub proof fn lemma_timeout_reports_configured_seconds(timeout_secs: u64)
    ensures
        transition(StateView::Running, EventView::TimerElapsed) == (
            StateView::TimedOut,
            RunnerAction::Kill,
        ),
        outcome(StateView::TimedOut, timeout_secs) == Some(
            Err::<Seq<char>, ErrorView>(ErrorView::Timeout(timeout_secs)),
        ),
{
}

/// A process that ends with a failure status yields a process error whose
/// message ends with its standard error; its standard output plays no part.
pub proof fn lemma_failure_carries_stderr(output: OutputView, other_stdout: Seq<u8>)
    requires
        !output.success(),
    ensures
        classify(output) == Err::<Seq<char>, ErrorView>(
            ErrorView::ProcessError(failure_prefix() + utf8_lossy(output.stderr)),
        ),
        classify(OutputView { stdout: other_stdout, ..output }) == classify(output),
{
}

/// The error for a process that failed and wrote `stderr_text`.
pub fn process_error(stderr_text: &str) -> (r: Error)
    ensures
        r@ == ErrorView::ProcessError(failure_prefix() + stderr_text@),
{
    Error::ProcessError(join("command failed: ", stderr_text))
}

/// Turns what a finished process left behind into the text of its answer or
/// into the error that it stands for.
pub fn classify_output(output: &CapturedOutput) -> (r: Result<String, Error>)
    ensures
        text_result(r) == classify(output@),
{
    if output.success() {
        Ok(decode_lossy(output.stdout.as_slice()))
    } else {
        let stderr_text = decode_lossy(output.stderr.as_slice());
        Err(process_error(stderr_text.as_str()))
    }
}

/// A run of the binary for one request.
pub struct ProcessRunner {
    args: Vec<String>,
    timeout_secs: u64,
    state: RunnerState,
}

impl ProcessRunner {
    /// The arguments that the process is started with.
    pub closed spec fn spec_args(&self) -> Seq<Seq<char>> {
        texts(self.args@)
    }

    /// The seconds that the process may take.
    pub closed spec fn spec_timeout_secs(&self) -> u64 {
        self.timeout_secs
    }

    /// Where the run stands.
    pub closed spec fn spec_state(&self) -> StateView {
        self.state@
    }

    /// A run that has not started, for `query` under `config`.
    pub fn new(config: &Config, query: &str) -> (r: ProcessRunner)
        ensures
            r.spec_args() == command_args(config@, query@),
            r.spec_timeout_secs() == config@.timeout(),
            r.spec_state() == StateView::NotStarted,
    {
        ProcessRunner {
            args: build_args(config, query),
            timeout_secs: config.timeout(),
            state: RunnerState::NotStarted,
        }
    }

    /// The arguments that the process is started with.
    pub fn args(&self) -> (r: &Vec<String>)
        ensures
            texts(r@) == self.spec_args(),
    {
        &self.args
    }

    /// The seconds that the process may take.
    pub fn timeout_secs(&self) -> (r: u64)
        ensures
            r == self.spec_timeout_secs(),
    {
        self.timeout_secs
    }

    /// Where the run stands.
    pub fn state(&self) -> (r: &RunnerState)
        ensures
            r@ == self.spec_state(),
    {
        &self.state
    }

    /// Takes one event in: moves to the state that [`transition`] gives and
    /// returns the action that it calls for.
    pub fn step(&mut self, event: RunnerEvent) -> (action: RunnerAction)
        ensures
            (final(self).spec_state(), action) == transition(old(self).spec_state(), event@),
            final(self).spec_args() == old(self).spec_args(),
            final(self).spec_timeout_secs() == old(self).spec_timeout_secs(),
    {
        let not_started = match &self.state {
            RunnerState::NotStarted => true,
            _ => false,
        };
        let running = match &self.state {
            RunnerState::Running => true,
            _ => false,
        };
        if not_started {
            match event {
                RunnerEvent::BinaryMissing => {
                    self.state = RunnerState::SpawnFailed(SpawnFailure::BinaryNotFound);
                    RunnerAction::Finish
                },
                RunnerEvent::Started => {
                    self.state = RunnerState::Running;
                    RunnerAction::Await
                },
                RunnerEvent::Failed(message) => {
                    self.state = RunnerState::SpawnFailed(SpawnFailure::Io(message));
                    RunnerAction::Finish
                },
                _ => RunnerAction::Ignore,
            }
        } else if running {
            match event {
                RunnerEvent::Exited(output) => {
                    self.state = RunnerState::Completed(output);
                    RunnerAction::Finish
                },
                RunnerEvent::TimerElapsed => {
                    self.state = RunnerState::TimedOut;
                    RunnerAction::Kill
                },
                RunnerEvent::Failed(message) => {
                    self.state = RunnerState::SpawnFailed(SpawnFailure::Io(message));
                    RunnerAction::Kill
                },
                _ => RunnerAction::Ignore,
            }
        } else {
            RunnerAction::Ignore
        }
    }

    /// What the run amounts to, once it is over.
    pub fn outcome(&self) -> (r: Option<Result<String, Error>>)
        ensures
            optional_text_result(r) == outcome(self.spec_state(), self.spec_timeout_secs()),
    {
        match &self.state {
            RunnerState::NotStarted => None,
            RunnerState::Running => None,
            RunnerState::Completed(output) => Some(classify_output(output)),
            RunnerState::TimedOut => Some(Err(Error::Timeout(self.timeout_secs))),
            RunnerState::SpawnFailed(SpawnFailure::BinaryNotFound) => Some(
                Err(Error::BinaryNotFound),
            ),
            RunnerState::SpawnFailed(SpawnFailure::Io(message)) => Some(
                Err(Error::Io(message.clone())),
            ),
        }
    }
}

} // verus!
