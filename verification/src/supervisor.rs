use vstd::prelude::*;

verus! {

/// Seconds waited after a pipeline exits (any status) before relaunching.
pub const EXIT_BACKOFF_SECS: u64 = 3;

/// Seconds waited after a failed launch attempt before retrying.
pub const LAUNCH_FAILURE_BACKOFF_SECS: u64 = 10;

/// The supervision state of one stream. A recording pipeline is live exactly
/// in `Running`; the two backoff states remember why the last attempt ended.
#[derive(Clone, Copy, Debug, PartialEq, Eq, Structural)]
pub enum SupervisorState {
    /// About to attempt a pipeline launch.
    Launching,
    /// A pipeline is live; the supervisor is waiting for it to exit.
    Running,
    /// The pipeline exited; waiting out the exit backoff.
    BackoffCrash,
    /// The launch attempt failed; waiting out the launch-failure backoff.
    BackoffError,
}

/// What the world reported to the supervisor.
#[derive(Clone, Copy, Debug)]
pub enum SupervisorEvent {
    /// A pipeline was spawned successfully.
    LaunchSucceeded,
    /// The pipeline could not be spawned (e.g. recorder binary missing).
    LaunchFailed,
    /// The live pipeline exited with the given status code, or on a signal.
    PipelineExited { code: Option<i32> },
    /// The prescribed backoff sleep has elapsed.
    BackoffElapsed,
}

/// What the supervisor asks its driver to do in a state.
#[derive(Clone, Copy, Debug, PartialEq, Eq, Structural)]
pub enum SupervisorAction {
    /// Attempt to spawn a fresh recording pipeline.
    StartPipeline,
    /// Wait for the live pipeline to exit while its diagnostics are drained.
    AwaitExit,
    /// Sleep for the given number of seconds.
    Sleep(u64),
}

/// True exactly when a recording pipeline is live in state `s`.
pub open spec fn pipeline_live(s: SupervisorState) -> bool {
    s is Running
}

pub open spec fn step_spec(s: SupervisorState, e: SupervisorEvent) -> SupervisorState {
    match (s, e) {
        (SupervisorState::Launching, SupervisorEvent::LaunchSucceeded) => SupervisorState::Running,
        (SupervisorState::Launching, SupervisorEvent::LaunchFailed) => SupervisorState::BackoffError,
        (SupervisorState::Running, SupervisorEvent::PipelineExited { .. }) => SupervisorState::BackoffCrash,
        (SupervisorState::BackoffCrash, SupervisorEvent::BackoffElapsed) => SupervisorState::Launching,
        (SupervisorState::BackoffError, SupervisorEvent::BackoffElapsed) => SupervisorState::Launching,
        _ => s,
    }
}

pub open spec fn prescribed_action_spec(s: SupervisorState) -> SupervisorAction {
    match s {
        SupervisorState::Launching => SupervisorAction::StartPipeline,
        SupervisorState::Running => SupervisorAction::AwaitExit,
        SupervisorState::BackoffCrash => SupervisorAction::Sleep(EXIT_BACKOFF_SECS),
        SupervisorState::BackoffError => SupervisorAction::Sleep(LAUNCH_FAILURE_BACKOFF_SECS),
    }
}

/// Advances the supervision state machine by one observed event. An event
/// that cannot occur in the current state leaves the state unchanged.
pub fn step(s: SupervisorState, e: SupervisorEvent) -> (r: SupervisorState)
    ensures
        r == step_spec(s, e),
{
    match (s, e) {
        (SupervisorState::Launching, SupervisorEvent::LaunchSucceeded) => SupervisorState::Running,
        (SupervisorState::Launching, SupervisorEvent::LaunchFailed) => SupervisorState::BackoffError,
        (SupervisorState::Running, SupervisorEvent::PipelineExited { .. }) => SupervisorState::BackoffCrash,
        (SupervisorState::BackoffCrash, SupervisorEvent::BackoffElapsed) => SupervisorState::Launching,
        (SupervisorState::BackoffError, SupervisorEvent::BackoffElapsed) => SupervisorState::Launching,
        _ => s,
    }
}

/// What a driver must do next in state `s`: launch, await the live pipeline,
/// or sleep out a backoff. The supervision loop runs forever; no state
/// prescribes stopping.
pub fn prescribed_action(s: SupervisorState) -> (r: SupervisorAction)
    ensures
        r == prescribed_action_spec(s),
{
    match s {
        SupervisorState::Launching => SupervisorAction::StartPipeline,
        SupervisorState::Running => SupervisorAction::AwaitExit,
        SupervisorState::BackoffCrash => SupervisorAction::Sleep(EXIT_BACKOFF_SECS),
        SupervisorState::BackoffError => SupervisorAction::Sleep(LAUNCH_FAILURE_BACKOFF_SECS),
    }
}

/// A supervisor never has two concurrently live pipelines: a launch is
/// prescribed only in a state where no pipeline is live, and the only
/// transition that makes a pipeline live is a successful launch taken from
/// such a state. While a pipeline is live, no event both keeps one live and
/// prescribes starting another.
pub proof fn lemma_single_pipeline(s: SupervisorState, e: SupervisorEvent)
    ensures
        prescribed_action_spec(s) == SupervisorAction::StartPipeline ==> !pipeline_live(s),
        !pipeline_live(s) && pipeline_live(step_spec(s, e)) ==> s is Launching && e is LaunchSucceeded,
        pipeline_live(s) ==> prescribed_action_spec(s) != SupervisorAction::StartPipeline,
{
}

/// Backoff precedes every relaunch. A pipeline exit moves the supervisor to
/// the crash-backoff state, whose prescribed action is the exit backoff
/// sleep; a launch failure moves it to the error-backoff state, whose
/// prescribed action is the launch-failure backoff sleep. From either backoff
/// state, only the elapse of that sleep reaches a state that prescribes a new
/// launch attempt.
pub proof fn lemma_backoff_before_relaunch(e: SupervisorEvent)
    ensures
        forall|c: Option<i32>|
            step_spec(SupervisorState::Running, SupervisorEvent::PipelineExited { code: c })
                == SupervisorState::BackoffCrash,
        prescribed_action_spec(SupervisorState::BackoffCrash) == SupervisorAction::Sleep(EXIT_BACKOFF_SECS),
        step_spec(SupervisorState::Launching, SupervisorEvent::LaunchFailed) == SupervisorState::BackoffError,
        prescribed_action_spec(SupervisorState::BackoffError)
            == SupervisorAction::Sleep(LAUNCH_FAILURE_BACKOFF_SECS),
        prescribed_action_spec(step_spec(SupervisorState::BackoffCrash, e)) == SupervisorAction::StartPipeline
            ==> e is BackoffElapsed,
        prescribed_action_spec(step_spec(SupervisorState::BackoffError, e)) == SupervisorAction::StartPipeline
            ==> e is BackoffElapsed,
{
}

} // verus!
