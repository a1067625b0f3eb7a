use vstd::prelude::*;

verus! {

/// Where startup and shutdown stand.
#[derive(Clone, Copy, Debug, PartialEq, Eq, Structural)]
pub enum LaunchPhase {
    /// Nothing started; the engine is being initialised.
    NotStarted,
    /// The engine is initialised; the browsing client is being created.
    EngineReady,
    /// Both parties passed the rendezvous and run their loops.
    Running,
    /// The UI loop has exited and the engine was told to shut down.
    ShuttingDown,
    /// Everything is over; the outcome is known.
    Stopped,
}

/// Why startup or the session failed.
#[derive(Clone, Copy, Debug, PartialEq, Eq, Structural)]
pub enum LaunchError {
    EngineInit,
    ClientCreation,
    Ui,
}

/// What the two threads report to the launcher.
#[derive(Clone, Copy, Debug, PartialEq, Eq, Structural)]
pub enum LaunchEvent {
    /// The engine's one-time initialisation returned.
    EngineInitialized { ok: bool },
    /// Creating the browsing client returned.
    ClientCreated { ok: bool },
    /// The UI loop exited and the terminal was restored.
    UiExited { ok: bool },
    /// The engine's message loop returned.
    EngineLoopReturned,
}

/// What the launching thread does next.
#[derive(Clone, Copy, Debug, PartialEq, Eq, Structural)]
pub enum LaunchAction {
    /// Create the browsing client.
    CreateClient,
    /// Pass the rendezvous, which releases the UI thread too; with
    /// `start_loops` both go on into their loops, without it both stop.
    PassRendezvous { start_loops: bool },
    /// Tell the engine to shut down.
    ShutdownEngine,
    /// Join the UI thread and return the outcome.
    Finish,
    /// Nothing to do for this event.
    Nothing,
}

/// State of the startup and shutdown protocol.
#[derive(Clone, Copy, Debug)]
pub struct Launcher {
    pub phase: LaunchPhase,
    /// The engine has been told to shut down.
    pub shutdown_signaled: bool,
    /// The UI loop ended without error.
    pub ui_ok: bool,
    /// The final result, once known.
    pub outcome: Option<Result<(), LaunchError>>,
}

/// The protocol's consistency: the engine is told to shut down from the
/// moment the UI loop exits on, and not before; an outcome exists exactly
/// when everything has stopped.
pub open spec fn launcher_wf(l: Launcher) -> bool {
    &&& (l.phase == LaunchPhase::NotStarted || l.phase == LaunchPhase::EngineReady || l.phase
        == LaunchPhase::Running) ==> !l.shutdown_signaled
    &&& l.phase == LaunchPhase::ShuttingDown ==> l.shutdown_signaled
    &&& (l.outcome is Some <==> l.phase == LaunchPhase::Stopped)
}

/// The protocol before anything has started.
pub open spec fn initial_launcher() -> Launcher {
    Launcher { phase: LaunchPhase::NotStarted, shutdown_signaled: false, ui_ok: false, outcome: None }
}

/// One step of the protocol: the next state and the action for an event.
pub open spec fn launch_step(l: Launcher, ev: LaunchEvent) -> (Launcher, LaunchAction) {
    let stopped_with = |e: LaunchError|
        Launcher { phase: LaunchPhase::Stopped, outcome: Some(Err(e)), ..l };
    match (l.phase, ev) {
        (LaunchPhase::NotStarted, LaunchEvent::EngineInitialized { ok }) => if ok {
            (Launcher { phase: LaunchPhase::EngineReady, ..l }, LaunchAction::CreateClient)
        } else {
            (stopped_with(LaunchError::EngineInit), LaunchAction::PassRendezvous { start_loops: false })
        },
        (LaunchPhase::EngineReady, LaunchEvent::ClientCreated { ok }) => if ok {
            (Launcher { phase: LaunchPhase::Running, ..l }, LaunchAction::PassRendezvous { start_loops: true })
        } else {
            (stopped_with(LaunchError::ClientCreation), LaunchAction::PassRendezvous { start_loops: false })
        },
        (LaunchPhase::Running, LaunchEvent::UiExited { ok }) => (
            Launcher { phase: LaunchPhase::ShuttingDown, shutdown_signaled: true, ui_ok: ok, ..l },
            LaunchAction::ShutdownEngine,
        ),
        (LaunchPhase::ShuttingDown, LaunchEvent::EngineLoopReturned) => (
            Launcher {
                phase: LaunchPhase::Stopped,
                outcome: Some(if l.ui_ok { Ok(()) } else { Err(LaunchError::Ui) }),
                ..l
            },
            LaunchAction::Finish,
        ),
        _ => (l, LaunchAction::Nothing),
    }
}

impl Launcher {
    /// The protocol before anything has started.
    pub fn new() -> (r: Launcher)
        ensures
            r == initial_launcher(),
            launcher_wf(r),
    {
        Launcher { phase: LaunchPhase::NotStarted, shutdown_signaled: false, ui_ok: false, outcome: None }
    }

    /// Takes one event and says what to do next.
    pub fn step(&mut self, ev: LaunchEvent) -> (r: LaunchAction)
        ensures
            (*final(self), r) == launch_step(*old(self), ev),
            launcher_wf(*old(self)) ==> launcher_wf(*final(self)),
    {
        match (self.phase, ev) {
            (LaunchPhase::NotStarted, LaunchEvent::EngineInitialized { ok }) => {
                if ok {
                    self.phase = LaunchPhase::EngineReady;
                    LaunchAction::CreateClient
                } else {
                    self.phase = LaunchPhase::Stopped;
                    self.outcome = Some(Err(LaunchError::EngineInit));
                    LaunchAction::PassRendezvous { start_loops: false }
                }
            },
            (LaunchPhase::EngineReady, LaunchEvent::ClientCreated { ok }) => {
                if ok {
                    self.phase = LaunchPhase::Running;
                    LaunchAction::PassRendezvous { start_loops: true }
                } else {
                    self.phase = LaunchPhase::Stopped;
                    self.outcome = Some(Err(LaunchError::ClientCreation));
                    LaunchAction::PassRendezvous { start_loops: false }
                }
            },
            (LaunchPhase::Running, LaunchEvent::UiExited { ok }) => {
                self.phase = LaunchPhase::ShuttingDown;
                self.shutdown_signaled = true;
                self.ui_ok = ok;
                LaunchAction::ShutdownEngine
            },
            (LaunchPhase::ShuttingDown, LaunchEvent::EngineLoopReturned) => {
                self.phase = LaunchPhase::Stopped;
                self.outcome = Some(if self.ui_ok { Ok(()) } else { Err(LaunchError::Ui) });
                LaunchAction::Finish
            },
            _ => LaunchAction::Nothing,
        }
    }
}

/// The state and the actions after a sequence of events.
pub open spec fn launch_run(l: Launcher, evs: Seq<LaunchEvent>) -> (Launcher, Seq<LaunchAction>)
    decreases evs.len(),
{
    if evs.len() == 0 {
        (l, Seq::empty())
    } else {
        let (mid, acts) = launch_run(l, evs.drop_last());
        let (next, a) = launch_step(mid, evs.last());
        (next, acts.push(a))
    }
}

pub open spec fn count_shutdowns(acts: Seq<LaunchAction>) -> nat
    decreases acts.len(),
{
    if acts.len() == 0 {
        0
    } else {
        count_shutdowns(acts.drop_last()) + if acts.last() == LaunchAction::ShutdownEngine {
            1nat
        } else {
            0nat
        }
    }
}

proof fn lemma_run_shutdowns(l: Launcher, evs: Seq<LaunchEvent>)
    requires
        launcher_wf(l),
    ensures
        launcher_wf(launch_run(l, evs).0),
        launch_run(l, evs).0.shutdown_signaled == (l.shutdown_signaled || count_shutdowns(
            launch_run(l, evs).1,
        ) >= 1),
        count_shutdowns(launch_run(l, evs).1) + (if l.shutdown_signaled { 1nat } else { 0nat })
            <= 1,
    decreases evs.len(),
{
    if evs.len() > 0 {
        lemma_run_shutdowns(l, evs.drop_last());
        let (mid, acts) = launch_run(l, evs.drop_last());
        let (next, a) = launch_step(mid, evs.last());
        assert(acts.push(a).drop_last() =~= acts);
    }
}

/// Whatever the threads report, and in whatever order, the engine is told to
/// shut down at most once, and only in answer to the UI loop's exit.
pub proof fn lemma_shutdown_at_most_once(evs: Seq<LaunchEvent>)
    ensures
        count_shutdowns(launch_run(initial_launcher(), evs).1) <= 1,
        launch_run(initial_launcher(), evs).1.len() == evs.len(),
        forall|i: int|
            0 <= i < evs.len() && launch_run(initial_launcher(), evs).1[i]
                == LaunchAction::ShutdownEngine ==> evs[i] is UiExited,
{
    let l = initial_launcher();
    lemma_run_shutdowns(l, evs);
    lemma_run_prefix(l, evs, 0);
    assert forall|i: int|
        0 <= i < evs.len() && launch_run(l, evs).1[i] == LaunchAction::ShutdownEngine
            implies evs[i] is UiExited by {
        let s = evs.subrange(0, i + 1);
        lemma_run_prefix(l, evs, i + 1);
        lemma_run_prefix(l, evs.subrange(0, i), 0);
        assert(s.drop_last() =~= evs.subrange(0, i));
        assert(s.last() == evs[i]);
        let (mid, acts) = launch_run(l, s.drop_last());
        assert(launch_run(l, s).1 == acts.push(launch_step(mid, evs[i]).1));
        assert(launch_run(l, s).1[i] == launch_run(l, evs).1[i]);
    }
}

proof fn lemma_run_prefix(l: Launcher, evs: Seq<LaunchEvent>, n: int)
    requires
        0 <= n <= evs.len(),
    ensures
        launch_run(l, evs.subrange(0, n)).1 == launch_run(l, evs).1.subrange(0, n),
        launch_run(l, evs).1.len() == evs.len(),
    decreases evs.len(),
{
    if evs.len() > 0 {
        if n == evs.len() {
            assert(evs.subrange(0, n) =~= evs);
            lemma_run_prefix(l, evs.drop_last(), 0);
            assert(launch_run(l, evs).1.subrange(0, n) =~= launch_run(l, evs).1);
        } else {
            lemma_run_prefix(l, evs.drop_last(), n);
            assert(evs.drop_last().subrange(0, n) =~= evs.subrange(0, n));
            assert(launch_run(l, evs).1.subrange(0, n) =~= launch_run(l, evs.drop_last()).1.subrange(0, n));
        }
    }
}

/// When the client cannot be created, both parties are released from the
/// rendezvous without entering their loops, and startup ends at once with
/// the client error.
pub proof fn lemma_client_failure_releases_rendezvous(l: Launcher)
    requires
        launcher_wf(l),
        l.phase == LaunchPhase::EngineReady,
    ensures
        launch_step(l, LaunchEvent::ClientCreated { ok: false }).1 == (LaunchAction::PassRendezvous {
            start_loops: false,
        }),
        launch_step(l, LaunchEvent::ClientCreated { ok: false }).0.phase == LaunchPhase::Stopped,
        launch_step(l, LaunchEvent::ClientCreated { ok: false }).0.outcome == Some(
            Err::<(), LaunchError>(LaunchError::ClientCreation),
        ),
        !launch_step(l, LaunchEvent::ClientCreated { ok: false }).0.shutdown_signaled,
{
}

} // verus!
