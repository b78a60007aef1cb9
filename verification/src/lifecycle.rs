//! The lifecycle of the application: one webview, created once when the
//! event loop starts and released once when the window is asked to close.

use vstd::prelude::*;

verus! {

/// The notifications of the platform that the lifecycle tells apart.
#[derive(Clone, Copy, Debug, PartialEq, Eq, Structural)]
pub enum PlatformEvent {
    /// The event loop has started.
    LoopStarted,
    /// The user asked for the window to be closed.
    CloseRequested,
    /// Any other notification.
    Other,
}

/// The three states of a run, without the webview.
#[derive(Clone, Copy, Debug, PartialEq, Eq, Structural)]
pub enum LifecycleState {
    Uninitialized,
    Running,
    Terminated,
}

/// What the event loop is to do once an event has been dispatched.
#[derive(Clone, Copy, Debug, PartialEq, Eq, Structural)]
pub enum LoopControl {
    /// Wait for the next event.
    Wait,
    /// Stop the loop.
    Exit,
}

/// The window or the webview could not be created. The run is over.
#[derive(Debug, PartialEq, Eq)]
pub struct ConstructionError<E> {
    pub cause: E,
}

/// The state of a run together with the webview that it owns while running.
pub enum Phase<W> {
    Uninitialized,
    Running(W),
    Terminated,
}

impl<W> Phase<W> {
    /// The state, without the webview.
    pub open spec fn state(self) -> LifecycleState {
        match self {
            Phase::Uninitialized => LifecycleState::Uninitialized,
            Phase::Running(_) => LifecycleState::Running,
            Phase::Terminated => LifecycleState::Terminated,
        }
    }

    /// The webview that is alive in this phase.
    pub open spec fn webview(self) -> Option<W> {
        match self {
            Phase::Running(webview) => Some(webview),
            _ => None,
        }
    }

    /// Dispatching `event` in this phase asks for the webview to be built.
    pub open spec fn constructs(self, event: PlatformEvent) -> bool {
        self is Uninitialized && event == PlatformEvent::LoopStarted
    }

    /// The phase that follows once `event` has been dispatched. `built` is
    /// what construction gave, and counts only where the event asks for it:
    /// the webview, or `None` where it could not be created.
    ///
    /// A request to close ends a running lifecycle and nothing else. Before
    /// the start there is no window that it could concern, and a run that
    /// has not started must still be able to: the request is ignored.
    pub open spec fn after(self, event: PlatformEvent, built: Option<W>) -> Phase<W> {
        match (self, event) {
            (Phase::Uninitialized, PlatformEvent::LoopStarted) => match built {
                Some(webview) => Phase::Running(webview),
                None => Phase::Terminated,
            },
            (Phase::Running(_), PlatformEvent::CloseRequested) => Phase::Terminated,
            _ => self,
        }
    }

    /// What the loop is told in this phase: to stop once the run is over,
    /// to wait for the next event until then.
    pub open spec fn control(self) -> LoopControl {
        if self is Terminated {
            LoopControl::Exit
        } else {
            LoopControl::Wait
        }
    }
}

/// Owner of the one webview of the process.
pub struct AppLifecycle<W> {
    phase: Phase<W>,
}

impl<W> AppLifecycle<W> {
    /// The phase that the run is in.
    pub closed spec fn phase(&self) -> Phase<W> {
        self.phase
    }

    /// A run that has not started: no webview exists yet.
    pub fn new() -> (lifecycle: Self)
        ensures
            lifecycle.phase() is Uninitialized,
    {
        AppLifecycle { phase: Phase::Uninitialized }
    }

    /// The state that the run is in.
    pub fn state(&self) -> (state: LifecycleState)
        ensures
            state == self.phase().state(),
    {
        match &self.phase {
            Phase::Uninitialized => LifecycleState::Uninitialized,
            Phase::Running(_) => LifecycleState::Running,
            Phase::Terminated => LifecycleState::Terminated,
        }
    }

    /// The webview, while the run owns one.
    pub fn webview(&self) -> (webview: Option<&W>)
        ensures
            match webview {
                Some(alive) => self.phase().webview() == Some(*alive),
                None => self.phase().webview() is None,
            },
    {
        match &self.phase {
            Phase::Running(webview) => Some(webview),
            _ => None,
        }
    }

    /// Dispatches one event.
    ///
    /// The first notification that the loop has started builds the webview
    /// by calling `factory`; no other event calls it. Where construction
    /// fails the run is over, and the failure is returned. A request to
    /// close the window releases the webview before the loop is told to
    /// stop. Everything else leaves the run as it is.
    pub fn dispatch<E, F>(&mut self, event: PlatformEvent, factory: F) -> (outcome: Result<
        LoopControl,
        ConstructionError<E>,
    >)
        where F: FnOnce() -> Result<W, E>
        requires
            old(self).phase().constructs(event) ==> factory.requires(()),
        ensures
            old(self).phase().constructs(event) ==> exists|built: Result<W, E>|
                factory.ensures((), built) && match built {
                    Ok(webview) => final(self).phase() == old(self).phase().after(
                        event,
                        Some(webview),
                    ) && outcome == Ok::<LoopControl, ConstructionError<E>>(LoopControl::Wait),
                    Err(cause) => final(self).phase() == old(self).phase().after(event, None)
                        && outcome == Err::<LoopControl, ConstructionError<E>>(
                        ConstructionError { cause },
                    ),
                },
            !old(self).phase().constructs(event) ==> final(self).phase() == old(
                self,
            ).phase().after(event, None) && outcome == Ok::<LoopControl, ConstructionError<E>>(
                final(self).phase().control(),
            ),
    {
        match event {
            PlatformEvent::LoopStarted => {
                if let Phase::Uninitialized = &self.phase {
                    let built: Result<W, E> = factory();
                    let ghost given: Result<W, E> = built;
                    match built {
                        Ok(webview) => {
                            self.phase = Phase::Running(webview);
                            assert(factory.ensures((), given));
                            return Ok(LoopControl::Wait);
                        },
                        Err(cause) => {
                            self.phase = Phase::Terminated;
                            assert(factory.ensures((), given));
                            return Err(ConstructionError { cause });
                        },
                    }
                }
            },
            PlatformEvent::CloseRequested => {
                if let Phase::Running(_) = &self.phase {
                    self.phase = Phase::Terminated;
                }
            },
            PlatformEvent::Other => {},
        }
        match &self.phase {
            Phase::Terminated => Ok(LoopControl::Exit),
            _ => Ok(LoopControl::Wait),
        }
    }
}

/// One dispatched event, with what construction gave where the event asked
/// for it.
pub struct Step<W> {
    pub event: PlatformEvent,
    pub built: Option<W>,
}

/// The phase reached from `phase` once all of `steps` have been dispatched
/// in order.
pub open spec fn after_all<W>(phase: Phase<W>, steps: Seq<Step<W>>) -> Phase<W>
    decreases steps.len(),
{
    if steps.len() == 0 {
        phase
    } else {
        after_all(phase.after(steps[0].event, steps[0].built), steps.drop_first())
    }
}

/// How often the webview is asked to be built while `steps` are dispatched
/// from `phase`.
pub open spec fn constructions<W>(phase: Phase<W>, steps: Seq<Step<W>>) -> nat
    decreases steps.len(),
{
    if steps.len() == 0 {
        0
    } else {
        let rest = constructions(
            phase.after(steps[0].event, steps[0].built),
            steps.drop_first(),
        );
        if phase.constructs(steps[0].event) {
            1 + rest
        } else {
            rest
        }
    }
}

/// How often the run goes from uninitialized to running while `steps` are
/// dispatched from `phase`.
pub open spec fn initializations<W>(phase: Phase<W>, steps: Seq<Step<W>>) -> nat
    decreases steps.len(),
{
    if steps.len() == 0 {
        0
    } else {
        let next = phase.after(steps[0].event, steps[0].built);
        let rest = initializations(next, steps.drop_first());
        if phase is Uninitialized && next is Running {
            1 + rest
        } else {
            rest
        }
    }
}

/// Some step of `steps` notifies that the loop has started and comes with a
/// webview that was built.
pub open spec fn starts_successfully<W>(steps: Seq<Step<W>>) -> bool {
    exists|i: int|
        0 <= i < steps.len() && steps[i].event == PlatformEvent::LoopStarted
            && steps[i].built is Some && forall|j: int|
            0 <= j < i ==> steps[j].event != PlatformEvent::LoopStarted
}

/// A run never goes back: once it has left the uninitialized state it stays
/// out of it, a webview that is alive is never replaced by another, and a
/// run that is over stays over.
pub proof fn lemma_no_way_back<W>(phase: Phase<W>, event: PlatformEvent, built: Option<W>)
    ensures
        !(phase is Uninitialized) ==> !(phase.after(event, built) is Uninitialized),
        phase is Running ==> phase.after(event, built) == phase || phase.after(event, built)
            is Terminated,
        phase is Terminated ==> phase.after(event, built) is Terminated,
        !(phase is Uninitialized) ==> !phase.constructs(event),
{
}

/// Once the run has left the uninitialized state, no sequence of events
/// builds a webview or starts the run again.
pub proof fn lemma_started_run_never_restarts<W>(phase: Phase<W>, steps: Seq<Step<W>>)
    requires
        !(phase is Uninitialized),
    ensures
        constructions(phase, steps) == 0,
        initializations(phase, steps) == 0,
        !(after_all(phase, steps) is Uninitialized),
    decreases steps.len(),
{
    if steps.len() > 0 {
        lemma_started_run_never_restarts(
            phase.after(steps[0].event, steps[0].built),
            steps.drop_first(),
        );
    }
}

/// However many notifications that the loop has started are delivered, the
/// webview is built at most once and the run starts at most once.
pub proof fn lemma_initialized_at_most_once<W>(phase: Phase<W>, steps: Seq<Step<W>>)
    ensures
        constructions(phase, steps) <= 1,
        initializations(phase, steps) <= 1,
    decreases steps.len(),
{
    if steps.len() > 0 {
        let next = phase.after(steps[0].event, steps[0].built);
        if next is Uninitialized {
            lemma_initialized_at_most_once(next, steps.drop_first());
        } else {
            lemma_started_run_never_restarts(next, steps.drop_first());
        }
    }
}

/// A run whose first notification that the loop has started comes with a
/// webview starts exactly once, whatever else is delivered before or after.
pub proof fn lemma_initialized_exactly_once<W>(steps: Seq<Step<W>>)
    requires
        starts_successfully(steps),
    ensures
        constructions(Phase::<W>::Uninitialized, steps) == 1,
        initializations(Phase::<W>::Uninitialized, steps) == 1,
    decreases steps.len(),
{
    let phase = Phase::<W>::Uninitialized;
    let i = choose|i: int|
        0 <= i < steps.len() && steps[i].event == PlatformEvent::LoopStarted
            && steps[i].built is Some && forall|j: int|
            0 <= j < i ==> steps[j].event != PlatformEvent::LoopStarted;
    let next = phase.after(steps[0].event, steps[0].built);
    let rest = steps.drop_first();
    if i == 0 {
        lemma_started_run_never_restarts(next, rest);
    } else {
        assert(steps[0].event != PlatformEvent::LoopStarted);
        assert(rest[i - 1] == steps[i]);
        assert(forall|j: int| 0 <= j < i - 1 ==> rest[j] == steps[j + 1]);
        assert(starts_successfully(rest));
        lemma_initialized_exactly_once(rest);
    }
}

/// Closing releases the webview: after a request to close, a running
/// lifecycle owns none, and the loop is told to stop.
pub proof fn lemma_close_releases<W>(phase: Phase<W>, built: Option<W>)
    requires
        phase is Running,
    ensures
        phase.after(PlatformEvent::CloseRequested, built) is Terminated,
        phase.after(PlatformEvent::CloseRequested, built).webview() is None,
        phase.after(PlatformEvent::CloseRequested, built).control() == LoopControl::Exit,
{
}

/// Nothing that is delivered after the run is over has any effect: the run
/// stays over, no webview is built, and the loop is still told to stop.
pub proof fn lemma_terminated_is_final<W>(steps: Seq<Step<W>>)
    ensures
        after_all(Phase::<W>::Terminated, steps) is Terminated,
        after_all(Phase::<W>::Terminated, steps).webview() is None,
        after_all(Phase::<W>::Terminated, steps).control() == LoopControl::Exit,
        constructions(Phase::<W>::Terminated, steps) == 0,
    decreases steps.len(),
{
    if steps.len() > 0 {
        lemma_terminated_is_final(steps.drop_first());
    }
    lemma_started_run_never_restarts(Phase::<W>::Terminated, steps);
}

} // verus!
