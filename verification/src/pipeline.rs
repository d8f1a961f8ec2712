//! The run as a state machine: which request is pending, and what each
//! report from the driver does to it.

use vstd::prelude::*;
use crate::command::{Action, ActionView, Event, EventView};
use crate::environment::{Environment, EnvironmentView};
use crate::error::{LoadError, Operation, RunError};
use crate::plan::{plan, sequence, Fact, Scope, Step};
use crate::steps::request;
use crate::utils::apt_update_view;

verus! {

/// A run in progress. It holds the position in the fixed sequence, the first
/// failure if there was one, and the host facts gathered so far.
pub struct Orchestrator {
    plan: Vec<Step>,
    position: usize,
    strict: bool,
    failure: Option<RunError>,
    host: Option<Environment>,
    local: Option<Environment>,
    home: Option<String>,
    path: Option<String>,
}

pub struct OrchestratorView {
    /// How many steps of the sequence are behind the run.
    pub position: nat,
    /// Whether a key fetch without an output stream fails the run.
    pub strict: bool,
    /// Why the run stopped, once it has.
    pub failure: Option<RunError>,
    /// The context of the run, once loaded.
    pub host: Option<EnvironmentView>,
    /// The context that the latest step to load one for itself got.
    pub local: Option<EnvironmentView>,
    /// `HOME` as read for a load that is under way.
    pub home: Option<Seq<char>>,
    /// `PATH` as read for a load that is under way.
    pub path: Option<Seq<char>>,
}

/// The position of the step that completes the context of the run.
pub open spec fn context_at() -> nat {
    4
}

impl OrchestratorView {
    /// A run that has not begun.
    pub open spec fn start(strict: bool) -> Self {
        OrchestratorView {
            position: 0,
            strict,
            failure: None,
            host: None,
            local: None,
            home: None,
            path: None,
        }
    }

    /// Every step was taken and none failed.
    pub open spec fn finished(self) -> bool {
        self.failure is None && self.position == sequence().len()
    }

    /// The exit status that the run calls for.
    pub open spec fn exit_code(self) -> Option<i32> {
        if self.failure is Some {
            Some(1i32)
        } else if self.finished() {
            Some(0i32)
        } else {
            None
        }
    }

    /// The step to take now; none once the run has finished or failed.
    pub open spec fn step(self) -> Option<Step> {
        if self.failure is None && self.position < sequence().len() {
            Some(sequence()[self.position as int])
        } else {
            None
        }
    }

    /// The request to the driver that is open now.
    pub open spec fn pending(self) -> Option<ActionView> {
        match self.step() {
            Some(step) => Some(request(step, self.host, self.local)),
            None => None,
        }
    }

    /// The run stopped at its position, for the given cause.
    pub open spec fn stopped(self, cause: RunError) -> Self {
        OrchestratorView { failure: Some(cause), home: None, path: None, ..self }
    }

    /// The run moved on by `count` steps.
    pub open spec fn advanced(self, count: nat) -> Self {
        OrchestratorView { position: self.position + count, ..self }
    }

    /// The run took the context `env` for the given scope, and dropped the
    /// readings it was built from.
    pub open spec fn keeping(self, scope: Scope, env: EnvironmentView) -> Self {
        match scope {
            Scope::Run => OrchestratorView { host: Some(env), home: None, path: None, ..self },
            Scope::Step => OrchestratorView { local: Some(env), home: None, path: None, ..self },
        }
    }

    /// The run after the driver has reported `event` for the pending request.
    ///
    /// A report that says the request succeeded moves the run on by one step.
    /// Any other report stops it where it is: a report of failure, and so
    /// too a report that does not answer the request. Two requests have
    /// rules of their own. A file that was opened counts as written, whether
    /// or not the write went through. A key fetch that started without an
    /// output stream stops a strict run; any other run then passes over the
    /// import and goes on after it. A run that has finished or stopped takes
    /// no notice of reports.
    pub open spec fn next(self, event: EventView) -> Self {
        match self.step() {
            None => self,
            Some(Step::Probe(Fact::Home, _)) => match event {
                EventView::Variable(Some(value)) => OrchestratorView {
                    home: Some(value),
                    ..self.advanced(1)
                },
                _ => self.stopped(RunError::Environment(LoadError::Home)),
            },
            Some(Step::Probe(Fact::SearchPath, _)) => match event {
                EventView::Variable(Some(value)) => OrchestratorView {
                    path: Some(value),
                    ..self.advanced(1)
                },
                _ => self.stopped(RunError::Environment(LoadError::SearchPath)),
            },
            Some(Step::Probe(Fact::Release, scope)) => match Environment::loaded(
                self.home,
                self.path,
                event.output(),
            ) {
                Ok(env) => self.advanced(1).keeping(scope, env),
                Err(cause) => self.stopped(RunError::Environment(cause)),
            },
            Some(step) => match request(step, self.host, self.local) {
                ActionView::Run(child) | ActionView::Feed(child) => match child.settled(event) {
                    Ok(_) => self.advanced(1),
                    Err(cause) => self.stopped(cause),
                },
                ActionView::Write(file) => match file.settled(event) {
                    Ok(_) => self.advanced(1),
                    Err(cause) => self.stopped(cause),
                },
                ActionView::Export(_, _) => if event == EventView::Exported {
                    self.advanced(1)
                } else {
                    self.stopped(RunError::Step(Operation::Noninteractive))
                },
                ActionView::Spawn(child) => match event {
                    EventView::Spawned(true) => self.advanced(1),
                    EventView::Spawned(false) => if self.strict {
                        self.stopped(RunError::MissingStream)
                    } else {
                        self.advanced(2)
                    },
                    _ => self.stopped(RunError::Step(child.operation)),
                },
                // Only the readings of a load ask for these, and they are
                // dealt with above.
                ActionView::ReadVariable(_) | ActionView::Capture(_) => self,
            },
        }
    }

    /// The run after the driver's reports `events`, first to last.
    pub open spec fn after(self, events: Seq<EventView>) -> Self
        decreases events.len(),
    {
        if events.len() == 0 {
            self
        } else {
            self.after(events.drop_last()).next(events.last())
        }
    }

    /// What holds of every run however far it got: the position is within
    /// the sequence or just behind it, and what the pending step reads has
    /// been loaded.
    pub open spec fn wf(self) -> bool {
        &&& self.position <= sequence().len()
        &&& self.position > context_at() ==> self.host is Some
        &&& match self.step() {
            Some(Step::Probe(Fact::SearchPath, _)) => self.home is Some,
            Some(Step::Probe(Fact::Release, _)) => self.home is Some && self.path is Some,
            Some(step) => step.reads_local() ==> self.local is Some,
            None => true,
        }
    }
}

impl View for Orchestrator {
    type V = OrchestratorView;

    closed spec fn view(&self) -> OrchestratorView {
        OrchestratorView {
            position: self.position as nat,
            strict: self.strict,
            failure: self.failure,
            host: self.host.deep_view(),
            local: self.local.deep_view(),
            home: self.home.deep_view(),
            path: self.path.deep_view(),
        }
    }
}

impl Orchestrator {
    #[verifier::type_invariant]
    spec fn inv(self) -> bool {
        &&& self.plan@ == sequence()
        &&& self@.wf()
    }

    /// A run that has not begun and that goes on past a key fetch without an
    /// output stream.
    pub fn new() -> (r: Orchestrator)
        ensures
            r@ == OrchestratorView::start(false),
            r@.wf(),
    {
        Orchestrator {
            plan: plan(),
            position: 0,
            strict: false,
            failure: None,
            host: None,
            local: None,
            home: None,
            path: None,
        }
    }

    /// A run that has not begun and that stops at a key fetch without an
    /// output stream.
    pub fn strict() -> (r: Orchestrator)
        ensures
            r@ == OrchestratorView::start(true),
            r@.wf(),
    {
        Orchestrator {
            plan: plan(),
            position: 0,
            strict: true,
            failure: None,
            host: None,
            local: None,
            home: None,
            path: None,
        }
    }

    /// How many steps are behind the run; where it stopped, if it did.
    pub fn position(&self) -> (r: usize)
        ensures
            r == self@.position,
    {
        self.position
    }

    /// Why the run stopped, if it did.
    pub fn failure(&self) -> (r: Option<RunError>)
        ensures
            r == self@.failure,
    {
        self.failure
    }

    /// Whether every step was taken and none failed.
    pub fn finished(&self) -> (r: bool)
        ensures
            r == self@.finished(),
    {
        proof {
            use_type_invariant(self);
        }
        self.failure.is_none() && self.position == self.plan.len()
    }

    /// The status to end the process with: zero after a run that finished,
    /// one after a run that stopped, none while a request is open.
    pub fn exit_code(&self) -> (r: Option<i32>)
        ensures
            r == self@.exit_code(),
    {
        proof {
            use_type_invariant(self);
        }
        if self.failure.is_some() {
            Some(1)
        } else if self.position == self.plan.len() {
            Some(0)
        } else {
            None
        }
    }

    /// The context of the run, once it is loaded.
    pub fn host(&self) -> (r: Option<&Environment>)
        ensures
            r.deep_view() == self@.host,
    {
        self.host.as_ref()
    }

    /// The request that the driver is to carry out now, or nothing once the
    /// run has finished or stopped.
    pub fn pending(&self) -> (r: Option<Action>)
        ensures
            match r {
                Some(action) => self@.pending() == Some(action@),
                None => self@.pending() is None,
            },
            self@.wf(),
    {
        proof {
            use_type_invariant(self);
        }
        if self.failure.is_some() || self.position >= self.plan.len() {
            return None;
        }
        let step = self.plan[self.position];
        Some(step.instantiate(&self.host, &self.local))
    }

    /// Takes the driver's report on the pending request and moves the run on,
    /// or stops it.
    pub fn observe(self, event: Event) -> (r: Orchestrator)
        ensures
            r@ == self@.next(event@),
            r@.wf(),
    {
        proof {
            use_type_invariant(&self);
        }
        let Orchestrator { plan, position, strict, failure, host, local, home, path } = self;
        if failure.is_some() || position >= plan.len() {
            return Orchestrator { plan, position, strict, failure, host, local, home, path };
        }
        let step = plan[position];
        let outcome: Result<usize, RunError> = match step {
            Step::Probe(Fact::Home, _) => match event {
                Event::Variable(Some(value)) => {
                    return Orchestrator {
                        plan,
                        position: position + 1,
                        strict,
                        failure,
                        host,
                        local,
                        home: Some(value),
                        path,
                    };
                },
                _ => Err(RunError::Environment(LoadError::Home)),
            },
            Step::Probe(Fact::SearchPath, _) => match event {
                Event::Variable(Some(value)) => {
                    return Orchestrator {
                        plan,
                        position: position + 1,
                        strict,
                        failure,
                        host,
                        local,
                        home,
                        path: Some(value),
                    };
                },
                _ => Err(RunError::Environment(LoadError::SearchPath)),
            },
            Step::Probe(Fact::Release, scope) => match Environment::load(
                home,
                path,
                event.output(),
            ) {
                Ok(env) => {
                    return match scope {
                        Scope::Run => Orchestrator {
                            plan,
                            position: position + 1,
                            strict,
                            failure,
                            host: Some(env),
                            local,
                            home: None,
                            path: None,
                        },
                        Scope::Step => Orchestrator {
                            plan,
                            position: position + 1,
                            strict,
                            failure,
                            host,
                            local: Some(env),
                            home: None,
                            path: None,
                        },
                    };
                },
                Err(cause) => {
                    return Orchestrator {
                        plan,
                        position,
                        strict,
                        failure: Some(RunError::Environment(cause)),
                        host,
                        local,
                        home: None,
                        path: None,
                    };
                },
            },
            _ => match step.instantiate(&host, &local) {
                Action::Run(child) | Action::Feed(child) => match child.settle(&event) {
                    Ok(_) => Ok(1),
                    Err(cause) => Err(cause),
                },
                Action::Write(file) => match file.settle(&event) {
                    Ok(_) => Ok(1),
                    Err(cause) => Err(cause),
                },
                Action::Export(_, _) => match event {
                    Event::Exported => Ok(1),
                    _ => Err(RunError::Step(Operation::Noninteractive)),
                },
                Action::Spawn(child) => match event {
                    Event::Spawned(true) => Ok(1),
                    Event::Spawned(false) => if strict {
                        Err(RunError::MissingStream)
                    } else {
                        Ok(2)
                    },
                    _ => Err(RunError::Step(child.operation)),
                },
                Action::ReadVariable(_) | Action::Capture(_) => Ok(0),
            },
        };
        match outcome {
            Ok(count) => Orchestrator {
                plan,
                position: position + count,
                strict,
                failure,
                host,
                local,
                home,
                path,
            },
            Err(cause) => Orchestrator {
                plan,
                position,
                strict,
                failure: Some(cause),
                host,
                local,
                home: None,
                path: None,
            },
        }
    }
}

/// A run begins well-formed, and the first thing it asks for is a refresh of
/// the package index.
pub proof fn lemma_start(strict: bool)
    ensures
        OrchestratorView::start(strict).wf(),
        OrchestratorView::start(strict).pending() == Some(ActionView::Run(apt_update_view())),
{
}

/// The context of the run is complete with the one release reading that is
/// taken for the run, and no step reads that context before.
pub proof fn lemma_context_before_use(position: int)
    requires
        0 <= position < sequence().len(),
    ensures
        sequence()[context_at() as int] == Step::Probe(Fact::Release, Scope::Run),
        sequence()[position] == Step::Probe(Fact::Release, Scope::Run) ==> position
            == context_at(),
        sequence()[position].reads_host() ==> position > context_at(),
{
}

/// Whatever the driver reports, a well-formed run stays well-formed.
pub proof fn lemma_next_wf(run: OrchestratorView, event: EventView)
    requires
        run.wf(),
    ensures
        run.next(event).wf(),
{
}

/// Whatever the driver reports, and however often, a well-formed run stays
/// well-formed.
pub proof fn lemma_after_wf(run: OrchestratorView, events: Seq<EventView>)
    requires
        run.wf(),
    ensures
        run.after(events).wf(),
    decreases events.len(),
{
    if events.len() > 0 {
        lemma_after_wf(run, events.drop_last());
        lemma_next_wf(run.after(events.drop_last()), events.last());
    }
}

/// A request is open exactly while the run has neither finished nor stopped:
/// those two are the only ends of a run.
pub proof fn lemma_pending_while_running(run: OrchestratorView)
    requires
        run.wf(),
    ensures
        run.pending() is None <==> run.finished() || run.failure is Some,
        !(run.finished() && run.failure is Some),
{
}

/// A report moves the run on by one step, or stops it at the step it is at.
/// The one exception is the lenient pass over the key import, which moves it
/// on by two.
pub proof fn lemma_one_step_at_a_time(run: OrchestratorView, event: EventView)
    requires
        run.wf(),
        run.pending() is Some,
    ensures
        run.next(event).failure is Some ==> run.next(event).position == run.position,
        run.next(event).failure is None ==> {
            ||| run.next(event).position == run.position + 1
            ||| {
                &&& run.next(event).position == run.position + 2
                &&& run.step() == Some(Step::FetchKey)
                &&& !run.strict
                &&& event == EventView::Spawned(false)
            }
        },
{
}

/// A child that did not start and a child that exited with a status other
/// than zero are one failure, under the name of the operation. Only status
/// zero moves the run on.
pub proof fn lemma_child_failures_are_one(run: OrchestratorView, code: Option<i32>)
    requires
        run.wf(),
        run.pending() is Some,
        run.pending()->0 is Run || run.pending()->0 is Feed,
        code != Some(0i32),
    ensures
        run.next(EventView::Exited(Some(0i32))) == run.advanced(1),
        run.next(EventView::Exited(code)) == run.next(EventView::Failed),
        run.next(EventView::Failed).failure is Some,
        run.next(EventView::Failed).failure->0 is Step,
{
}

/// A file that could not be opened stops the run. A file that was opened
/// does not, even where the write to it failed: that failure is for the
/// driver to log.
pub proof fn lemma_write_failure_is_no_failure(run: OrchestratorView, written: bool)
    requires
        run.wf(),
        run.pending() is Some,
        run.pending()->0 is Write,
    ensures
        run.next(EventView::Appended(written)) == run.advanced(1),
        run.next(EventView::Failed) == run.stopped(RunError::FileOpen),
{
}

/// Fail fast: once a report has stopped the run, no later report changes
/// anything, and nothing more is asked of the driver. The steps behind the
/// one that failed are never taken.
pub proof fn lemma_fail_fast(run: OrchestratorView, events: Seq<EventView>, k: int)
    requires
        0 <= k <= events.len(),
        run.after(events.take(k)).failure is Some,
    ensures
        run.after(events) == run.after(events.take(k)),
        run.after(events).pending() is None,
    decreases events.len(),
{
    if k == events.len() {
        assert(events.take(k) =~= events);
    } else {
        assert(events.drop_last().take(k) =~= events.take(k));
        lemma_fail_fast(run, events.drop_last(), k);
    }
}

/// The steps are taken in the order of the sequence: the position of a run
/// never goes back.
pub proof fn lemma_in_order(run: OrchestratorView, events: Seq<EventView>, k: int)
    requires
        run.wf(),
        0 <= k <= events.len(),
    ensures
        run.after(events.take(k)).position <= run.after(events).position,
    decreases events.len(),
{
    if k == events.len() {
        assert(events.take(k) =~= events);
    } else {
        assert(events.drop_last().take(k) =~= events.take(k));
        lemma_in_order(run, events.drop_last(), k);
        lemma_after_wf(run, events.drop_last());
    }
}

/// The key import is asked for only in answer to a key fetch that started
/// with its output stream in hand. After any other report on the fetch the
/// import is not the pending step: a strict run has stopped, for the missing
/// stream where that is what was reported, and a lenient run has gone on to
/// the step behind the import without a failure on record.
pub proof fn lemma_import_needs_stream(run: OrchestratorView, event: EventView)
    requires
        run.wf(),
    ensures
        run.next(event).step() == Some(Step::ImportKey) ==> run.step() == Some(Step::FetchKey)
            && event == EventView::Spawned(true),
        run.next(event).pending() is Some && run.next(event).pending()->0 is Feed
            ==> run.next(event).step() == Some(Step::ImportKey),
        run.step() == Some(Step::FetchKey) && event == EventView::Spawned(false) ==> if run.strict {
            run.next(event) == run.stopped(RunError::MissingStream)
        } else {
            run.next(event) == run.advanced(2) && run.next(event).step() == Some(Step::Refresh)
        },
{
}

/// The context is loaded whole or not at all. Three reports answer the three
/// readings of a load. Where they give a context, the run has moved past
/// the load and holds exactly that context for the scope it was loaded for.
/// Where they do not, the run has stopped for the one cause, and holds no
/// more context than before.
pub proof fn lemma_load_all_or_nothing(
    run: OrchestratorView,
    scope: Scope,
    home: EventView,
    path: EventView,
    release: EventView,
)
    requires
        run.wf(),
        run.step() == Some(Step::Probe(Fact::Home, scope)),
    ensures
        ({
            let end = run.next(home).next(path).next(release);
            match Environment::loaded(home.value(), path.value(), release.output()) {
                Ok(env) => end == run.advanced(3).keeping(scope, env),
                Err(cause) => {
                    &&& end.failure == Some(RunError::Environment(cause))
                    &&& end.host == run.host
                    &&& end.local == run.local
                    &&& end.home is None
                    &&& end.path is None
                },
            }
        }),
{
}

} // verus!
