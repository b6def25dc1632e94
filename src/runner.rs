use vstd::prelude::*;
use crate::env::{opt_view, Config, ConfigError, ConfigView, EnvVars, EnvVarsView};

verus! {

/// A failed call to the remote API: the error's message and, where the error
/// has a source, the source's message.
#[derive(Debug, PartialEq, Eq)]
pub struct Failure {
    pub message: String,
    pub cause: Option<String>,
}

pub struct FailureView {
    pub message: Seq<char>,
    pub cause: Option<Seq<char>>,
}

impl View for Failure {
    type V = FailureView;

    open spec fn view(&self) -> FailureView {
        FailureView { message: self.message@, cause: opt_view(self.cause) }
    }
}

pub open spec fn strings_view(v: Seq<String>) -> Seq<Seq<char>> {
    v.map_values(|s: String| s@)
}

/// What the outside world reports back to the runner.
#[derive(Debug, PartialEq, Eq)]
pub enum Event {
    /// The values of the configuring variables.
    Environment(EnvVars),
    /// The logging sink is installed.
    LoggingInitialized,
    /// The client factory finished.
    ClientBuilt(Result<(), Failure>),
    /// The commit listing finished: the identifiers, most recent first.
    CommitsListed(Result<Vec<String>, Failure>),
}

pub enum EventView {
    Environment(EnvVarsView),
    LoggingInitialized,
    ClientBuilt(Result<(), FailureView>),
    CommitsListed(Result<Seq<Seq<char>>, FailureView>),
}

impl View for Event {
    type V = EventView;

    open spec fn view(&self) -> EventView {
        match self {
            Event::Environment(vars) => EventView::Environment(vars@),
            Event::LoggingInitialized => EventView::LoggingInitialized,
            Event::ClientBuilt(Ok(())) => EventView::ClientBuilt(Ok(())),
            Event::ClientBuilt(Err(f)) => EventView::ClientBuilt(Err(f@)),
            Event::CommitsListed(Ok(shas)) => EventView::CommitsListed(Ok(strings_view(shas@))),
            Event::CommitsListed(Err(f)) => EventView::CommitsListed(Err(f@)),
        }
    }
}

/// The final output of a run: the lines to show, whether they go to the
/// error log rather than to standard output, and the process's exit code.
#[derive(Debug, PartialEq, Eq)]
pub struct Report {
    pub lines: Vec<String>,
    pub is_error: bool,
    pub exit_code: i32,
}

pub struct ReportView {
    pub lines: Seq<Seq<char>>,
    pub is_error: bool,
    pub exit_code: i32,
}

impl View for Report {
    type V = ReportView;

    open spec fn view(&self) -> ReportView {
        ReportView { lines: strings_view(self.lines@), is_error: self.is_error, exit_code: self.exit_code }
    }
}

/// What the runner asks the outside world to do next.
#[derive(Debug, PartialEq, Eq)]
pub enum Action {
    /// Install the logging sink with this filter directive.
    InitLogging(String),
    /// Build the client with this token.
    BuildClient(String),
    /// List the commits of this owner's repository of this name.
    ListCommits(String, String),
    /// Show the report and exit with its code.
    Finish(Report),
    /// The event was not expected now; nothing to do.
    Ignore,
}

pub enum ActionView {
    InitLogging(Seq<char>),
    BuildClient(Seq<char>),
    ListCommits(Seq<char>, Seq<char>),
    Finish(ReportView),
    Ignore,
}

impl View for Action {
    type V = ActionView;

    open spec fn view(&self) -> ActionView {
        match self {
            Action::InitLogging(level) => ActionView::InitLogging(level@),
            Action::BuildClient(token) => ActionView::BuildClient(token@),
            Action::ListCommits(owner, name) => ActionView::ListCommits(owner@, name@),
            Action::Finish(report) => ActionView::Finish(report@),
            Action::Ignore => ActionView::Ignore,
        }
    }
}

/// Where a run stands: which event it waits for, with the configuration while
/// it is still needed.
pub enum Phase {
    AwaitingEnvironment,
    AwaitingLogging(Config),
    AwaitingClient(Config),
    AwaitingCommits,
    Finished,
}

pub enum PhaseView {
    AwaitingEnvironment,
    AwaitingLogging(ConfigView),
    AwaitingClient(ConfigView),
    AwaitingCommits,
    Finished,
}

impl View for Phase {
    type V = PhaseView;

    open spec fn view(&self) -> PhaseView {
        match self {
            Phase::AwaitingEnvironment => PhaseView::AwaitingEnvironment,
            Phase::AwaitingLogging(c) => PhaseView::AwaitingLogging(c@),
            Phase::AwaitingClient(c) => PhaseView::AwaitingClient(c@),
            Phase::AwaitingCommits => PhaseView::AwaitingCommits,
            Phase::Finished => PhaseView::Finished,
        }
    }
}

/// The line for an error, then one for its cause where there is one.
pub open spec fn error_lines(message: Seq<char>, cause: Option<Seq<char>>) -> Seq<Seq<char>> {
    seq!["Error: "@ + message] + match cause {
        Some(c) => seq!["Caused by: "@ + c],
        None => Seq::empty(),
    }
}

pub open spec fn failure_report(f: FailureView, exit_code: i32) -> ReportView {
    ReportView { lines: error_lines(f.message, f.cause), is_error: true, exit_code }
}

/// The header, then each commit identifier on its own line, in the order given.
pub open spec fn commits_report(shas: Seq<Seq<char>>) -> ReportView {
    ReportView { lines: seq!["Commits received"@] + shas, is_error: false, exit_code: 0 }
}

/// A failed listing is reported, but the run still exits with 0.
pub open spec fn listing_report(listed: Result<Seq<Seq<char>>, FailureView>) -> ReportView {
    match listed {
        Ok(shas) => commits_report(shas),
        Err(f) => failure_report(f, 0),
    }
}

/// One transition: the next phase and the action to take. A configuration or
/// client failure ends the run with exit code 1.
pub open spec fn next(s: PhaseView, e: EventView) -> (PhaseView, ActionView) {
    match (s, e) {
        (PhaseView::AwaitingEnvironment, EventView::Environment(vars)) => match vars.load_error() {
            Some(err) => (
                PhaseView::Finished,
                ActionView::Finish(
                    ReportView { lines: error_lines(err.spec_message(), None), is_error: true, exit_code: 1 },
                ),
            ),
            None => (PhaseView::AwaitingLogging(vars.loaded()), ActionView::InitLogging(vars.loaded().log_level)),
        },
        (PhaseView::AwaitingLogging(c), EventView::LoggingInitialized) => (
            PhaseView::AwaitingClient(c),
            ActionView::BuildClient(c.token),
        ),
        (PhaseView::AwaitingClient(c), EventView::ClientBuilt(Ok(()))) => (
            PhaseView::AwaitingCommits,
            ActionView::ListCommits(c.owner, c.name),
        ),
        (PhaseView::AwaitingClient(c), EventView::ClientBuilt(Err(f))) => (
            PhaseView::Finished,
            ActionView::Finish(failure_report(f, 1)),
        ),
        (PhaseView::AwaitingCommits, EventView::CommitsListed(listed)) => (
            PhaseView::Finished,
            ActionView::Finish(listing_report(listed)),
        ),
        _ => (s, ActionView::Ignore),
    }
}

/// The actions that a run starting in `s` takes on `events`.
pub open spec fn run_from(s: PhaseView, events: Seq<EventView>) -> Seq<ActionView>
    decreases events.len(),
{
    if events.len() == 0 {
        Seq::empty()
    } else {
        let (s2, a) = next(s, events[0]);
        seq![a] + run_from(s2, events.drop_first())
    }
}

/// Drives one run of listing a repository's commits. Each event that the
/// outside world reports gives the next action to perform.
pub struct Runner {
    phase: Phase,
}

impl View for Runner {
    type V = PhaseView;

    closed spec fn view(&self) -> PhaseView {
        self.phase@
    }
}

fn error_report(message: String, cause: Option<String>, exit_code: i32) -> (r: Report)
    ensures
        r@ == (ReportView { lines: error_lines(message@, opt_view(cause)), is_error: true, exit_code }),
{
    let mut lines: Vec<String> = Vec::new();
    lines.push(String::from_str("Error: ").concat(message.as_str()));
    match cause {
        Some(c) => {
            lines.push(String::from_str("Caused by: ").concat(c.as_str()));
        },
        None => {},
    }
    assert(strings_view(lines@) =~= error_lines(message@, opt_view(cause)));
    Report { lines, is_error: true, exit_code }
}

fn commit_report(shas: Vec<String>) -> (r: Report)
    ensures
        r@ == commits_report(strings_view(shas@)),
{
    let ghost listed = shas@;
    let mut shas = shas;
    let mut lines: Vec<String> = Vec::new();
    lines.push(String::from_str("Commits received"));
    lines.append(&mut shas);
    assert(strings_view(lines@) =~= seq!["Commits received"@] + strings_view(listed));
    Report { lines, is_error: false, exit_code: 0 }
}

impl Runner {
    /// A runner that waits for the environment.
    pub fn new() -> (r: Runner)
        ensures
            r@ == PhaseView::AwaitingEnvironment,
    {
        Runner { phase: Phase::AwaitingEnvironment }
    }

    pub fn is_finished(&self) -> (r: bool)
        ensures
            r == (self@ is Finished),
    {
        match self.phase {
            Phase::Finished => true,
            _ => false,
        }
    }

    /// Takes one event and returns the action it calls for.
    pub fn step(&mut self, event: Event) -> (a: Action)
        ensures
            (final(self)@, a@) == next(old(self)@, event@),
    {
        let mut phase = Phase::Finished;
        core::mem::swap(&mut phase, &mut self.phase);
        match (phase, event) {
            (Phase::AwaitingEnvironment, Event::Environment(vars)) => match Config::from_vars(vars) {
                Ok(config) => {
                    let level = config.log_level().clone();
                    self.phase = Phase::AwaitingLogging(config);
                    Action::InitLogging(level)
                },
                Err(err) => Action::Finish(error_report(err.message(), None, 1)),
            },
            (Phase::AwaitingLogging(config), Event::LoggingInitialized) => {
                let token = config.github_token();
                self.phase = Phase::AwaitingClient(config);
                Action::BuildClient(token)
            },
            (Phase::AwaitingClient(config), Event::ClientBuilt(Ok(()))) => {
                let owner = config.repo_owner().clone();
                let name = config.repo_name().clone();
                self.phase = Phase::AwaitingCommits;
                Action::ListCommits(owner, name)
            },
            (Phase::AwaitingClient(_), Event::ClientBuilt(Err(f))) => {
                Action::Finish(error_report(f.message, f.cause, 1))
            },
            (Phase::AwaitingCommits, Event::CommitsListed(Ok(shas))) => {
                Action::Finish(commit_report(shas))
            },
            (Phase::AwaitingCommits, Event::CommitsListed(Err(f))) => {
                Action::Finish(error_report(f.message, f.cause, 0))
            },
            (phase, _) => {
                self.phase = phase;
                Action::Ignore
            },
        }
    }
}

pub open spec fn events_view(events: Seq<Event>) -> Seq<EventView> {
    events.map_values(|e: Event| e@)
}

pub open spec fn actions_view(actions: Seq<Action>) -> Seq<ActionView> {
    actions.map_values(|a: Action| a@)
}

/// Feeds `events` in order to a new runner and collects the actions.
pub fn run(events: Vec<Event>) -> (r: Vec<Action>)
    ensures
        actions_view(r@) == run_from(PhaseView::AwaitingEnvironment, events_view(events@)),
{
    let ghost all = events_view(events@);
    let mut events = events;
    let mut runner = Runner::new();
    let mut actions: Vec<Action> = Vec::new();
    while events.len() > 0
        invariant
            actions_view(actions@) + run_from(runner@, events_view(events@)) == run_from(
                PhaseView::AwaitingEnvironment,
                all,
            ),
        decreases events.len(),
    {
        let ghost before = runner@;
        let ghost rest = events_view(events@);
        let event = events.remove(0);
        assert(events_view(events@) =~= rest.drop_first());
        let action = runner.step(event);
        let ghost done = actions@;
        let ghost taken = action@;
        actions.push(action);
        assert(actions_view(actions@) =~= actions_view(done).push(taken));
        assert(run_from(before, rest) == seq![taken] + run_from(runner@, events_view(events@)));
        assert(actions_view(actions@) + run_from(runner@, events_view(events@)) =~= actions_view(
            done,
        ) + run_from(before, rest));
    }
    assert(events_view(events@) =~= Seq::<EventView>::empty());
    assert(actions_view(actions@) + run_from(runner@, Seq::empty()) =~= actions_view(actions@));
    actions
}

/// The events of a run in which logging and the client come up: the
/// environment, then the listing's outcome.
pub open spec fn run_events(vars: EnvVarsView, listed: Result<Seq<Seq<char>>, FailureView>) -> Seq<
    EventView,
> {
    seq![
        EventView::Environment(vars),
        EventView::LoggingInitialized,
        EventView::ClientBuilt(Ok(())),
        EventView::CommitsListed(listed),
    ]
}

/// Once a run is finished, every further event is ignored.
pub proof fn lemma_finished_ignores(events: Seq<EventView>)
    ensures
        run_from(PhaseView::Finished, events).len() == events.len(),
        forall|i: int|
            0 <= i < events.len() ==> #[trigger] run_from(PhaseView::Finished, events)[i]
                is Ignore,
    decreases events.len(),
{
    if events.len() > 0 {
        lemma_finished_ignores(events.drop_first());
        let acts = run_from(PhaseView::Finished, events);
        let tail = run_from(PhaseView::Finished, events.drop_first());
        assert(acts == seq![ActionView::Ignore] + tail);
        assert forall|i: int| 0 <= i < events.len() implies #[trigger] acts[i] is Ignore by {
            if i > 0 {
                assert(acts[i] == tail[i - 1]);
            }
        }
    }
}

/// Without `REPO_OWNER` (the token and the name being set) loading fails with
/// the owner's error, the run ends with exit code 1, and whatever follows, no
/// client is ever built.
pub proof fn lemma_missing_owner_builds_no_client(vars: EnvVarsView, rest: Seq<EventView>)
    requires
        vars.github_token is Some,
        vars.repo_name is Some,
        vars.repo_owner is None,
    ensures
        vars.load_error() == Some(ConfigError::MissingOwner),
        run_from(PhaseView::AwaitingEnvironment, seq![EventView::Environment(vars)] + rest)[0]
            == ActionView::Finish(
            ReportView {
                lines: error_lines(ConfigError::MissingOwner.spec_message(), None),
                is_error: true,
                exit_code: 1,
            },
        ),
        forall|i: int|
            0 <= i < rest.len() + 1 ==> !(#[trigger] run_from(
                PhaseView::AwaitingEnvironment,
                seq![EventView::Environment(vars)] + rest,
            )[i] is BuildClient),
{
    let events = seq![EventView::Environment(vars)] + rest;
    assert(events[0] == EventView::Environment(vars));
    assert(events.drop_first() =~= rest);
    lemma_finished_ignores(rest);
    let acts = run_from(PhaseView::AwaitingEnvironment, events);
    let tail = run_from(PhaseView::Finished, rest);
    assert(acts == seq![acts[0]] + tail);
    assert forall|i: int| 0 <= i < rest.len() + 1 implies !(#[trigger] acts[i] is BuildClient) by {
        if i > 0 {
            assert(acts[i] == tail[i - 1]);
        }
    }
}

/// A run whose environment loads takes exactly these steps: install logging
/// at the configured level, build the client with the token, list the
/// configured repository's commits, and finish with the listing's report
/// (the identifiers in the order listed, or the error with exit code 0).
pub proof fn lemma_complete_run(vars: EnvVarsView, listed: Result<Seq<Seq<char>>, FailureView>)
    requires
        vars.load_error() is None,
    ensures
        run_from(PhaseView::AwaitingEnvironment, run_events(vars, listed)) == seq![
            ActionView::InitLogging(vars.loaded().log_level),
            ActionView::BuildClient(vars.loaded().token),
            ActionView::ListCommits(vars.loaded().owner, vars.loaded().name),
            ActionView::Finish(listing_report(listed)),
        ],
{
    let c = vars.loaded();
    let e0 = run_events(vars, listed);
    let e1 = e0.drop_first();
    let e2 = e1.drop_first();
    let e3 = e2.drop_first();
    let e4 = e3.drop_first();
    assert(e1 =~= seq![EventView::LoggingInitialized, EventView::ClientBuilt(Ok(())), EventView::CommitsListed(listed)]);
    assert(e2 =~= seq![EventView::ClientBuilt(Ok(())), EventView::CommitsListed(listed)]);
    assert(e3 =~= seq![EventView::CommitsListed(listed)]);
    assert(e4 =~= Seq::<EventView>::empty());
    let r4 = run_from(PhaseView::Finished, e4);
    let r3 = run_from(PhaseView::AwaitingCommits, e3);
    let r2 = run_from(PhaseView::AwaitingClient(c), e2);
    let r1 = run_from(PhaseView::AwaitingLogging(c), e1);
    let r0 = run_from(PhaseView::AwaitingEnvironment, e0);
    assert(r4 == Seq::<ActionView>::empty());
    assert(r3 == seq![ActionView::Finish(listing_report(listed))] + r4);
    assert(r2 == seq![ActionView::ListCommits(c.owner, c.name)] + r3);
    assert(r1 == seq![ActionView::BuildClient(c.token)] + r2);
    assert(r0 == seq![ActionView::InitLogging(c.log_level)] + r1);
    assert(r0 =~= seq![
        ActionView::InitLogging(c.log_level),
        ActionView::BuildClient(c.token),
        ActionView::ListCommits(c.owner, c.name),
        ActionView::Finish(listing_report(listed)),
    ]);
}

/// What a run shows depends on the listing alone: two runs that load their
/// environments and get the same listing finish with the same report,
/// however else they differ, and carry nothing from one to the other.
pub proof fn lemma_same_listing_same_report(
    vars1: EnvVarsView,
    vars2: EnvVarsView,
    listed: Result<Seq<Seq<char>>, FailureView>,
)
    requires
        vars1.load_error() is None,
        vars2.load_error() is None,
    ensures
        run_from(PhaseView::AwaitingEnvironment, run_events(vars1, listed)).last() == run_from(
            PhaseView::AwaitingEnvironment,
            run_events(vars2, listed),
        ).last(),
{
    lemma_complete_run(vars1, listed);
    lemma_complete_run(vars2, listed);
}

} // verus!
