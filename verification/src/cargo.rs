//! Running one build-tool subcommand in each active project, app first.

use vstd::prelude::*;
use vstd::string::StringExecFns;
use crate::error::{Error, ErrorView, Reportable, ReportableView};
use crate::projects::{Projects, ProjectsView};

verus! {

/// The build tool's subcommands that can be sent to the projects.
#[derive(Clone, Copy, Debug, PartialEq, Eq, Structural)]
pub enum Subcommand {
    Build,
    Test,
    Clean,
    Update,
    Doc,
}

impl Subcommand {
    /// The word the build tool knows the subcommand by.
    pub open spec fn spec_name(self) -> Seq<char> {
        match self {
            Subcommand::Build => "build"@,
            Subcommand::Test => "test"@,
            Subcommand::Clean => "clean"@,
            Subcommand::Update => "update"@,
            Subcommand::Doc => "doc"@,
        }
    }

    /// The word the build tool knows the subcommand by.
    pub fn name(&self) -> (word: &'static str)
        ensures
            word@ == self.spec_name(),
    {
        match self {
            Subcommand::Build => "build",
            Subcommand::Test => "test",
            Subcommand::Clean => "clean",
            Subcommand::Update => "update",
            Subcommand::Doc => "doc",
        }
    }
}

/// One of the two roles a directory of the repository can play.
#[derive(Clone, Copy, Debug, PartialEq, Eq, Structural)]
pub enum Project {
    App,
    Client,
}

impl Project {
    /// The role's name, which is also the directory it has by default.
    pub open spec fn spec_name(self) -> Seq<char> {
        match self {
            Project::App => "app"@,
            Project::Client => "client"@,
        }
    }

    /// The role's name, which is also the directory it has by default.
    pub fn name(&self) -> (word: &'static str)
        ensures
            word@ == self.spec_name(),
    {
        match self {
            Project::App => "app",
            Project::Client => "client",
        }
    }
}

/// The build tool's name.
pub const TOOL: &'static str = "cargo";

/// The flag that asks the build tool for an optimized build.
pub const RELEASE_FLAG: &'static str = "--release";

/// One run of the build tool: a subcommand, in a project's directory.
#[derive(Clone, Debug)]
pub struct Invocation {
    pub project: Project,
    pub subcommand: Subcommand,
    /// The working directory of the run.
    pub dir: String,
    /// Whether the release flag is passed on.
    pub release: bool,
}

/// An [`Invocation`] as a mathematical value.
pub struct InvocationView {
    pub project: Project,
    pub subcommand: Subcommand,
    pub dir: Seq<char>,
    pub release: bool,
}

impl View for Invocation {
    type V = InvocationView;

    open spec fn view(&self) -> InvocationView {
        InvocationView {
            project: self.project,
            subcommand: self.subcommand,
            dir: self.dir@,
            release: self.release,
        }
    }
}

impl InvocationView {
    /// The arguments after the tool's name: the subcommand, then the
    /// release flag if it is asked for.
    pub open spec fn args(self) -> Seq<Seq<char>> {
        if self.release {
            seq![self.subcommand.spec_name(), RELEASE_FLAG@]
        } else {
            seq![self.subcommand.spec_name()]
        }
    }
}

impl Invocation {
    /// The arguments after the tool's name: the subcommand, then the
    /// release flag if it is asked for.
    pub fn args(&self) -> (words: Vec<String>)
        ensures
            words.deep_view() == self@.args(),
    {
        let mut words: Vec<String> = Vec::new();
        words.push(String::from_str(self.subcommand.name()));
        if self.release {
            words.push(String::from_str(RELEASE_FLAG));
        }
        words
    }
}

/// How one run of the build tool ended.
#[derive(Clone, Debug)]
pub enum ToolExit {
    /// The tool ran and ended. `code` is its exit status, absent when it
    /// ended without one (stopped by a signal).
    Exited { code: Option<i32> },
    /// The tool did not run: its directory or its executable is missing,
    /// or the system refused to start it.
    NotStarted { cause: String },
}

/// A [`ToolExit`] as a mathematical value.
pub enum ToolExitView {
    Exited { code: Option<i32> },
    NotStarted { cause: Seq<char> },
}

impl View for ToolExit {
    type V = ToolExitView;

    open spec fn view(&self) -> ToolExitView {
        match *self {
            ToolExit::Exited { code } => ToolExitView::Exited { code },
            ToolExit::NotStarted { cause } => ToolExitView::NotStarted { cause: cause@ },
        }
    }
}

impl ToolExitView {
    /// A run succeeded when the tool ended with status zero, and only then.
    pub open spec fn succeeded(self) -> bool {
        self == (ToolExitView::Exited { code: Some(0i32) })
    }
}

impl ToolExit {
    /// A run succeeded when the tool ended with status zero, and only then.
    pub fn succeeded(&self) -> (yes: bool)
        ensures
            yes == self@.succeeded(),
    {
        match self {
            ToolExit::Exited { code: Some(n) } => *n == 0,
            _ => false,
        }
    }
}

/// What became of one project in a run.
#[derive(Clone, Debug)]
pub struct ProjectOutcome {
    pub project: Project,
    pub subcommand: Subcommand,
    /// Absent when the tool succeeded.
    pub failure: Option<Reportable>,
}

/// A [`ProjectOutcome`] as a mathematical value.
pub struct ProjectOutcomeView {
    pub project: Project,
    pub subcommand: Subcommand,
    pub failure: Option<ReportableView>,
}

impl View for ProjectOutcome {
    type V = ProjectOutcomeView;

    open spec fn view(&self) -> ProjectOutcomeView {
        ProjectOutcomeView {
            project: self.project,
            subcommand: self.subcommand,
            failure: match self.failure {
                Some(report) => Some(report@),
                None => None,
            },
        }
    }
}

/// The outcomes of the projects that were tried, in the order of trying.
#[derive(Clone, Debug)]
pub struct AggregateResult {
    pub outcomes: Vec<ProjectOutcome>,
}

impl View for AggregateResult {
    type V = Seq<ProjectOutcomeView>;

    open spec fn view(&self) -> Seq<ProjectOutcomeView> {
        self.outcomes@.map_values(|outcome: ProjectOutcome| outcome@)
    }
}

/// Where a dispatch stands: a run is due, or all is over.
#[derive(Debug)]
pub enum Progress {
    /// Run this next, and come back with how it ended.
    Run(Invocation),
    /// Nothing is left to run.
    Done(AggregateResult),
}

/// A [`Progress`] as a mathematical value.
pub enum ProgressView {
    Run(InvocationView),
    Done(Seq<ProjectOutcomeView>),
}

impl View for Progress {
    type V = ProgressView;

    open spec fn view(&self) -> ProgressView {
        match *self {
            Progress::Run(invocation) => ProgressView::Run(invocation@),
            Progress::Done(result) => ProgressView::Done(result@),
        }
    }
}

/// The runs that one project asks for: one if it has a directory, none
/// if it is absent.
pub open spec fn slot_plan(
    project: Project,
    dir: Option<Seq<char>>,
    subcommand: Subcommand,
    release: bool,
) -> Seq<InvocationView> {
    match dir {
        Some(dir) => seq![InvocationView { project, subcommand, dir, release }],
        None => Seq::empty(),
    }
}

/// The runs that a dispatch asks for, in order: the app, then the client,
/// each only if it is present.
pub open spec fn plan_of(subcommand: Subcommand, projects: ProjectsView, release: bool) -> Seq<
    InvocationView,
> {
    slot_plan(Project::App, projects.app, subcommand, release) + slot_plan(
        Project::Client,
        projects.client,
        subcommand,
        release,
    )
}

/// The failure reported for a run that did not succeed: an I/O failure
/// if the tool did not start, else a tool failure with the exit status;
/// labelled with subcommand and project, about the run's directory.
pub open spec fn failure_of(invocation: InvocationView, exit: ToolExitView) -> ReportableView {
    ReportableView {
        error: match exit {
            ToolExitView::Exited { code } => ErrorView::Tool {
                subcommand: invocation.subcommand,
                project: invocation.project,
                code,
            },
            ToolExitView::NotStarted { cause } => ErrorView::Io { cause },
        },
        label: invocation.subcommand.spec_name() + " "@ + invocation.project.spec_name(),
        subject: invocation.dir,
    }
}

/// What became of a project whose run ended with `exit`.
pub open spec fn outcome_of(invocation: InvocationView, exit: ToolExitView) -> ProjectOutcomeView {
    ProjectOutcomeView {
        project: invocation.project,
        subcommand: invocation.subcommand,
        failure: if exit.succeeded() {
            None
        } else {
            Some(failure_of(invocation, exit))
        },
    }
}

/// Where a dispatch stands when `done` is settled, `plan` is still ahead
/// and `exits` tell how the next runs ended: each run that has an exit is
/// settled in turn; the first failure ends the dispatch, and so does the
/// end of the plan; a run without an exit is due.
pub open spec fn progress_from(
    plan: Seq<InvocationView>,
    exits: Seq<ToolExitView>,
    done: Seq<ProjectOutcomeView>,
) -> ProgressView
    decreases plan.len(),
{
    if plan.len() == 0 {
        ProgressView::Done(done)
    } else if exits.len() == 0 {
        ProgressView::Run(plan[0])
    } else if exits[0].succeeded() {
        progress_from(
            plan.drop_first(),
            exits.drop_first(),
            done.push(outcome_of(plan[0], exits[0])),
        )
    } else {
        ProgressView::Done(done.push(outcome_of(plan[0], exits[0])))
    }
}

/// Where a dispatch of `plan` stands after the runs that `exits` tell of.
pub open spec fn progress_of(plan: Seq<InvocationView>, exits: Seq<ToolExitView>) -> ProgressView {
    progress_from(plan, exits, Seq::empty())
}

/// The exits as mathematical values.
pub open spec fn exits_of(exits: Seq<ToolExit>) -> Seq<ToolExitView> {
    exits.map_values(|exit: ToolExit| exit@)
}

/// The runs as mathematical values.
pub open spec fn invocations_of(plan: Seq<Invocation>) -> Seq<InvocationView> {
    plan.map_values(|invocation: Invocation| invocation@)
}

/// The runs that a dispatch asks for, in order: the app, then the client,
/// each only if it has a directory.
pub fn plan(subcommand: Subcommand, projects: &Projects, release: bool) -> (list: Vec<Invocation>)
    ensures
        invocations_of(list@) == plan_of(subcommand, projects@, release),
{
    let mut list: Vec<Invocation> = Vec::new();
    if let Some(dir) = &projects.app {
        list.push(Invocation { project: Project::App, subcommand, dir: dir.clone(), release });
    }
    if let Some(dir) = &projects.client {
        list.push(Invocation { project: Project::Client, subcommand, dir: dir.clone(), release });
    }
    list
}

/// What became of a project whose run ended with `exit`.
pub fn settle(invocation: &Invocation, exit: &ToolExit) -> (outcome: ProjectOutcome)
    ensures
        outcome@ == outcome_of(invocation@, exit@),
        outcome.failure matches Some(report) ==> report@.label.len() > 0,
{
    proof {
        run_failures_are_labelled(invocation@, exit@);
    }
    let failure = match exit {
        ToolExit::Exited { code: Some(0) } => None,
        ToolExit::Exited { code } => Some(
            Error::Tool {
                subcommand: invocation.subcommand,
                project: invocation.project,
                code: *code,
            },
        ),
        ToolExit::NotStarted { cause } => Some(Error::Io { cause: cause.clone() }),
    };
    let failure = match failure {
        Some(error) => {
            let mut label = String::from_str(invocation.subcommand.name());
            label.append(" ");
            label.append(invocation.project.name());
            Some(Reportable { error, label, subject: invocation.dir.clone() })
        },
        None => None,
    };
    ProjectOutcome { project: invocation.project, subcommand: invocation.subcommand, failure }
}

/// One step of sending `subcommand` to the projects. `exits` tells how
/// the runs made so far ended, in the order they were made; the caller
/// begins with none, makes the run that [`Progress::Run`] names, adds its
/// exit, and asks again until the answer is [`Progress::Done`].
///
/// The app is tried before the client. An absent project is passed over
/// and leaves no outcome. The first failure ends the dispatch: what comes
/// after it in the order is not run.
pub fn dispatch(
    subcommand: Subcommand,
    projects: &Projects,
    release: bool,
    exits: &Vec<ToolExit>,
) -> (progress: Progress)
    ensures
        progress@ == progress_of(plan_of(subcommand, projects@, release), exits_of(exits@)),
{
    let list = plan(subcommand, projects, release);
    let mut outcomes: Vec<ProjectOutcome> = Vec::new();
    let mut i: usize = 0;
    let ghost ahead = plan_of(subcommand, projects@, release);
    let ghost told = exits_of(exits@);
    proof {
        assert(ahead.skip(0) =~= ahead);
        assert(told.skip(0) =~= told);
        assert(outcomes@.map_values(|outcome: ProjectOutcome| outcome@) =~= Seq::empty());
    }
    while i < list.len()
        invariant
            i <= list.len(),
            i <= exits.len(),
            ahead == plan_of(subcommand, projects@, release),
            ahead == invocations_of(list@),
            told == exits_of(exits@),
            progress_of(ahead, told) == progress_from(
                ahead.skip(i as int),
                told.skip(i as int),
                outcomes@.map_values(|outcome: ProjectOutcome| outcome@),
            ),
        decreases list.len() - i,
    {
        let ghost done = outcomes@.map_values(|outcome: ProjectOutcome| outcome@);
        let ghost rest = ahead.skip(i as int);
        proof {
            assert(rest.drop_first() =~= ahead.skip(i + 1));
        }
        if i >= exits.len() {
            let due = &list[i];
            return Progress::Run(
                Invocation {
                    project: due.project,
                    subcommand: due.subcommand,
                    dir: due.dir.clone(),
                    release: due.release,
                },
            );
        }
        let ghost heard = told.skip(i as int);
        proof {
            assert(heard.drop_first() =~= told.skip(i + 1));
        }
        let outcome = settle(&list[i], &exits[i]);
        let failed = outcome.failure.is_some();
        outcomes.push(outcome);
        proof {
            assert(outcomes@.map_values(|outcome: ProjectOutcome| outcome@) =~= done.push(
                outcome_of(rest[0], heard[0]),
            ));
        }
        if failed {
            return Progress::Done(AggregateResult { outcomes });
        }
        i = i + 1;
    }
    Progress::Done(AggregateResult { outcomes })
}

impl AggregateResult {
    /// The first failure among the outcomes, if any project failed.
    pub open spec fn spec_first_failure(outcomes: Seq<ProjectOutcomeView>) -> Option<
        ReportableView,
    >
        decreases outcomes.len(),
    {
        if outcomes.len() == 0 {
            None
        } else if outcomes[0].failure is Some {
            outcomes[0].failure
        } else {
            Self::spec_first_failure(outcomes.drop_first())
        }
    }

    /// The failure that the whole dispatch ends with: that of the first
    /// project that failed, or none if every project tried has succeeded
    /// (also when none was tried).
    pub fn first_failure(&self) -> (found: Option<&Reportable>)
        ensures
            match found {
                Some(report) => Some(report@) == Self::spec_first_failure(self@),
                None => Self::spec_first_failure(self@) is None,
            },
    {
        let mut i: usize = 0;
        proof {
            assert(self@.skip(0) =~= self@);
        }
        while i < self.outcomes.len()
            invariant
                i <= self.outcomes.len(),
                Self::spec_first_failure(self@) == Self::spec_first_failure(self@.skip(i as int)),
            decreases self.outcomes.len() - i,
        {
            proof {
                assert(self@.skip(i as int).drop_first() =~= self@.skip(i + 1));
            }
            match &self.outcomes[i].failure {
                Some(report) => {
                    return Some(report);
                },
                None => {},
            }
            i = i + 1;
        }
        None
    }
}

/// The shape of every dispatch, whatever the plan and the exits.
///
/// While a run is due, every run before it has an exit and succeeded, and
/// the run due is the next of the plan. When the dispatch is over, the
/// outcomes are those of the first runs of the plan in order, every one
/// but the last has succeeded, and either the last has failed or the plan
/// is exhausted. So no run is made after a failure, and none out of order.
pub proof fn dispatch_shape(plan: Seq<InvocationView>, exits: Seq<ToolExitView>)
    ensures
        match progress_of(plan, exits) {
            ProgressView::Run(due) => {
                &&& exits.len() < plan.len()
                &&& due == plan[exits.len() as int]
                &&& forall|k: int| 0 <= k < exits.len() ==> (#[trigger] exits[k]).succeeded()
            },
            ProgressView::Done(outcomes) => {
                &&& outcomes.len() <= plan.len()
                &&& outcomes.len() <= exits.len()
                &&& forall|k: int|
                    0 <= k < outcomes.len() ==> #[trigger] outcomes[k] == outcome_of(
                        plan[k],
                        exits[k],
                    )
                &&& forall|k: int|
                    0 <= k < outcomes.len() - 1 ==> (#[trigger] outcomes[k]).failure is None
                &&& outcomes.len() == plan.len() || outcomes.len() > 0 && outcomes.last().failure
                    is Some
            },
        },
{
    settled_shape(plan, exits, Seq::empty());
    if let ProgressView::Done(outcomes) = progress_of(plan, exits) {
        assert forall|k: int| 0 <= k < outcomes.len() implies #[trigger] outcomes[k]
            == outcome_of(plan[k], exits[k]) by {
            assert(outcomes[0 + k] == outcome_of(plan[k], exits[k]));
        }
    }
}

/// The shape of a dispatch that has `done` behind it: as in
/// [`dispatch_shape`], with the outcomes that follow `done`.
proof fn settled_shape(
    plan: Seq<InvocationView>,
    exits: Seq<ToolExitView>,
    done: Seq<ProjectOutcomeView>,
)
    ensures
        match progress_from(plan, exits, done) {
            ProgressView::Run(due) => {
                &&& exits.len() < plan.len()
                &&& due == plan[exits.len() as int]
                &&& forall|k: int| 0 <= k < exits.len() ==> (#[trigger] exits[k]).succeeded()
            },
            ProgressView::Done(outcomes) => {
                let n = outcomes.len() - done.len();
                &&& 0 <= n <= plan.len()
                &&& n <= exits.len()
                &&& outcomes.subrange(0, done.len() as int) == done
                &&& forall|k: int|
                    0 <= k < n ==> #[trigger] outcomes[done.len() + k] == outcome_of(
                        plan[k],
                        exits[k],
                    )
                &&& forall|k: int| 0 <= k < n - 1 ==> (#[trigger] exits[k]).succeeded()
                &&& n == plan.len() && (forall|k: int|
                    0 <= k < n ==> (#[trigger] exits[k]).succeeded()) || n > 0 && !exits[n
                    - 1].succeeded()
            },
        },
    decreases plan.len(),
{
    if plan.len() > 0 && exits.len() > 0 && exits[0].succeeded() {
        let more = done.push(outcome_of(plan[0], exits[0]));
        let rest = plan.drop_first();
        let heard = exits.drop_first();
        settled_shape(rest, heard, more);
        match progress_from(rest, heard, more) {
            ProgressView::Run(due) => {
                assert forall|k: int| 0 <= k < exits.len() implies (#[trigger] exits[k])
                    .succeeded() by {
                    if k > 0 {
                        assert(heard[k - 1].succeeded());
                    }
                }
            },
            ProgressView::Done(outcomes) => {
                let n = outcomes.len() - done.len();
                assert(outcomes.subrange(0, done.len() as int) =~= more.subrange(
                    0,
                    done.len() as int,
                ));
                assert forall|k: int| 0 <= k < n implies #[trigger] outcomes[done.len() + k]
                    == outcome_of(plan[k], exits[k]) by {
                    if k == 0 {
                        assert(outcomes.subrange(0, more.len() as int)[done.len() as int]
                            == outcomes[done.len() as int]);
                    } else {
                        assert(outcomes[more.len() + (k - 1)] == outcome_of(
                            rest[k - 1],
                            heard[k - 1],
                        ));
                    }
                }
                assert forall|k: int| 0 <= k < n - 1 implies (#[trigger] exits[k])
                    .succeeded() by {
                    if k > 0 {
                        assert(heard[k - 1].succeeded());
                    }
                }
                if forall|k: int| 0 <= k < n - 1 ==> (#[trigger] heard[k]).succeeded() {
                    assert forall|k: int| 0 <= k < n implies (#[trigger] exits[k])
                        .succeeded() by {
                        if k > 0 {
                            assert(heard[k - 1].succeeded());
                        }
                    }
                }
            },
        }
    }
}

/// The app goes first. When both projects are present, the plan is the
/// app's run and then the client's; the app's run is the one due at the
/// beginning, and the client's run is due exactly when the app's run, and
/// no other, has ended and succeeded.
pub proof fn app_runs_before_client(
    subcommand: Subcommand,
    projects: ProjectsView,
    release: bool,
    exits: Seq<ToolExitView>,
)
    requires
        projects.app is Some,
        projects.client is Some,
    ensures
        ({
            let plan = plan_of(subcommand, projects, release);
            let app = InvocationView {
                project: Project::App,
                subcommand,
                dir: projects.app->0,
                release,
            };
            let client = InvocationView {
                project: Project::Client,
                subcommand,
                dir: projects.client->0,
                release,
            };
            &&& plan == seq![app, client]
            &&& progress_of(plan, Seq::empty()) == ProgressView::Run(app)
            &&& progress_of(plan, exits) == ProgressView::Run(client) <==> exits.len() == 1
                && exits[0].succeeded()
        }),
{
    let plan = plan_of(subcommand, projects, release);
    let app = InvocationView { project: Project::App, subcommand, dir: projects.app->0, release };
    let client = InvocationView {
        project: Project::Client,
        subcommand,
        dir: projects.client->0,
        release,
    };
    dispatch_shape(plan, exits);
    if exits.len() == 1 && exits[0].succeeded() {
        let first = outcome_of(plan[0], exits[0]);
        assert(progress_from(plan.drop_first(), exits.drop_first(), Seq::empty().push(first))
            == ProgressView::Run(client));
    }
}

/// Absent projects are passed over. When neither project is present,
/// nothing is run and the dispatch is over at once, with no outcome and
/// no failure, whatever exits are told.
pub proof fn nothing_to_dispatch(
    subcommand: Subcommand,
    projects: ProjectsView,
    release: bool,
    exits: Seq<ToolExitView>,
)
    requires
        projects.app is None,
        projects.client is None,
    ensures
        plan_of(subcommand, projects, release) == Seq::<InvocationView>::empty(),
        progress_of(plan_of(subcommand, projects, release), exits) == ProgressView::Done(
            Seq::empty(),
        ),
        AggregateResult::spec_first_failure(Seq::empty()) is None,
{
}

/// A failure ends the dispatch. When the first run of a plan has not
/// succeeded, the dispatch is over with that one outcome, a failure, and
/// what follows in the plan is never due.
pub proof fn failure_ends_dispatch(plan: Seq<InvocationView>, exits: Seq<ToolExitView>)
    requires
        plan.len() > 0,
        exits.len() > 0,
        !exits[0].succeeded(),
    ensures
        progress_of(plan, exits) == ProgressView::Done(seq![outcome_of(plan[0], exits[0])]),
        outcome_of(plan[0], exits[0]).failure == Some(failure_of(plan[0], exits[0])),
{
}

/// Every failure of a run names its operation: the label of the report
/// is not empty.
pub proof fn run_failures_are_labelled(invocation: InvocationView, exit: ToolExitView)
    ensures
        failure_of(invocation, exit).label.len() > 0,
{
    reveal_strlit(" ");
}

} // verus!
