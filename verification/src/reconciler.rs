//! The reconciliation pass as a state machine. The machine asks for one remote
//! call at a time; the caller makes the call and hands back what came of it.

use crate::annotator::{marker_text, marker_value};
use crate::locator::{
    answer_view, lookup_of, named_resources, target_group_lookup, target_groups, TagLookup,
    TagLookupView,
};
use crate::service::{
    select_tasks, service_views, task_views, tasks_of, ServiceRecord, ServiceView, Task, TaskView,
};
use crate::synchronizer::{
    listing_view, outcome_of, proxy_protocol_setting, setting, sync_outcome, AttributeView,
    Outcome, TargetGroupAttribute,
};
use crate::text::texts;
use vstd::prelude::*;

verus! {

/// How long the controller sleeps between two passes, in seconds.
pub const POLL_INTERVAL_SECONDS: u64 = 10;

/// Where in a pass the machine stands: which answer it is waiting for.
#[derive(Clone, Copy, Debug, PartialEq, Eq, Structural)]
pub enum Phase {
    /// Before the first pass.
    Idle,
    /// Waiting for the snapshot of the services.
    Listing,
    /// Waiting for the target groups of the current service.
    Locating,
    /// Waiting for the attributes of the current target group.
    Describing,
    /// Waiting for the write to the current target group.
    Writing,
    /// Waiting for the patch of the current service.
    Annotating,
    /// Between two passes.
    Sleeping,
}

/// What came of the remote call that the machine asked for.
#[derive(Debug, Clone)]
pub enum Event {
    /// The sleep is over, or the controller has just started.
    Woke,
    /// The snapshot of the services.
    Listed(Vec<ServiceRecord>),
    /// The answer of the tagging service: the name of each resource it found.
    Located(Option<Vec<Option<String>>>),
    /// The attributes of the target group.
    Described(Option<Vec<TargetGroupAttribute>>),
    /// The attribute was written.
    Written,
    /// The service was patched.
    Patched,
    /// The call failed.
    Failed(String),
}

/// An event as plain values.
pub enum EventView {
    Woke,
    Listed(Seq<ServiceView>),
    Located(Option<Seq<Option<Seq<char>>>>),
    Described(Option<Seq<AttributeView>>),
    Written,
    Patched,
    Failed(Seq<char>),
}

impl View for Event {
    type V = EventView;

    open spec fn view(&self) -> EventView {
        match *self {
            Event::Woke => EventView::Woke,
            Event::Listed(services) => EventView::Listed(service_views(services@)),
            Event::Located(answer) => EventView::Located(answer_view(answer)),
            Event::Described(listing) => EventView::Described(listing_view(listing)),
            Event::Written => EventView::Written,
            Event::Patched => EventView::Patched,
            Event::Failed(message) => EventView::Failed(message@),
        }
    }
}

/// The remote call that the machine asks for next.
#[derive(Debug, Clone, PartialEq, Eq)]
pub enum Action {
    /// Take a snapshot of the services.
    ListServices,
    /// Ask the tagging service for the target groups of the service of a task.
    FindTargetGroups { task: Task, lookup: TagLookup },
    /// Ask the load balancer service for the attributes of a target group.
    DescribeAttributes { target_group: String },
    /// Have the load balancer service write one attribute of a target group.
    WriteAttribute { target_group: String, attribute: TargetGroupAttribute },
    /// Patch a service so that its marker annotation has this value.
    PatchService { namespace: String, name: String, marker: String },
    /// Sleep, then report `Woke`.
    Sleep { seconds: u64 },
}

/// An action as plain values.
pub enum ActionView {
    ListServices,
    FindTargetGroups { task: TaskView, lookup: TagLookupView },
    DescribeAttributes { target_group: Seq<char> },
    WriteAttribute { target_group: Seq<char>, attribute: AttributeView },
    PatchService { namespace: Seq<char>, name: Seq<char>, marker: Seq<char> },
    Sleep { seconds: u64 },
}

impl View for Action {
    type V = ActionView;

    open spec fn view(&self) -> ActionView {
        match *self {
            Action::ListServices => ActionView::ListServices,
            Action::FindTargetGroups { task, lookup } => ActionView::FindTargetGroups {
                task: task@,
                lookup: lookup@,
            },
            Action::DescribeAttributes { target_group } => ActionView::DescribeAttributes {
                target_group: target_group@,
            },
            Action::WriteAttribute { target_group, attribute } => ActionView::WriteAttribute {
                target_group: target_group@,
                attribute: attribute@,
            },
            Action::PatchService { namespace, name, marker } => ActionView::PatchService {
                namespace: namespace@,
                name: name@,
                marker: marker@,
            },
            Action::Sleep { seconds } => ActionView::Sleep { seconds },
        }
    }
}

/// Something for the log that a step of the machine brought about.
#[derive(Debug, Clone, PartialEq, Eq)]
pub enum Report {
    /// A service that needs work has no target groups. A warning, not a failure.
    NoTargetGroups { service: String },
    /// The PROXY protocol of a target group was switched.
    Switched { target_group: String, service: String, enabled: bool },
    /// A call for a service failed; the rest of its work is left to the next pass.
    ServiceFailed { service: String, message: String },
    /// The snapshot could not be taken; the pass is left to the next interval.
    PassFailed { message: String },
    /// The event does not answer what the machine had asked for; the pass is
    /// given up.
    Unexpected,
}

/// A report as plain values.
pub enum ReportView {
    NoTargetGroups { service: Seq<char> },
    Switched { target_group: Seq<char>, service: Seq<char>, enabled: bool },
    ServiceFailed { service: Seq<char>, message: Seq<char> },
    PassFailed { message: Seq<char> },
    Unexpected,
}

impl View for Report {
    type V = ReportView;

    open spec fn view(&self) -> ReportView {
        match *self {
            Report::NoTargetGroups { service } => ReportView::NoTargetGroups { service: service@ },
            Report::Switched { target_group, service, enabled } => ReportView::Switched {
                target_group: target_group@,
                service: service@,
                enabled,
            },
            Report::ServiceFailed { service, message } => ReportView::ServiceFailed {
                service: service@,
                message: message@,
            },
            Report::PassFailed { message } => ReportView::PassFailed { message: message@ },
            Report::Unexpected => ReportView::Unexpected,
        }
    }
}

/// How grave a report is.
#[derive(Clone, Copy, Debug, PartialEq, Eq, Structural)]
pub enum Severity {
    /// Something was done.
    Info,
    /// Something is odd, and nothing failed.
    Warning,
    /// Something failed.
    Error,
}

/// How grave each report is. That a service has no target groups is a warning;
/// that a target group was switched is for information; the rest are failures.
pub open spec fn severity_of(report: ReportView) -> Severity {
    match report {
        ReportView::NoTargetGroups { service } => Severity::Warning,
        ReportView::Switched { target_group, service, enabled } => Severity::Info,
        ReportView::ServiceFailed { service, message } => Severity::Error,
        ReportView::PassFailed { message } => Severity::Error,
        ReportView::Unexpected => Severity::Error,
    }
}

impl Report {
    /// How grave the report is.
    pub fn severity(&self) -> (severity: Severity)
        ensures
            severity == severity_of(self@),
    {
        match self {
            Report::NoTargetGroups { .. } => Severity::Warning,
            Report::Switched { .. } => Severity::Info,
            Report::ServiceFailed { .. } => Severity::Error,
            Report::PassFailed { .. } => Severity::Error,
            Report::Unexpected => Severity::Error,
        }
    }
}

/// A report that may be missing, as plain values.
pub open spec fn optional_report_view(report: Option<Report>) -> Option<ReportView> {
    match report {
        Some(r) => Some(r@),
        None => None,
    }
}

/// What one step of the machine hands to the caller.
#[derive(Debug, Clone, PartialEq, Eq)]
pub struct Step {
    /// What to put in the log, if anything.
    pub report: Option<Report>,
    /// The call to make next.
    pub action: Action,
}

/// A step as plain values.
pub struct StepView {
    pub report: Option<ReportView>,
    pub action: ActionView,
}

impl View for Step {
    type V = StepView;

    open spec fn view(&self) -> StepView {
        StepView { report: optional_report_view(self.report), action: self.action@ }
    }
}

/// The state of the machine as plain values.
pub struct MachineView {
    /// Which answer the machine is waiting for.
    pub phase: Phase,
    /// The tasks of this pass that are not finished, the current one first.
    pub pending: Seq<TaskView>,
    /// The target groups of the current service that are not finished, the
    /// current one first.
    pub groups: Seq<Seq<char>>,
}

impl MachineView {
    /// The state before the first pass.
    pub open spec fn initial() -> MachineView {
        MachineView { phase: Phase::Idle, pending: Seq::empty(), groups: Seq::empty() }
    }

    /// There is a current service exactly while the machine works on one, and
    /// a current target group exactly while it works on one.
    pub open spec fn well_formed(self) -> bool {
        match self.phase {
            Phase::Idle | Phase::Listing | Phase::Sleeping => self.pending.len() == 0
                && self.groups.len() == 0,
            Phase::Locating | Phase::Annotating => self.pending.len() > 0 && self.groups.len()
                == 0,
            Phase::Describing | Phase::Writing => self.pending.len() > 0 && self.groups.len() > 0,
        }
    }
}

/// The pass is over, or given up: sleep until the next one.
pub open spec fn resting(report: Option<ReportView>) -> (MachineView, StepView) {
    (
        MachineView { phase: Phase::Sleeping, pending: Seq::empty(), groups: Seq::empty() },
        StepView { report, action: ActionView::Sleep { seconds: POLL_INTERVAL_SECONDS } },
    )
}

/// Take up the first of the pending tasks by asking for its target groups; with
/// no task left, the pass is over.
pub open spec fn taking_up(pending: Seq<TaskView>, report: Option<ReportView>) -> (
    MachineView,
    StepView,
) {
    if pending.len() == 0 {
        resting(report)
    } else {
        (
            MachineView { phase: Phase::Locating, pending, groups: Seq::empty() },
            StepView {
                report,
                action: ActionView::FindTargetGroups {
                    task: pending[0],
                    lookup: lookup_of(pending[0].namespace, pending[0].name),
                },
            },
        )
    }
}

/// Go on with the target groups that are left of the current service by asking
/// for the attributes of the first; with none left, the service is done and
/// its marker annotation is set.
pub open spec fn going_on(
    pending: Seq<TaskView>,
    groups: Seq<Seq<char>>,
    report: Option<ReportView>,
) -> (MachineView, StepView) {
    if groups.len() == 0 {
        (
            MachineView { phase: Phase::Annotating, pending, groups },
            StepView {
                report,
                action: ActionView::PatchService {
                    namespace: pending[0].namespace,
                    name: pending[0].name,
                    marker: marker_text(pending[0].enable),
                },
            },
        )
    } else {
        (
            MachineView { phase: Phase::Describing, pending, groups },
            StepView { report, action: ActionView::DescribeAttributes { target_group: groups[0] } },
        )
    }
}

/// A call for the current service failed: report it and turn to the next task.
pub open spec fn abandoning(state: MachineView, message: Seq<char>) -> (MachineView, StepView) {
    taking_up(
        state.pending.drop_first(),
        Some(ReportView::ServiceFailed { service: state.pending[0].name, message }),
    )
}

/// The machine: from the state and what came of the last call, the next state
/// and the next call.
pub open spec fn transition(state: MachineView, event: EventView) -> (MachineView, StepView) {
    match state.phase {
        Phase::Idle | Phase::Sleeping => match event {
            EventView::Woke => (
                MachineView { phase: Phase::Listing, pending: Seq::empty(), groups: Seq::empty() },
                StepView { report: None, action: ActionView::ListServices },
            ),
            _ => resting(Some(ReportView::Unexpected)),
        },
        Phase::Listing => match event {
            EventView::Listed(services) => taking_up(tasks_of(services), None),
            EventView::Failed(message) => resting(Some(ReportView::PassFailed { message })),
            _ => resting(Some(ReportView::Unexpected)),
        },
        Phase::Locating => match event {
            EventView::Located(answer) => {
                let groups = named_resources(answer);
                if groups.len() == 0 {
                    taking_up(
                        state.pending.drop_first(),
                        Some(ReportView::NoTargetGroups { service: state.pending[0].name }),
                    )
                } else {
                    going_on(state.pending, groups, None)
                }
            },
            EventView::Failed(message) => abandoning(state, message),
            _ => resting(Some(ReportView::Unexpected)),
        },
        Phase::Describing => match event {
            EventView::Described(listing) => match outcome_of(state.pending[0].enable, listing) {
                Outcome::Modified => (
                    MachineView {
                        phase: Phase::Writing,
                        pending: state.pending,
                        groups: state.groups,
                    },
                    StepView {
                        report: None,
                        action: ActionView::WriteAttribute {
                            target_group: state.groups[0],
                            attribute: setting(state.pending[0].enable),
                        },
                    },
                ),
                Outcome::Unchanged => going_on(state.pending, state.groups.drop_first(), None),
            },
            EventView::Failed(message) => abandoning(state, message),
            _ => resting(Some(ReportView::Unexpected)),
        },
        Phase::Writing => match event {
            EventView::Written => going_on(
                state.pending,
                state.groups.drop_first(),
                Some(
                    ReportView::Switched {
                        target_group: state.groups[0],
                        service: state.pending[0].name,
                        enabled: state.pending[0].enable,
                    },
                ),
            ),
            EventView::Failed(message) => abandoning(state, message),
            _ => resting(Some(ReportView::Unexpected)),
        },
        Phase::Annotating => match event {
            EventView::Patched => taking_up(state.pending.drop_first(), None),
            EventView::Failed(message) => abandoning(state, message),
            _ => resting(Some(ReportView::Unexpected)),
        },
    }
}

/// The reconciliation machine.
#[derive(Debug)]
pub struct Reconciler {
    phase: Phase,
    /// The tasks of this pass.
    tasks: Vec<Task>,
    /// How many of them are finished.
    current: usize,
    /// The target groups of the current service.
    groups: Vec<String>,
    /// How many of them are finished.
    group: usize,
}

impl View for Reconciler {
    type V = MachineView;

    closed spec fn view(&self) -> MachineView {
        MachineView {
            phase: self.phase,
            pending: task_views(self.tasks@).skip(self.current as int),
            groups: texts(self.groups@).skip(self.group as int),
        }
    }
}

impl Reconciler {
    #[verifier::type_invariant]
    spec fn sound(self) -> bool {
        &&& self.current <= self.tasks.len()
        &&& self.group <= self.groups.len()
        &&& self@.well_formed()
    }

    /// The machine before the first pass. Its first event is `Woke`.
    pub fn new() -> (machine: Reconciler)
        ensures
            machine@ == MachineView::initial(),
    {
        let machine = Reconciler {
            phase: Phase::Idle,
            tasks: Vec::new(),
            current: 0,
            groups: Vec::new(),
            group: 0,
        };
        assert(machine@.pending =~= Seq::empty());
        assert(machine@.groups =~= Seq::empty());
        machine
    }

    /// Which answer the machine is waiting for.
    pub fn phase(&self) -> (phase: Phase)
        ensures
            phase == self@.phase,
    {
        self.phase
    }

    fn rest(report: Option<Report>) -> (next: (Reconciler, Step))
        ensures
            (next.0@, next.1@) == resting(optional_report_view(report)),
    {
        let machine = Reconciler {
            phase: Phase::Sleeping,
            tasks: Vec::new(),
            current: 0,
            groups: Vec::new(),
            group: 0,
        };
        assert(machine@.pending =~= Seq::empty());
        assert(machine@.groups =~= Seq::empty());
        (machine, Step { report, action: Action::Sleep { seconds: POLL_INTERVAL_SECONDS } })
    }

    fn take_up(tasks: Vec<Task>, current: usize, report: Option<Report>) -> (next: (
        Reconciler,
        Step,
    ))
        requires
            current <= tasks.len(),
        ensures
            (next.0@, next.1@) == taking_up(
                task_views(tasks@).skip(current as int),
                optional_report_view(report),
            ),
    {
        if current < tasks.len() {
            let task = tasks[current].clone();
            let lookup = target_group_lookup(task.namespace.as_str(), task.name.as_str());
            let machine = Reconciler {
                phase: Phase::Locating,
                tasks,
                current,
                groups: Vec::new(),
                group: 0,
            };
            assert(machine@.groups =~= Seq::empty());
            (machine, Step { report, action: Action::FindTargetGroups { task, lookup } })
        } else {
            Self::rest(report)
        }
    }

    fn go_on(
        tasks: Vec<Task>,
        current: usize,
        groups: Vec<String>,
        group: usize,
        report: Option<Report>,
    ) -> (next: (Reconciler, Step))
        requires
            current < tasks.len(),
            group <= groups.len(),
        ensures
            (next.0@, next.1@) == going_on(
                task_views(tasks@).skip(current as int),
                texts(groups@).skip(group as int),
                optional_report_view(report),
            ),
    {
        if group < groups.len() {
            let target_group = groups[group].clone();
            let machine = Reconciler { phase: Phase::Describing, tasks, current, groups, group };
            (machine, Step { report, action: Action::DescribeAttributes { target_group } })
        } else {
            let task = &tasks[current];
            let action = Action::PatchService {
                namespace: task.namespace.clone(),
                name: task.name.clone(),
                marker: marker_value(task.enable),
            };
            let machine = Reconciler { phase: Phase::Annotating, tasks, current, groups, group };
            (machine, Step { report, action })
        }
    }

    fn abandon(tasks: Vec<Task>, current: usize, message: String) -> (next: (Reconciler, Step))
        requires
            current < tasks.len(),
        ensures
            (next.0@, next.1@) == taking_up(
                task_views(tasks@).skip(current as int).drop_first(),
                Some(
                    ReportView::ServiceFailed {
                        service: task_views(tasks@).skip(current as int)[0].name,
                        message: message@,
                    },
                ),
            ),
    {
        let service = tasks[current].name.clone();
        assert(task_views(tasks@).skip(current as int).drop_first() =~= task_views(tasks@).skip(
            current + 1,
        ));
        Self::take_up(tasks, current + 1, Some(Report::ServiceFailed { service, message }))
    }

    /// Takes what came of the last call and says what to do next.
    pub fn step(self, event: Event) -> (next: (Reconciler, Step))
        ensures
            (next.0@, next.1@) == transition(self@, event@),
            next.0@.well_formed(),
    {
        proof {
            use_type_invariant(&self);
        }
        let ghost before = self@;
        let Reconciler { phase, tasks, current, groups, group } = self;
        let next = match phase {
            Phase::Idle | Phase::Sleeping => match event {
                Event::Woke => {
                    let machine = Reconciler {
                        phase: Phase::Listing,
                        tasks: Vec::new(),
                        current: 0,
                        groups: Vec::new(),
                        group: 0,
                    };
                    assert(machine@.pending =~= Seq::empty());
                    assert(machine@.groups =~= Seq::empty());
                    (machine, Step { report: None, action: Action::ListServices })
                },
                _ => Self::rest(Some(Report::Unexpected)),
            },
            Phase::Listing => match event {
                Event::Listed(services) => {
                    let selected = select_tasks(&services);
                    assert(task_views(selected@).skip(0) =~= task_views(selected@));
                    Self::take_up(selected, 0, None)
                },
                Event::Failed(message) => Self::rest(Some(Report::PassFailed { message })),
                _ => Self::rest(Some(Report::Unexpected)),
            },
            Phase::Locating => match event {
                Event::Located(answer) => {
                    let found = target_groups(&answer);
                    if found.len() == 0 {
                        let service = tasks[current].name.clone();
                        assert(before.pending.drop_first() =~= task_views(tasks@).skip(
                            current + 1,
                        ));
                        Self::take_up(
                            tasks,
                            current + 1,
                            Some(Report::NoTargetGroups { service }),
                        )
                    } else {
                        assert(texts(found@).skip(0) =~= texts(found@));
                        Self::go_on(tasks, current, found, 0, None)
                    }
                },
                Event::Failed(message) => Self::abandon(tasks, current, message),
                _ => Self::rest(Some(Report::Unexpected)),
            },
            Phase::Describing => match event {
                Event::Described(listing) => {
                    let enable = tasks[current].enable;
                    match sync_outcome(enable, &listing) {
                        Outcome::Modified => {
                            let action = Action::WriteAttribute {
                                target_group: groups[group].clone(),
                                attribute: proxy_protocol_setting(enable),
                            };
                            let machine = Reconciler {
                                phase: Phase::Writing,
                                tasks,
                                current,
                                groups,
                                group,
                            };
                            (machine, Step { report: None, action })
                        },
                        Outcome::Unchanged => {
                            assert(before.groups.drop_first() =~= texts(groups@).skip(group + 1));
                            Self::go_on(tasks, current, groups, group + 1, None)
                        },
                    }
                },
                Event::Failed(message) => Self::abandon(tasks, current, message),
                _ => Self::rest(Some(Report::Unexpected)),
            },
            Phase::Writing => match event {
                Event::Written => {
                    let report = Report::Switched {
                        target_group: groups[group].clone(),
                        service: tasks[current].name.clone(),
                        enabled: tasks[current].enable,
                    };
                    assert(before.groups.drop_first() =~= texts(groups@).skip(group + 1));
                    Self::go_on(tasks, current, groups, group + 1, Some(report))
                },
                Event::Failed(message) => Self::abandon(tasks, current, message),
                _ => Self::rest(Some(Report::Unexpected)),
            },
            Phase::Annotating => match event {
                Event::Patched => {
                    assert(before.pending.drop_first() =~= task_views(tasks@).skip(current + 1));
                    Self::take_up(tasks, current + 1, None)
                },
                Event::Failed(message) => Self::abandon(tasks, current, message),
                _ => Self::rest(Some(Report::Unexpected)),
            },
        };
        proof {
            use_type_invariant(&next.0);
        }
        next
    }
}

/// The machine keeps its state well formed.
pub proof fn lemma_transition_well_formed(state: MachineView, event: EventView)
    requires
        state.well_formed(),
    ensures
        transition(state, event).0.well_formed(),
{
}

/// A service that needs work and has no target groups is reported with a
/// warning and left for this pass: nothing is written, the service is not
/// patched, nothing counts as failed, and the pass goes on with the next
/// service.
pub proof fn lemma_no_target_groups(state: MachineView, answer: Option<Seq<Option<Seq<char>>>>)
    requires
        state.well_formed(),
        state.phase == Phase::Locating,
        named_resources(answer).len() == 0,
    ensures
        ({
            let (next, step) = transition(state, EventView::Located(answer));
            &&& step.report == Some(ReportView::NoTargetGroups { service: state.pending[0].name })
            &&& severity_of(step.report->0) == Severity::Warning
            &&& (next, step) == taking_up(state.pending.drop_first(), step.report)
            &&& !(step.action is PatchService)
            &&& !(step.action is WriteAttribute)
            &&& !(step.action is DescribeAttributes)
        }),
{
}

/// An attribute is written only after the attributes of the current target
/// group were listed and showed the PROXY protocol in the other state than the
/// service asks for; what is written is the one attribute that switches it,
/// on the target group that was listed.
pub proof fn lemma_write_only_when_out_of_step(state: MachineView, event: EventView)
    requires
        state.well_formed(),
        transition(state, event).1.action is WriteAttribute,
    ensures
        state.phase == Phase::Describing,
        event matches EventView::Described(listing) && outcome_of(state.pending[0].enable, listing)
            == Outcome::Modified,
        transition(state, event).1.action == (ActionView::WriteAttribute {
            target_group: state.groups[0],
            attribute: setting(state.pending[0].enable),
        }),
        transition(state, event).0 == (MachineView { phase: Phase::Writing, ..state }),
{
}

/// A target group that shows the state asked for is left as it is: the machine
/// goes on to the next target group, or to the patch, without a write.
pub proof fn lemma_no_write_when_in_step(state: MachineView, listing: Option<Seq<AttributeView>>)
    requires
        state.well_formed(),
        state.phase == Phase::Describing,
        outcome_of(state.pending[0].enable, listing) == Outcome::Unchanged,
    ensures
        transition(state, EventView::Described(listing)) == going_on(
            state.pending,
            state.groups.drop_first(),
            None,
        ),
        !(transition(state, EventView::Described(listing)).1.action is WriteAttribute),
{
}

/// A service is patched only when its last target group is done, by a write
/// that succeeded or because it showed the state asked for already. The patch
/// goes to that service and sets the marker to what was asked for: `*` after
/// enabling, the empty text after disabling.
pub proof fn lemma_patch_follows_last_target_group(state: MachineView, event: EventView)
    requires
        state.well_formed(),
        transition(state, event).1.action is PatchService,
    ensures
        state.groups.len() == 1,
        (match event {
            EventView::Written => state.phase == Phase::Writing,
            EventView::Described(listing) => state.phase == Phase::Describing && outcome_of(
                state.pending[0].enable,
                listing,
            ) == Outcome::Unchanged,
            _ => false,
        }),
        transition(state, event).1.action == (ActionView::PatchService {
            namespace: state.pending[0].namespace,
            name: state.pending[0].name,
            marker: marker_text(state.pending[0].enable),
        }),
        transition(state, event).0 == (MachineView {
            phase: Phase::Annotating,
            pending: state.pending,
            groups: Seq::empty(),
        }),
{
    assert(state.groups.drop_first().len() == 0 ==> state.groups.drop_first() =~= Seq::empty());
}

/// A failed call costs one service its pass, and no other: the failure is
/// reported with the name of the service, and the machine turns to the next
/// task, or sleeps if there is none.
pub proof fn lemma_failure_stays_with_service(state: MachineView, message: Seq<char>)
    requires
        state.well_formed(),
        state.pending.len() > 0,
    ensures
        transition(state, EventView::Failed(message)) == taking_up(
            state.pending.drop_first(),
            Some(ReportView::ServiceFailed { service: state.pending[0].name, message }),
        ),
{
}

/// Every sleep lasts the same interval, whatever went before, and the next
/// pass starts by taking a new snapshot.
pub proof fn lemma_sleep_is_fixed(state: MachineView, event: EventView)
    requires
        state.well_formed(),
    ensures
        transition(state, event).1.action is Sleep <==> transition(state, event).0.phase
            == Phase::Sleeping,
        transition(state, event).1.action is Sleep ==> transition(state, event).1.action
            == (ActionView::Sleep { seconds: POLL_INTERVAL_SECONDS }),
        transition(state, event).0.phase == Phase::Sleeping ==> transition(
            transition(state, event).0,
            EventView::Woke,
        ).1.action == ActionView::ListServices,
{
}

} // verus!
