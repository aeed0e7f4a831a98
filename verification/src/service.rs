//! Services as the controller sees them, and the work that a pass owes them.

use crate::annotations::Annotations;
use crate::classifier::{classification, classify, Classification};
use vstd::prelude::*;

verus! {

/// One service of the cluster: where it is, what it is called, and its annotations.
#[derive(Debug, Clone)]
pub struct ServiceRecord {
    pub name: String,
    pub namespace: String,
    pub annotations: Annotations,
}

/// A service as plain values.
pub struct ServiceView {
    pub name: Seq<char>,
    pub namespace: Seq<char>,
    pub annotations: Map<Seq<char>, Seq<char>>,
}

impl View for ServiceRecord {
    type V = ServiceView;

    open spec fn view(&self) -> ServiceView {
        ServiceView { name: self.name@, namespace: self.namespace@, annotations: self.annotations@ }
    }
}

/// The services of a snapshot as plain values.
pub open spec fn service_views(services: Seq<ServiceRecord>) -> Seq<ServiceView> {
    services.map_values(|s: ServiceRecord| s@)
}

/// What a pass has to do for one service: switch the PROXY protocol of its
/// target groups on, or off.
#[derive(Debug, PartialEq, Eq)]
pub struct Task {
    pub namespace: String,
    pub name: String,
    pub enable: bool,
}

/// A task as plain values.
pub struct TaskView {
    pub namespace: Seq<char>,
    pub name: Seq<char>,
    pub enable: bool,
}

impl View for Task {
    type V = TaskView;

    open spec fn view(&self) -> TaskView {
        TaskView { namespace: self.namespace@, name: self.name@, enable: self.enable }
    }
}

impl Clone for Task {
    fn clone(&self) -> (copy: Task)
        ensures
            copy@ == self@,
    {
        Task { namespace: self.namespace.clone(), name: self.name.clone(), enable: self.enable }
    }
}

/// A list of tasks as plain values.
pub open spec fn task_views(tasks: Seq<Task>) -> Seq<TaskView> {
    tasks.map_values(|t: Task| t@)
}

/// A task that may be missing, as plain values.
pub open spec fn optional_task_view(task: Option<Task>) -> Option<TaskView> {
    match task {
        Some(t) => Some(t@),
        None => None,
    }
}

/// The task that a service gives rise to, if its classification asks for one.
pub open spec fn task_of(service: ServiceView) -> Option<TaskView> {
    match classification(service.annotations) {
        Classification::EnableRequested => Some(
            TaskView { namespace: service.namespace, name: service.name, enable: true },
        ),
        Classification::DisableRequested => Some(
            TaskView { namespace: service.namespace, name: service.name, enable: false },
        ),
        Classification::Ignore => None,
    }
}

/// The tasks of a snapshot: one for each service that asks for one, in the
/// order of the snapshot.
pub open spec fn tasks_of(services: Seq<ServiceView>) -> Seq<TaskView> {
    services.filter_map(|s: ServiceView| task_of(s))
}

/// Decides what a pass has to do for a service, if anything.
pub fn task_for(service: &ServiceRecord) -> (task: Option<Task>)
    ensures
        optional_task_view(task) == task_of(service@),
{
    match classify(&service.annotations) {
        Classification::EnableRequested => Some(
            Task { namespace: service.namespace.clone(), name: service.name.clone(), enable: true },
        ),
        Classification::DisableRequested => Some(
            Task {
                namespace: service.namespace.clone(),
                name: service.name.clone(),
                enable: false,
            },
        ),
        Classification::Ignore => None,
    }
}

/// Picks from a snapshot the services that a pass has to work on.
pub fn select_tasks(services: &Vec<ServiceRecord>) -> (tasks: Vec<Task>)
    ensures
        task_views(tasks@) == tasks_of(service_views(services@)),
{
    let ghost all = service_views(services@);
    let ghost pick = |s: ServiceView| task_of(s);
    let mut tasks: Vec<Task> = Vec::new();
    let mut i: usize = 0;
    assert(task_views(tasks@) =~= all.take(0).filter_map(pick));
    while i < services.len()
        invariant
            i <= services.len(),
            all == service_views(services@),
            pick == |s: ServiceView| task_of(s),
            task_views(tasks@) == all.take(i as int).filter_map(pick),
        decreases services.len() - i,
    {
        let ghost before = tasks@;
        proof {
            assert(all.take(i + 1).drop_last() =~= all.take(i as int));
            assert(all.take(i + 1).last() == all[i as int]);
        }
        match task_for(&services[i]) {
            Some(task) => {
                tasks.push(task);
                proof {
                    assert(task_views(tasks@) =~= task_views(before) + seq![task@]);
                }
            },
            None => {},
        }
        i += 1;
    }
    assert(all.take(i as int) =~= all);
    tasks
}

} // verus!
