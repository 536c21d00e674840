//! The catalog of application modules and the background workers they
//! contribute, and the resolution of a worker chosen on the command line.

use vstd::prelude::*;

use crate::text::str_equal;

verus! {

/// The background workers the queue module contributes.
#[derive(Clone, Copy, Debug, PartialEq, Eq, Structural)]
pub enum WorkerKind {
    VisibilityTimeoutProcessor,
    ExpiredMessageCleaner,
    DeadLetterMessageCleaner,
    StateMetricsCollector,
}

pub struct WorkerSpec {
    pub name: Seq<char>,
    pub kind: WorkerKind,
}

pub struct ModuleSpec {
    pub name: Seq<char>,
    pub has_api: bool,
    pub workers: Seq<WorkerSpec>,
}

/// A worker a module contributes, known by its name.
#[derive(Clone, Copy, Debug)]
pub struct WorkerDefinition {
    name: &'static str,
    kind: WorkerKind,
}

impl View for WorkerDefinition {
    type V = WorkerSpec;

    closed spec fn view(&self) -> WorkerSpec {
        WorkerSpec { name: self.name@, kind: self.kind }
    }
}

impl WorkerDefinition {
    pub fn new(name: &'static str, kind: WorkerKind) -> (r: Self)
        ensures
            r@ == (WorkerSpec { name: name@, kind }),
    {
        WorkerDefinition { name, kind }
    }

    pub fn name(&self) -> (r: &'static str)
        ensures
            r@ == self@.name,
    {
        self.name
    }

    pub fn kind(&self) -> (r: WorkerKind)
        ensures
            r == self@.kind,
    {
        self.kind
    }
}

pub open spec fn worker_views(workers: Seq<WorkerDefinition>) -> Seq<WorkerSpec> {
    workers.map_values(|w: WorkerDefinition| w@)
}

/// An application module: its name, whether it serves HTTP routes, and its workers.
#[derive(Clone, Debug)]
pub struct ModuleDefinition {
    name: &'static str,
    has_api: bool,
    workers: Vec<WorkerDefinition>,
}

impl View for ModuleDefinition {
    type V = ModuleSpec;

    closed spec fn view(&self) -> ModuleSpec {
        ModuleSpec { name: self.name@, has_api: self.has_api, workers: worker_views(self.workers@) }
    }
}

/// Index of the first worker of `workers` named `name`, if any.
pub open spec fn is_first_named_worker(workers: Seq<WorkerSpec>, name: Seq<char>, r: Option<int>) -> bool {
    match r {
        Some(i) => 0 <= i < workers.len() && workers[i].name == name
            && forall|j: int| 0 <= j < i ==> (#[trigger] workers[j]).name != name,
        None => forall|j: int| 0 <= j < workers.len() ==> (#[trigger] workers[j]).name != name,
    }
}

impl ModuleDefinition {
    pub fn new(name: &'static str) -> (r: Self)
        ensures
            r@ == (ModuleSpec { name: name@, has_api: false, workers: Seq::empty() }),
    {
        let r = ModuleDefinition { name, has_api: false, workers: Vec::new() };
        assert(worker_views(r.workers@) =~= Seq::empty());
        r
    }

    pub fn with_api(self) -> (r: Self)
        ensures
            r@ == (ModuleSpec { has_api: true, ..self@ }),
    {
        ModuleDefinition { has_api: true, ..self }
    }

    pub fn with_workers(self, workers: Vec<WorkerDefinition>) -> (r: Self)
        ensures
            r@ == (ModuleSpec { workers: worker_views(workers@), ..self@ }),
    {
        ModuleDefinition { workers, ..self }
    }

    pub fn name(&self) -> (r: &'static str)
        ensures
            r@ == self@.name,
    {
        self.name
    }

    pub fn has_api(&self) -> (r: bool)
        ensures
            r == self@.has_api,
    {
        self.has_api
    }

    pub fn workers(&self) -> (r: &[WorkerDefinition])
        ensures
            worker_views(r@) == self@.workers,
    {
        self.workers.as_slice()
    }

    /// The first of the module's workers with the given name.
    pub fn worker(&self, name: &str) -> (r: Option<WorkerDefinition>)
        ensures
            exists|k: Option<int>| #[trigger] is_first_named_worker(self@.workers, name@, k)
                && match k {
                    Some(i) => r matches Some(found) && found@ == self@.workers[i],
                    None => r is None,
                },
    {
        let mut i: usize = 0;
        while i < self.workers.len()
            invariant
                0 <= i <= self.workers@.len(),
                forall|j: int| 0 <= j < i ==> (#[trigger] self@.workers[j]).name != name@,
            decreases self.workers@.len() - i,
        {
            let w = self.workers[i];
            if str_equal(w.name, name) {
                assert(is_first_named_worker(self@.workers, name@, Some(i as int)));
                return Some(w);
            }
            i = i + 1;
        }
        assert(is_first_named_worker(self@.workers, name@, None));
        None
    }
}

pub open spec fn queue_worker_specs() -> Seq<WorkerSpec> {
    seq![
        WorkerSpec { name: "visibility-timeout-processor"@, kind: WorkerKind::VisibilityTimeoutProcessor },
        WorkerSpec { name: "expired-message-cleaner"@, kind: WorkerKind::ExpiredMessageCleaner },
        WorkerSpec { name: "dead-letter-message-cleaner"@, kind: WorkerKind::DeadLetterMessageCleaner },
        WorkerSpec { name: "state-metrics-collector"@, kind: WorkerKind::StateMetricsCollector },
    ]
}

/// The modules of the application, in registration order.
pub open spec fn catalog_spec() -> Seq<ModuleSpec> {
    seq![ModuleSpec { name: "queue"@, has_api: true, workers: queue_worker_specs() }]
}

pub open spec fn module_views(modules: Seq<ModuleDefinition>) -> Seq<ModuleSpec> {
    modules.map_values(|m: ModuleDefinition| m@)
}

/// The application's module catalog.
pub fn module_catalog() -> (r: Vec<ModuleDefinition>)
    ensures
        module_views(r@) == catalog_spec(),
{
    let mut workers: Vec<WorkerDefinition> = Vec::new();
    workers.push(WorkerDefinition::new("visibility-timeout-processor", WorkerKind::VisibilityTimeoutProcessor));
    workers.push(WorkerDefinition::new("expired-message-cleaner", WorkerKind::ExpiredMessageCleaner));
    workers.push(WorkerDefinition::new("dead-letter-message-cleaner", WorkerKind::DeadLetterMessageCleaner));
    workers.push(WorkerDefinition::new("state-metrics-collector", WorkerKind::StateMetricsCollector));
    assert(worker_views(workers@) =~= queue_worker_specs());
    let queue = ModuleDefinition::new("queue").with_api().with_workers(workers);
    let mut catalog: Vec<ModuleDefinition> = Vec::new();
    catalog.push(queue);
    assert(module_views(catalog@) =~= catalog_spec());
    catalog
}

/// Names of the modules that contribute at least one worker, in catalog order.
pub open spec fn worker_module_names_of(modules: Seq<ModuleSpec>) -> Seq<Seq<char>>
    decreases modules.len(),
{
    if modules.len() == 0 {
        Seq::empty()
    } else {
        let earlier = worker_module_names_of(modules.drop_last());
        if modules.last().workers.len() > 0 {
            earlier.push(modules.last().name)
        } else {
            earlier
        }
    }
}

pub open spec fn name_views(names: Seq<&'static str>) -> Seq<Seq<char>> {
    names.map_values(|s: &'static str| s@)
}

/// Names of the modules of `modules` that contribute at least one worker.
pub fn worker_module_names_in(modules: &[ModuleDefinition]) -> (r: Vec<&'static str>)
    ensures
        name_views(r@) == worker_module_names_of(module_views(modules@)),
{
    let ghost views = module_views(modules@);
    let mut names: Vec<&'static str> = Vec::new();
    let mut i: usize = 0;
    while i < modules.len()
        invariant
            views == module_views(modules@),
            0 <= i <= modules@.len(),
            name_views(names@) == worker_module_names_of(views.take(i as int)),
        decreases modules@.len() - i,
    {
        proof {
            assert(views.take(i + 1).drop_last() =~= views.take(i as int));
        }
        if modules[i].workers.len() > 0 {
            names.push(modules[i].name);
            proof {
                assert(name_views(names@) =~= name_views(names@.drop_last()).push(views[i as int].name));
            }
        }
        i = i + 1;
    }
    proof {
        assert(views.take(i as int) =~= views);
    }
    names
}

/// Modules that contribute at least one runnable worker.
pub fn worker_module_names() -> (r: Vec<&'static str>)
    ensures
        name_views(r@) == worker_module_names_of(catalog_spec()),
{
    let catalog = module_catalog();
    worker_module_names_in(catalog.as_slice())
}

/// Index of the first module named `name` that contributes workers, if any.
pub open spec fn is_first_worker_module(modules: Seq<ModuleSpec>, name: Seq<char>, r: Option<int>) -> bool {
    match r {
        Some(i) => 0 <= i < modules.len() && modules[i].name == name && modules[i].workers.len() > 0
            && forall|j: int| 0 <= j < i ==> !((#[trigger] modules[j]).name == name && modules[j].workers.len() > 0),
        None => forall|j: int| 0 <= j < modules.len() ==> !((#[trigger] modules[j]).name == name && modules[j].workers.len() > 0),
    }
}

/// Finds the first module with the given name that contributes workers.
pub fn find_worker_module(modules: &[ModuleDefinition], name: &str) -> (r: Option<usize>)
    ensures
        is_first_worker_module(module_views(modules@), name@, match r { Some(i) => Some(i as int), None => None }),
{
    let ghost views = module_views(modules@);
    let mut i: usize = 0;
    while i < modules.len()
        invariant
            views == module_views(modules@),
            0 <= i <= modules@.len(),
            forall|j: int| 0 <= j < i ==> !((#[trigger] views[j]).name == name@ && views[j].workers.len() > 0),
        decreases modules@.len() - i,
    {
        if str_equal(modules[i].name, name) && modules[i].workers.len() > 0 {
            return Some(i);
        }
        i = i + 1;
    }
    None
}

/// Names joined with ", ".
pub open spec fn joined(names: Seq<Seq<char>>) -> Seq<char>
    decreases names.len(),
{
    if names.len() == 0 {
        Seq::empty()
    } else if names.len() == 1 {
        names[0]
    } else {
        joined(names.drop_last()) + ", "@ + names.last()
    }
}

/// How a list of names is shown in an error: joined with ", ", or `<none>`.
pub open spec fn displayed_names(names: Seq<Seq<char>>) -> Seq<char> {
    if names.len() == 0 {
        "<none>"@
    } else {
        joined(names)
    }
}

/// Shows a list of names in an error message.
pub fn display_names(names: &[&'static str]) -> (r: String)
    ensures
        r@ == displayed_names(name_views(names@)),
{
    let ghost views = name_views(names@);
    if names.len() == 0 {
        return "<none>".to_owned();
    }
    let mut shown = names[0].to_owned();
    proof {
        assert(views.take(1).drop_last() =~= Seq::<Seq<char>>::empty());
    }
    let mut i: usize = 1;
    while i < names.len()
        invariant
            views == name_views(names@),
            1 <= i <= names@.len(),
            shown@ == joined(views.take(i as int)),
        decreases names@.len() - i,
    {
        proof {
            assert(views.take(i + 1).drop_last() =~= views.take(i as int));
        }
        shown.append(", ");
        shown.append(names[i]);
        i = i + 1;
    }
    proof {
        assert(views.take(i as int) =~= views);
    }
    shown
}

/// Why a worker selection was refused.
#[derive(Debug)]
pub enum WorkerResolutionError {
    UnknownModule { module: String, available: String },
    UnknownWorker { module: String, name: String, available: String },
}

impl WorkerResolutionError {
    /// The human-readable description of the error.
    pub fn message(&self) -> (r: String)
        ensures
            r@ == (match *self {
                WorkerResolutionError::UnknownModule { module, available } =>
                    "unknown worker module `"@ + module@ + "`; available modules: "@ + available@,
                WorkerResolutionError::UnknownWorker { module, name, available } =>
                    "unknown worker `"@ + name@ + "` in module `"@ + module@ + "`; available workers: "@ + available@,
            }),
    {
        match self {
            WorkerResolutionError::UnknownModule { module, available } => {
                let mut m = "unknown worker module `".to_owned();
                m.append(module.as_str());
                m.append("`; available modules: ");
                m.append(available.as_str());
                m
            },
            WorkerResolutionError::UnknownWorker { module, name, available } => {
                let mut m = "unknown worker `".to_owned();
                m.append(name.as_str());
                m.append("` in module `");
                m.append(module.as_str());
                m.append("`; available workers: ");
                m.append(available.as_str());
                m
            },
        }
    }
}

/// A canonical worker selection.
#[derive(Clone, Copy, Debug)]
pub struct ResolvedWorker {
    module_name: &'static str,
    worker_name: &'static str,
    kind: WorkerKind,
}

impl ResolvedWorker {
    pub closed spec fn spec_module_name(&self) -> Seq<char> {
        self.module_name@
    }

    pub closed spec fn spec_worker_name(&self) -> Seq<char> {
        self.worker_name@
    }

    pub closed spec fn spec_kind(&self) -> WorkerKind {
        self.kind
    }

    pub fn module_name(&self) -> (r: &'static str)
        ensures
            r@ == self.spec_module_name(),
    {
        self.module_name
    }

    pub fn worker_name(&self) -> (r: &'static str)
        ensures
            r@ == self.spec_worker_name(),
    {
        self.worker_name
    }

    pub fn kind(&self) -> (r: WorkerKind)
        ensures
            r == self.spec_kind(),
    {
        self.kind
    }
}

pub open spec fn worker_names_of(workers: Seq<WorkerSpec>) -> Seq<Seq<char>> {
    workers.map_values(|w: WorkerSpec| w.name)
}

fn worker_names_of_module(module: &ModuleDefinition) -> (r: Vec<&'static str>)
    ensures
        name_views(r@) == worker_names_of(module@.workers),
{
    let mut names: Vec<&'static str> = Vec::new();
    let mut i: usize = 0;
    while i < module.workers.len()
        invariant
            0 <= i <= module.workers@.len(),
            name_views(names@) =~= worker_names_of(module@.workers).take(i as int),
        decreases module.workers@.len() - i,
    {
        let ghost before = names@;
        names.push(module.workers[i].name);
        proof {
            assert(module@.workers[i as int] == module.workers@[i as int]@);
            assert(name_views(names@) =~= name_views(before).push(module.workers@[i as int].name@));
            assert(worker_names_of(module@.workers).take(i + 1) =~= worker_names_of(module@.workers).take(i as int).push(module@.workers[i as int].name));
        }
        i = i + 1;
    }
    names
}

fn unknown_module(name: &str) -> (r: WorkerResolutionError)
    ensures
        r == (WorkerResolutionError::UnknownModule {
            module: r->UnknownModule_module,
            available: r->UnknownModule_available,
        }),
        r->UnknownModule_module@ == name@,
        r->UnknownModule_available@ == displayed_names(worker_module_names_of(catalog_spec())),
{
    let available = worker_module_names();
    WorkerResolutionError::UnknownModule { module: name.to_owned(), available: display_names(available.as_slice()) }
}

/// The worker names of one worker-contributing module.
pub fn worker_names(module: &str) -> (r: Result<Vec<&'static str>, WorkerResolutionError>)
    ensures
        exists|k: Option<int>| #[trigger] is_first_worker_module(catalog_spec(), module@, k) && match k {
            Some(i) => r matches Ok(names) && name_views(names@) == worker_names_of(catalog_spec()[i].workers),
            None => r matches Err(WorkerResolutionError::UnknownModule { module: m, available })
                && m@ == module@ && available@ == displayed_names(worker_module_names_of(catalog_spec())),
        },
{
    let catalog = module_catalog();
    match find_worker_module(catalog.as_slice(), module) {
        Some(i) => {
            let names = worker_names_of_module(&catalog[i]);
            assert(is_first_worker_module(catalog_spec(), module@, Some(i as int)));
            Ok(names)
        },
        None => {
            assert(is_first_worker_module(catalog_spec(), module@, None));
            Err(unknown_module(module))
        },
    }
}

/// Resolves a module name and a worker name into a canonical worker selection.
pub fn resolve_worker(module: &str, worker: &str) -> (r: Result<ResolvedWorker, WorkerResolutionError>)
    ensures
        exists|k: Option<int>| #[trigger] is_first_worker_module(catalog_spec(), module@, k) && match k {
            None => r matches Err(WorkerResolutionError::UnknownModule { module: m, available })
                && m@ == module@ && available@ == displayed_names(worker_module_names_of(catalog_spec())),
            Some(i) => exists|w: Option<int>| #[trigger] is_first_named_worker(catalog_spec()[i].workers, worker@, w) && match w {
                Some(j) => r matches Ok(res) && res.spec_module_name() == catalog_spec()[i].name
                    && res.spec_worker_name() == catalog_spec()[i].workers[j].name
                    && res.spec_kind() == catalog_spec()[i].workers[j].kind,
                None => r matches Err(WorkerResolutionError::UnknownWorker { module: m, name, available })
                    && m@ == module@ && name@ == worker@
                    && available@ == displayed_names(worker_names_of(catalog_spec()[i].workers)),
            },
        },
{
    let catalog = module_catalog();
    let i = match find_worker_module(catalog.as_slice(), module) {
        Some(i) => i,
        None => {
            assert(is_first_worker_module(catalog_spec(), module@, None));
            return Err(unknown_module(module));
        },
    };
    assert(is_first_worker_module(catalog_spec(), module@, Some(i as int)));
    let definition = &catalog[i];
    match definition.worker(worker) {
        Some(w) => Ok(ResolvedWorker { module_name: definition.name, worker_name: w.name, kind: w.kind }),
        None => {
            let names = worker_names_of_module(definition);
            Err(WorkerResolutionError::UnknownWorker {
                module: module.to_owned(),
                name: worker.to_owned(),
                available: display_names(names.as_slice()),
            })
        },
    }
}

} // verus!
