use proc_macro2::Span;
use vstd::prelude::*;

verus! {

/// A position tag attached by the front-end; opaque to the checks.
#[verifier::external_type_specification]
#[verifier::external_body]
pub struct ExSpan(proc_macro2::Span);

/// An identifier together with the place where it was written.
pub struct Name {
    pub text: String,
    pub span: Span,
}

impl Name {
    /// A copy of this name, text and position alike.
    pub fn duplicate(&self) -> (r: Name)
        ensures
            r == *self,
    {
        Name { text: self.text.clone(), span: self.span }
    }
}

/// How a task reaches a resource.
#[derive(Clone, Copy, Debug, PartialEq, Eq, Structural)]
pub enum Access {
    /// Read-write access, protected by the resource's ceiling when contended.
    Exclusive,
    /// Read-only access, taken without any critical section.
    Shared,
}

impl Access {
    pub fn is_exclusive(&self) -> (r: bool)
        ensures
            r == (*self == Access::Exclusive),
    {
        match self {
            Access::Exclusive => true,
            Access::Shared => false,
        }
    }

    pub fn is_shared(&self) -> (r: bool)
        ensures
            r == (*self == Access::Shared),
    {
        match self {
            Access::Exclusive => false,
            Access::Shared => true,
        }
    }
}

/// One resource named by a task, and the way the task uses it.
pub struct ResourceAccess {
    pub resource: Name,
    pub access: Access,
}

/// A named piece of shared state: either statically initialised, or late,
/// in which case the initializer supplies its value at boot.
pub struct Resource {
    pub name: Name,
    pub late: bool,
}

/// What kind of task a task is, with what belongs to that kind alone.
pub enum TaskKind {
    /// Runs once at boot, before every other task, without a priority.
    Init {
        /// The late resources whose values it hands back.
        produces: Vec<Name>,
    },
    /// Runs when nothing else is ready, at the lowest priority.
    Idle,
    /// Bound to one or more external interrupts.
    Hardware { priority: u8, binds: Vec<Name> },
    /// Dispatched through a software queue of bounded capacity.
    Software { priority: u8, capacity: u8 },
}

/// A unit of schedulable code and the resources it declares.
pub struct Task {
    pub name: Name,
    pub kind: TaskKind,
    pub accesses: Vec<ResourceAccess>,
}

/// The priority that idle runs at: below every other task.
pub const IDLE_PRIORITY: u8 = 0;

impl Task {
    /// `None` for the initializer, which runs before any preemption is possible.
    pub open spec fn spec_priority(&self) -> Option<u8> {
        match self.kind {
            TaskKind::Init { .. } => None,
            TaskKind::Idle => Some(IDLE_PRIORITY),
            TaskKind::Hardware { priority, .. } => Some(priority),
            TaskKind::Software { priority, .. } => Some(priority),
        }
    }

    pub open spec fn spec_binds(&self) -> Seq<Name> {
        match self.kind {
            TaskKind::Hardware { binds, .. } => binds@,
            _ => Seq::empty(),
        }
    }

    pub open spec fn is_init(&self) -> bool {
        self.kind is Init
    }

    #[verifier::when_used_as_spec(spec_priority)]
    pub fn priority(&self) -> (r: Option<u8>)
        ensures
            r == self.spec_priority(),
    {
        match &self.kind {
            TaskKind::Init { .. } => None,
            TaskKind::Idle => Some(IDLE_PRIORITY),
            TaskKind::Hardware { priority, .. } => Some(*priority),
            TaskKind::Software { priority, .. } => Some(*priority),
        }
    }
}

/// The whole description: resources, tasks, and the interrupts reserved for
/// dispatching software tasks.
///
/// Task names are unique across all kinds and resource names are unique;
/// the front-end that assembles a value of this type enforces both, and the
/// checks neither rely on nor re-check them.
pub struct App {
    pub resources: Vec<Resource>,
    pub tasks: Vec<Task>,
    pub extern_interrupts: Vec<Name>,
}

/// Whether `(i2, j2)` comes before `(i, j)`: tasks in order, and the accesses of
/// one task in order.
pub open spec fn precedes(i2: int, j2: int, i: int, j: int) -> bool {
    i2 < i || (i2 == i && j2 < j)
}

impl App {
    pub open spec fn declares(self, r: Seq<char>) -> bool {
        exists|k: int| 0 <= k < self.resources.len() && #[trigger] self.resources@[k].name.text@ == r
    }

    pub open spec fn is_late(self, r: Seq<char>) -> bool {
        exists|k: int|
            0 <= k < self.resources.len() && #[trigger] self.resources@[k].name.text@ == r
                && self.resources@[k].late
    }

    pub open spec fn has_late(self) -> bool {
        exists|k: int| 0 <= k < self.resources.len() && #[trigger] self.resources@[k].late
    }

    pub open spec fn is_dispatcher(self, n: Seq<char>) -> bool {
        exists|k: int|
            0 <= k < self.extern_interrupts.len() && #[trigger] self.extern_interrupts@[k].text@ == n
    }

    /// Whether access `j` of task `i` exists.
    pub open spec fn at(self, i: int, j: int) -> bool {
        0 <= i < self.tasks.len() && 0 <= j < self.tasks@[i].accesses.len()
    }

    pub open spec fn access(self, i: int, j: int) -> ResourceAccess {
        self.tasks@[i].accesses@[j]
    }

    /// Resources that some task with a priority (anything but the initializer)
    /// accesses exclusively.
    pub open spec fn exclusively_owned(self, r: Seq<char>) -> bool {
        exists|i: int, j: int| #[trigger] self.owns_at(i, j, r)
    }

    /// Access `j` of task `i` is an exclusive access to `r` by a task with a priority.
    pub open spec fn owns_at(self, i: int, j: int, r: Seq<char>) -> bool {
        self.at(i, j) && self.tasks@[i].spec_priority() is Some && self.access(i, j).access
            == Access::Exclusive && self.access(i, j).resource.text@ == r
    }

    pub open spec fn has_init(self) -> bool {
        exists|i: int| 0 <= i < self.tasks.len() && #[trigger] self.tasks@[i].is_init()
    }

    /// Task `i` is the initializer: the first task of that kind.
    pub open spec fn is_first_init(self, i: int) -> bool {
        0 <= i < self.tasks.len() && self.tasks@[i].is_init() && forall|k: int|
            0 <= k < i ==> !(#[trigger] self.tasks@[k].is_init())
    }

    /// No two tasks, of whatever kind, share a name.
    pub open spec fn task_names_distinct(self) -> bool {
        forall|i: int, k: int|
            0 <= i < k < self.tasks.len() ==> #[trigger] self.tasks@[i].name.text@
                != #[trigger] self.tasks@[k].name.text@
    }

    /// Whether no two tasks share a name: the invariant that assembly of a
    /// description must establish before the checks run.
    pub fn has_distinct_task_names(&self) -> (r: bool)
        ensures
            r == self.task_names_distinct(),
    {
        let n = self.tasks.len();
        let mut i: usize = 0;
        while i < n
            invariant
                n == self.tasks.len(),
                i <= n,
                forall|i2: int, k2: int|
                    0 <= i2 < i && i2 < k2 < n ==> #[trigger] self.tasks@[i2].name.text@
                        != #[trigger] self.tasks@[k2].name.text@,
            decreases n - i,
        {
            let mut k: usize = i + 1;
            while k < n
                invariant
                    n == self.tasks.len(),
                    i < n,
                    i < k <= n,
                    forall|i2: int, k2: int|
                        0 <= i2 < i && i2 < k2 < n ==> #[trigger] self.tasks@[i2].name.text@
                            != #[trigger] self.tasks@[k2].name.text@,
                    forall|k2: int|
                        i < k2 < k ==> self.tasks@[i as int].name.text@
                            != #[trigger] self.tasks@[k2].name.text@,
                decreases n - k,
            {
                if self.tasks[i].name.text == self.tasks[k].name.text {
                    assert(self.tasks@[i as int].name.text@ == self.tasks@[k as int].name.text@);
                    return false;
                }
                k += 1;
            }
            i += 1;
        }
        true
    }

    /// Whether binding `b` of task `i` exists.
    pub open spec fn bind_at(self, i: int, b: int) -> bool {
        0 <= i < self.tasks.len() && 0 <= b < self.tasks@[i].spec_binds().len()
    }
}

} // verus!
