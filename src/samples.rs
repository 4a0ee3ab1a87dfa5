use crate::model::{App, Name, Task, TaskKind};
use proc_macro2::Span;
use vstd::prelude::*;

verus! {

/// An initializer and a software task that are both called `foo`: the name
/// collision that assembly must refuse before any check runs.
pub fn foo() -> (r: App)
    ensures
        r.resources.len() == 0,
        r.extern_interrupts.len() == 0,
        r.tasks.len() == 2,
        r.tasks@[0].is_init(),
        r.tasks@[0].accesses.len() == 0,
        r.tasks@[1].kind == (TaskKind::Software { priority: 1, capacity: 1 }),
        r.tasks@[1].accesses.len() == 0,
        r.tasks@[0].name.text@ == "foo"@,
        r.tasks@[1].name.text@ == "foo"@,
        !r.task_names_distinct(),
{
    let init = Task {
        name: Name { text: "foo".to_owned(), span: Span::call_site() },
        kind: TaskKind::Init { produces: Vec::new() },
        accesses: Vec::new(),
    };
    let task = Task {
        name: Name { text: "foo".to_owned(), span: Span::call_site() },
        kind: TaskKind::Software { priority: 1, capacity: 1 },
        accesses: Vec::new(),
    };
    let r = App { resources: Vec::new(), tasks: vec![init, task], extern_interrupts: Vec::new() };
    assert(r.tasks@[0].name.text@ == r.tasks@[1].name.text@);
    r
}

} // verus!
