use proc_macro2::Span;
use rtic_check::check::{
    app, check_conflicts, check_declared, check_dispatchers, check_init, check_late_coverage,
    init_task, validate,
};
use rtic_check::diagnostic::Diagnostic;
use rtic_check::samples::foo;
use rtic_check::model::{Access, App, Name, Resource, ResourceAccess, Task, TaskKind};

fn name(text: &str) -> Name {
    Name { text: text.to_string(), span: Span::call_site() }
}

fn resource(text: &str) -> Resource {
    Resource { name: name(text), late: false }
}

fn late_resource(text: &str) -> Resource {
    Resource { name: name(text), late: true }
}

fn access(text: &str, access: Access) -> ResourceAccess {
    ResourceAccess { resource: name(text), access }
}

fn software(text: &str, priority: u8, accesses: Vec<ResourceAccess>) -> Task {
    Task { name: name(text), kind: TaskKind::Software { priority, capacity: 1 }, accesses }
}

fn hardware(text: &str, priority: u8, binds: &[&str], accesses: Vec<ResourceAccess>) -> Task {
    Task {
        name: name(text),
        kind: TaskKind::Hardware { priority, binds: binds.iter().map(|b| name(b)).collect() },
        accesses,
    }
}

fn init(accesses: Vec<ResourceAccess>) -> Task {
    Task { name: name("init"), kind: TaskKind::Init { produces: Vec::new() }, accesses }
}

fn idle(accesses: Vec<ResourceAccess>) -> Task {
    Task { name: name("idle"), kind: TaskKind::Idle, accesses }
}

fn spec(resources: Vec<Resource>, tasks: Vec<Task>, pool: &[&str]) -> App {
    App { resources, tasks, extern_interrupts: pool.iter().map(|p| name(p)).collect() }
}

fn offending(d: &Diagnostic) -> String {
    match d {
        Diagnostic::UndeclaredResource(n)
        | Diagnostic::LateResourceInInit(n)
        | Diagnostic::SharedAccessInInit(n)
        | Diagnostic::DispatcherInterruptReused(n) => n.text.clone(),
        Diagnostic::ConflictingAccessMode { resource, .. } => resource.text.clone(),
        Diagnostic::MissingInitForLateResources => String::new(),
    }
}

#[test]
fn exclusive_at_two_priorities_is_accepted() {
    let m = spec(
        vec![resource("A")],
        vec![
            software("T1", 1, vec![access("A", Access::Exclusive)]),
            software("T2", 2, vec![access("A", Access::Exclusive)]),
        ],
        &[],
    );
    assert!(validate(&m).is_ok());
}

#[test]
fn exclusive_and_shared_conflict() {
    let m = spec(
        vec![resource("A")],
        vec![
            software("T1", 1, vec![access("A", Access::Exclusive)]),
            software("T2", 2, vec![access("A", Access::Shared)]),
        ],
        &[],
    );
    match validate(&m) {
        Err(Diagnostic::ConflictingAccessMode { resource, task }) => {
            assert_eq!(resource.text, "A");
            assert_eq!(task.text, "T2");
        }
        other => panic!("unexpected: {:?}", other.is_ok()),
    }
}

#[test]
fn late_resource_without_init() {
    let m = spec(vec![late_resource("L")], vec![], &[]);
    assert!(matches!(validate(&m), Err(Diagnostic::MissingInitForLateResources)));
}

#[test]
fn shared_access_in_init() {
    let m = spec(vec![resource("B")], vec![init(vec![access("B", Access::Shared)])], &[]);
    let d = validate(&m).unwrap_err();
    assert!(matches!(d, Diagnostic::SharedAccessInInit(_)));
    assert_eq!(offending(&d), "B");
}

#[test]
fn dispatcher_bound_by_hardware_task() {
    let m = spec(vec![], vec![hardware("H", 1, &["EXTI0"], vec![])], &["EXTI0"]);
    let d = validate(&m).unwrap_err();
    assert!(matches!(d, Diagnostic::DispatcherInterruptReused(_)));
    assert_eq!(offending(&d), "EXTI0");
}

#[test]
fn undeclared_resource() {
    let m = spec(vec![resource("A")], vec![software("T", 1, vec![access("Z", Access::Exclusive)])], &[]);
    let d = validate(&m).unwrap_err();
    assert!(matches!(d, Diagnostic::UndeclaredResource(_)));
    assert_eq!(offending(&d), "Z");
}

#[test]
fn empty_description_is_accepted() {
    assert!(validate(&spec(vec![], vec![], &[])).is_ok());
}

#[test]
fn first_undeclared_access_is_reported() {
    let m = spec(
        vec![resource("A")],
        vec![
            software("T1", 1, vec![access("A", Access::Exclusive), access("X", Access::Shared)]),
            software("T2", 2, vec![access("Y", Access::Exclusive)]),
        ],
        &[],
    );
    assert_eq!(offending(&check_declared(&m).unwrap_err()), "X");
}

#[test]
fn undeclared_is_reported_before_conflict() {
    let m = spec(
        vec![resource("A")],
        vec![
            software("T1", 1, vec![access("A", Access::Exclusive)]),
            software("T2", 2, vec![access("A", Access::Shared), access("Q", Access::Shared)]),
        ],
        &[],
    );
    assert!(matches!(validate(&m), Err(Diagnostic::UndeclaredResource(_))));
    assert!(check_conflicts(&m).is_err());
}

#[test]
fn all_shared_is_accepted() {
    let m = spec(
        vec![resource("A")],
        vec![
            idle(vec![access("A", Access::Shared)]),
            software("T1", 1, vec![access("A", Access::Shared)]),
            software("T2", 2, vec![access("A", Access::Shared)]),
            software("T3", 3, vec![access("A", Access::Shared)]),
        ],
        &[],
    );
    assert!(check_conflicts(&m).is_ok());
    assert!(validate(&m).is_ok());
}

#[test]
fn idle_exclusive_access_conflicts_with_shared() {
    let m = spec(
        vec![resource("A")],
        vec![
            software("T1", 1, vec![access("A", Access::Shared)]),
            idle(vec![access("A", Access::Exclusive)]),
        ],
        &[],
    );
    match check_conflicts(&m) {
        Err(Diagnostic::ConflictingAccessMode { resource, task }) => {
            assert_eq!(resource.text, "A");
            assert_eq!(task.text, "T1");
        }
        _ => panic!("expected a conflict"),
    }
}

#[test]
fn init_exclusive_does_not_conflict_with_shared() {
    let m = spec(
        vec![resource("A")],
        vec![init(vec![access("A", Access::Exclusive)]), software("T", 1, vec![access("A", Access::Shared)])],
        &[],
    );
    assert!(check_conflicts(&m).is_ok());
    assert!(validate(&m).is_ok());
}

#[test]
fn late_resource_in_init() {
    let m = spec(
        vec![resource("A"), late_resource("L")],
        vec![init(vec![access("A", Access::Exclusive), access("L", Access::Exclusive)])],
        &[],
    );
    let d = validate(&m).unwrap_err();
    assert!(matches!(d, Diagnostic::LateResourceInInit(_)));
    assert_eq!(offending(&d), "L");
}

#[test]
fn late_is_reported_before_shared_on_one_access() {
    let m = spec(vec![late_resource("L")], vec![init(vec![access("L", Access::Shared)])], &[]);
    assert!(matches!(check_init(&m), Err(Diagnostic::LateResourceInInit(_))));
}

#[test]
fn init_with_exclusive_non_late_accesses_passes() {
    let m = spec(
        vec![resource("A"), resource("B"), late_resource("L")],
        vec![init(vec![access("A", Access::Exclusive), access("B", Access::Exclusive)])],
        &[],
    );
    assert!(check_init(&m).is_ok());
    assert!(validate(&m).is_ok());
}

#[test]
fn late_resources_with_init_pass_coverage() {
    let m = spec(vec![late_resource("L"), late_resource("M")], vec![init(vec![])], &[]);
    assert!(check_late_coverage(&m).is_ok());
    assert!(validate(&m).is_ok());
}

#[test]
fn no_late_resources_need_no_init() {
    let m = spec(vec![resource("A")], vec![software("T", 1, vec![access("A", Access::Exclusive)])], &[]);
    assert!(check_late_coverage(&m).is_ok());
}

#[test]
fn init_task_is_found() {
    let m = spec(vec![], vec![idle(vec![]), init(vec![]), software("T", 1, vec![])], &[]);
    assert_eq!(init_task(&m), Some(1));
    assert_eq!(init_task(&spec(vec![], vec![idle(vec![])], &[])), None);
}

#[test]
fn binding_outside_the_pool_passes() {
    let m = spec(
        vec![],
        vec![hardware("H1", 1, &["EXTI1", "EXTI2"], vec![]), software("S", 2, vec![])],
        &["EXTI0", "UART0"],
    );
    assert!(check_dispatchers(&m).is_ok());
    assert!(validate(&m).is_ok());
}

#[test]
fn first_reused_binding_is_reported() {
    let m = spec(
        vec![],
        vec![hardware("H1", 1, &["EXTI1"], vec![]), hardware("H2", 2, &["EXTI2", "UART0", "EXTI0"], vec![])],
        &["EXTI0", "UART0"],
    );
    assert_eq!(offending(&check_dispatchers(&m).unwrap_err()), "UART0");
}

#[test]
fn missing_init_is_reported_before_dispatcher_reuse() {
    let m = spec(vec![late_resource("L")], vec![hardware("H", 1, &["EXTI0"], vec![])], &["EXTI0"]);
    assert!(matches!(validate(&m), Err(Diagnostic::MissingInitForLateResources)));
}

#[test]
fn compiler_error_carries_the_message() {
    let m = spec(vec![], vec![software("T", 1, vec![access("Z", Access::Exclusive)])], &[]);
    let e = app(&m).unwrap_err();
    assert_eq!(e.to_string(), "this resource has NOT been declared");
    let m = spec(vec![late_resource("L")], vec![], &[]);
    assert_eq!(
        app(&m).unwrap_err().to_string(),
        "late resources exist so a `#[init]` function must be defined"
    );
    assert!(app(&spec(vec![], vec![], &[])).is_ok());
}

#[test]
fn message_names_the_remedy() {
    assert_eq!(
        Diagnostic::SharedAccessInInit(name("B")).message(),
        "`init` has direct exclusive access to resources; use `x` instead of `&x` "
    );
    assert_eq!(
        Diagnostic::DispatcherInterruptReused(name("EXTI0")).message(),
        "dispatcher interrupts can't be used as hardware tasks"
    );
}

#[test]
fn colliding_task_names_are_detected() {
    let m = foo();
    assert_eq!(m.tasks.len(), 2);
    assert!(matches!(m.tasks[0].kind, TaskKind::Init { .. }));
    assert!(!m.has_distinct_task_names());
}

#[test]
fn distinct_task_names_are_accepted() {
    let m = spec(vec![], vec![init(vec![]), idle(vec![]), software("T1", 1, vec![]), software("T2", 2, vec![])], &[]);
    assert!(m.has_distinct_task_names());
    let m = spec(vec![], vec![software("T1", 1, vec![]), idle(vec![]), software("T1", 2, vec![])], &[]);
    assert!(!m.has_distinct_task_names());
    assert!(spec(vec![], vec![], &[]).has_distinct_task_names());
}

#[test]
fn priority_of_each_kind() {
    assert_eq!(init(vec![]).priority(), None);
    assert_eq!(idle(vec![]).priority(), Some(0));
    assert_eq!(software("S", 3, vec![]).priority(), Some(3));
    assert_eq!(hardware("H", 7, &["EXTI0"], vec![]).priority(), Some(7));
}
