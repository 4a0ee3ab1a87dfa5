use crate::diagnostic::Diagnostic;
use crate::model::{precedes, Access, App, Name, TaskKind};
use proc_macro2::Span;
use vstd::prelude::*;

verus! {

/// The error type of syn's parsers, in which diagnostics reach the compiler.
#[verifier::external_type_specification]
#[verifier::external_body]
pub struct ExSynError(syn::Error);

/// Relies on syn::Error::new: an error that reports `message` at `span`.
#[verifier::external_body]
fn parse_error(span: Span, message: &str) -> syn::Error {
    syn::Error::new(span, message)
}

// ---- resources are declared ----

pub open spec fn undeclared_at(app: App, i: int, j: int) -> bool {
    app.at(i, j) && !app.declares(app.access(i, j).resource.text@)
}

pub open spec fn all_declared(app: App) -> bool {
    forall|i: int, j: int| !#[trigger] undeclared_at(app, i, j)
}

pub open spec fn first_undeclared(app: App, i: int, j: int) -> bool {
    undeclared_at(app, i, j) && forall|i2: int, j2: int|
        precedes(i2, j2, i, j) ==> !#[trigger] undeclared_at(app, i2, j2)
}

pub open spec fn fails_declared(app: App, d: Diagnostic) -> bool {
    exists|i: int, j: int|
        #[trigger] first_undeclared(app, i, j) && d == Diagnostic::UndeclaredResource(
            app.access(i, j).resource,
        )
}

fn declared(app: &App, name: &String) -> (r: bool)
    ensures
        r == app.declares(name@),
{
    let mut k: usize = 0;
    while k < app.resources.len()
        invariant
            k <= app.resources.len(),
            forall|k2: int| 0 <= k2 < k ==> app.resources@[k2].name.text@ != name@,
        decreases app.resources.len() - k,
    {
        if app.resources[k].name.text == *name {
            assert(app.resources@[k as int].name.text@ == name@);
            return true;
        }
        k += 1;
    }
    false
}

/// Every access names a declared resource; otherwise the first that does not.
pub fn check_declared(app: &App) -> (r: Result<(), Diagnostic>)
    ensures
        match r {
            Ok(()) => all_declared(*app),
            Err(d) => fails_declared(*app, d),
        },
{
    let mut i: usize = 0;
    while i < app.tasks.len()
        invariant
            i <= app.tasks.len(),
            forall|i2: int, j2: int| 0 <= i2 < i ==> !#[trigger] undeclared_at(*app, i2, j2),
        decreases app.tasks.len() - i,
    {
        let task = &app.tasks[i];
        let mut j: usize = 0;
        while j < task.accesses.len()
            invariant
                i < app.tasks.len(),
                *task == app.tasks@[i as int],
                j <= task.accesses.len(),
                forall|i2: int, j2: int| 0 <= i2 < i ==> !#[trigger] undeclared_at(*app, i2, j2),
                forall|j2: int| 0 <= j2 < j ==> !#[trigger] undeclared_at(*app, i as int, j2),
            decreases task.accesses.len() - j,
        {
            let a = &task.accesses[j];
            if !declared(app, &a.resource.text) {
                assert(first_undeclared(*app, i as int, j as int));
                return Err(Diagnostic::UndeclaredResource(a.resource.duplicate()));
            }
            j += 1;
        }
        i += 1;
    }
    Ok(())
}

// ---- no resource is both exclusively owned and shared ----

pub open spec fn conflict_at(app: App, i: int, j: int) -> bool {
    app.at(i, j) && app.access(i, j).access == Access::Shared && app.exclusively_owned(
        app.access(i, j).resource.text@,
    )
}

pub open spec fn no_conflict(app: App) -> bool {
    forall|i: int, j: int| !#[trigger] conflict_at(app, i, j)
}

pub open spec fn first_conflict(app: App, i: int, j: int) -> bool {
    conflict_at(app, i, j) && forall|i2: int, j2: int|
        precedes(i2, j2, i, j) ==> !#[trigger] conflict_at(app, i2, j2)
}

pub open spec fn fails_conflict(app: App, d: Diagnostic) -> bool {
    exists|i: int, j: int|
        #[trigger] first_conflict(app, i, j) && d == (Diagnostic::ConflictingAccessMode {
            resource: app.access(i, j).resource,
            task: app.tasks@[i].name,
        })
}

fn owned_exclusively(app: &App, name: &String) -> (r: bool)
    ensures
        r == app.exclusively_owned(name@),
{
    let mut i: usize = 0;
    while i < app.tasks.len()
        invariant
            i <= app.tasks.len(),
            forall|i2: int, j2: int| 0 <= i2 < i ==> !#[trigger] app.owns_at(i2, j2, name@),
        decreases app.tasks.len() - i,
    {
        let task = &app.tasks[i];
        let ceiling_bearing = task.priority().is_some();
        let mut j: usize = 0;
        while j < task.accesses.len()
            invariant
                i < app.tasks.len(),
                *task == app.tasks@[i as int],
                ceiling_bearing == task.spec_priority() is Some,
                j <= task.accesses.len(),
                forall|i2: int, j2: int| 0 <= i2 < i ==> !#[trigger] app.owns_at(i2, j2, name@),
                forall|j2: int| 0 <= j2 < j ==> !#[trigger] app.owns_at(i as int, j2, name@),
            decreases task.accesses.len() - j,
        {
            let a = &task.accesses[j];
            if ceiling_bearing && a.access.is_exclusive() && a.resource.text == *name {
                assert(app.owns_at(i as int, j as int, name@));
                return true;
            }
            j += 1;
        }
        i += 1;
    }
    false
}

/// No resource that a task with a priority accesses exclusively is accessed
/// shared by any task; otherwise the first shared access to such a resource.
pub fn check_conflicts(app: &App) -> (r: Result<(), Diagnostic>)
    ensures
        match r {
            Ok(()) => no_conflict(*app),
            Err(d) => fails_conflict(*app, d),
        },
{
    let mut i: usize = 0;
    while i < app.tasks.len()
        invariant
            i <= app.tasks.len(),
            forall|i2: int, j2: int| 0 <= i2 < i ==> !#[trigger] conflict_at(*app, i2, j2),
        decreases app.tasks.len() - i,
    {
        let task = &app.tasks[i];
        let mut j: usize = 0;
        while j < task.accesses.len()
            invariant
                i < app.tasks.len(),
                *task == app.tasks@[i as int],
                j <= task.accesses.len(),
                forall|i2: int, j2: int| 0 <= i2 < i ==> !#[trigger] conflict_at(*app, i2, j2),
                forall|j2: int| 0 <= j2 < j ==> !#[trigger] conflict_at(*app, i as int, j2),
            decreases task.accesses.len() - j,
        {
            let a = &task.accesses[j];
            if a.access.is_shared() && owned_exclusively(app, &a.resource.text) {
                assert(first_conflict(*app, i as int, j as int));
                return Err(
                    Diagnostic::ConflictingAccessMode {
                        resource: a.resource.duplicate(),
                        task: task.name.duplicate(),
                    },
                );
            }
            j += 1;
        }
        i += 1;
    }
    Ok(())
}

// ---- the initializer touches only non-late resources, exclusively ----

pub open spec fn init_violation_at(app: App, i: int, j: int) -> bool {
    app.is_first_init(i) && app.at(i, j) && (app.is_late(app.access(i, j).resource.text@)
        || app.access(i, j).access == Access::Shared)
}

pub open spec fn init_pure(app: App) -> bool {
    forall|i: int, j: int| !#[trigger] init_violation_at(app, i, j)
}

pub open spec fn first_init_violation(app: App, i: int, j: int) -> bool {
    init_violation_at(app, i, j) && forall|j2: int|
        0 <= j2 < j ==> !#[trigger] init_violation_at(app, i, j2)
}

/// A late resource is reported as such before its access mode is looked at.
pub open spec fn fails_init(app: App, d: Diagnostic) -> bool {
    exists|i: int, j: int|
        #[trigger] first_init_violation(app, i, j) && d == if app.is_late(
            app.access(i, j).resource.text@,
        ) {
            Diagnostic::LateResourceInInit(app.access(i, j).resource)
        } else {
            Diagnostic::SharedAccessInInit(app.access(i, j).resource)
        }
}

fn late(app: &App, name: &String) -> (r: bool)
    ensures
        r == app.is_late(name@),
{
    let mut k: usize = 0;
    while k < app.resources.len()
        invariant
            k <= app.resources.len(),
            forall|k2: int|
                0 <= k2 < k ==> !(app.resources@[k2].name.text@ == name@
                    && app.resources@[k2].late),
        decreases app.resources.len() - k,
    {
        if app.resources[k].late && app.resources[k].name.text == *name {
            assert(app.resources@[k as int].name.text@ == name@);
            return true;
        }
        k += 1;
    }
    false
}

/// The position of the initializer, if there is one.
pub fn init_task(app: &App) -> (r: Option<usize>)
    ensures
        match r {
            Some(i) => app.is_first_init(i as int),
            None => !app.has_init(),
        },
{
    let mut i: usize = 0;
    while i < app.tasks.len()
        invariant
            i <= app.tasks.len(),
            forall|k: int| 0 <= k < i ==> !(#[trigger] app.tasks@[k].is_init()),
        decreases app.tasks.len() - i,
    {
        if let TaskKind::Init { .. } = &app.tasks[i].kind {
            return Some(i);
        }
        i += 1;
    }
    None
}

/// The initializer, if any, accesses no late resource and nothing shared;
/// otherwise its first access that does.
pub fn check_init(app: &App) -> (r: Result<(), Diagnostic>)
    ensures
        match r {
            Ok(()) => init_pure(*app),
            Err(d) => fails_init(*app, d),
        },
{
    match init_task(app) {
        None => {
            assert forall|i: int, j: int| !#[trigger] init_violation_at(*app, i, j) by {
                if app.is_first_init(i) {
                    assert(app.tasks@[i].is_init());
                }
            }
            Ok(())
        },
        Some(i) => {
            let task = &app.tasks[i];
            let mut j: usize = 0;
            while j < task.accesses.len()
                invariant
                    app.is_first_init(i as int),
                    *task == app.tasks@[i as int],
                    j <= task.accesses.len(),
                    forall|j2: int| 0 <= j2 < j ==> !#[trigger] init_violation_at(*app, i as int, j2),
                decreases task.accesses.len() - j,
            {
                let a = &task.accesses[j];
                if late(app, &a.resource.text) {
                    assert(first_init_violation(*app, i as int, j as int));
                    return Err(Diagnostic::LateResourceInInit(a.resource.duplicate()));
                }
                if a.access.is_shared() {
                    assert(first_init_violation(*app, i as int, j as int));
                    return Err(Diagnostic::SharedAccessInInit(a.resource.duplicate()));
                }
                j += 1;
            }
            assert forall|i2: int, j2: int| !#[trigger] init_violation_at(*app, i2, j2) by {
                if app.is_first_init(i2) && i2 != i {
                    if i2 < i {
                        assert(app.tasks@[i2].is_init());
                    } else {
                        assert(app.tasks@[i as int].is_init());
                    }
                }
            }
            Ok(())
        },
    }
}

// ---- late resources have an initializer to produce them ----

pub open spec fn missing_init(app: App) -> bool {
    app.has_late() && !app.has_init()
}

fn any_late(app: &App) -> (r: bool)
    ensures
        r == app.has_late(),
{
    let mut k: usize = 0;
    while k < app.resources.len()
        invariant
            k <= app.resources.len(),
            forall|k2: int| 0 <= k2 < k ==> !(#[trigger] app.resources@[k2].late),
        decreases app.resources.len() - k,
    {
        if app.resources[k].late {
            return true;
        }
        k += 1;
    }
    false
}

/// Where late resources exist, an initializer exists too.
pub fn check_late_coverage(app: &App) -> (r: Result<(), Diagnostic>)
    ensures
        match r {
            Ok(()) => !missing_init(*app),
            Err(d) => missing_init(*app) && d is MissingInitForLateResources,
        },
{
    if any_late(app) && init_task(app).is_none() {
        Err(Diagnostic::MissingInitForLateResources)
    } else {
        Ok(())
    }
}

// ---- hardware tasks keep off the dispatcher interrupts ----

pub open spec fn reused_at(app: App, i: int, b: int) -> bool {
    app.bind_at(i, b) && app.is_dispatcher(app.tasks@[i].spec_binds()[b].text@)
}

pub open spec fn no_reuse(app: App) -> bool {
    forall|i: int, b: int| !#[trigger] reused_at(app, i, b)
}

pub open spec fn first_reuse(app: App, i: int, b: int) -> bool {
    reused_at(app, i, b) && forall|i2: int, b2: int|
        precedes(i2, b2, i, b) ==> !#[trigger] reused_at(app, i2, b2)
}

pub open spec fn fails_reuse(app: App, d: Diagnostic) -> bool {
    exists|i: int, b: int|
        #[trigger] first_reuse(app, i, b) && d == Diagnostic::DispatcherInterruptReused(
            app.tasks@[i].spec_binds()[b],
        )
}

fn dispatcher(app: &App, name: &String) -> (r: bool)
    ensures
        r == app.is_dispatcher(name@),
{
    let mut k: usize = 0;
    while k < app.extern_interrupts.len()
        invariant
            k <= app.extern_interrupts.len(),
            forall|k2: int| 0 <= k2 < k ==> app.extern_interrupts@[k2].text@ != name@,
        decreases app.extern_interrupts.len() - k,
    {
        if app.extern_interrupts[k].text == *name {
            assert(app.extern_interrupts@[k as int].text@ == name@);
            return true;
        }
        k += 1;
    }
    false
}

/// No hardware task binds a dispatcher interrupt; otherwise the first binding
/// that does.
pub fn check_dispatchers(app: &App) -> (r: Result<(), Diagnostic>)
    ensures
        match r {
            Ok(()) => no_reuse(*app),
            Err(d) => fails_reuse(*app, d),
        },
{
    let mut i: usize = 0;
    while i < app.tasks.len()
        invariant
            i <= app.tasks.len(),
            forall|i2: int, b2: int| 0 <= i2 < i ==> !#[trigger] reused_at(*app, i2, b2),
        decreases app.tasks.len() - i,
    {
        if let TaskKind::Hardware { binds, .. } = &app.tasks[i].kind {
            let mut b: usize = 0;
            while b < binds.len()
                invariant
                    i < app.tasks.len(),
                    binds@ == app.tasks@[i as int].spec_binds(),
                    b <= binds.len(),
                    forall|i2: int, b2: int| 0 <= i2 < i ==> !#[trigger] reused_at(*app, i2, b2),
                    forall|b2: int| 0 <= b2 < b ==> !#[trigger] reused_at(*app, i as int, b2),
                decreases binds.len() - b,
            {
                if dispatcher(app, &binds[b].text) {
                    assert(first_reuse(*app, i as int, b as int));
                    return Err(Diagnostic::DispatcherInterruptReused(binds[b].duplicate()));
                }
                b += 1;
            }
        }
        i += 1;
    }
    Ok(())
}

// ---- all checks, in order ----

/// Every check passes.
pub open spec fn sound(app: App) -> bool {
    all_declared(app) && no_conflict(app) && init_pure(app) && !missing_init(app) && no_reuse(app)
}

/// `d` is what the first failing check reports.
pub open spec fn diagnoses(app: App, d: Diagnostic) -> bool {
    fails_declared(app, d) || (all_declared(app) && fails_conflict(app, d)) || (all_declared(app)
        && no_conflict(app) && fails_init(app, d)) || (all_declared(app) && no_conflict(app)
        && init_pure(app) && missing_init(app) && d is MissingInitForLateResources) || (
    all_declared(app) && no_conflict(app) && init_pure(app) && !missing_init(app) && fails_reuse(
        app,
        d,
    ))
}

/// Runs the checks in order and stops at the first that fails.
pub fn validate(app: &App) -> (r: Result<(), Diagnostic>)
    ensures
        r is Ok <==> sound(*app),
        r matches Err(d) ==> diagnoses(*app, d),
{
    check_declared(app)?;
    check_conflicts(app)?;
    check_init(app)?;
    check_late_coverage(app)?;
    check_dispatchers(app)
}

/// Validates `app` and turns the first violation into a compiler error at the
/// offending name.
pub fn app(model: &App) -> (r: Result<(), syn::Error>)
    ensures
        r is Ok <==> sound(*model),
{
    match validate(model) {
        Ok(()) => Ok(()),
        Err(d) => Err(parse_error(d.span(), d.message())),
    }
}

} // verus!
