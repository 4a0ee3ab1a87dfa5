use crate::check::{
    all_declared, conflict_at, diagnoses, first_init_violation, init_pure, init_violation_at,
    fails_conflict, fails_declared, fails_init, fails_reuse, first_conflict, first_reuse,
    first_undeclared, missing_init, no_conflict, no_reuse, reused_at, sound, undeclared_at,
};
use crate::diagnostic::Diagnostic;
use crate::model::{precedes, Access, App};
use vstd::prelude::*;

verus! {

/// An access to an undeclared resource makes validation fail, and it fails
/// with `UndeclaredResource`; where every access names a declared resource,
/// the declaration check passes.
pub proof fn lemma_declared_resources(app: App)
    ensures
        all_declared(app) <==> forall|i: int, j: int|
            #[trigger] app.at(i, j) ==> app.declares(app.access(i, j).resource.text@),
        !all_declared(app) ==> !sound(app) && forall|d: Diagnostic|
            #[trigger] diagnoses(app, d) ==> d is UndeclaredResource,
{
    assert(all_declared(app) <==> forall|i: int, j: int|
        #[trigger] app.at(i, j) ==> app.declares(app.access(i, j).resource.text@)) by {
        if all_declared(app) {
            assert forall|i: int, j: int| #[trigger]
                app.at(i, j) implies app.declares(app.access(i, j).resource.text@) by {
                assert(!undeclared_at(app, i, j));
            }
        }
    }
}

/// Where every access names a declared resource, and some task with a
/// priority accesses resource `r` exclusively while some task accesses it
/// shared, validation fails with `ConflictingAccessMode`.
pub proof fn lemma_mixed_access_conflicts(app: App, r: Seq<char>, i: int, j: int)
    requires
        all_declared(app),
        app.exclusively_owned(r),
        app.at(i, j),
        app.access(i, j).access == Access::Shared,
        app.access(i, j).resource.text@ == r,
    ensures
        !sound(app),
        forall|d: Diagnostic| #[trigger] diagnoses(app, d) ==> d is ConflictingAccessMode,
{
    assert(conflict_at(app, i, j));
}

/// All accesses to `r` of one mode.
pub open spec fn uniform_access(app: App, r: Seq<char>) -> bool {
    forall|i: int, j: int, i2: int, j2: int|
        app.at(i, j) && app.at(i2, j2) && app.access(i, j).resource.text@ == r
            && app.access(i2, j2).resource.text@ == r ==> #[trigger] app.access(i, j).access
            == #[trigger] app.access(i2, j2).access
}

/// A resource whose accesses are all exclusive, or all shared, never gives rise
/// to a conflict, however many tasks access it.
pub proof fn lemma_uniform_access_no_conflict(app: App, r: Seq<char>)
    requires
        uniform_access(app, r),
    ensures
        forall|i: int, j: int|
            app.access(i, j).resource.text@ == r ==> !#[trigger] conflict_at(app, i, j),
{
    assert forall|i: int, j: int|
        app.access(i, j).resource.text@ == r implies !#[trigger] conflict_at(app, i, j) by {
        if conflict_at(app, i, j) {
            let (i2, j2) = choose|i2: int, j2: int| #[trigger] app.owns_at(i2, j2, r);
            assert(app.access(i, j).access == app.access(i2, j2).access);
        }
    }
}

/// Where the declaration and conflict checks pass, an initializer access
/// that is shared or names a late resource makes validation fail; the
/// initializer's first such access decides the diagnostic: `LateResourceInInit`
/// for a late resource, else `SharedAccessInInit`.
pub proof fn lemma_init_access_fails(app: App, i: int, j: int)
    requires
        all_declared(app),
        no_conflict(app),
        app.is_first_init(i),
        app.at(i, j),
        app.access(i, j).access == Access::Shared || app.is_late(app.access(i, j).resource.text@),
    ensures
        !sound(app),
        forall|d: Diagnostic| #[trigger]
            diagnoses(app, d) ==> d is LateResourceInInit || d is SharedAccessInInit,
        (forall|j2: int| 0 <= j2 < j ==> !#[trigger] init_violation_at(app, i, j2)) ==> forall|
            d: Diagnostic,
        | #[trigger]
            diagnoses(app, d) ==> d == if app.is_late(app.access(i, j).resource.text@) {
                Diagnostic::LateResourceInInit(app.access(i, j).resource)
            } else {
                Diagnostic::SharedAccessInInit(app.access(i, j).resource)
            },
{
    assert(init_violation_at(app, i, j));
    if forall|j2: int| 0 <= j2 < j ==> !#[trigger] init_violation_at(app, i, j2) {
        assert(first_init_violation(app, i, j));
        assert forall|d: Diagnostic| #[trigger] diagnoses(app, d) implies d == if app.is_late(
            app.access(i, j).resource.text@,
        ) {
            Diagnostic::LateResourceInInit(app.access(i, j).resource)
        } else {
            Diagnostic::SharedAccessInInit(app.access(i, j).resource)
        } by {
            let (i3, j3) = choose|i3: int, j3: int| #[trigger] first_init_violation(app, i3, j3)
                && d == if app.is_late(app.access(i3, j3).resource.text@) {
                Diagnostic::LateResourceInInit(app.access(i3, j3).resource)
            } else {
                Diagnostic::SharedAccessInInit(app.access(i3, j3).resource)
            };
            assert(i3 == i) by {
                if i3 < i {
                    assert(app.tasks@[i3].is_init());
                } else if i3 > i {
                    assert(app.tasks@[i].is_init());
                }
            }
            if j3 < j {
                assert(init_violation_at(app, i, j3));
            } else if j3 > j {
                assert(init_violation_at(app, i3, j));
            }
        }
    }
}

/// An initializer whose accesses are all exclusive and to resources that are
/// not late passes the initializer check.
pub proof fn lemma_exclusive_init_passes(app: App, i: int)
    requires
        app.is_first_init(i),
        forall|j: int|
            #[trigger] app.at(i, j) ==> app.access(i, j).access == Access::Exclusive
                && !app.is_late(app.access(i, j).resource.text@),
    ensures
        init_pure(app),
{
    assert forall|i2: int, j2: int| !#[trigger] init_violation_at(app, i2, j2) by {
        if app.is_first_init(i2) && i2 != i {
            if i2 < i {
                assert(app.tasks@[i2].is_init());
            } else {
                assert(app.tasks@[i].is_init());
            }
        }
    }
}

/// Where the earlier checks pass, late resources without an initializer make
/// validation fail with `MissingInitForLateResources`; with an initializer
/// present the coverage check passes, whatever the initializer produces.
pub proof fn lemma_late_coverage(app: App)
    requires
        app.has_late(),
    ensures
        app.has_init() ==> !missing_init(app),
        !app.has_init() && all_declared(app) && no_conflict(app) ==> !sound(app) && forall|
            d: Diagnostic,
        | #[trigger] diagnoses(app, d) ==> d is MissingInitForLateResources,
{
    if !app.has_init() {
        assert forall|i: int, j: int| !#[trigger] init_violation_at(app, i, j) by {
            if app.is_first_init(i) {
                assert(app.tasks@[i].is_init());
            }
        }
    }
}

/// Where the earlier checks pass, a hardware task bound to a dispatcher
/// interrupt makes validation fail with `DispatcherInterruptReused`; where no
/// binding names a dispatcher interrupt, the dispatcher check passes.
pub proof fn lemma_dispatcher_disjointness(app: App)
    ensures
        no_reuse(app) <==> forall|i: int, b: int|
            #[trigger] app.bind_at(i, b) ==> !app.is_dispatcher(
                app.tasks@[i].spec_binds()[b].text@,
            ),
        !no_reuse(app) && all_declared(app) && no_conflict(app) && init_pure(app) && !missing_init(
            app,
        ) ==> !sound(app) && forall|d: Diagnostic| #[trigger]
            diagnoses(app, d) ==> d is DispatcherInterruptReused,
{
    if no_reuse(app) {
        assert forall|i: int, b: int| #[trigger] app.bind_at(i, b) implies !app.is_dispatcher(
            app.tasks@[i].spec_binds()[b].text@,
        ) by {
            assert(!reused_at(app, i, b));
        }
    }
}

proof fn first_undeclared_unique(app: App, i: int, j: int, a: int, b: int)
    requires
        first_undeclared(app, i, j),
        first_undeclared(app, a, b),
    ensures
        i == a && j == b,
{
    if precedes(i, j, a, b) {
        assert(undeclared_at(app, i, j));
    }
    if precedes(a, b, i, j) {
        assert(undeclared_at(app, a, b));
    }
}

proof fn first_conflict_unique(app: App, i: int, j: int, a: int, b: int)
    requires
        first_conflict(app, i, j),
        first_conflict(app, a, b),
    ensures
        i == a && j == b,
{
    if precedes(i, j, a, b) {
        assert(conflict_at(app, i, j));
    }
    if precedes(a, b, i, j) {
        assert(conflict_at(app, a, b));
    }
}

proof fn first_init_violation_unique(app: App, i: int, j: int, a: int, b: int)
    requires
        first_init_violation(app, i, j),
        first_init_violation(app, a, b),
    ensures
        i == a && j == b,
{
    if i < a {
        assert(app.tasks@[i].is_init());
    }
    if a < i {
        assert(app.tasks@[a].is_init());
    }
    if j < b {
        assert(init_violation_at(app, i, j));
    }
    if b < j {
        assert(init_violation_at(app, a, b));
    }
}

proof fn first_reuse_unique(app: App, i: int, j: int, a: int, b: int)
    requires
        first_reuse(app, i, j),
        first_reuse(app, a, b),
    ensures
        i == a && j == b,
{
    if precedes(i, j, a, b) {
        assert(reused_at(app, i, j));
    }
    if precedes(a, b, i, j) {
        assert(reused_at(app, a, b));
    }
}

/// Validation of a given description can end in one diagnostic only: the
/// first violation, in the order in which the checks run.
pub proof fn lemma_single_diagnostic(app: App, d1: Diagnostic, d2: Diagnostic)
    requires
        diagnoses(app, d1),
        diagnoses(app, d2),
    ensures
        d1 == d2,
{
    if !all_declared(app) {
        let (i, j) = choose|i: int, j: int|
            #[trigger] first_undeclared(app, i, j) && d1 == Diagnostic::UndeclaredResource(
                app.access(i, j).resource,
            );
        let (a, b) = choose|a: int, b: int|
            #[trigger] first_undeclared(app, a, b) && d2 == Diagnostic::UndeclaredResource(
                app.access(a, b).resource,
            );
        first_undeclared_unique(app, i, j, a, b);
    } else if !no_conflict(app) {
        assert(!fails_declared(app, d1) && !fails_declared(app, d2));
        let (i, j) = choose|i: int, j: int|
            #[trigger] first_conflict(app, i, j) && d1 == (Diagnostic::ConflictingAccessMode {
                resource: app.access(i, j).resource,
                task: app.tasks@[i].name,
            });
        let (a, b) = choose|a: int, b: int|
            #[trigger] first_conflict(app, a, b) && d2 == (Diagnostic::ConflictingAccessMode {
                resource: app.access(a, b).resource,
                task: app.tasks@[a].name,
            });
        first_conflict_unique(app, i, j, a, b);
    } else if !init_pure(app) {
        assert(!fails_declared(app, d1) && !fails_declared(app, d2));
        assert(!fails_conflict(app, d1) && !fails_conflict(app, d2));
        let (i, j) = choose|i: int, j: int|
            #[trigger] first_init_violation(app, i, j) && d1 == if app.is_late(
                app.access(i, j).resource.text@,
            ) {
                Diagnostic::LateResourceInInit(app.access(i, j).resource)
            } else {
                Diagnostic::SharedAccessInInit(app.access(i, j).resource)
            };
        let (a, b) = choose|a: int, b: int|
            #[trigger] first_init_violation(app, a, b) && d2 == if app.is_late(
                app.access(a, b).resource.text@,
            ) {
                Diagnostic::LateResourceInInit(app.access(a, b).resource)
            } else {
                Diagnostic::SharedAccessInInit(app.access(a, b).resource)
            };
        first_init_violation_unique(app, i, j, a, b);
    } else if missing_init(app) {
        assert(!fails_declared(app, d1) && !fails_declared(app, d2));
        assert(!fails_conflict(app, d1) && !fails_conflict(app, d2));
        assert(!fails_init(app, d1) && !fails_init(app, d2));
    } else {
        assert(!fails_declared(app, d1) && !fails_declared(app, d2));
        assert(!fails_conflict(app, d1) && !fails_conflict(app, d2));
        assert(!fails_init(app, d1) && !fails_init(app, d2));
        let (i, j) = choose|i: int, j: int|
            #[trigger] first_reuse(app, i, j) && d1 == Diagnostic::DispatcherInterruptReused(
                app.tasks@[i].spec_binds()[j],
            );
        let (a, b) = choose|a: int, b: int|
            #[trigger] first_reuse(app, a, b) && d2 == Diagnostic::DispatcherInterruptReused(
                app.tasks@[a].spec_binds()[b],
            );
        first_reuse_unique(app, i, j, a, b);
    }
}

} // verus!
