use crate::model::Name;
use proc_macro2::Span;
use vstd::prelude::*;

verus! {

/// Relies on proc_macro2::Span::call_site for the position of a diagnostic
/// that no single name is to blame for; nothing is assumed of the value.
pub assume_specification[ proc_macro2::Span::call_site ]() -> Span;

/// The first violation that the checks found, with the offending name and
/// its position.
pub enum Diagnostic {
    /// An access names a resource that was never declared.
    UndeclaredResource(Name),
    /// A resource accessed exclusively by a task with a priority is also
    /// accessed shared, here by `task`.
    ConflictingAccessMode { resource: Name, task: Name },
    /// The initializer accesses a resource that it is itself to produce.
    LateResourceInInit(Name),
    /// The initializer declares a shared access.
    SharedAccessInInit(Name),
    /// Late resources exist but no initializer does.
    MissingInitForLateResources,
    /// A hardware task binds an interrupt reserved for dispatching software tasks.
    DispatcherInterruptReused(Name),
}

impl Diagnostic {
    /// The name the diagnostic points at; for a conflict, the resource.
    pub open spec fn subject(&self) -> Option<Name> {
        match self {
            Diagnostic::UndeclaredResource(n) => Some(*n),
            Diagnostic::ConflictingAccessMode { resource, .. } => Some(*resource),
            Diagnostic::LateResourceInInit(n) => Some(*n),
            Diagnostic::SharedAccessInInit(n) => Some(*n),
            Diagnostic::MissingInitForLateResources => None,
            Diagnostic::DispatcherInterruptReused(n) => Some(*n),
        }
    }

    /// Where to report the diagnostic: at the name it points at, if any.
    pub fn span(&self) -> (r: Span)
        ensures
            self.subject() matches Some(n) ==> r == n.span,
    {
        match self {
            Diagnostic::UndeclaredResource(n) => n.span,
            Diagnostic::ConflictingAccessMode { resource, .. } => resource.span,
            Diagnostic::LateResourceInInit(n) => n.span,
            Diagnostic::SharedAccessInInit(n) => n.span,
            Diagnostic::MissingInitForLateResources => Span::call_site(),
            Diagnostic::DispatcherInterruptReused(n) => n.span,
        }
    }

    /// A sentence for the user, with the remedy where there is one.
    pub fn message(&self) -> &'static str {
        match self {
            Diagnostic::UndeclaredResource(_) => "this resource has NOT been declared",
            Diagnostic::ConflictingAccessMode { .. } =>
                "this implementation doesn't support shared (`&-`) - exclusive (`&mut-`) locks; use `x` instead of `&x`",
            Diagnostic::LateResourceInInit(_) => "late resources can NOT be assigned to `init`",
            Diagnostic::SharedAccessInInit(_) =>
                "`init` has direct exclusive access to resources; use `x` instead of `&x` ",
            Diagnostic::MissingInitForLateResources =>
                "late resources exist so a `#[init]` function must be defined",
            Diagnostic::DispatcherInterruptReused(_) =>
                "dispatcher interrupts can't be used as hardware tasks",
        }
    }
}

} // verus!
