//! Registering a resource the user picked natively, and saving bindings.

use vstd::prelude::*;
use crate::admission::{ClientAssurance, require_private};
use crate::errors::{SecondMindError, SecondMindErrorCode, fails_plain, fails_with, plain_error};
use crate::evidence::{ResourceBinding, find_resource, resource_with};
use crate::focus::{OperationKind, OperationReceipt};
use crate::permissions::{receipt_of, replay_for, replay_of};
use crate::runtime::IdempotencyContext;
use crate::text::validate_text;
use crate::validation::text_ok;

verus! {

/// The kind of resource the native picker offers.
#[derive(Clone, Copy, Debug, PartialEq, Eq, Structural)]
pub enum ResourceKind {
    Workspace,
}

/// What the native picker returned for a selection.
#[derive(Clone, Debug, PartialEq, Eq)]
pub struct SelectedResource {
    pub kind: ResourceKind,
    pub binding: String,
    pub safe_display_label: String,
}

/// How the native picker ended.
#[derive(Clone, Debug, PartialEq, Eq)]
pub enum PickerOutcome {
    /// The user picked a resource.
    Selected(SelectedResource),
    /// The user closed the picker without picking anything.
    Dismissed,
    /// The picker reported a cancellation, with its summary.
    Cancelled(&'static str),
    /// The picker failed, with its summary.
    Failed(&'static str),
    /// The picker did not answer within the selection deadline.
    TimedOut,
}

/// A copy of the resource binding.
pub fn copy_resource(r: &ResourceBinding) -> (c: ResourceBinding)
    ensures
        same_resource(c, *r),
{
    ResourceBinding {
        id: r.id,
        owner: r.owner,
        kind: r.kind,
        opaque_reference: r.opaque_reference.clone(),
        display_label: r.display_label.clone(),
        revision: r.revision,
        created_at: r.created_at,
    }
}

/// Two bindings agree in every field, texts by their contents.
pub open spec fn same_resource(a: ResourceBinding, b: ResourceBinding) -> bool {
    &&& a.id == b.id && a.owner == b.owner && a.kind == b.kind
    &&& a.opaque_reference@ == b.opaque_reference@ && a.display_label@ == b.display_label@
    &&& a.revision == b.revision && a.created_at == b.created_at
}

/// Before the picker opens: a replayed registration returns the resource
/// the earlier command registered; otherwise the picker may open.
pub fn replay_registration(
    assurance: ClientAssurance,
    owner: u128,
    idempotency: IdempotencyContext,
    receipts: &Vec<OperationReceipt>,
    resources: &Vec<ResourceBinding>,
) -> (r: Result<Option<ResourceBinding>, SecondMindError>)
    ensures
        !assurance.spec_permits_private() ==> fails_with(r, SecondMindErrorCode::PermissionDenied),
        assurance.spec_permits_private() ==> match replay_of(receipts@, owner, OperationKind::RegisterSelectedResource, idempotency) {
            Err(e) => r == Err::<Option<ResourceBinding>, SecondMindError>(e),
            Ok(None) => r == Ok::<Option<ResourceBinding>, SecondMindError>(None),
            Ok(Some(id)) => match resource_with(resources@, id) {
                Some(b) => r matches Ok(Some(c)) && same_resource(c, b),
                None => fails_plain(r, SecondMindErrorCode::NotFound, "The selected resource was not found.", false),
            },
        },
{
    require_private(assurance)?;
    match replay_for(receipts, owner, OperationKind::RegisterSelectedResource, idempotency)? {
        Some(id) => {
            let i = find_resource(resources, id)?;
            Ok(Some(copy_resource(&resources[i])))
        },
        None => Ok(None),
    }
}

/// Why a picked resource could not be registered, and whether the native
/// binding the picker handed out must be released.
#[derive(Clone, Debug, PartialEq, Eq)]
pub struct PickFailure {
    pub error: SecondMindError,
    pub release_binding: bool,
}

/// The error a picker outcome that selected nothing answers with.
pub open spec fn picker_error(outcome: PickerOutcome) -> Option<SecondMindError> {
    match outcome {
        PickerOutcome::Selected(_) => None,
        PickerOutcome::Dismissed => Some(
            SecondMindError {
                code: SecondMindErrorCode::Cancelled,
                summary: "Native resource selection was cancelled.",
                retryable: false,
                current_revision: None,
            },
        ),
        PickerOutcome::Cancelled(s) => Some(
            SecondMindError { code: SecondMindErrorCode::Cancelled, summary: s, retryable: false, current_revision: None },
        ),
        PickerOutcome::Failed(s) => Some(
            SecondMindError { code: SecondMindErrorCode::Unavailable, summary: s, retryable: true, current_revision: None },
        ),
        PickerOutcome::TimedOut => Some(
            SecondMindError {
                code: SecondMindErrorCode::DeadlineExceeded,
                summary: "Native resource selection timed out.",
                retryable: true,
                current_revision: None,
            },
        ),
    }
}

/// The binding a valid pick registers.
pub open spec fn picked_binding(b: ResourceBinding, owner: u128, kind: ResourceKind, id: u128, picked: SelectedResource, now: i64) -> bool {
    &&& b.id == id && b.owner == owner && b.kind == kind
    &&& b.opaque_reference@ == picked.binding@ && b.display_label@ == picked.safe_display_label@
    &&& b.revision == 1 && b.created_at == now
}

/// After the picker ends: a pick of the requested kind, not cancelled
/// meanwhile, with a reference of 1 to 512 and a label of 1 to 120 printable
/// characters, registers a binding under `new_id` with its receipt; any
/// other pick is refused and its native binding released.
pub fn accept_picked_resource(
    owner: u128,
    kind: ResourceKind,
    idempotency: IdempotencyContext,
    outcome: PickerOutcome,
    registration_cancelled: bool,
    new_id: u128,
    now: i64,
) -> (r: Result<(ResourceBinding, OperationReceipt), PickFailure>)
    ensures
        match outcome {
            PickerOutcome::Selected(p) => if p.kind != kind {
                r matches Err(f) && f.release_binding && plain_error(
                    f.error,
                    SecondMindErrorCode::Unavailable,
                    "The native picker returned a different resource kind.",
                    true,
                )
            } else if registration_cancelled {
                r matches Err(f) && f.release_binding && plain_error(
                    f.error,
                    SecondMindErrorCode::Cancelled,
                    "Native resource registration was cancelled.",
                    false,
                )
            } else if !text_ok(p.binding@, 1, 512) {
                r matches Err(f) && f.release_binding && plain_error(
                    f.error,
                    SecondMindErrorCode::InvalidArgument,
                    "Resource reference is invalid.",
                    false,
                )
            } else if !text_ok(p.safe_display_label@, 1, 120) {
                r matches Err(f) && f.release_binding && plain_error(
                    f.error,
                    SecondMindErrorCode::InvalidArgument,
                    "Resource label is invalid.",
                    false,
                )
            } else {
                r matches Ok((b, receipt)) && picked_binding(b, owner, kind, new_id, p, now) && receipt == receipt_of(
                    owner,
                    OperationKind::RegisterSelectedResource,
                    idempotency,
                    new_id,
                )
            },
            _ => r matches Err(f) && !f.release_binding && Some(f.error) == picker_error(outcome),
        },
{
    let picked = match outcome {
        PickerOutcome::Selected(p) => p,
        PickerOutcome::Dismissed => {
            return Err(
                PickFailure {
                    error: SecondMindError::cancelled("Native resource selection was cancelled."),
                    release_binding: false,
                },
            )
        },
        PickerOutcome::Cancelled(s) => {
            return Err(PickFailure { error: SecondMindError::cancelled(s), release_binding: false })
        },
        PickerOutcome::Failed(s) => {
            return Err(PickFailure { error: SecondMindError::unavailable(s), release_binding: false })
        },
        PickerOutcome::TimedOut => {
            return Err(
                PickFailure {
                    error: SecondMindError::deadline_exceeded("Native resource selection timed out."),
                    release_binding: false,
                },
            )
        },
    };
    if picked.kind != kind {
        return Err(
            PickFailure {
                error: SecondMindError::unavailable("The native picker returned a different resource kind."),
                release_binding: true,
            },
        );
    }
    if registration_cancelled {
        return Err(
            PickFailure {
                error: SecondMindError::cancelled("Native resource registration was cancelled."),
                release_binding: true,
            },
        );
    }
    match validate_text(picked.binding.as_str(), 1, 512, "Resource reference is invalid.") {
        Ok(()) => {},
        Err(e) => return Err(PickFailure { error: e, release_binding: true }),
    }
    match validate_text(picked.safe_display_label.as_str(), 1, 120, "Resource label is invalid.") {
        Ok(()) => {},
        Err(e) => return Err(PickFailure { error: e, release_binding: true }),
    }
    let binding = ResourceBinding {
        id: new_id,
        owner,
        kind,
        opaque_reference: picked.binding,
        display_label: picked.safe_display_label,
        revision: 1,
        created_at: now,
    };
    let receipt = OperationReceipt {
        owner,
        kind: OperationKind::RegisterSelectedResource,
        idempotency_key: idempotency.key,
        request_digest: idempotency.request_digest,
        result_id: new_id,
    };
    Ok((binding, receipt))
}

/// Checks a resource binding before it is saved: a private caller, a
/// reference of 1 to 512 and a label of 1 to 120 printable characters.
pub fn validate_resource_binding(assurance: ClientAssurance, value: &ResourceBinding) -> (r: Result<(), SecondMindError>)
    ensures
        !assurance.spec_permits_private() ==> fails_with(r, SecondMindErrorCode::PermissionDenied),
        assurance.spec_permits_private() ==> if !text_ok(value.opaque_reference@, 1, 512) {
            fails_plain(r, SecondMindErrorCode::InvalidArgument, "Resource reference is invalid.", false)
        } else if !text_ok(value.display_label@, 1, 120) {
            fails_plain(r, SecondMindErrorCode::InvalidArgument, "Resource label is invalid.", false)
        } else {
            r is Ok
        },
{
    require_private(assurance)?;
    validate_text(value.opaque_reference.as_str(), 1, 512, "Resource reference is invalid.")?;
    validate_text(value.display_label.as_str(), 1, 120, "Resource label is invalid.")?;
    Ok(())
}

} // verus!
