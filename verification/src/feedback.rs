//! The user's feedback on a delivered intervention.

use vstd::prelude::*;
use crate::admission::{ClientAssurance, require_private};
use crate::errors::{SecondMindError, SecondMindErrorCode, fails_plain, fails_with};

verus! {

/// What became of an intervention from the user's side.
#[derive(Clone, Copy, Debug, PartialEq, Eq, Structural)]
pub enum InterventionOutcome {
    Unacknowledged,
    Accepted,
    Corrected,
    Expired,
}

/// The parts of an intervention that the user's feedback changes.
#[derive(Clone, Copy, Debug, PartialEq, Eq)]
pub struct FeedbackRecord {
    pub id: u128,
    pub owner: u128,
    pub focus_session_id: u128,
    pub revision: u64,
    pub outcome: InterventionOutcome,
    pub outcome_at: Option<i64>,
    pub correction_summary: Option<&'static str>,
    pub updated_at: i64,
}

/// The position of the first intervention with identifier `id`.
pub open spec fn first_intervention(records: Seq<FeedbackRecord>, id: u128) -> Option<int>
    decreases records.len(),
{
    if records.len() == 0 {
        None
    } else if records.last().id == id && first_intervention(records.drop_last(), id) is None {
        Some(records.len() - 1)
    } else {
        first_intervention(records.drop_last(), id)
    }
}

/// `after` is `before` with `outcome` recorded at `now` under the next
/// revision; a correction is summarized without its text.
pub open spec fn feedback_recorded(before: FeedbackRecord, after: FeedbackRecord, outcome: InterventionOutcome, now: i64) -> bool {
    after == FeedbackRecord {
        outcome,
        outcome_at: Some(now),
        correction_summary: if outcome == InterventionOutcome::Corrected {
            Some("current_context_corrected")
        } else {
            None
        },
        revision: (before.revision + 1) as u64,
        updated_at: now,
        ..before
    }
}

/// Records the user's feedback on the owner's intervention at its expected
/// revision. Corrected feedback must carry a non-empty correction, which
/// the record only summarizes.
pub fn record_feedback(
    assurance: ClientAssurance,
    interventions: &Vec<FeedbackRecord>,
    intervention_id: u128,
    expected_revision: u64,
    outcome: InterventionOutcome,
    correction: Option<&str>,
    now: i64,
) -> (r: Result<FeedbackRecord, SecondMindError>)
    requires
        forall|k: int| 0 <= k < interventions@.len() ==> (#[trigger] interventions@[k]).revision < u64::MAX,
    ensures
        !assurance.spec_permits_private() ==> fails_with(r, SecondMindErrorCode::PermissionDenied),
        assurance.spec_permits_private() ==> if outcome == InterventionOutcome::Corrected && !(correction matches Some(c)
            && c@.len() > 0) {
            fails_plain(
                r,
                SecondMindErrorCode::InvalidArgument,
                "Corrected feedback requires a current-context correction.",
                false,
            )
        } else {
            match first_intervention(interventions@, intervention_id) {
                None => fails_plain(r, SecondMindErrorCode::NotFound, "The intervention was not found.", false),
                Some(k) => if interventions@[k].revision != expected_revision {
                    r == Err::<FeedbackRecord, SecondMindError>(SecondMindError::spec_conflict(interventions@[k].revision))
                } else {
                    r matches Ok(after) && feedback_recorded(interventions@[k], after, outcome, now)
                },
            }
        },
{
    require_private(assurance)?;
    if outcome == InterventionOutcome::Corrected {
        let empty = match correction {
            Some(c) => c.unicode_len() == 0,
            None => true,
        };
        if empty {
            return Err(SecondMindError::invalid("Corrected feedback requires a current-context correction."));
        }
    }
    let mut i: usize = 0;
    while i < interventions.len()
        invariant
            i <= interventions@.len(),
            assurance.spec_permits_private(),
            !(outcome == InterventionOutcome::Corrected && !(correction matches Some(c) && c@.len() > 0)),
            forall|k: int| 0 <= k < interventions@.len() ==> (#[trigger] interventions@[k]).revision < u64::MAX,
            first_intervention(interventions@.subrange(0, i as int), intervention_id) is None,
        decreases interventions@.len() - i,
    {
        proof {
            assert(interventions@.subrange(0, (i + 1) as int).drop_last() == interventions@.subrange(0, i as int));
        }
        if interventions[i].id == intervention_id {
            proof {
                lemma_first_intervention_prefix(interventions@, intervention_id, (i + 1) as int);
            }
            let current = interventions[i];
            if current.revision != expected_revision {
                return Err(SecondMindError::conflict(current.revision));
            }
            let summary = if outcome == InterventionOutcome::Corrected {
                Some("current_context_corrected")
            } else {
                None
            };
            return Ok(FeedbackRecord {
                outcome,
                outcome_at: Some(now),
                correction_summary: summary,
                revision: current.revision + 1,
                updated_at: now,
                ..current
            });
        }
        i = i + 1;
    }
    proof {
        assert(interventions@.subrange(0, i as int) == interventions@);
    }
    Err(SecondMindError::not_found("The intervention was not found."))
}

/// A match found in a prefix stays the first match of the whole sequence.
proof fn lemma_first_intervention_prefix(records: Seq<FeedbackRecord>, id: u128, n: int)
    requires
        0 <= n <= records.len(),
        first_intervention(records.subrange(0, n), id) is Some,
    ensures
        first_intervention(records, id) == first_intervention(records.subrange(0, n), id),
    decreases records.len() - n,
{
    if n < records.len() {
        assert(records.subrange(0, n + 1).drop_last() == records.subrange(0, n));
        lemma_first_intervention_prefix(records, id, n + 1);
    } else {
        assert(records.subrange(0, n) == records);
    }
}

} // verus!
