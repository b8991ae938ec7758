//! Decisions of the independent emergency-control channel.

use vstd::prelude::*;
use crate::gates::{EmergencyRevision, emergency_command_is_valid, uuid_version};

verus! {

/// A command from the native emergency surface.
#[derive(Clone, Copy, Debug, PartialEq, Eq, Structural)]
pub enum EmergencyCommand {
    OpenStein,
    SetInterventionsMuted { session_id: u128, muted: bool },
    StopAllObservation,
}

/// How CORE answered an emergency command.
#[derive(Clone, Copy, Debug, PartialEq, Eq, Structural)]
pub enum EmergencyCommandStatus {
    Accepted,
    Rejected,
    CleanupIncomplete,
}

/// A revisioned emergency command.
#[derive(Clone, Copy, Debug, PartialEq, Eq, Structural)]
pub struct EmergencyEnvelope {
    pub command_id: u128,
    pub revision: u64,
    pub issued_at: i64,
    pub command: EmergencyCommand,
}

/// What the control loop must do for one command.
#[derive(Clone, Copy, Debug, PartialEq, Eq, Structural)]
pub enum EmergencyDecision {
    /// Acknowledge with this status and do nothing else.
    Respond(EmergencyCommandStatus),
    /// Mute or unmute the session through the emergency authority; accept
    /// when that succeeds and reject otherwise.
    SetInterventionsMuted { session_id: u128, muted: bool },
    /// End every working session of the owner.
    StopAllObservation,
}

/// The watermark and decision after one emergency command: the revision is
/// consumed first, so a replayed, stale or zero revision is rejected and
/// never advances the watermark; a valid command must also carry a
/// time-ordered identifier and an issue time at most one second in the
/// future.
pub open spec fn spec_decide_emergency(last_revision: u64, envelope: EmergencyEnvelope, now: i64) -> (u64, EmergencyDecision) {
    let is_new = envelope.revision != 0 && envelope.revision > last_revision;
    let watermark = if is_new {
        envelope.revision
    } else {
        last_revision
    };
    if !(is_new && uuid_version(envelope.command_id) == 7 && envelope.issued_at <= now + 1000) {
        (watermark, EmergencyDecision::Respond(EmergencyCommandStatus::Rejected))
    } else {
        (watermark, match envelope.command {
            EmergencyCommand::OpenStein => EmergencyDecision::Respond(EmergencyCommandStatus::Accepted),
            EmergencyCommand::SetInterventionsMuted { session_id, muted } => EmergencyDecision::SetInterventionsMuted {
                session_id,
                muted,
            },
            EmergencyCommand::StopAllObservation => EmergencyDecision::StopAllObservation,
        })
    }
}

/// Decides one emergency command against the revision watermark.
pub fn decide_emergency_command(watermark: &mut EmergencyRevision, envelope: EmergencyEnvelope, now: i64) -> (d: EmergencyDecision)
    ensures
        (final(watermark).last_revision, d) == spec_decide_emergency(old(watermark).last_revision, envelope, now),
        emergency_admitted(old(watermark).last_revision, envelope, now) ==> (envelope.command matches EmergencyCommand::SetInterventionsMuted {
            session_id,
            muted,
        } ==> d == EmergencyDecision::SetInterventionsMuted { session_id, muted }),
        !emergency_admitted(old(watermark).last_revision, envelope, now) ==> d == EmergencyDecision::Respond(
            EmergencyCommandStatus::Rejected,
        ),
{
    proof {
        law_emergency_commands_do_what_they_ask(old(watermark).last_revision, envelope, now);
    }
    let is_new = watermark.accept(envelope.revision);
    if !emergency_command_is_valid(is_new, envelope.command_id, envelope.issued_at, now) {
        return EmergencyDecision::Respond(EmergencyCommandStatus::Rejected);
    }
    match envelope.command {
        EmergencyCommand::OpenStein => EmergencyDecision::Respond(EmergencyCommandStatus::Accepted),
        EmergencyCommand::SetInterventionsMuted { session_id, muted } => EmergencyDecision::SetInterventionsMuted {
            session_id,
            muted,
        },
        EmergencyCommand::StopAllObservation => EmergencyDecision::StopAllObservation,
    }
}

/// The status of a stop-all command. `ended` holds, in order, whether ending
/// each working session succeeded, up to and including the first failure; a
/// failure discards every stopping session. `working_after` is whether a
/// working session remains; `finish_ok` holds, for each stopping session,
/// whether its cleanup finished.
pub open spec fn spec_stop_all_status(ended: Seq<bool>, working_after: bool, finish_ok: Seq<bool>) -> EmergencyCommandStatus {
    let failed = exists|i: int| 0 <= i < ended.len() && !ended[i];
    let stopping = if failed {
        0
    } else {
        ended.len()
    };
    if stopping == 0 && working_after {
        EmergencyCommandStatus::Rejected
    } else if exists|i: int| 0 <= i < finish_ok.len() && !finish_ok[i] {
        EmergencyCommandStatus::CleanupIncomplete
    } else {
        EmergencyCommandStatus::Accepted
    }
}

/// The status of a stop-all command, from the outcomes of its steps.
pub fn stop_all_status(ended: &Vec<bool>, working_after: bool, finish_ok: &Vec<bool>) -> (s: EmergencyCommandStatus)
    ensures
        s == spec_stop_all_status(ended@, working_after, finish_ok@),
{
    let mut failed = false;
    let mut i: usize = 0;
    while i < ended.len()
        invariant
            i <= ended@.len(),
            failed == exists|k: int| 0 <= k < i && !ended@[k],
        decreases ended@.len() - i,
    {
        if !ended[i] {
            failed = true;
        }
        i = i + 1;
    }
    let stopping = if failed {
        0
    } else {
        ended.len()
    };
    if stopping == 0 && working_after {
        return EmergencyCommandStatus::Rejected;
    }
    let mut incomplete = false;
    let mut j: usize = 0;
    while j < finish_ok.len()
        invariant
            j <= finish_ok@.len(),
            incomplete == exists|k: int| 0 <= k < j && !finish_ok@[k],
        decreases finish_ok@.len() - j,
    {
        if !finish_ok[j] {
            incomplete = true;
        }
        j = j + 1;
    }
    if incomplete {
        EmergencyCommandStatus::CleanupIncomplete
    } else {
        EmergencyCommandStatus::Accepted
    }
}

/// Whether the channel's receipt acknowledges exactly the command and
/// revision that CORE answered; anything else is a channel failure.
pub fn acknowledgement_matches(command_id: u128, revision: u64, receipt_command_id: u128, receipt_revision: u64) -> (r: bool)
    ensures
        r == (command_id == receipt_command_id && revision == receipt_revision),
{
    command_id == receipt_command_id && revision == receipt_revision
}

/// The emergency channel never acts on a revision twice: the watermark
/// never decreases, and once a command has been acted on, the same command
/// (or any command with that revision or an older one) is rejected at any
/// later time.
pub proof fn law_emergency_revisions_are_monotonic(last_revision: u64, first: EmergencyEnvelope, now: i64, later: EmergencyEnvelope, later_now: i64)
    ensures
        spec_decide_emergency(last_revision, first, now).0 >= last_revision,
        spec_decide_emergency(last_revision, first, now).1 != EmergencyDecision::Respond(EmergencyCommandStatus::Rejected)
            && later.revision <= first.revision ==> spec_decide_emergency(
            spec_decide_emergency(last_revision, first, now).0,
            later,
            later_now,
        ) == (first.revision, EmergencyDecision::Respond(EmergencyCommandStatus::Rejected)),
{
}


/// Whether an emergency command is admitted against the watermark at `now`:
/// a nonzero revision above the last one, a time-ordered identifier, and an
/// issue time at most one second ahead.
pub open spec fn emergency_admitted(last_revision: u64, envelope: EmergencyEnvelope, now: i64) -> bool {
    envelope.revision != 0 && envelope.revision > last_revision && uuid_version(envelope.command_id) == 7
        && envelope.issued_at <= now + 1000
}

/// An admitted emergency command is carried out as asked: a mute request
/// mutes and an unmute request unmutes exactly the session it names, a
/// stop-all stops all observation and opening STEIN is accepted; the
/// watermark moves to the command's revision. A command that is not
/// admitted is rejected and changes nothing but a newer watermark.
pub proof fn law_emergency_commands_do_what_they_ask(last_revision: u64, envelope: EmergencyEnvelope, now: i64)
    ensures
        emergency_admitted(last_revision, envelope, now) ==> spec_decide_emergency(last_revision, envelope, now).0
            == envelope.revision,
        emergency_admitted(last_revision, envelope, now) ==> (envelope.command matches EmergencyCommand::SetInterventionsMuted {
            session_id,
            muted,
        } ==> spec_decide_emergency(last_revision, envelope, now).1 == EmergencyDecision::SetInterventionsMuted {
            session_id,
            muted,
        }),
        emergency_admitted(last_revision, envelope, now) && envelope.command == EmergencyCommand::StopAllObservation
            ==> spec_decide_emergency(last_revision, envelope, now).1 == EmergencyDecision::StopAllObservation,
        emergency_admitted(last_revision, envelope, now) && envelope.command == EmergencyCommand::OpenStein
            ==> spec_decide_emergency(last_revision, envelope, now).1 == EmergencyDecision::Respond(
            EmergencyCommandStatus::Accepted,
        ),
        !emergency_admitted(last_revision, envelope, now) ==> spec_decide_emergency(last_revision, envelope, now).1
            == EmergencyDecision::Respond(EmergencyCommandStatus::Rejected),
{
}

} // verus!
