//! The goal ledger: idempotent creation, revision-checked updates and
//! terminal transitions of user-owned goals.

use vstd::prelude::*;
use crate::admission::{ClientAssurance, require_private};
use crate::errors::{SecondMindError, SecondMindErrorCode, fails_plain, fails_with};
use crate::model::{Goal, GoalState};
use crate::text::{has_control, trimmed, validate_text};

verus! {

/// A request to create a goal under an idempotency key.
#[derive(Clone, Debug, PartialEq, Eq)]
pub struct CreateGoal {
    pub actor: u128,
    pub idempotency_key: u128,
    pub title: String,
    pub success_statement: String,
    pub deadline: Option<i64>,
}

/// The durable record of which goal an idempotency key created, and from
/// which input.
#[derive(Clone, Debug, PartialEq, Eq)]
pub struct GoalCreateReceipt {
    pub actor: u128,
    pub idempotency_key: u128,
    pub goal_id: u128,
    pub title: String,
    pub success_statement: String,
    pub deadline: Option<i64>,
}

/// Fields to replace in a goal; `deadline: Some(None)` clears the deadline.
#[derive(Clone, Debug, PartialEq, Eq)]
pub struct GoalPatch {
    pub title: Option<String>,
    pub success_statement: Option<String>,
    pub deadline: Option<Option<i64>>,
}

impl GoalPatch {
    /// Whether the patch changes nothing.
    pub open spec fn spec_is_empty(&self) -> bool {
        self.title is None && self.success_statement is None && self.deadline is None
    }

    /// Whether the patch changes nothing.
    pub fn is_empty(&self) -> (r: bool)
        ensures
            r == self.spec_is_empty(),
    {
        self.title.is_none() && self.success_statement.is_none() && self.deadline.is_none()
    }
}

/// A request to patch a goal at an expected revision.
#[derive(Clone, Debug, PartialEq, Eq)]
pub struct UpdateGoal {
    pub actor: u128,
    pub id: u128,
    pub expected_revision: u64,
    pub patch: GoalPatch,
}

/// Text within `[min, max]` trimmed characters and free of control characters.
pub open spec fn text_ok(s: Seq<char>, min: nat, max: nat) -> bool {
    min <= trimmed(s).len() <= max && !has_control(s)
}

/// Whether the patch's texts, where present, are valid.
pub open spec fn patch_text_ok(p: GoalPatch) -> bool {
    &&& match p.title {
        Some(t) => text_ok(t@, 1, 200),
        None => true,
    }
    &&& match p.success_statement {
        Some(s) => text_ok(s@, 1, 2000),
        None => true,
    }
}

/// The goal with the patch's fields replaced.
pub open spec fn spec_apply_goal_patch(goal: Goal, patch: GoalPatch) -> Goal {
    Goal {
        title: match patch.title {
            Some(t) => t,
            None => goal.title,
        },
        success_statement: match patch.success_statement {
            Some(s) => s,
            None => goal.success_statement,
        },
        deadline: match patch.deadline {
            Some(d) => d,
            None => goal.deadline,
        },
        ..goal
    }
}

/// Replaces the fields that the patch names.
pub fn apply_goal_patch(goal: &mut Goal, patch: GoalPatch)
    ensures
        *final(goal) == spec_apply_goal_patch(*old(goal), patch),
{
    match patch.title {
        Some(value) => goal.title = value,
        None => {},
    }
    match patch.success_statement {
        Some(value) => goal.success_statement = value,
        None => {},
    }
    match patch.deadline {
        Some(value) => goal.deadline = value,
        None => {},
    }
}

fn copy_goal(g: &Goal) -> (r: Goal)
    ensures
        r == *g,
{
    Goal {
        id: g.id,
        owner: g.owner,
        title: g.title.clone(),
        success_statement: g.success_statement.clone(),
        deadline: g.deadline,
        state: g.state,
        revision: g.revision,
        created_at: g.created_at,
        updated_at: g.updated_at,
    }
}

/// The goals and creation receipts of the durable store.
pub struct GoalLedger {
    goals: Vec<Goal>,
    receipts: Vec<GoalCreateReceipt>,
}

/// The position of the goal `id` owned by `owner`, if any.
pub open spec fn goal_index(goals: Seq<Goal>, owner: u128, id: u128) -> Option<int> {
    if exists|i: int| 0 <= i < goals.len() && goals[i].id == id && goals[i].owner == owner {
        Some(choose|i: int| 0 <= i < goals.len() && goals[i].id == id && goals[i].owner == owner)
    } else {
        None
    }
}

/// The receipt for `(actor, key)`, if any.
pub open spec fn receipt_index(receipts: Seq<GoalCreateReceipt>, actor: u128, key: u128) -> Option<int> {
    if exists|i: int| 0 <= i < receipts.len() && receipts[i].actor == actor && receipts[i].idempotency_key == key {
        Some(choose|i: int| 0 <= i < receipts.len() && receipts[i].actor == actor && receipts[i].idempotency_key == key)
    } else {
        None
    }
}

/// The receipt matches the command's input exactly.
pub open spec fn same_input(r: GoalCreateReceipt, c: CreateGoal) -> bool {
    r.title@ == c.title@ && r.success_statement@ == c.success_statement@ && r.deadline == c.deadline
}

impl GoalLedger {
    /// The stored goals, in creation order.
    pub closed spec fn goals(&self) -> Seq<Goal> {
        self.goals@
    }

    /// The stored creation receipts.
    pub closed spec fn receipts(&self) -> Seq<GoalCreateReceipt> {
        self.receipts@
    }

    /// Goal identifiers are unique, receipts are unique per actor and key,
    /// and every receipt names a stored goal of its actor.
    pub closed spec fn well_formed(&self) -> bool {
        &&& forall|i: int, j: int|
            0 <= i < j < self.goals@.len() ==> self.goals@[i].id != self.goals@[j].id
        &&& forall|i: int, j: int|
            0 <= i < j < self.receipts@.len() ==> !(self.receipts@[i].actor == self.receipts@[j].actor
                && self.receipts@[i].idempotency_key == self.receipts@[j].idempotency_key)
        &&& forall|i: int|
            0 <= i < self.receipts@.len() ==> exists|j: int|
                0 <= j < self.goals@.len() && self.goals@[j].id == (#[trigger] self.receipts@[i]).goal_id
                    && self.goals@[j].owner == self.receipts@[i].actor
    }

    /// An empty ledger.
    pub fn new() -> (l: Self)
        ensures
            l.well_formed(),
            l.goals().len() == 0,
            l.receipts().len() == 0,
    {
        GoalLedger { goals: Vec::new(), receipts: Vec::new() }
    }

    fn find_goal(&self, owner: u128, id: u128) -> (r: Option<usize>)
        requires
            self.well_formed(),
        ensures
            match r {
                Some(i) => i < self.goals@.len() && self.goals@[i as int].id == id
                    && self.goals@[i as int].owner == owner,
                None => goal_index(self.goals@, owner, id) is None,
            },
            r matches Some(i) ==> goal_index(self.goals@, owner, id) == Some(i as int),
    {
        let mut i: usize = 0;
        while i < self.goals.len()
            invariant
                i <= self.goals@.len(),
                self.well_formed(),
                forall|k: int| 0 <= k < i ==> !(self.goals@[k].id == id && self.goals@[k].owner == owner),
            decreases self.goals@.len() - i,
        {
            if self.goals[i].id == id && self.goals[i].owner == owner {
                proof {
                    assert(0 <= i < self.goals@.len() && self.goals@[i as int].id == id && self.goals@[i as int].owner == owner);
                    let j = choose|j: int|
                        0 <= j < self.goals@.len() && self.goals@[j].id == id && self.goals@[j].owner == owner;
                    if j < i {
                        assert(self.goals@[j].id != self.goals@[i as int].id);
                    }
                    if j > i {
                        assert(self.goals@[i as int].id != self.goals@[j].id);
                    }
                }
                return Some(i);
            }
            i = i + 1;
        }
        None
    }

    fn id_in_use(&self, id: u128) -> (r: bool)
        ensures
            r == exists|i: int| 0 <= i < self.goals@.len() && self.goals@[i].id == id,
    {
        let mut i: usize = 0;
        while i < self.goals.len()
            invariant
                i <= self.goals@.len(),
                forall|k: int| 0 <= k < i ==> self.goals@[k].id != id,
            decreases self.goals@.len() - i,
        {
            if self.goals[i].id == id {
                return true;
            }
            i = i + 1;
        }
        false
    }

    fn find_receipt(&self, actor: u128, key: u128) -> (r: Option<usize>)
        requires
            self.well_formed(),
        ensures
            match r {
                Some(i) => i < self.receipts@.len() && receipt_index(self.receipts@, actor, key) == Some(
                    i as int,
                ),
                None => receipt_index(self.receipts@, actor, key) is None,
            },
    {
        let mut i: usize = 0;
        while i < self.receipts.len()
            invariant
                i <= self.receipts@.len(),
                self.well_formed(),
                forall|k: int|
                    0 <= k < i ==> !(self.receipts@[k].actor == actor && self.receipts@[k].idempotency_key
                        == key),
            decreases self.receipts@.len() - i,
        {
            if self.receipts[i].actor == actor && self.receipts[i].idempotency_key == key {
                proof {
                    assert(0 <= i < self.receipts@.len() && self.receipts@[i as int].actor == actor
                        && self.receipts@[i as int].idempotency_key == key);
                    let j = choose|j: int|
                        0 <= j < self.receipts@.len() && self.receipts@[j].actor == actor
                            && self.receipts@[j].idempotency_key == key;
                    if j < i {
                        assert(!(self.receipts@[j].actor == self.receipts@[i as int].actor
                            && self.receipts@[j].idempotency_key == self.receipts@[i as int].idempotency_key));
                    }
                    if j > i {
                        assert(!(self.receipts@[i as int].actor == self.receipts@[j].actor
                            && self.receipts@[i as int].idempotency_key == self.receipts@[j].idempotency_key));
                    }
                }
                return Some(i);
            }
            i = i + 1;
        }
        None
    }

    /// Finds the goal `goal_id` of `owner`.
    pub fn get_goal(&self, owner: u128, goal_id: u128) -> (r: Result<Goal, SecondMindError>)
        requires
            self.well_formed(),
        ensures
            match goal_index(self.goals(), owner, goal_id) {
                Some(i) => r == Ok::<Goal, SecondMindError>(self.goals()[i]),
                None => fails_plain(
                    r,
                    SecondMindErrorCode::NotFound,
                    "The goal was not found.",
                    false,
                ),
            },
    {
        match self.find_goal(owner, goal_id) {
            Some(i) => Ok(copy_goal(&self.goals[i])),
            None => Err(SecondMindError::not_found("The goal was not found.")),
        }
    }

    /// The goals of `owner`, in creation order.
    pub fn list_goals(&self, owner: u128) -> (r: Vec<Goal>)
        ensures
            r@ == self.goals().filter(|g: Goal| g.owner == owner),
    {
        let mut out: Vec<Goal> = Vec::new();
        let mut i: usize = 0;
        while i < self.goals.len()
            invariant
                i <= self.goals@.len(),
                out@ == self.goals@.subrange(0, i as int).filter(|g: Goal| g.owner == owner),
            decreases self.goals@.len() - i,
        {
            proof {
                reveal(Seq::filter);
                assert(self.goals@.subrange(0, (i + 1) as int).drop_last() == self.goals@.subrange(
                    0,
                    i as int,
                ));
            }
            if self.goals[i].owner == owner {
                out.push(copy_goal(&self.goals[i]));
            }
            i = i + 1;
        }
        assert(self.goals@.subrange(0, i as int) == self.goals@);
        out
    }

    /// Creates a goal under an idempotency key. A replay with the same key and
    /// input returns the goal that the key created; the same key with other
    /// input is a conflict. `fresh_id` is the time-ordered identifier for a
    /// new goal and `now` the creation instant.
    pub fn create_goal(
        &mut self,
        assurance: ClientAssurance,
        command: CreateGoal,
        now: i64,
        fresh_id: u128,
    ) -> (r: Result<Goal, SecondMindError>)
        requires
            old(self).well_formed(),
        ensures
            final(self).well_formed(),
            !assurance.spec_permits_private() ==> fails_with(r, SecondMindErrorCode::PermissionDenied),
            assurance.spec_permits_private() && !(text_ok(command.title@, 1, 200) && text_ok(
                command.success_statement@,
                1,
                2000,
            )) ==> fails_with(r, SecondMindErrorCode::InvalidArgument),
            r is Err ==> final(self).goals() == old(self).goals() && final(self).receipts() == old(
                self,
            ).receipts(),
            assurance.spec_permits_private() && text_ok(command.title@, 1, 200) && text_ok(
                command.success_statement@,
                1,
                2000,
            ) ==> match receipt_index(old(self).receipts(), command.actor, command.idempotency_key) {
                Some(k) => {
                    let receipt = old(self).receipts()[k];
                    if same_input(receipt, command) {
                        &&& r matches Ok(g) && goal_index(old(self).goals(), command.actor, receipt.goal_id)
                            matches Some(j) && g == old(self).goals()[j]
                        &&& final(self).goals() == old(self).goals()
                    } else {
                        fails_plain(
                            r,
                            SecondMindErrorCode::Conflict,
                            "The idempotency key was already used for different input.",
                            false,
                        )
                    }
                },
                None => if exists|i: int|
                    0 <= i < old(self).goals().len() && old(self).goals()[i].id == fresh_id {
                    fails_with(r, SecondMindErrorCode::Conflict)
                } else {
                    &&& r matches Ok(g) && g == (Goal {
                        id: fresh_id,
                        owner: command.actor,
                        title: command.title,
                        success_statement: command.success_statement,
                        deadline: command.deadline,
                        state: GoalState::Active,
                        revision: 1,
                        created_at: now,
                        updated_at: now,
                    })
                    &&& final(self).goals() == old(self).goals().push(r->Ok_0)
                    &&& final(self).receipts() == old(self).receipts().push(
                        GoalCreateReceipt {
                            actor: command.actor,
                            idempotency_key: command.idempotency_key,
                            goal_id: fresh_id,
                            title: command.title,
                            success_statement: command.success_statement,
                            deadline: command.deadline,
                        },
                    )
                },
            },
    {
        require_private(assurance)?;
        validate_text(command.title.as_str(), 1, 200, "Goal title is invalid.")?;
        validate_text(command.success_statement.as_str(), 1, 2000, "Goal success statement is invalid.")?;
        match self.find_receipt(command.actor, command.idempotency_key) {
            Some(k) => {
                let receipt = &self.receipts[k];
                if receipt.title == command.title && receipt.success_statement == command.success_statement
                    && receipt.deadline == command.deadline {
                    let goal_id = receipt.goal_id;
                    proof {
                        let i = k as int;
                        assert(exists|j: int|
                            0 <= j < self.goals@.len() && self.goals@[j].id == (
                            #[trigger] self.receipts@[i]).goal_id && self.goals@[j].owner
                                == self.receipts@[i].actor);
                    }
                    match self.find_goal(command.actor, goal_id) {
                        Some(j) => return Ok(copy_goal(&self.goals[j])),
                        None => {
                            return Err(SecondMindError::unavailable("The created goal is missing."));
                        },
                    }
                }
                return Err(SecondMindError::idempotency_conflict());
            },
            None => {},
        }
        if self.id_in_use(fresh_id) {
            return Err(SecondMindError {
                code: SecondMindErrorCode::Conflict,
                summary: "The goal identifier is already in use.",
                retryable: false,
                current_revision: None,
            });
        }
        let goal = Goal {
            id: fresh_id,
            owner: command.actor,
            title: command.title.clone(),
            success_statement: command.success_statement.clone(),
            deadline: command.deadline,
            state: GoalState::Active,
            revision: 1,
            created_at: now,
            updated_at: now,
        };
        let receipt = GoalCreateReceipt {
            actor: command.actor,
            idempotency_key: command.idempotency_key,
            goal_id: fresh_id,
            title: command.title,
            success_statement: command.success_statement,
            deadline: command.deadline,
        };
        let ghost old_goals = self.goals@;
        let ghost old_receipts = self.receipts@;
        self.goals.push(copy_goal(&goal));
        self.receipts.push(receipt);
        proof {
            assert forall|i: int| 0 <= i < self.receipts@.len() implies exists|j: int|
                0 <= j < self.goals@.len() && self.goals@[j].id == (#[trigger] self.receipts@[i]).goal_id
                    && self.goals@[j].owner == self.receipts@[i].actor by {
                if i < old_receipts.len() {
                    assert(self.receipts@[i] == old_receipts[i]);
                    let j = choose|j: int|
                        0 <= j < old_goals.len() && old_goals[j].id == old_receipts[i].goal_id
                            && old_goals[j].owner == old_receipts[i].actor;
                    assert(self.goals@[j] == old_goals[j]);
                } else {
                    assert(self.goals@[old_goals.len() as int].id == fresh_id);
                }
            }
        }
        Ok(goal)
    }

    fn replace_goal(&mut self, i: usize, goal: Goal)
        requires
            old(self).well_formed(),
            i < old(self).goals@.len(),
            goal.id == old(self).goals@[i as int].id,
            goal.owner == old(self).goals@[i as int].owner,
        ensures
            final(self).well_formed(),
            final(self).goals() == old(self).goals().update(i as int, goal),
            final(self).receipts() == old(self).receipts(),
    {
        let ghost old_goals = self.goals@;
        self.goals.set(i, goal);
        proof {
            assert forall|k: int| 0 <= k < self.receipts@.len() implies exists|j: int|
                0 <= j < self.goals@.len() && self.goals@[j].id == (#[trigger] self.receipts@[k]).goal_id
                    && self.goals@[j].owner == self.receipts@[k].actor by {
                let j = choose|j: int|
                    0 <= j < old_goals.len() && old_goals[j].id == self.receipts@[k].goal_id
                        && old_goals[j].owner == self.receipts@[k].actor;
                assert(self.goals@[j].id == old_goals[j].id);
            }
        }
    }

    /// Patches a goal at its expected revision; the patched goal gets the
    /// next revision and `now` as its update time.
    pub fn update_goal(&mut self, assurance: ClientAssurance, command: UpdateGoal, now: i64) -> (r: Result<
        Goal,
        SecondMindError,
    >)
        requires
            old(self).well_formed(),
        ensures
            final(self).well_formed(),
            final(self).receipts() == old(self).receipts(),
            r is Err ==> final(self).goals() == old(self).goals(),
            !assurance.spec_permits_private() ==> fails_with(r, SecondMindErrorCode::PermissionDenied),
            assurance.spec_permits_private() && command.patch.spec_is_empty() ==> fails_plain(
                r,
                SecondMindErrorCode::InvalidArgument,
                "A goal patch cannot be empty.",
                false,
            ),
            assurance.spec_permits_private() && !command.patch.spec_is_empty() && !patch_text_ok(
                command.patch,
            ) ==> fails_with(r, SecondMindErrorCode::InvalidArgument),
            assurance.spec_permits_private() && !command.patch.spec_is_empty() && patch_text_ok(
                command.patch,
            ) ==> match goal_index(
                old(self).goals(),
                command.actor,
                command.id,
            ) {
                None => fails_with(r, SecondMindErrorCode::NotFound),
                Some(i) => {
                    let g = old(self).goals()[i];
                    if g.revision != command.expected_revision {
                        r == Err::<Goal, SecondMindError>(SecondMindError::spec_conflict(g.revision))
                    } else if g.revision == u64::MAX {
                        fails_with(r, SecondMindErrorCode::Conflict)
                    } else {
                        let updated = Goal {
                            revision: (g.revision + 1) as u64,
                            updated_at: now,
                            ..spec_apply_goal_patch(g, command.patch)
                        };
                        &&& r == Ok::<Goal, SecondMindError>(updated)
                        &&& final(self).goals() == old(self).goals().update(i, updated)
                    }
                },
            },
    {
        require_private(assurance)?;
        if command.patch.is_empty() {
            return Err(SecondMindError::invalid("A goal patch cannot be empty."));
        }
        match &command.patch.title {
            Some(value) => validate_text(value.as_str(), 1, 200, "Goal title is invalid.")?,
            None => {},
        }
        match &command.patch.success_statement {
            Some(value) => validate_text(value.as_str(), 1, 2000, "Goal success statement is invalid.")?,
            None => {},
        }
        let i = match self.find_goal(command.actor, command.id) {
            Some(i) => i,
            None => return Err(SecondMindError::not_found("The goal was not found.")),
        };
        let mut goal = copy_goal(&self.goals[i]);
        if goal.revision != command.expected_revision {
            return Err(SecondMindError::conflict(goal.revision));
        }
        if goal.revision == u64::MAX {
            return Err(SecondMindError::conflict(goal.revision));
        }
        apply_goal_patch(&mut goal, command.patch);
        goal.revision = goal.revision + 1;
        goal.updated_at = now;
        self.replace_goal(i, copy_goal(&goal));
        Ok(goal)
    }

    /// Completes or abandons a goal at its expected revision. A goal cannot
    /// be made active again.
    pub fn set_goal_state(
        &mut self,
        assurance: ClientAssurance,
        owner: u128,
        goal_id: u128,
        expected_revision: u64,
        state: GoalState,
        now: i64,
    ) -> (r: Result<Goal, SecondMindError>)
        requires
            old(self).well_formed(),
        ensures
            final(self).well_formed(),
            final(self).receipts() == old(self).receipts(),
            r is Err ==> final(self).goals() == old(self).goals(),
            !assurance.spec_permits_private() ==> fails_with(r, SecondMindErrorCode::PermissionDenied),
            assurance.spec_permits_private() && state is Active ==> fails_plain(
                r,
                SecondMindErrorCode::InvalidArgument,
                "A terminal goal command must complete or abandon the goal.",
                false,
            ),
            assurance.spec_permits_private() && !(state is Active) ==> match goal_index(
                old(self).goals(),
                owner,
                goal_id,
            ) {
                None => fails_with(r, SecondMindErrorCode::NotFound),
                Some(i) => {
                    let g = old(self).goals()[i];
                    if g.revision != expected_revision {
                        r == Err::<Goal, SecondMindError>(SecondMindError::spec_conflict(g.revision))
                    } else if g.revision == u64::MAX {
                        fails_with(r, SecondMindErrorCode::Conflict)
                    } else {
                        let updated = Goal {
                            state: state,
                            revision: (g.revision + 1) as u64,
                            updated_at: now,
                            ..g
                        };
                        &&& r == Ok::<Goal, SecondMindError>(updated)
                        &&& final(self).goals() == old(self).goals().update(i, updated)
                    }
                },
            },
    {
        require_private(assurance)?;
        match state {
            GoalState::Active => {
                return Err(SecondMindError::invalid("A terminal goal command must complete or abandon the goal."));
            },
            _ => {},
        }
        let i = match self.find_goal(owner, goal_id) {
            Some(i) => i,
            None => return Err(SecondMindError::not_found("The goal was not found.")),
        };
        let mut goal = copy_goal(&self.goals[i]);
        if goal.revision != expected_revision {
            return Err(SecondMindError::conflict(goal.revision));
        }
        if goal.revision == u64::MAX {
            return Err(SecondMindError::conflict(goal.revision));
        }
        goal.state = state;
        goal.revision = goal.revision + 1;
        goal.updated_at = now;
        self.replace_goal(i, copy_goal(&goal));
        Ok(goal)
    }
}

/// A goal appended under a fresh identifier is the one read back for its
/// owner and identifier.
pub proof fn law_created_goal_reads_back(before: Seq<Goal>, goal: Goal)
    requires
        forall|i: int| 0 <= i < before.len() ==> before[i].id != goal.id,
    ensures
        goal_index(before.push(goal), goal.owner, goal.id) == Some(before.len() as int),
        before.push(goal)[before.len() as int] == goal,
{
    let after = before.push(goal);
    assert(after[before.len() as int].id == goal.id && after[before.len() as int].owner == goal.owner);
    let j = choose|j: int| 0 <= j < after.len() && after[j].id == goal.id && after[j].owner == goal.owner;
    if j < before.len() {
        assert(after[j] == before[j]);
    }
}

/// After a key creates a goal, replaying the same key with the same input
/// finds that key's receipt, whose input matches, so the replay returns the
/// goal the key created instead of creating another.
pub proof fn law_replay_finds_original_receipt(before: Seq<GoalCreateReceipt>, command: CreateGoal, goal_id: u128)
    requires
        receipt_index(before, command.actor, command.idempotency_key) is None,
    ensures
        ({
            let receipt = GoalCreateReceipt {
                actor: command.actor,
                idempotency_key: command.idempotency_key,
                goal_id: goal_id,
                title: command.title,
                success_statement: command.success_statement,
                deadline: command.deadline,
            };
            let after = before.push(receipt);
            &&& receipt_index(after, command.actor, command.idempotency_key) == Some(before.len() as int)
            &&& same_input(after[before.len() as int], command)
            &&& after[before.len() as int].goal_id == goal_id
        }),
{
    let receipt = GoalCreateReceipt {
        actor: command.actor,
        idempotency_key: command.idempotency_key,
        goal_id: goal_id,
        title: command.title,
        success_statement: command.success_statement,
        deadline: command.deadline,
    };
    let after = before.push(receipt);
    assert(after[before.len() as int].actor == command.actor && after[before.len() as int].idempotency_key == command.idempotency_key);
    let j = choose|j: int|
        0 <= j < after.len() && after[j].actor == command.actor && after[j].idempotency_key == command.idempotency_key;
    if j < before.len() {
        assert(after[j] == before[j]);
        assert(exists|i: int|
            0 <= i < before.len() && before[i].actor == command.actor && before[i].idempotency_key
                == command.idempotency_key);
    }
}

} // verus!
