//! Goal and intent model for agent planning.
use crate::json::{is_empty_object, JsonValue};
use crate::models::entity::{Entity, EntityBase};
use crate::models::status::{GoalPriority, GoalStatus};
use crate::time::{utc_now, Timestamp};
use vstd::prelude::*;

verus! {

/// A goal represents an agent's objective or task.
#[derive(Debug)]
pub struct Goal {
    pub base: EntityBase,
    pub user_id: u128,
    pub session_id: u128,
    pub parent_goal_id: Option<u128>,
    pub title: String,
    pub description: Option<String>,
    pub status: GoalStatus,
    pub priority: GoalPriority,
    pub context: JsonValue,
    pub result: Option<JsonValue>,
    pub started_at: Option<Timestamp>,
    pub completed_at: Option<Timestamp>,
}

/// An optional instant is absent or one chrono can represent.
pub open spec fn optional_instant(t: Option<Timestamp>) -> bool {
    t matches Some(x) ==> x.is_instant()
}

impl Goal {
    /// The goal's instants are ones chrono can represent.
    pub open spec fn wf(self) -> bool {
        &&& self.base.wf()
        &&& optional_instant(self.started_at)
        &&& optional_instant(self.completed_at)
    }

    /// `after` is `before` finished with `status`: the completion instant is
    /// set, the update instant moved, and nothing else changed.
    pub open spec fn finished(before: Goal, after: Goal, status: GoalStatus) -> bool {
        &&& after == (Goal {
            status,
            completed_at: after.completed_at,
            base: EntityBase { updated_at: after.base.updated_at, ..before.base },
            ..before
        })
        &&& after.completed_at matches Some(t) && t.is_instant()
        &&& after.base.updated_at.is_instant()
    }

    /// A new pending goal of medium priority, with no parent, description,
    /// context or result, neither started nor completed.
    pub fn new(user_id: u128, session_id: u128, title: String) -> (g: Goal)
        ensures
            g.wf(),
            g.base.created_at == g.base.updated_at,
            g.user_id == user_id,
            g.session_id == session_id,
            g.parent_goal_id is None,
            g.title == title,
            g.description is None,
            g.status == GoalStatus::Pending,
            g.priority == GoalPriority::Medium,
            is_empty_object(g.context),
            g.result is None,
            g.started_at is None,
            g.completed_at is None,
    {
        Goal {
            base: EntityBase::new(),
            user_id,
            session_id,
            parent_goal_id: None,
            title,
            description: None,
            status: GoalStatus::Pending,
            priority: GoalPriority::Medium,
            context: JsonValue::empty_object(),
            result: None,
            started_at: None,
            completed_at: None,
        }
    }

    /// The goal with the given description.
    pub fn with_description(self, description: String) -> (g: Goal)
        ensures
            g == (Goal { description: Some(description), ..self }),
    {
        let mut g = self;
        g.description = Some(description);
        g
    }

    /// The goal under the given parent goal.
    pub fn with_parent(self, parent_id: u128) -> (g: Goal)
        ensures
            g == (Goal { parent_goal_id: Some(parent_id), ..self }),
    {
        let mut g = self;
        g.parent_goal_id = Some(parent_id);
        g
    }

    /// Marks the goal in progress, started now.
    pub fn start(&mut self)
        ensures
            *final(self) == (Goal {
                status: GoalStatus::InProgress,
                started_at: final(self).started_at,
                base: EntityBase { updated_at: final(self).base.updated_at, ..old(self).base },
                ..*old(self)
            }),
            final(self).started_at matches Some(t) && t.is_instant(),
            final(self).base.updated_at.is_instant(),
    {
        self.status = GoalStatus::InProgress;
        self.started_at = Some(utc_now());
        self.base.updated_at = utc_now();
    }

    /// Marks the goal completed now, with the given result.
    pub fn complete(&mut self, result: JsonValue)
        ensures
            *final(self) == (Goal {
                status: GoalStatus::Completed,
                result: Some(result),
                completed_at: final(self).completed_at,
                base: EntityBase { updated_at: final(self).base.updated_at, ..old(self).base },
                ..*old(self)
            }),
            final(self).completed_at matches Some(t) && t.is_instant(),
            final(self).base.updated_at.is_instant(),
    {
        self.status = GoalStatus::Completed;
        self.result = Some(result);
        self.completed_at = Some(utc_now());
        self.base.updated_at = utc_now();
    }

    /// Marks the goal failed now.
    pub fn fail(&mut self)
        ensures
            Goal::finished(*old(self), *final(self), GoalStatus::Failed),
    {
        self.status = GoalStatus::Failed;
        self.completed_at = Some(utc_now());
        self.base.updated_at = utc_now();
    }

    /// Marks the goal cancelled now.
    pub fn cancel(&mut self)
        ensures
            Goal::finished(*old(self), *final(self), GoalStatus::Cancelled),
    {
        self.status = GoalStatus::Cancelled;
        self.completed_at = Some(utc_now());
        self.base.updated_at = utc_now();
    }
}

impl Entity for Goal {
    fn id(&self) -> (r: u128)
        ensures
            r == self.base.id,
    {
        self.base.id
    }

    fn entity_type() -> (r: &'static str)
        ensures
            r@ == "goal"@,
    {
        "goal"
    }

    fn created_at(&self) -> (r: Timestamp)
        ensures
            r == self.base.created_at,
    {
        self.base.created_at
    }

    fn updated_at(&self) -> (r: Timestamp)
        ensures
            r == self.base.updated_at,
    {
        self.base.updated_at
    }
}

} // verus!
