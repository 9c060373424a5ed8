//! Session model for tracking agent sessions.
use crate::json::{is_empty_object, JsonValue};
use crate::models::entity::{Entity, EntityBase};
use crate::models::status::SessionStatus;
use crate::time::{utc_now, Timestamp};
use vstd::prelude::*;

verus! {

/// A session represents a single agent interaction or task execution.
#[derive(Debug)]
pub struct Session {
    pub base: EntityBase,
    pub user_id: u128,
    pub channel_id: Option<u128>,
    pub status: SessionStatus,
    pub metadata: JsonValue,
    pub context: JsonValue,
    pub last_activity_at: Timestamp,
}

impl Session {
    /// The session's instants are ones chrono can represent.
    pub open spec fn wf(self) -> bool {
        self.base.wf() && self.last_activity_at.is_instant()
    }

    /// `after` is `before` with only the status changed, and the update
    /// instant moved to one chrono can represent.
    pub open spec fn restamped(before: Session, after: Session, status: SessionStatus) -> bool {
        &&& after == (Session {
            status,
            base: EntityBase { updated_at: after.base.updated_at, ..before.base },
            ..before
        })
        &&& after.base.updated_at.is_instant()
    }

    /// A new active session of the user, on no channel, with empty metadata
    /// and context, last active now.
    pub fn new(user_id: u128) -> (s: Session)
        ensures
            s.wf(),
            s.base.created_at == s.base.updated_at,
            s.user_id == user_id,
            s.channel_id is None,
            s.status == SessionStatus::Active,
            is_empty_object(s.metadata),
            is_empty_object(s.context),
    {
        let now = utc_now();
        Session {
            base: EntityBase::new(),
            user_id,
            channel_id: None,
            status: SessionStatus::Active,
            metadata: JsonValue::empty_object(),
            context: JsonValue::empty_object(),
            last_activity_at: now,
        }
    }

    /// The session on the given channel.
    pub fn with_channel(self, channel_id: u128) -> (s: Session)
        ensures
            s == (Session { channel_id: Some(channel_id), ..self }),
    {
        let mut s = self;
        s.channel_id = Some(channel_id);
        s
    }

    /// Marks the session active now.
    pub fn update_activity(&mut self)
        ensures
            *final(self) == (Session {
                last_activity_at: final(self).last_activity_at,
                base: EntityBase { updated_at: final(self).base.updated_at, ..old(self).base },
                ..*old(self)
            }),
            final(self).last_activity_at.is_instant(),
            final(self).base.updated_at.is_instant(),
    {
        self.last_activity_at = utc_now();
        self.base.updated_at = utc_now();
    }

    /// Marks the session completed.
    pub fn complete(&mut self)
        ensures
            Session::restamped(*old(self), *final(self), SessionStatus::Completed),
    {
        self.status = SessionStatus::Completed;
        self.base.updated_at = utc_now();
    }

    /// Marks the session failed.
    pub fn fail(&mut self)
        ensures
            Session::restamped(*old(self), *final(self), SessionStatus::Failed),
    {
        self.status = SessionStatus::Failed;
        self.base.updated_at = utc_now();
    }

    /// Marks the session paused.
    pub fn pause(&mut self)
        ensures
            Session::restamped(*old(self), *final(self), SessionStatus::Paused),
    {
        self.status = SessionStatus::Paused;
        self.base.updated_at = utc_now();
    }
}

impl Entity for Session {
    fn id(&self) -> (r: u128)
        ensures
            r == self.base.id,
    {
        self.base.id
    }

    fn entity_type() -> (r: &'static str)
        ensures
            r@ == "session"@,
    {
        "session"
    }

    fn created_at(&self) -> (r: Timestamp)
        ensures
            r == self.base.created_at,
    {
        self.base.created_at
    }

    fn updated_at(&self) -> (r: Timestamp)
        ensures
            r == self.base.updated_at,
    {
        self.base.updated_at
    }
}

} // verus!
