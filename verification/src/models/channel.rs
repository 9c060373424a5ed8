//! Channel model for cross-channel context management.
use crate::json::{is_empty_object, JsonValue};
use crate::models::entity::{Entity, EntityBase};
use crate::models::goal::optional_instant;
use crate::models::status::{ChannelStatus, ChannelType};
use crate::time::{utc_now, Timestamp};
use vstd::prelude::*;

verus! {

/// Channel represents a communication channel (e.g., Slack, Email, Calendar).
#[derive(Debug)]
pub struct Channel {
    pub base: EntityBase,
    pub user_id: u128,
    pub channel_type: ChannelType,
    pub channel_name: String,
    pub channel_identifier: String,
    pub status: ChannelStatus,
    pub metadata: JsonValue,
    pub config: JsonValue,
    pub last_message_at: Option<Timestamp>,
}

impl Channel {
    /// The channel's instants are ones chrono can represent.
    pub open spec fn wf(self) -> bool {
        self.base.wf() && optional_instant(self.last_message_at)
    }

    /// `after` is `before` with only the status changed, and the update
    /// instant moved to one chrono can represent.
    pub open spec fn restamped(before: Channel, after: Channel, status: ChannelStatus) -> bool {
        &&& after == (Channel {
            status,
            base: EntityBase { updated_at: after.base.updated_at, ..before.base },
            ..before
        })
        &&& after.base.updated_at.is_instant()
    }

    /// A new active channel of the user, with empty metadata and
    /// configuration and no message yet.
    pub fn new(
        user_id: u128,
        channel_type: ChannelType,
        channel_name: String,
        channel_identifier: String,
    ) -> (c: Channel)
        ensures
            c.wf(),
            c.base.created_at == c.base.updated_at,
            c.user_id == user_id,
            c.channel_type == channel_type,
            c.channel_name == channel_name,
            c.channel_identifier == channel_identifier,
            c.status == ChannelStatus::Active,
            is_empty_object(c.metadata),
            is_empty_object(c.config),
            c.last_message_at is None,
    {
        Channel {
            base: EntityBase::new(),
            user_id,
            channel_type,
            channel_name,
            channel_identifier,
            status: ChannelStatus::Active,
            metadata: JsonValue::empty_object(),
            config: JsonValue::empty_object(),
            last_message_at: None,
        }
    }

    /// The channel with the given metadata.
    pub fn with_metadata(self, metadata: JsonValue) -> (c: Channel)
        ensures
            c == (Channel { metadata, ..self }),
    {
        let mut c = self;
        c.metadata = metadata;
        c
    }

    /// The channel with the given configuration.
    pub fn with_config(self, config: JsonValue) -> (c: Channel)
        ensures
            c == (Channel { config, ..self }),
    {
        let mut c = self;
        c.config = config;
        c
    }

    /// Records that a message arrived now.
    pub fn update_last_message(&mut self)
        ensures
            *final(self) == (Channel {
                last_message_at: final(self).last_message_at,
                base: EntityBase { updated_at: final(self).base.updated_at, ..old(self).base },
                ..*old(self)
            }),
            final(self).last_message_at matches Some(t) && t.is_instant(),
            final(self).base.updated_at.is_instant(),
    {
        self.last_message_at = Some(utc_now());
        self.base.updated_at = utc_now();
    }

    /// Pauses the channel.
    pub fn pause(&mut self)
        ensures
            Channel::restamped(*old(self), *final(self), ChannelStatus::Paused),
    {
        self.status = ChannelStatus::Paused;
        self.base.updated_at = utc_now();
    }

    /// Deactivates the channel.
    pub fn deactivate(&mut self)
        ensures
            Channel::restamped(*old(self), *final(self), ChannelStatus::Inactive),
    {
        self.status = ChannelStatus::Inactive;
        self.base.updated_at = utc_now();
    }
}

impl Entity for Channel {
    fn id(&self) -> (r: u128)
        ensures
            r == self.base.id,
    {
        self.base.id
    }

    fn entity_type() -> (r: &'static str)
        ensures
            r@ == "channel"@,
    {
        "channel"
    }

    fn created_at(&self) -> (r: Timestamp)
        ensures
            r == self.base.created_at,
    {
        self.base.created_at
    }

    fn updated_at(&self) -> (r: Timestamp)
        ensures
            r == self.base.updated_at,
    {
        self.base.updated_at
    }
}

/// Query for finding channels.
#[derive(Debug)]
pub struct ChannelQuery {
    pub user_id: Option<u128>,
    pub channel_type: Option<ChannelType>,
    pub status: Option<ChannelStatus>,
}

impl Default for ChannelQuery {
    fn default() -> (q: ChannelQuery)
        ensures
            q.user_id is None,
            q.channel_type is None,
            q.status is None,
    {
        ChannelQuery { user_id: None, channel_type: None, status: None }
    }
}

} // verus!
