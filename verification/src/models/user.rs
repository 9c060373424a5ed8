//! User identity model.
use crate::json::{is_empty_object, JsonValue};
use crate::models::entity::{Entity, EntityBase};
use crate::time::Timestamp;
use vstd::prelude::*;

verus! {

/// User identity representing an agent or human user.
#[derive(Debug)]
pub struct User {
    pub base: EntityBase,
    pub username: String,
    pub display_name: Option<String>,
    pub email: Option<String>,
    pub metadata: JsonValue,
    pub active: bool,
}

impl User {
    /// The user's instants are ones chrono can represent.
    pub open spec fn wf(self) -> bool {
        self.base.wf()
    }

    /// A new active user with the given name, no display name or email and
    /// empty metadata.
    pub fn new(username: String) -> (u: User)
        ensures
            u.wf(),
            u.base.created_at == u.base.updated_at,
            u.username == username,
            u.display_name is None,
            u.email is None,
            is_empty_object(u.metadata),
            u.active,
    {
        User {
            base: EntityBase::new(),
            username,
            display_name: None,
            email: None,
            metadata: JsonValue::empty_object(),
            active: true,
        }
    }

    /// The user with the given display name.
    pub fn with_display_name(self, display_name: String) -> (u: User)
        ensures
            u == (User { display_name: Some(display_name), ..self }),
    {
        let mut u = self;
        u.display_name = Some(display_name);
        u
    }

    /// The user with the given email.
    pub fn with_email(self, email: String) -> (u: User)
        ensures
            u == (User { email: Some(email), ..self }),
    {
        let mut u = self;
        u.email = Some(email);
        u
    }
}

impl Entity for User {
    fn id(&self) -> (r: u128)
        ensures
            r == self.base.id,
    {
        self.base.id
    }

    fn entity_type() -> (r: &'static str)
        ensures
            r@ == "user"@,
    {
        "user"
    }

    fn created_at(&self) -> (r: Timestamp)
        ensures
            r == self.base.created_at,
    {
        self.base.created_at
    }

    fn updated_at(&self) -> (r: Timestamp)
        ensures
            r == self.base.updated_at,
    {
        self.base.updated_at
    }
}

} // verus!
