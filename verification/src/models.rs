//! The user record and its pending-token slot.

use vstd::prelude::*;
use vstd::string::*;
use crate::text::same_text;

verus! {

/// The roles the service knows.
#[derive(Debug, Clone, Copy, PartialEq, Eq, Structural)]
pub enum UserRole {
    Admin,
    User,
}

impl UserRole {
    /// The role's name as it is stored.
    pub open spec fn text(self) -> Seq<char> {
        match self {
            UserRole::Admin => "admin"@,
            UserRole::User => "user"@,
        }
    }

    pub fn to_str(&self) -> (r: &'static str)
        ensures
            r@ == self.text(),
    {
        match self {
            UserRole::Admin => "admin",
            UserRole::User => "user",
        }
    }
}

impl Default for UserRole {
    fn default() -> (r: UserRole)
        ensures
            r == UserRole::User,
    {
        UserRole::User
    }
}

/// A user as the store holds it. Times are whole seconds since the Unix
/// epoch; `verification_token` and `token_expires_at` are the pending-token
/// slot, shared by email verification and password reset.
#[derive(Debug)]
pub struct User {
    pub id: u128,
    pub name: String,
    pub email: String,
    pub verified: bool,
    pub password: String,
    pub verification_token: Option<String>,
    pub token_expires_at: Option<i64>,
    pub role: UserRole,
    pub created_at: Option<i64>,
    pub updated_at: Option<i64>,
}

/// The mathematical value of a `User`.
pub struct UserView {
    pub id: u128,
    pub name: Seq<char>,
    pub email: Seq<char>,
    pub verified: bool,
    pub password: Seq<char>,
    pub verification_token: Option<Seq<char>>,
    pub token_expires_at: Option<i64>,
    pub role: UserRole,
    pub created_at: Option<i64>,
    pub updated_at: Option<i64>,
}

/// The text held by an optional string.
pub open spec fn text_of(s: Option<String>) -> Option<Seq<char>> {
    match s {
        Some(t) => Some(t@),
        None => None,
    }
}

impl View for User {
    type V = UserView;

    open spec fn view(&self) -> UserView {
        UserView {
            id: self.id,
            name: self.name@,
            email: self.email@,
            verified: self.verified,
            password: self.password@,
            verification_token: text_of(self.verification_token),
            token_expires_at: self.token_expires_at,
            role: self.role,
            created_at: self.created_at,
            updated_at: self.updated_at,
        }
    }
}

impl UserView {
    /// The slot holds nothing.
    pub open spec fn slot_empty(self) -> bool {
        self.verification_token is None && self.token_expires_at is None
    }

    /// The slot holds a token and its expiry, or neither.
    pub open spec fn slot_well_formed(self) -> bool {
        self.verification_token is Some <==> self.token_expires_at is Some
    }

    /// The slot holds this token, with an expiry.
    pub open spec fn holds(self, token: Seq<char>) -> bool {
        self.verification_token == Some(token) && self.token_expires_at is Some
    }

    /// The record as registration creates it.
    pub open spec fn registered(
        id: u128,
        name: Seq<char>,
        email: Seq<char>,
        password: Seq<char>,
        token: Seq<char>,
        expires_at: i64,
    ) -> UserView {
        UserView {
            id,
            name,
            email,
            verified: false,
            password,
            verification_token: Some(token),
            token_expires_at: Some(expires_at),
            role: UserRole::User,
            created_at: None,
            updated_at: None,
        }
    }

    /// The record after a new token was put into the slot.
    pub open spec fn with_pending(self, token: Seq<char>, expires_at: i64) -> UserView {
        UserView { verification_token: Some(token), token_expires_at: Some(expires_at), ..self }
    }

    /// The record after its email was verified.
    pub open spec fn verified_now(self) -> UserView {
        UserView { verified: true, verification_token: None, token_expires_at: None, ..self }
    }

    /// The record after its password was reset.
    pub open spec fn with_password(self, password: Seq<char>) -> UserView {
        UserView { password, verification_token: None, token_expires_at: None, ..self }
    }
}

impl Default for User {
    fn default() -> (r: User)
        ensures
            r@ == (UserView {
                id: 0,
                name: Seq::<char>::empty(),
                email: Seq::<char>::empty(),
                verified: false,
                password: Seq::<char>::empty(),
                verification_token: None,
                token_expires_at: None,
                role: UserRole::User,
                created_at: None,
                updated_at: None,
            }),
    {
        User {
            id: 0,
            name: String::new(),
            email: String::new(),
            verified: false,
            password: String::new(),
            verification_token: None,
            token_expires_at: None,
            role: UserRole::User,
            created_at: None,
            updated_at: None,
        }
    }
}

impl Clone for User {
    fn clone(&self) -> (r: User)
        ensures
            r@ == self@,
    {
        let verification_token = match &self.verification_token {
            Some(t) => Some(t.clone()),
            None => None,
        };
        User {
            id: self.id,
            name: self.name.clone(),
            email: self.email.clone(),
            verified: self.verified,
            password: self.password.clone(),
            verification_token,
            token_expires_at: self.token_expires_at,
            role: self.role,
            created_at: self.created_at,
            updated_at: self.updated_at,
        }
    }
}

impl User {
    /// The record of a user who has just registered: not verified, an
    /// ordinary user, the verification token pending.
    pub fn registered(
        id: u128,
        name: String,
        email: String,
        password: String,
        token: String,
        expires_at: i64,
    ) -> (r: User)
        ensures
            r@ == UserView::registered(id, name@, email@, password@, token@, expires_at),
    {
        User {
            id,
            name,
            email,
            verified: false,
            password,
            verification_token: Some(token),
            token_expires_at: Some(expires_at),
            role: UserRole::User,
            created_at: None,
            updated_at: None,
        }
    }

    /// Whether the slot holds this token, with an expiry.
    pub fn holds_token(&self, token: &str) -> (r: bool)
        ensures
            r == self@.holds(token@),
    {
        match &self.verification_token {
            Some(held) => same_text(held.as_str(), token) && self.token_expires_at.is_some(),
            None => false,
        }
    }

    /// Puts a token into the slot, over whatever was there.
    pub fn set_pending_token(&mut self, token: String, expires_at: i64)
        ensures
            final(self)@ == old(self)@.with_pending(token@, expires_at),
    {
        self.verification_token = Some(token);
        self.token_expires_at = Some(expires_at);
    }

    /// Marks the email verified and empties the slot.
    pub fn mark_verified(&mut self)
        ensures
            final(self)@ == old(self)@.verified_now(),
    {
        self.verified = true;
        self.verification_token = None;
        self.token_expires_at = None;
    }

    /// Replaces the password hash and empties the slot.
    pub fn replace_password(&mut self, password: String)
        ensures
            final(self)@ == old(self)@.with_password(password@),
    {
        self.password = password;
        self.verification_token = None;
        self.token_expires_at = None;
    }
}

/// Every step in the life of a record leaves the slot well formed: with a
/// token and its expiry after registration and after a new token was issued,
/// empty after verification and after a password reset. Nothing but
/// verification changes whether the user is verified.
pub proof fn lemma_slot_lifecycle(
    user: UserView,
    id: u128,
    name: Seq<char>,
    email: Seq<char>,
    password: Seq<char>,
    token: Seq<char>,
    expires_at: i64,
)
    ensures
        UserView::registered(id, name, email, password, token, expires_at).slot_well_formed(),
        UserView::registered(id, name, email, password, token, expires_at).holds(token),
        !UserView::registered(id, name, email, password, token, expires_at).verified,
        user.with_pending(token, expires_at).slot_well_formed(),
        user.with_pending(token, expires_at).holds(token),
        user.with_pending(token, expires_at).verified == user.verified,
        user.verified_now().slot_empty(),
        user.verified_now().verified,
        user.with_password(password).slot_empty(),
        user.with_password(password).verified == user.verified,
        user.with_password(password).password == password,
{
}

} // verus!
