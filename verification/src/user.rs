//! The user data model: accounts, their kinds, and the decisions the engine
//! takes on a user's behalf.

use vstd::prelude::*;

use crate::oid::{fresh_object_id_hex, is_object_id_hex};

verus! {

/// The kind of account a user holds.
#[derive(Clone, Copy, Debug, PartialEq, Eq, Structural)]
pub enum AccountType {
    /// Developers administer flags for everyone.
    Developer,
    /// Clients consume flags and may only act on themselves.
    Client,
}

impl AccountType {
    /// The canonical name under which an account type is stored.
    pub open spec fn spec_name(self) -> Seq<char> {
        match self {
            AccountType::Developer => "Developer"@,
            AccountType::Client => "Client"@,
        }
    }

    /// The account type a stored name denotes: anything but the canonical
    /// developer name is read as a client account.
    pub open spec fn spec_from_name(name: Seq<char>) -> AccountType {
        if name == "Developer"@ {
            AccountType::Developer
        } else {
            AccountType::Client
        }
    }

    /// Renders the canonical name of the account type.
    pub fn name(&self) -> (name: String)
        ensures
            name@ == self.spec_name(),
    {
        match self {
            AccountType::Developer => "Developer".to_owned(),
            AccountType::Client => "Client".to_owned(),
        }
    }
}

impl core::convert::From<String> for AccountType {
    /// Reads an account type back from its stored name.
    fn from(other: String) -> (account_type: AccountType)
    {
        let developer = "Developer".to_owned();
        if other == developer {
            AccountType::Developer
        } else {
            AccountType::Client
        }
    }
}

impl vstd::std_specs::convert::FromSpecImpl<String> for AccountType {
    open spec fn obeys_from_spec() -> bool {
        true
    }

    open spec fn from_spec(other: String) -> AccountType {
        AccountType::spec_from_name(other@)
    }
}

/// Spec-level model of a [`User`].
#[verifier::ext_equal]
pub struct UserView {
    pub oid: Option<Seq<char>>,
    pub name: Seq<char>,
    pub account_type: AccountType,
    pub email: Seq<char>,
    pub password_hash: Seq<char>,
}

impl UserView {
    /// The user every builder starts from: unsaved, a client account with
    /// placeholder credentials.
    pub open spec fn default_user() -> UserView {
        UserView {
            oid: None,
            name: "default_user"@,
            account_type: AccountType::Client,
            email: "default_user_email"@,
            password_hash: "default_password_hash"@,
        }
    }

    /// The scope on which this user adjusts a flag's rollout: a developer
    /// acts on the whole organization, a client acts on themselves under
    /// their persisted id, and a client that was never persisted cannot act.
    pub open spec fn rollout_scope(self) -> Option<Option<Seq<char>>> {
        match self.account_type {
            AccountType::Developer => Some(None),
            AccountType::Client => match self.oid {
                Some(id) => Some(Some(id)),
                None => None,
            },
        }
    }
}

/// An account known to the system.
#[derive(Clone, Debug, PartialEq)]
pub struct User {
    /// Unique id of the user, assigned by the store on creation.
    pub oid: Option<String>,
    /// User name.
    pub name: String,
    /// Kind of account the user holds.
    pub account_type: AccountType,
    /// User email.
    pub email: String,
    /// Hash of the user's password.
    pub password_hash: String,
}

impl View for User {
    type V = UserView;

    open spec fn view(&self) -> UserView {
        UserView {
            oid: self.oid.deep_view(),
            name: self.name@,
            account_type: self.account_type,
            email: self.email@,
            password_hash: self.password_hash@,
        }
    }
}

impl Default for User {
    /// The placeholder user: an unsaved client account.
    fn default() -> (user: User)
        ensures
            user@ == UserView::default_user(),
    {
        let user = User {
            oid: None,
            name: "default_user".to_owned(),
            account_type: AccountType::Client,
            email: "default_user_email".to_owned(),
            password_hash: "default_password_hash".to_owned(),
        };
        proof {
            assert(user@ =~= UserView::default_user());
        }
        user
    }
}

impl User {
    /// Returns a [`UserBuilder`] to eventually construct a [`User`].
    pub fn builder() -> (b: UserBuilder)
        ensures
            b@ == UserView::default_user(),
    {
        UserBuilder::new()
    }

    /// Whether the presented password hash is the user's.
    pub fn verify_password(&self, hash: &str) -> (ok: bool)
        ensures
            ok == (self@.password_hash == hash@),
    {
        let presented = hash.to_owned();
        self.password_hash == presented
    }

    /// Chooses the scope of a rollout change made on this user's behalf:
    /// `Some(None)` for an organization-wide change by a developer,
    /// `Some(Some(id))` for a client's change to their own override, and
    /// `None` for a client that has no persisted id to act under.
    pub fn rollout_scope(&self) -> (scope: Option<Option<String>>)
        ensures
            scope.deep_view() == self@.rollout_scope(),
    {
        match self.account_type {
            AccountType::Developer => Some(None),
            AccountType::Client => match &self.oid {
                Some(id) => Some(Some(id.clone())),
                None => None,
            },
        }
    }

    /// Renders the user for handing out: the password hash stays private and
    /// the id is always present, with a freshly drawn placeholder for a user
    /// that was never persisted.
    pub fn get_spec_safe_user(&self) -> (safe: SpecSafeUser)
        ensures
            match self@.oid {
                Some(id) => safe.oid@ == id,
                None => is_object_id_hex(safe.oid@),
            },
            safe.name@ == self@.name,
            safe.account_type == self@.account_type,
            safe.email@ == self@.email,
    {
        SpecSafeUser {
            oid: match &self.oid {
                Some(id) => id.clone(),
                None => fresh_object_id_hex(),
            },
            name: self.name.clone(),
            account_type: self.account_type,
            email: self.email.clone(),
        }
    }
}

/// A rendering of a [`User`] that is safe to hand out: no password hash, and
/// an id that is always present.
#[derive(Clone, Debug, PartialEq)]
pub struct SpecSafeUser {
    /// Unique id of the user.
    pub oid: String,
    /// User name.
    pub name: String,
    /// Kind of account the user holds.
    pub account_type: AccountType,
    /// User email.
    pub email: String,
}

/// Accumulates the fields of a [`User`] before it is built.
#[derive(Clone, Debug)]
pub struct UserBuilder {
    oid: Option<String>,
    name: String,
    account_type: AccountType,
    email: String,
    password_hash: String,
}

impl View for UserBuilder {
    type V = UserView;

    closed spec fn view(&self) -> UserView {
        UserView {
            oid: self.oid.deep_view(),
            name: self.name@,
            account_type: self.account_type,
            email: self.email@,
            password_hash: self.password_hash@,
        }
    }
}

impl Default for UserBuilder {
    /// Starts from the same fields as the default user.
    fn default() -> (b: UserBuilder)
        ensures
            b@ == UserView::default_user(),
    {
        UserBuilder::new()
    }
}

impl UserBuilder {
    /// Starts from the same fields as the default user.
    fn new() -> (b: UserBuilder)
        ensures
            b@ == UserView::default_user(),
    {
        let user = User::default();
        let b = UserBuilder {
            oid: user.oid,
            name: user.name,
            account_type: user.account_type,
            email: user.email,
            password_hash: user.password_hash,
        };
        proof {
            assert(b@ =~= UserView::default_user());
        }
        b
    }

    /// Sets the id the store assigned to the user.
    pub fn with_oid(self, oid: String) -> (b: UserBuilder)
        ensures
            b@ == (UserView { oid: Some(oid@), ..self@ }),
    {
        let mut b = self;
        b.oid = Some(oid);
        b
    }

    /// Sets the user's name.
    pub fn with_name(self, name: &str) -> (b: UserBuilder)
        ensures
            b@ == (UserView { name: name@, ..self@ }),
    {
        let mut b = self;
        b.name = name.to_owned();
        b
    }

    /// Sets the kind of account the user holds.
    pub fn with_account_type(self, account_type: AccountType) -> (b: UserBuilder)
        ensures
            b@ == (UserView { account_type, ..self@ }),
    {
        let mut b = self;
        b.account_type = account_type;
        b
    }

    /// Sets the user's email address.
    pub fn with_email(self, email: &str) -> (b: UserBuilder)
        ensures
            b@ == (UserView { email: email@, ..self@ }),
    {
        let mut b = self;
        b.email = email.to_owned();
        b
    }

    /// Sets the hash of the user's password.
    pub fn with_password_hash(self, password_hash: &str) -> (b: UserBuilder)
        ensures
            b@ == (UserView { password_hash: password_hash@, ..self@ }),
    {
        let mut b = self;
        b.password_hash = password_hash.to_owned();
        b
    }

    /// Builds the user, consuming the builder.
    pub fn build(self) -> (user: User)
        ensures
            user@ == self@,
    {
        User {
            oid: self.oid,
            name: self.name,
            account_type: self.account_type,
            email: self.email,
            password_hash: self.password_hash,
        }
    }
}

} // verus!
