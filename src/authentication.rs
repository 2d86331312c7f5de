use vstd::prelude::*;

use crate::account::{
    completed, empty_draft, is_missing, no_changes, AccountChanges, AccountChangesView,
    AccountDraft, DraftView, NewAccount, NewAccountView, Patch,
};
use crate::auth::{record_of, UserRecord};
use crate::error::AuthError;
use crate::reply::{created_at_error, no_users, parse_i64_spec, Timestamp, UserRecordData};

pub use crate::auth::handle_error_response;

verus! {

/// An account as the service holds it.
#[derive(Debug)]
pub struct User {
    pub id: String,
    pub created_at: Timestamp,
    pub display_name: Option<String>,
    pub email: String,
    pub email_verified: bool,
    pub phone_number: Option<String>,
    pub disabled: bool,
}

/// The same account under this module's field names.
pub open spec fn user_of(r: UserRecord) -> User {
    User {
        id: r.uid,
        created_at: r.created_at,
        display_name: r.display_name,
        email: r.email,
        email_verified: r.email_verified,
        phone_number: r.phone_number,
        disabled: r.disabled,
    }
}

/// What decoding the account data `d` gives: its user, or a decode error
/// when its creation time is not a decimal `i64`.
pub open spec fn decodes_to_user(d: UserRecordData, r: Result<User, AuthError>) -> bool {
    match parse_i64_spec(d.created_at@) {
        Some(ms) => r == Ok::<User, AuthError>(user_of(record_of(d, ms))),
        None => r matches Err(AuthError::Decode(m)) && m@ == created_at_error(),
    }
}

fn user_from_result(r: Result<UserRecord, AuthError>) -> (u: Result<User, AuthError>)
    ensures
        r matches Ok(rec) ==> u == Ok::<User, AuthError>(user_of(rec)),
        r matches Err(e) ==> u == Err::<User, AuthError>(e),
{
    match r {
        Ok(rec) => Ok(
            User {
                id: rec.uid,
                created_at: rec.created_at,
                display_name: rec.display_name,
                email: rec.email,
                email_verified: rec.email_verified,
                phone_number: rec.phone_number,
                disabled: rec.disabled,
            },
        ),
        Err(e) => Err(e),
    }
}

impl User {
    /// The user that the service's account data describes. The data's
    /// `valid_since` is not kept.
    pub fn try_from_data(data: UserRecordData) -> (r: Result<User, AuthError>)
        ensures
            decodes_to_user(data, r),
    {
        user_from_result(UserRecord::try_from_data(data))
    }

    /// The user that a lookup reply's user list gives: not found when the
    /// list is absent or empty, else the first account, decoded.
    pub fn from_lookup(users: Option<Vec<UserRecordData>>) -> (r: Result<User, AuthError>)
        ensures
            no_users(users) ==> r matches Err(AuthError::NotFound),
            !no_users(users) ==> decodes_to_user(users.unwrap()@[0], r),
    {
        user_from_result(UserRecord::from_lookup(users))
    }
}

/// A validated description of an account to create.
#[derive(Debug)]
pub struct UserConfig {
    account: NewAccount,
}

impl View for UserConfig {
    type V = NewAccountView;

    closed spec fn view(&self) -> NewAccountView {
        self.account@
    }
}

impl UserConfig {
    pub fn builder() -> (r: UserConfigBuilder)
        ensures
            r@ == empty_draft(),
    {
        UserConfigBuilder { draft: AccountDraft::empty() }
    }

    /// The account described.
    pub fn account(&self) -> (r: &NewAccount)
        ensures
            r@ == self@,
    {
        &self.account
    }
}

/// Collects the fields of a [`UserConfig`]; `id` and `email` are
/// required.
#[derive(Debug)]
pub struct UserConfigBuilder {
    draft: AccountDraft,
}

impl View for UserConfigBuilder {
    type V = DraftView;

    closed spec fn view(&self) -> DraftView {
        self.draft@
    }
}

impl UserConfigBuilder {
    pub fn id(&mut self, value: &str) -> (r: &mut Self)
        ensures
            r@ == (DraftView { local_id: Some(value@), ..old(self)@ }),
            *final(self) == *final(r),
    {
        self.draft.local_id = Some(String::from_str(value));
        self
    }

    pub fn display_name(&mut self, value: &str) -> (r: &mut Self)
        ensures
            r@ == (DraftView { display_name: Some(value@), ..old(self)@ }),
            *final(self) == *final(r),
    {
        self.draft.display_name = Some(String::from_str(value));
        self
    }

    pub fn email(&mut self, value: &str) -> (r: &mut Self)
        ensures
            r@ == (DraftView { email: Some(value@), ..old(self)@ }),
            *final(self) == *final(r),
    {
        self.draft.email = Some(String::from_str(value));
        self
    }

    pub fn email_verified(&mut self, value: bool) -> (r: &mut Self)
        ensures
            r@ == (DraftView { email_verified: Some(value), ..old(self)@ }),
            *final(self) == *final(r),
    {
        self.draft.email_verified = Some(value);
        self
    }

    pub fn phone_number(&mut self, value: &str) -> (r: &mut Self)
        ensures
            r@ == (DraftView { phone_number: Some(value@), ..old(self)@ }),
            *final(self) == *final(r),
    {
        self.draft.phone_number = Some(String::from_str(value));
        self
    }

    pub fn password(&mut self, value: &str) -> (r: &mut Self)
        ensures
            r@ == (DraftView { password: Some(value@), ..old(self)@ }),
            *final(self) == *final(r),
    {
        self.draft.password = Some(String::from_str(value));
        self
    }

    /// The described account; fails naming `id`, else `email`, when that
    /// field was never given.
    pub fn build(&mut self) -> (r: Result<UserConfig, AuthError>)
        ensures
            final(self)@ == old(self)@,
            old(self)@.local_id is None ==> is_missing(r, "id"@),
            old(self)@.local_id is Some && old(self)@.email is None ==> is_missing(r, "email"@),
            old(self)@.local_id is Some && old(self)@.email is Some ==> (r matches Ok(p) && p@
                == completed(old(self)@)),
    {
        match self.draft.finish("id") {
            Ok(account) => Ok(UserConfig { account }),
            Err(e) => Err(e),
        }
    }
}

/// A validated partial update of an account.
#[derive(Debug)]
pub struct UserUpdate {
    changes: AccountChanges,
}

impl View for UserUpdate {
    type V = AccountChangesView;

    closed spec fn view(&self) -> AccountChangesView {
        self.changes@
    }
}

impl UserUpdate {
    pub fn builder() -> (r: UserUpdateBuilder)
        ensures
            r@ == no_changes(),
    {
        UserUpdateBuilder { changes: AccountChanges::none() }
    }

    /// The changes described.
    pub fn changes(&self) -> (r: &AccountChanges)
        ensures
            r@ == self@,
    {
        &self.changes
    }
}

/// Collects the changes of an [`UserUpdate`]. Setting a field and
/// removing it act on one slot: the later call wins.
#[derive(Debug)]
pub struct UserUpdateBuilder {
    changes: AccountChanges,
}

impl View for UserUpdateBuilder {
    type V = AccountChangesView;

    closed spec fn view(&self) -> AccountChangesView {
        self.changes@
    }
}

impl UserUpdateBuilder {
    pub fn disable(&mut self, value: bool) -> (r: &mut Self)
        ensures
            r@ == (AccountChangesView { disable: Some(value), ..old(self)@ }),
            *final(self) == *final(r),
    {
        self.changes.disable = Some(value);
        self
    }

    pub fn display_name(&mut self, value: &str) -> (r: &mut Self)
        ensures
            r@ == (AccountChangesView { display_name: Patch::SetTo(value@), ..old(self)@ }),
            *final(self) == *final(r),
    {
        self.changes.display_name = Patch::SetTo(String::from_str(value));
        self
    }

    pub fn email(&mut self, value: &str) -> (r: &mut Self)
        ensures
            r@ == (AccountChangesView { email: Patch::SetTo(value@), ..old(self)@ }),
            *final(self) == *final(r),
    {
        self.changes.email = Patch::SetTo(String::from_str(value));
        self
    }

    pub fn email_verified(&mut self, value: bool) -> (r: &mut Self)
        ensures
            r@ == (AccountChangesView { email_verified: Some(value), ..old(self)@ }),
            *final(self) == *final(r),
    {
        self.changes.email_verified = Some(value);
        self
    }

    pub fn phone_number(&mut self, value: &str) -> (r: &mut Self)
        ensures
            r@ == (AccountChangesView { phone_number: Patch::SetTo(value@), ..old(self)@ }),
            *final(self) == *final(r),
    {
        self.changes.phone_number = Patch::SetTo(String::from_str(value));
        self
    }

    pub fn password(&mut self, value: &str) -> (r: &mut Self)
        ensures
            r@ == (AccountChangesView { password: Some(value@), ..old(self)@ }),
            *final(self) == *final(r),
    {
        self.changes.password = Some(String::from_str(value));
        self
    }

    /// Clears the display name (the `DISPLAY_NAME` attribute).
    pub fn remove_display_name(&mut self) -> (r: &mut Self)
        ensures
            r@ == (AccountChangesView { display_name: Patch::Delete, ..old(self)@ }),
            *final(self) == *final(r),
    {
        self.changes.display_name = Patch::Delete;
        self
    }

    /// Clears the email (the `EMAIL` attribute).
    pub fn remove_email(&mut self) -> (r: &mut Self)
        ensures
            r@ == (AccountChangesView { email: Patch::Delete, ..old(self)@ }),
            *final(self) == *final(r),
    {
        self.changes.email = Patch::Delete;
        self
    }

    /// Unlinks the phone number (the `phone` provider).
    pub fn remove_phone_number(&mut self) -> (r: &mut Self)
        ensures
            r@ == (AccountChangesView { phone_number: Patch::Delete, ..old(self)@ }),
            *final(self) == *final(r),
    {
        self.changes.phone_number = Patch::Delete;
        self
    }

    /// The described update; every field may be left unchanged, so this
    /// always succeeds.
    pub fn build(&mut self) -> (r: Result<UserUpdate, AuthError>)
        ensures
            final(self)@ == old(self)@,
            r matches Ok(p) && p@ == old(self)@,
    {
        Ok(UserUpdate { changes: self.changes.duplicate() })
    }
}

} // verus!
