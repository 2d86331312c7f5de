use vstd::prelude::*;

use crate::account::{
    completed, empty_draft, is_missing, no_changes, AccountChanges, AccountChangesView,
    AccountDraft, DraftView, NewAccount, NewAccountView, Patch,
};
use crate::error::AuthError;
use crate::reply::{
    created_at_error, first_user, is_success, no_users, parse_created_at, parse_i64_spec,
    Timestamp, UserRecordData,
};

verus! {

/// An account as the service holds it.
#[derive(Debug)]
pub struct UserRecord {
    pub uid: String,
    pub created_at: Timestamp,
    pub display_name: Option<String>,
    pub email: String,
    pub email_verified: bool,
    pub phone_number: Option<String>,
    pub disabled: bool,
}

/// The record for the account data `d`, created at `millis`.
pub open spec fn record_of(d: UserRecordData, millis: i64) -> UserRecord {
    UserRecord {
        uid: d.local_id,
        created_at: Timestamp { millis },
        display_name: d.display_name,
        email: d.email,
        email_verified: d.email_verified,
        phone_number: d.phone_number,
        disabled: d.disabled,
    }
}

/// What decoding the account data `d` gives: its record, or a decode error
/// when its creation time is not a decimal `i64`.
pub open spec fn decodes_to(d: UserRecordData, r: Result<UserRecord, AuthError>) -> bool {
    match parse_i64_spec(d.created_at@) {
        Some(ms) => r == Ok::<UserRecord, AuthError>(record_of(d, ms)),
        None => r matches Err(AuthError::Decode(m)) && m@ == created_at_error(),
    }
}

impl UserRecord {
    /// The record that the service's account data describes. The data's
    /// `valid_since` is not kept.
    pub fn try_from_data(data: UserRecordData) -> (r: Result<UserRecord, AuthError>)
        ensures
            decodes_to(data, r),
    {
        let created_at = match parse_created_at(data.created_at.as_str()) {
            Ok(t) => t,
            Err(e) => {
                return Err(e);
            },
        };
        let UserRecordData {
            local_id,
            display_name,
            email,
            email_verified,
            phone_number,
            disabled,
            ..
        } = data;
        Ok(
            UserRecord {
                uid: local_id,
                created_at,
                display_name,
                email,
                email_verified,
                phone_number,
                disabled,
            },
        )
    }

    /// The record that a lookup reply's user list gives: not found when the
    /// list is absent or empty, else the first account, decoded.
    pub fn from_lookup(users: Option<Vec<UserRecordData>>) -> (r: Result<UserRecord, AuthError>)
        ensures
            no_users(users) ==> r matches Err(AuthError::NotFound),
            !no_users(users) ==> decodes_to(users.unwrap()@[0], r),
    {
        match first_user(users) {
            Ok(data) => UserRecord::try_from_data(data),
            Err(e) => Err(e),
        }
    }
}

/// The error for a failed reply with status `status`: the service's
/// message when the reply carried one, else a decode error.
pub open spec fn error_reply(status: u16, error_message: Option<String>, e: AuthError) -> bool {
    match error_message {
        Some(message) => e == AuthError::Service { status, message },
        None => e matches AuthError::Decode(m) && m@ == decode_error_text(),
    }
}

pub open spec fn decode_error_text() -> Seq<char> {
    "failed to parse response"@
}

/// Sorts a reply by its status: a success status passes; any other gives
/// the service's error message when the reply carried one
/// (`error_message`), else a decode error.
pub fn handle_error_response(status: u16, error_message: Option<String>) -> (r: Result<
    (),
    AuthError,
>)
    ensures
        is_success(status) ==> r is Ok,
        !is_success(status) ==> (r matches Err(e) && error_reply(status, error_message, e)),
{
    if 200 <= status && status <= 299 {
        return Ok(());
    }
    match error_message {
        Some(message) => Err(AuthError::Service { status, message }),
        None => Err(AuthError::Decode(String::from_str("failed to parse response"))),
    }
}

/// A validated description of an account to create.
#[derive(Debug)]
pub struct CreateUserParams {
    account: NewAccount,
}

impl View for CreateUserParams {
    type V = NewAccountView;

    closed spec fn view(&self) -> NewAccountView {
        self.account@
    }
}

impl CreateUserParams {
    pub fn builder() -> (r: CreateUserParamsBuilder)
        ensures
            r@ == empty_draft(),
    {
        CreateUserParamsBuilder { draft: AccountDraft::empty() }
    }

    /// The account described.
    pub fn account(&self) -> (r: &NewAccount)
        ensures
            r@ == self@,
    {
        &self.account
    }
}

/// Collects the fields of a [`CreateUserParams`]; `uid` and `email` are
/// required.
#[derive(Debug)]
pub struct CreateUserParamsBuilder {
    draft: AccountDraft,
}

impl View for CreateUserParamsBuilder {
    type V = DraftView;

    closed spec fn view(&self) -> DraftView {
        self.draft@
    }
}

impl CreateUserParamsBuilder {
    pub fn uid(&mut self, value: &str) -> (r: &mut Self)
        ensures
            r@ == (DraftView { local_id: Some(value@), ..old(self)@ }),
            *final(self) == *final(r),
    {
        self.draft.local_id = Some(String::from_str(value));
        self
    }

    pub fn display_name(&mut self, value: &str) -> (r: &mut Self)
        ensures
            r@ == (DraftView { display_name: Some(value@), ..old(self)@ }),
            *final(self) == *final(r),
    {
        self.draft.display_name = Some(String::from_str(value));
        self
    }

    pub fn email(&mut self, value: &str) -> (r: &mut Self)
        ensures
            r@ == (DraftView { email: Some(value@), ..old(self)@ }),
            *final(self) == *final(r),
    {
        self.draft.email = Some(String::from_str(value));
        self
    }

    pub fn email_verified(&mut self, value: bool) -> (r: &mut Self)
        ensures
            r@ == (DraftView { email_verified: Some(value), ..old(self)@ }),
            *final(self) == *final(r),
    {
        self.draft.email_verified = Some(value);
        self
    }

    pub fn phone_number(&mut self, value: &str) -> (r: &mut Self)
        ensures
            r@ == (DraftView { phone_number: Some(value@), ..old(self)@ }),
            *final(self) == *final(r),
    {
        self.draft.phone_number = Some(String::from_str(value));
        self
    }

    pub fn password(&mut self, value: &str) -> (r: &mut Self)
        ensures
            r@ == (DraftView { password: Some(value@), ..old(self)@ }),
            *final(self) == *final(r),
    {
        self.draft.password = Some(String::from_str(value));
        self
    }

    /// The described account; fails naming `uid`, else `email`, when that
    /// field was never given.
    pub fn build(&mut self) -> (r: Result<CreateUserParams, AuthError>)
        ensures
            final(self)@ == old(self)@,
            old(self)@.local_id is None ==> is_missing(r, "uid"@),
            old(self)@.local_id is Some && old(self)@.email is None ==> is_missing(r, "email"@),
            old(self)@.local_id is Some && old(self)@.email is Some ==> (r matches Ok(p) && p@
                == completed(old(self)@)),
    {
        match self.draft.finish("uid") {
            Ok(account) => Ok(CreateUserParams { account }),
            Err(e) => Err(e),
        }
    }
}

/// A validated partial update of an account.
#[derive(Debug)]
pub struct UpdateUserParams {
    changes: AccountChanges,
}

impl View for UpdateUserParams {
    type V = AccountChangesView;

    closed spec fn view(&self) -> AccountChangesView {
        self.changes@
    }
}

impl UpdateUserParams {
    pub fn builder() -> (r: UpdateUserParamsBuilder)
        ensures
            r@ == no_changes(),
    {
        UpdateUserParamsBuilder { changes: AccountChanges::none() }
    }

    /// The changes described.
    pub fn changes(&self) -> (r: &AccountChanges)
        ensures
            r@ == self@,
    {
        &self.changes
    }
}

/// Collects the changes of an [`UpdateUserParams`]. Setting a field and
/// removing it act on one slot: the later call wins.
#[derive(Debug)]
pub struct UpdateUserParamsBuilder {
    changes: AccountChanges,
}

impl View for UpdateUserParamsBuilder {
    type V = AccountChangesView;

    closed spec fn view(&self) -> AccountChangesView {
        self.changes@
    }
}

impl UpdateUserParamsBuilder {
    pub fn disable(&mut self, value: bool) -> (r: &mut Self)
        ensures
            r@ == (AccountChangesView { disable: Some(value), ..old(self)@ }),
            *final(self) == *final(r),
    {
        self.changes.disable = Some(value);
        self
    }

    pub fn display_name(&mut self, value: &str) -> (r: &mut Self)
        ensures
            r@ == (AccountChangesView { display_name: Patch::SetTo(value@), ..old(self)@ }),
            *final(self) == *final(r),
    {
        self.changes.display_name = Patch::SetTo(String::from_str(value));
        self
    }

    pub fn email(&mut self, value: &str) -> (r: &mut Self)
        ensures
            r@ == (AccountChangesView { email: Patch::SetTo(value@), ..old(self)@ }),
            *final(self) == *final(r),
    {
        self.changes.email = Patch::SetTo(String::from_str(value));
        self
    }

    pub fn email_verified(&mut self, value: bool) -> (r: &mut Self)
        ensures
            r@ == (AccountChangesView { email_verified: Some(value), ..old(self)@ }),
            *final(self) == *final(r),
    {
        self.changes.email_verified = Some(value);
        self
    }

    pub fn phone_number(&mut self, value: &str) -> (r: &mut Self)
        ensures
            r@ == (AccountChangesView { phone_number: Patch::SetTo(value@), ..old(self)@ }),
            *final(self) == *final(r),
    {
        self.changes.phone_number = Patch::SetTo(String::from_str(value));
        self
    }

    pub fn password(&mut self, value: &str) -> (r: &mut Self)
        ensures
            r@ == (AccountChangesView { password: Some(value@), ..old(self)@ }),
            *final(self) == *final(r),
    {
        self.changes.password = Some(String::from_str(value));
        self
    }

    /// Clears the display name (the `DISPLAY_NAME` attribute).
    pub fn remove_display_name(&mut self) -> (r: &mut Self)
        ensures
            r@ == (AccountChangesView { display_name: Patch::Delete, ..old(self)@ }),
            *final(self) == *final(r),
    {
        self.changes.display_name = Patch::Delete;
        self
    }

    /// Clears the email (the `EMAIL` attribute).
    pub fn remove_email(&mut self) -> (r: &mut Self)
        ensures
            r@ == (AccountChangesView { email: Patch::Delete, ..old(self)@ }),
            *final(self) == *final(r),
    {
        self.changes.email = Patch::Delete;
        self
    }

    /// Unlinks the phone number (the `phone` provider).
    pub fn remove_phone_number(&mut self) -> (r: &mut Self)
        ensures
            r@ == (AccountChangesView { phone_number: Patch::Delete, ..old(self)@ }),
            *final(self) == *final(r),
    {
        self.changes.phone_number = Patch::Delete;
        self
    }

    /// The described update; every field may be left unchanged, so this
    /// always succeeds.
    pub fn build(&mut self) -> (r: Result<UpdateUserParams, AuthError>)
        ensures
            final(self)@ == old(self)@,
            r matches Ok(p) && p@ == old(self)@,
    {
        Ok(UpdateUserParams { changes: self.changes.duplicate() })
    }
}

} // verus!
