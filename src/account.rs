use vstd::prelude::*;

use crate::error::AuthError;
use crate::wire::{
    body_view, bool_entry, has_entry, has_key, lemma_bool_entry, lemma_concat_entries,
    lemma_list_entry, lemma_single_entry, lemma_text_entry, list_entry, push_list, push_opt_bool, push_opt_text, push_text,
    text_entry, text_opt, texts_view, Body, WireField, WireKey, WireVal,
};

verus! {

/// What an update does to one field: leave it as it is, set it, or clear it.
#[derive(Debug)]
pub enum Patch<T> {
    Unchanged,
    SetTo(T),
    Delete,
}

pub open spec fn patch_view(p: Patch<String>) -> Patch<Seq<char>> {
    match p {
        Patch::Unchanged => Patch::Unchanged,
        Patch::SetTo(s) => Patch::SetTo(s@),
        Patch::Delete => Patch::Delete,
    }
}

/// The value a patch sets, if it sets one.
pub open spec fn patch_value(p: Patch<Seq<char>>) -> Option<Seq<char>> {
    match p {
        Patch::SetTo(v) => Some(v),
        _ => None,
    }
}

fn clone_patch(p: &Patch<String>) -> (r: Patch<String>)
    ensures
        r == *p,
{
    match p {
        Patch::Unchanged => Patch::Unchanged,
        Patch::SetTo(s) => Patch::SetTo(s.clone()),
        Patch::Delete => Patch::Delete,
    }
}

fn clone_text(o: &Option<String>) -> (r: Option<String>)
    ensures
        r == *o,
{
    match o {
        Some(s) => Some(s.clone()),
        None => None,
    }
}

/// A complete description of an account to create.
#[derive(Debug)]
pub struct NewAccount {
    pub local_id: String,
    pub display_name: Option<String>,
    pub email: String,
    pub email_verified: bool,
    pub phone_number: Option<String>,
    pub password: Option<String>,
}

pub struct NewAccountView {
    pub local_id: Seq<char>,
    pub display_name: Option<Seq<char>>,
    pub email: Seq<char>,
    pub email_verified: bool,
    pub phone_number: Option<Seq<char>>,
    pub password: Option<Seq<char>>,
}

impl View for NewAccount {
    type V = NewAccountView;

    open spec fn view(&self) -> NewAccountView {
        NewAccountView {
            local_id: self.local_id@,
            display_name: text_opt(self.display_name),
            email: self.email@,
            email_verified: self.email_verified,
            phone_number: text_opt(self.phone_number),
            password: text_opt(self.password),
        }
    }
}

/// The body that creates an account: every field the description holds,
/// optional ones only when present.
pub open spec fn create_body_spec(a: NewAccountView) -> Body {
    seq![(WireKey::LocalId, WireVal::Text(a.local_id))]
        + text_entry(WireKey::DisplayName, a.display_name)
        + seq![(WireKey::Email, WireVal::Text(a.email))]
        + seq![(WireKey::EmailVerified, WireVal::Bool(a.email_verified))]
        + text_entry(WireKey::PhoneNumber, a.phone_number)
        + text_entry(WireKey::Password, a.password)
}

impl NewAccount {
    /// The request body that creates this account.
    pub fn to_body(&self) -> (r: Vec<WireField>)
        ensures
            body_view(r@) == create_body_spec(self@),
    {
        let mut body: Vec<WireField> = Vec::new();
        assert(body_view(body@) =~= Seq::empty());
        push_text(&mut body, WireKey::LocalId, self.local_id.clone());
        push_opt_text(&mut body, WireKey::DisplayName, &self.display_name);
        push_text(&mut body, WireKey::Email, self.email.clone());
        push_opt_bool(&mut body, WireKey::EmailVerified, Some(self.email_verified));
        push_opt_text(&mut body, WireKey::PhoneNumber, &self.phone_number);
        push_opt_text(&mut body, WireKey::Password, &self.password);
        assert(body_view(body@) =~= create_body_spec(self@));
        body
    }
}

/// The fields given so far for an account to create; the identifier and the
/// email are required, the others have defaults.
#[derive(Debug)]
pub struct AccountDraft {
    pub local_id: Option<String>,
    pub display_name: Option<String>,
    pub email: Option<String>,
    pub email_verified: Option<bool>,
    pub phone_number: Option<String>,
    pub password: Option<String>,
}

pub struct DraftView {
    pub local_id: Option<Seq<char>>,
    pub display_name: Option<Seq<char>>,
    pub email: Option<Seq<char>>,
    pub email_verified: Option<bool>,
    pub phone_number: Option<Seq<char>>,
    pub password: Option<Seq<char>>,
}

impl View for AccountDraft {
    type V = DraftView;

    open spec fn view(&self) -> DraftView {
        DraftView {
            local_id: text_opt(self.local_id),
            display_name: text_opt(self.display_name),
            email: text_opt(self.email),
            email_verified: self.email_verified,
            phone_number: text_opt(self.phone_number),
            password: text_opt(self.password),
        }
    }
}

/// A draft with no field given.
pub open spec fn empty_draft() -> DraftView {
    DraftView {
        local_id: None,
        display_name: None,
        email: None,
        email_verified: None,
        phone_number: None,
        password: None,
    }
}

/// The account a draft describes once both required fields are given:
/// absent optional fields stay absent and the email counts as unverified.
pub open spec fn completed(d: DraftView) -> NewAccountView {
    NewAccountView {
        local_id: d.local_id.unwrap(),
        display_name: d.display_name,
        email: d.email.unwrap(),
        email_verified: match d.email_verified {
            Some(b) => b,
            None => false,
        },
        phone_number: d.phone_number,
        password: d.password,
    }
}

/// The error for a required field that was never given.
pub open spec fn is_missing<T>(r: Result<T, AuthError>, name: Seq<char>) -> bool {
    r matches Err(AuthError::MissingField(n)) && n@ == name
}

impl AccountDraft {
    pub fn empty() -> (r: Self)
        ensures
            r@ == empty_draft(),
    {
        AccountDraft {
            local_id: None,
            display_name: None,
            email: None,
            email_verified: None,
            phone_number: None,
            password: None,
        }
    }

    /// The account the draft describes; fails, naming the field, when the
    /// identifier (called `id_field`) or else the email was never given.
    pub fn finish(&self, id_field: &str) -> (r: Result<NewAccount, AuthError>)
        ensures
            self@.local_id is None ==> is_missing(r, id_field@),
            self@.local_id is Some && self@.email is None ==> is_missing(r, "email"@),
            self@.local_id is Some && self@.email is Some ==> (r matches Ok(a) && a@ == completed(
                self@,
            )),
    {
        let local_id = match &self.local_id {
            Some(id) => id.clone(),
            None => {
                return Err(AuthError::MissingField(String::from_str(id_field)));
            },
        };
        let email = match &self.email {
            Some(e) => e.clone(),
            None => {
                return Err(AuthError::MissingField(String::from_str("email")));
            },
        };
        let email_verified = match self.email_verified {
            Some(b) => b,
            None => false,
        };
        Ok(
            NewAccount {
                local_id,
                display_name: clone_text(&self.display_name),
                email,
                email_verified,
                phone_number: clone_text(&self.phone_number),
                password: clone_text(&self.password),
            },
        )
    }
}

/// A partial update of an account. The display name, the email and the
/// phone number can each be left, set or cleared; the other fields can be
/// left or set.
#[derive(Debug)]
pub struct AccountChanges {
    pub disable: Option<bool>,
    pub display_name: Patch<String>,
    pub email: Patch<String>,
    pub email_verified: Option<bool>,
    pub phone_number: Patch<String>,
    pub password: Option<String>,
}

pub struct AccountChangesView {
    pub disable: Option<bool>,
    pub display_name: Patch<Seq<char>>,
    pub email: Patch<Seq<char>>,
    pub email_verified: Option<bool>,
    pub phone_number: Patch<Seq<char>>,
    pub password: Option<Seq<char>>,
}

impl View for AccountChanges {
    type V = AccountChangesView;

    open spec fn view(&self) -> AccountChangesView {
        AccountChangesView {
            disable: self.disable,
            display_name: patch_view(self.display_name),
            email: patch_view(self.email),
            email_verified: self.email_verified,
            phone_number: patch_view(self.phone_number),
            password: text_opt(self.password),
        }
    }
}

/// Changes that leave every field as it is.
pub open spec fn no_changes() -> AccountChangesView {
    AccountChangesView {
        disable: None,
        display_name: Patch::Unchanged,
        email: Patch::Unchanged,
        email_verified: None,
        phone_number: Patch::Unchanged,
        password: None,
    }
}

/// The profile attributes an update clears, by their service names.
pub open spec fn deleted_attributes(c: AccountChangesView) -> Seq<Seq<char>> {
    (if c.display_name is Delete {
        seq!["DISPLAY_NAME"@]
    } else {
        Seq::empty()
    }) + (if c.email is Delete {
        seq!["EMAIL"@]
    } else {
        Seq::empty()
    })
}

/// The linked identity providers an update removes.
pub open spec fn deleted_providers(c: AccountChangesView) -> Seq<Seq<char>> {
    if c.phone_number is Delete {
        seq!["phone"@]
    } else {
        Seq::empty()
    }
}

/// The body that applies `c` to the account `id`: the identifier, each
/// field that is set, and each deletion list that is not empty.
pub open spec fn update_body_spec(id: Seq<char>, c: AccountChangesView) -> Body {
    seq![(WireKey::LocalId, WireVal::Text(id))]
        + bool_entry(WireKey::DisableUser, c.disable)
        + text_entry(WireKey::DisplayName, patch_value(c.display_name))
        + text_entry(WireKey::Email, patch_value(c.email))
        + bool_entry(WireKey::EmailVerified, c.email_verified)
        + text_entry(WireKey::PhoneNumber, patch_value(c.phone_number))
        + text_entry(WireKey::Password, c.password)
        + list_entry(WireKey::DeleteAttribute, deleted_attributes(c))
        + list_entry(WireKey::DeleteProvider, deleted_providers(c))
}

fn patch_text(p: &Patch<String>) -> (r: Option<String>)
    ensures
        text_opt(r) == patch_value(patch_view(*p)),
{
    match p {
        Patch::SetTo(s) => Some(s.clone()),
        _ => None,
    }
}

fn is_delete(p: &Patch<String>) -> (r: bool)
    ensures
        r == (*p is Delete),
{
    match p {
        Patch::Delete => true,
        _ => false,
    }
}

impl AccountChanges {
    /// Changes that leave every field as it is.
    pub fn none() -> (r: Self)
        ensures
            r@ == no_changes(),
    {
        AccountChanges {
            disable: None,
            display_name: Patch::Unchanged,
            email: Patch::Unchanged,
            email_verified: None,
            phone_number: Patch::Unchanged,
            password: None,
        }
    }

    pub fn duplicate(&self) -> (r: Self)
        ensures
            r == *self,
    {
        AccountChanges {
            disable: self.disable,
            display_name: clone_patch(&self.display_name),
            email: clone_patch(&self.email),
            email_verified: self.email_verified,
            phone_number: clone_patch(&self.phone_number),
            password: clone_text(&self.password),
        }
    }

    /// The profile attributes these changes clear.
    pub fn deleted_attributes(&self) -> (r: Vec<String>)
        ensures
            texts_view(r@) == deleted_attributes(self@),
    {
        let mut names: Vec<String> = Vec::new();
        if is_delete(&self.display_name) {
            names.push(String::from_str("DISPLAY_NAME"));
        }
        if is_delete(&self.email) {
            names.push(String::from_str("EMAIL"));
        }
        assert(texts_view(names@) =~= deleted_attributes(self@));
        names
    }

    /// The identity providers these changes remove.
    pub fn deleted_providers(&self) -> (r: Vec<String>)
        ensures
            texts_view(r@) == deleted_providers(self@),
    {
        let mut names: Vec<String> = Vec::new();
        if is_delete(&self.phone_number) {
            names.push(String::from_str("phone"));
        }
        assert(texts_view(names@) =~= deleted_providers(self@));
        names
    }

    /// The request body that applies these changes to the account `id`.
    pub fn to_body(&self, id: &str) -> (r: Vec<WireField>)
        ensures
            body_view(r@) == update_body_spec(id@, self@),
    {
        let mut body: Vec<WireField> = Vec::new();
        assert(body_view(body@) =~= Seq::empty());
        push_text(&mut body, WireKey::LocalId, String::from_str(id));
        push_opt_bool(&mut body, WireKey::DisableUser, self.disable);
        push_opt_text(&mut body, WireKey::DisplayName, &patch_text(&self.display_name));
        push_opt_text(&mut body, WireKey::Email, &patch_text(&self.email));
        push_opt_bool(&mut body, WireKey::EmailVerified, self.email_verified);
        push_opt_text(&mut body, WireKey::PhoneNumber, &patch_text(&self.phone_number));
        push_opt_text(&mut body, WireKey::Password, &self.password);
        push_list(&mut body, WireKey::DeleteAttribute, self.deleted_attributes());
        push_list(&mut body, WireKey::DeleteProvider, self.deleted_providers());
        assert(body_view(body@) =~= update_body_spec(id@, self@));
        body
    }
}

/// The entries of a create body: the identifier, the email and the
/// verification flag, and each optional field that is present.
pub open spec fn create_entry(a: NewAccountView, k: WireKey, v: WireVal) -> bool {
    ||| (k == WireKey::LocalId && v == WireVal::Text(a.local_id))
    ||| (k == WireKey::DisplayName && a.display_name is Some && v == WireVal::Text(
        a.display_name.unwrap(),
    ))
    ||| (k == WireKey::Email && v == WireVal::Text(a.email))
    ||| (k == WireKey::EmailVerified && v == WireVal::Bool(a.email_verified))
    ||| (k == WireKey::PhoneNumber && a.phone_number is Some && v == WireVal::Text(
        a.phone_number.unwrap(),
    ))
    ||| (k == WireKey::Password && a.password is Some && v == WireVal::Text(a.password.unwrap()))
}

/// The fields a create body names.
pub open spec fn create_key(a: NewAccountView, k: WireKey) -> bool {
    ||| k == WireKey::LocalId
    ||| (k == WireKey::DisplayName && a.display_name is Some)
    ||| k == WireKey::Email
    ||| k == WireKey::EmailVerified
    ||| (k == WireKey::PhoneNumber && a.phone_number is Some)
    ||| (k == WireKey::Password && a.password is Some)
}

pub proof fn lemma_create_body_entries(a: NewAccountView)
    ensures
        forall|k: WireKey, v: WireVal| #[trigger]
            has_entry(create_body_spec(a), k, v) <==> create_entry(a, k, v),
        forall|k: WireKey| #[trigger] has_key(create_body_spec(a), k) <==> create_key(a, k),
{
    let s1 = seq![(WireKey::LocalId, WireVal::Text(a.local_id))];
    let s2 = text_entry(WireKey::DisplayName, a.display_name);
    let s3 = seq![(WireKey::Email, WireVal::Text(a.email))];
    let s4 = seq![(WireKey::EmailVerified, WireVal::Bool(a.email_verified))];
    let s5 = text_entry(WireKey::PhoneNumber, a.phone_number);
    let s6 = text_entry(WireKey::Password, a.password);
    lemma_single_entry(WireKey::LocalId, WireVal::Text(a.local_id));
    lemma_text_entry(WireKey::DisplayName, a.display_name);
    lemma_single_entry(WireKey::Email, WireVal::Text(a.email));
    lemma_single_entry(WireKey::EmailVerified, WireVal::Bool(a.email_verified));
    lemma_text_entry(WireKey::PhoneNumber, a.phone_number);
    lemma_text_entry(WireKey::Password, a.password);
    lemma_concat_entries(s1, s2);
    lemma_concat_entries(s1 + s2, s3);
    lemma_concat_entries(s1 + s2 + s3, s4);
    lemma_concat_entries(s1 + s2 + s3 + s4, s5);
    lemma_concat_entries(s1 + s2 + s3 + s4 + s5, s6);
}

/// The entries of an update body: the identifier, each field that is set,
/// and each deletion list that is not empty.
pub open spec fn update_entry(id: Seq<char>, c: AccountChangesView, k: WireKey, v: WireVal) -> bool {
    ||| (k == WireKey::LocalId && v == WireVal::Text(id))
    ||| (k == WireKey::DisableUser && c.disable is Some && v == WireVal::Bool(c.disable.unwrap()))
    ||| (k == WireKey::DisplayName && c.display_name is SetTo && v == WireVal::Text(
        patch_value(c.display_name).unwrap(),
    ))
    ||| (k == WireKey::Email && c.email is SetTo && v == WireVal::Text(
        patch_value(c.email).unwrap(),
    ))
    ||| (k == WireKey::EmailVerified && c.email_verified is Some && v == WireVal::Bool(
        c.email_verified.unwrap(),
    ))
    ||| (k == WireKey::PhoneNumber && c.phone_number is SetTo && v == WireVal::Text(
        patch_value(c.phone_number).unwrap(),
    ))
    ||| (k == WireKey::Password && c.password is Some && v == WireVal::Text(c.password.unwrap()))
    ||| (k == WireKey::DeleteAttribute && deleted_attributes(c).len() > 0 && v
        == WireVal::TextList(deleted_attributes(c)))
    ||| (k == WireKey::DeleteProvider && deleted_providers(c).len() > 0 && v
        == WireVal::TextList(deleted_providers(c)))
}

/// The fields an update body names.
pub open spec fn update_key(c: AccountChangesView, k: WireKey) -> bool {
    ||| k == WireKey::LocalId
    ||| (k == WireKey::DisableUser && c.disable is Some)
    ||| (k == WireKey::DisplayName && c.display_name is SetTo)
    ||| (k == WireKey::Email && c.email is SetTo)
    ||| (k == WireKey::EmailVerified && c.email_verified is Some)
    ||| (k == WireKey::PhoneNumber && c.phone_number is SetTo)
    ||| (k == WireKey::Password && c.password is Some)
    ||| (k == WireKey::DeleteAttribute && deleted_attributes(c).len() > 0)
    ||| (k == WireKey::DeleteProvider && deleted_providers(c).len() > 0)
}

#[verifier::rlimit(40)]
pub proof fn lemma_update_body_entries(id: Seq<char>, c: AccountChangesView)
    ensures
        forall|k: WireKey, v: WireVal| #[trigger]
            has_entry(update_body_spec(id, c), k, v) <==> update_entry(id, c, k, v),
        forall|k: WireKey| #[trigger] has_key(update_body_spec(id, c), k) <==> update_key(c, k),
{
    let s1 = seq![(WireKey::LocalId, WireVal::Text(id))];
    let s2 = bool_entry(WireKey::DisableUser, c.disable);
    let s3 = text_entry(WireKey::DisplayName, patch_value(c.display_name));
    let s4 = text_entry(WireKey::Email, patch_value(c.email));
    let s5 = bool_entry(WireKey::EmailVerified, c.email_verified);
    let s6 = text_entry(WireKey::PhoneNumber, patch_value(c.phone_number));
    let s7 = text_entry(WireKey::Password, c.password);
    let s8 = list_entry(WireKey::DeleteAttribute, deleted_attributes(c));
    let s9 = list_entry(WireKey::DeleteProvider, deleted_providers(c));
    lemma_single_entry(WireKey::LocalId, WireVal::Text(id));
    lemma_bool_entry(WireKey::DisableUser, c.disable);
    lemma_text_entry(WireKey::DisplayName, patch_value(c.display_name));
    lemma_text_entry(WireKey::Email, patch_value(c.email));
    lemma_bool_entry(WireKey::EmailVerified, c.email_verified);
    lemma_text_entry(WireKey::PhoneNumber, patch_value(c.phone_number));
    lemma_text_entry(WireKey::Password, c.password);
    lemma_list_entry(WireKey::DeleteAttribute, deleted_attributes(c));
    lemma_list_entry(WireKey::DeleteProvider, deleted_providers(c));
    lemma_concat_entries(s1, s2);
    lemma_concat_entries(s1 + s2, s3);
    lemma_concat_entries(s1 + s2 + s3, s4);
    lemma_concat_entries(s1 + s2 + s3 + s4, s5);
    lemma_concat_entries(s1 + s2 + s3 + s4 + s5, s6);
    lemma_concat_entries(s1 + s2 + s3 + s4 + s5 + s6, s7);
    lemma_concat_entries(s1 + s2 + s3 + s4 + s5 + s6 + s7, s8);
    lemma_concat_entries(s1 + s2 + s3 + s4 + s5 + s6 + s7 + s8, s9);
}

} // verus!
