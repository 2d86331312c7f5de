//! Properties that relate several functions of the library, or hold of
//! every input.
use vstd::prelude::*;

use crate::account::{
    completed, create_body_spec, deleted_attributes, deleted_providers, lemma_create_body_entries,
    lemma_update_body_entries, update_body_spec, AccountChangesView, DraftView, Patch,
};
use crate::auth::{decodes_to, UserRecord};
use crate::error::{error_text, AuthError};
use crate::reply::{is_success, parse_i64_spec, UserRecordData};
use crate::wire::{has_entry, has_key, text_opt, Body, WireKey, WireVal};

verus! {

/// A body holds the optional text `v` under `k`: the value when there is
/// one, no field at all when there is none.
pub open spec fn holds_text(b: Body, k: WireKey, v: Option<Seq<char>>) -> bool {
    match v {
        Some(s) => has_entry(b, k, WireVal::Text(s)),
        None => !has_key(b, k),
    }
}

/// Account data that repeats what a create body sent: its identifier,
/// email, verification flag, display name and phone number.
pub open spec fn echoes(b: Body, d: UserRecordData) -> bool {
    &&& has_entry(b, WireKey::LocalId, WireVal::Text(d.local_id@))
    &&& has_entry(b, WireKey::Email, WireVal::Text(d.email@))
    &&& has_entry(b, WireKey::EmailVerified, WireVal::Bool(d.email_verified))
    &&& holds_text(b, WireKey::DisplayName, text_opt(d.display_name))
    &&& holds_text(b, WireKey::PhoneNumber, text_opt(d.phone_number))
}

/// Creating an account and looking it up again gives back what the builder
/// was given. Take a draft with its identifier and email, the body that
/// creates the account it completes to, and the account data of a lookup
/// that repeats what that body sent, with a readable creation time: the
/// decoded record has the draft's identifier, email, display name and phone
/// number, and its verification flag, which is false when the draft left
/// it out.
pub proof fn law_create_round_trip(
    draft: DraftView,
    d: UserRecordData,
    r: Result<UserRecord, AuthError>,
)
    requires
        draft.local_id is Some,
        draft.email is Some,
        echoes(create_body_spec(completed(draft)), d),
        parse_i64_spec(d.created_at@) is Some,
        decodes_to(d, r),
    ensures
        r matches Ok(rec) && {
            &&& rec.uid@ == draft.local_id.unwrap()
            &&& rec.email@ == draft.email.unwrap()
            &&& text_opt(rec.display_name) == draft.display_name
            &&& text_opt(rec.phone_number) == draft.phone_number
            &&& rec.email_verified == (draft.email_verified == Some(true))
        },
{
    lemma_create_body_entries(completed(draft));
}

/// Setting the display name to `x` sends `displayName: x` and does not name
/// the display name for clearing.
pub proof fn law_update_set(id: Seq<char>, c: AccountChangesView, x: Seq<char>)
    requires
        c.display_name == Patch::SetTo(x),
    ensures
        has_entry(update_body_spec(id, c), WireKey::DisplayName, WireVal::Text(x)),
        forall|l: Seq<Seq<char>>|
            #[trigger] has_entry(update_body_spec(id, c), WireKey::DeleteAttribute, WireVal::TextList(l))
                ==> !l.contains("DISPLAY_NAME"@),
{
    lemma_update_body_entries(id, c);
    reveal_strlit("DISPLAY_NAME");
    reveal_strlit("EMAIL");
    let l = deleted_attributes(c);
    assert(!l.contains("DISPLAY_NAME"@)) by {
        if c.email is Delete {
            assert(l =~= seq!["EMAIL"@]);
            assert("EMAIL"@ != "DISPLAY_NAME"@) by {
                assert("EMAIL"@.len() != "DISPLAY_NAME"@.len());
            }
        } else {
            assert(l =~= Seq::<Seq<char>>::empty());
        }
    }
}

/// Removing the phone number sends no phone number and names the `phone`
/// provider, alone, for removal; no attribute is named for clearing unless
/// the display name or the email was removed too.
pub proof fn law_update_remove_phone(id: Seq<char>, c: AccountChangesView)
    requires
        c.phone_number is Delete,
    ensures
        !has_key(update_body_spec(id, c), WireKey::PhoneNumber),
        forall|v: WireVal|
            #[trigger] has_entry(update_body_spec(id, c), WireKey::DeleteProvider, v) <==> v
                == WireVal::TextList(seq!["phone"@]),
        !(c.display_name is Delete) && !(c.email is Delete) ==> !has_key(
            update_body_spec(id, c),
            WireKey::DeleteAttribute,
        ),
{
    lemma_update_body_entries(id, c);
    assert(deleted_providers(c) =~= seq!["phone"@]);
    if !(c.display_name is Delete) && !(c.email is Delete) {
        assert(deleted_attributes(c) =~= Seq::<Seq<char>>::empty());
    }
}

/// A field left unchanged does not appear in the update body at all.
pub proof fn law_update_unset(id: Seq<char>, c: AccountChangesView)
    ensures
        c.disable is None ==> !has_key(update_body_spec(id, c), WireKey::DisableUser),
        c.display_name is Unchanged ==> !has_key(update_body_spec(id, c), WireKey::DisplayName),
        c.email is Unchanged ==> !has_key(update_body_spec(id, c), WireKey::Email),
        c.email_verified is None ==> !has_key(update_body_spec(id, c), WireKey::EmailVerified),
        c.phone_number is Unchanged ==> !has_key(update_body_spec(id, c), WireKey::PhoneNumber),
        c.password is None ==> !has_key(update_body_spec(id, c), WireKey::Password),
{
    lemma_update_body_entries(id, c);
}

/// Without removals the update body holds neither deletion list.
pub proof fn law_update_no_removals(id: Seq<char>, c: AccountChangesView)
    requires
        !(c.display_name is Delete),
        !(c.email is Delete),
        !(c.phone_number is Delete),
    ensures
        !has_key(update_body_spec(id, c), WireKey::DeleteAttribute),
        !has_key(update_body_spec(id, c), WireKey::DeleteProvider),
{
    lemma_update_body_entries(id, c);
    assert(deleted_attributes(c) =~= Seq::<Seq<char>>::empty());
    assert(deleted_providers(c) =~= Seq::<Seq<char>>::empty());
}

/// A failed reply that carries a message surfaces an error whose visible
/// text is that message, verbatim.
pub proof fn law_service_error_text(status: u16, message: String, r: Result<(), AuthError>)
    requires
        !is_success(status),
        r == Err::<(), AuthError>(AuthError::Service { status, message }),
    ensures
        r matches Err(e) && error_text(e) == message@,
{
}

} // verus!
