use vstd::prelude::*;

use crate::account::{create_body_spec, update_body_spec, AccountChanges, NewAccount};
use crate::auth::{decode_error_text, decodes_to, error_reply, handle_error_response, UserRecord};
use crate::error::AuthError;
use crate::reply::{is_success, no_users, UserRecordData};
use crate::request::{
    delete_body_spec, lookup_body_spec, method_url_spec, ApiRequest, Project,
};
use crate::wire::body_view;

verus! {

/// The request a call is waiting on.
#[derive(Debug)]
pub enum CallState {
    /// A lookup of the account `id`.
    Looking { id: String },
    /// The creation of an account.
    Creating,
    /// An update of the account `id`.
    Updating { id: String },
    /// The deletion of an account.
    Deleting,
}

/// The shape of a success body that a call needs read.
#[derive(Debug, Clone, Copy, PartialEq, Eq, Structural)]
pub enum Expect {
    /// A lookup reply's user list.
    Users,
    /// The identifier that a create reply assigns.
    LocalId,
    /// Nothing: the body is not read.
    Nothing,
}

/// A success body, read in the shape that was asked for.
#[derive(Debug)]
pub enum Payload {
    Users(Option<Vec<UserRecordData>>),
    LocalId(String),
    Empty,
}

/// What came of sending a request.
#[derive(Debug)]
pub enum Reply {
    /// No reply: the token or the transport failed.
    Failed(AuthError),
    /// A reply with `status`. `error_message` is the message of the body
    /// read as an error body, when it reads so; `payload` is the body read in
    /// the expected shape, when it reads so.
    Answered { status: u16, error_message: Option<String>, payload: Option<Payload> },
}

/// What a call does next.
#[derive(Debug)]
pub enum Step {
    /// Send `request` and wait in `state`.
    Send { state: CallState, request: ApiRequest },
    /// The call ends with this account, or this error.
    Account(Result<UserRecord, AuthError>),
    /// The deletion ends, or fails with this error.
    Deleted(Result<(), AuthError>),
}

impl CallState {
    pub fn expected(&self) -> (r: Expect)
        ensures
            self is Looking ==> r == Expect::Users,
            self is Creating ==> r == Expect::LocalId,
            self is Updating || self is Deleting ==> r == Expect::Nothing,
    {
        match self {
            CallState::Looking { .. } => Expect::Users,
            CallState::Creating => Expect::LocalId,
            _ => Expect::Nothing,
        }
    }
}

/// `s` sends the lookup of `id` in the project, and then waits on it.
pub open spec fn sends_lookup(p: Project, id: Seq<char>, s: Step) -> bool {
    s matches Step::Send { state, request } && state matches CallState::Looking { id: i } && i@
        == id && request.url@ == method_url_spec(p.id(), "accounts:lookup"@) && body_view(
        request.body@,
    ) == lookup_body_spec(id)
}

/// `res` is the error of a reply that failed, or did not read as expected.
pub open spec fn fails_as<T>(reply: Reply, res: Result<T, AuthError>) -> bool {
    match reply {
        Reply::Failed(e) => res == Err::<T, AuthError>(e),
        Reply::Answered { status, error_message, payload } => if !is_success(status) {
            res matches Err(e) && error_reply(status, error_message, e)
        } else {
            res matches Err(AuthError::Decode(m)) && m@ == decode_error_text()
        },
    }
}

/// The call ends with the error that `reply` gives.
pub open spec fn ends_failed(state: CallState, reply: Reply, r: Step) -> bool {
    match state {
        CallState::Deleting => r matches Step::Deleted(res) && fails_as(reply, res),
        _ => r matches Step::Account(res) && fails_as(reply, res),
    }
}

/// What follows a success reply with `payload` to the request that `state`
/// waits on.
pub open spec fn after_success(
    p: Project,
    state: CallState,
    payload: Option<Payload>,
    reply: Reply,
    r: Step,
) -> bool {
    match state {
        CallState::Looking { .. } => match payload {
            Some(Payload::Users(users)) => r matches Step::Account(res) && (no_users(users)
                ==> res matches Err(AuthError::NotFound)) && (!no_users(users) ==> decodes_to(
                users.unwrap()@[0],
                res,
            )),
            _ => r matches Step::Account(res) && fails_as(reply, res),
        },
        CallState::Creating => match payload {
            Some(Payload::LocalId(id)) => sends_lookup(p, id@, r),
            _ => r matches Step::Account(res) && fails_as(reply, res),
        },
        CallState::Updating { id } => sends_lookup(p, id@, r),
        CallState::Deleting => r == Step::Deleted(Ok(())),
    }
}

/// The step that follows `reply` in `state`.
pub open spec fn steps_to(p: Project, state: CallState, reply: Reply, r: Step) -> bool {
    match reply {
        Reply::Answered { status, payload, .. } => if is_success(status) {
            after_success(p, state, payload, reply, r)
        } else {
            ends_failed(state, reply, r)
        },
        Reply::Failed(_) => ends_failed(state, reply, r),
    }
}

impl Project {
    /// Starts the lookup of the account `id`.
    pub fn start_get(&self, id: &str) -> (r: Step)
        ensures
            sends_lookup(*self, id@, r),
    {
        let request = self.lookup_request(id);
        Step::Send { state: CallState::Looking { id: String::from_str(id) }, request }
    }

    /// Starts the creation of `account`.
    pub fn start_create(&self, account: &NewAccount) -> (r: Step)
        ensures
            r matches Step::Send { state, request } && state is Creating && request.url@
                == method_url_spec(self.id(), "accounts"@) && body_view(request.body@)
                == create_body_spec(account@),
    {
        Step::Send { state: CallState::Creating, request: self.create_request(account) }
    }

    /// Starts applying `changes` to the account `id`.
    pub fn start_update(&self, id: &str, changes: &AccountChanges) -> (r: Step)
        ensures
            r matches Step::Send { state, request } && state matches CallState::Updating { id: i }
                && i@ == id@ && request.url@ == method_url_spec(self.id(), "accounts:update"@)
                && body_view(request.body@) == update_body_spec(id@, changes@),
    {
        let request = self.update_request(id, changes);
        Step::Send { state: CallState::Updating { id: String::from_str(id) }, request }
    }

    /// Starts the deletion of the account `id`.
    pub fn start_delete(&self, id: &str) -> (r: Step)
        ensures
            r matches Step::Send { state, request } && state is Deleting && request.url@
                == method_url_spec(self.id(), "accounts:delete"@) && body_view(request.body@)
                == delete_body_spec(id@),
    {
        Step::Send { state: CallState::Deleting, request: self.delete_request(id) }
    }

    /// Decides what follows the reply to the request a call waits on. A
    /// failed request, an error status or a body of the wrong shape ends the
    /// call with that error. A lookup ends with its first account; a
    /// creation looks up the identifier the service assigned; an update
    /// looks up the updated account, whatever the update reply held; a
    /// deletion ends.
    pub fn step(&self, state: CallState, reply: Reply) -> (r: Step)
        ensures
            steps_to(*self, state, reply, r),
    {
        let (status, error_message, payload) = match reply {
            Reply::Failed(e) => {
                return match state {
                    CallState::Deleting => Step::Deleted(Err(e)),
                    _ => Step::Account(Err(e)),
                };
            },
            Reply::Answered { status, error_message, payload } => (status, error_message, payload),
        };
        if let Err(e) = handle_error_response(status, error_message) {
            return match state {
                CallState::Deleting => Step::Deleted(Err(e)),
                _ => Step::Account(Err(e)),
            };
        }
        match state {
            CallState::Looking { .. } => match payload {
                Some(Payload::Users(users)) => Step::Account(UserRecord::from_lookup(users)),
                _ => Step::Account(
                    Err(AuthError::Decode(String::from_str("failed to parse response"))),
                ),
            },
            CallState::Creating => match payload {
                Some(Payload::LocalId(id)) => self.start_get(id.as_str()),
                _ => Step::Account(
                    Err(AuthError::Decode(String::from_str("failed to parse response"))),
                ),
            },
            CallState::Updating { id } => self.start_get(id.as_str()),
            CallState::Deleting => Step::Deleted(Ok(())),
        }
    }
}

} // verus!
