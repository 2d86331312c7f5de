use vstd::prelude::*;

use crate::account::{create_body_spec, update_body_spec, AccountChanges, NewAccount};
use crate::api::IDENTITY_TOOLKIT_ENDPOINT;
use crate::wire::{body_view, push_text, texts_view, Body, WireField, WireKey, WireVal, WireValue};

verus! {

/// The address of an API method of a project.
pub open spec fn method_url_spec(project_id: Seq<char>, name: Seq<char>) -> Seq<char> {
    IDENTITY_TOOLKIT_ENDPOINT@ + "/projects/"@ + project_id + "/"@ + name
}

/// The body of a lookup: the identifier, in a list of one.
pub open spec fn lookup_body_spec(id: Seq<char>) -> Body {
    seq![(WireKey::LocalId, WireVal::TextList(seq![id]))]
}

/// The body of a deletion: the identifier alone.
pub open spec fn delete_body_spec(id: Seq<char>) -> Body {
    seq![(WireKey::LocalId, WireVal::Text(id))]
}

/// A request ready to be authenticated and sent: where, and with what body.
#[derive(Debug)]
pub struct ApiRequest {
    pub url: String,
    pub body: Vec<WireField>,
}

/// The project whose accounts the client manages.
#[derive(Debug)]
pub struct Project {
    project_id: String,
}

impl Project {
    pub closed spec fn id(&self) -> Seq<char> {
        self.project_id@
    }

    pub fn new(project_id: &str) -> (r: Self)
        ensures
            r.id() == project_id@,
    {
        Project { project_id: String::from_str(project_id) }
    }

    pub fn project_id(&self) -> (r: &str)
        ensures
            r@ == self.id(),
    {
        self.project_id.as_str()
    }

    /// The address of the API method `name` for this project.
    pub fn method_url(&self, name: &str) -> (r: String)
        ensures
            r@ == method_url_spec(self.id(), name@),
    {
        let mut url = String::from_str(IDENTITY_TOOLKIT_ENDPOINT);
        url.append("/projects/");
        url.append(self.project_id.as_str());
        url.append("/");
        url.append(name);
        url
    }

    pub fn lookup_request(&self, id: &str) -> (r: ApiRequest)
        ensures
            r.url@ == method_url_spec(self.id(), "accounts:lookup"@),
            body_view(r.body@) == lookup_body_spec(id@),
    {
        let mut ids: Vec<String> = Vec::new();
        ids.push(String::from_str(id));
        assert(texts_view(ids@) =~= seq![id@]);
        let mut body: Vec<WireField> = Vec::new();
        body.push(WireField { key: WireKey::LocalId, value: WireValue::TextList(ids) });
        assert(body_view(body@) =~= lookup_body_spec(id@));
        ApiRequest { url: self.method_url("accounts:lookup"), body }
    }

    pub fn create_request(&self, account: &NewAccount) -> (r: ApiRequest)
        ensures
            r.url@ == method_url_spec(self.id(), "accounts"@),
            body_view(r.body@) == create_body_spec(account@),
    {
        ApiRequest { url: self.method_url("accounts"), body: account.to_body() }
    }

    pub fn update_request(&self, id: &str, changes: &AccountChanges) -> (r: ApiRequest)
        ensures
            r.url@ == method_url_spec(self.id(), "accounts:update"@),
            body_view(r.body@) == update_body_spec(id@, changes@),
    {
        ApiRequest { url: self.method_url("accounts:update"), body: changes.to_body(id) }
    }

    pub fn delete_request(&self, id: &str) -> (r: ApiRequest)
        ensures
            r.url@ == method_url_spec(self.id(), "accounts:delete"@),
            body_view(r.body@) == delete_body_spec(id@),
    {
        let mut body: Vec<WireField> = Vec::new();
        assert(body_view(body@) =~= Seq::empty());
        push_text(&mut body, WireKey::LocalId, String::from_str(id));
        assert(body_view(body@) =~= delete_body_spec(id@));
        ApiRequest { url: self.method_url("accounts:delete"), body }
    }
}

} // verus!
