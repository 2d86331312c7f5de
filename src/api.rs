use vstd::prelude::*;

verus! {

/// Base address of the identity-management REST API.
pub const IDENTITY_TOOLKIT_ENDPOINT: &'static str = "https://identitytoolkit.googleapis.com/v1";

/// Scopes requested for every bearer token used against the API.
pub const OAUTH_SCOPES: [&'static str; 6] = [
    "https://www.googleapis.com/auth/cloud-platform",
    "https://www.googleapis.com/auth/datastore",
    "https://www.googleapis.com/auth/devstorage.full_control",
    "https://www.googleapis.com/auth/firebase",
    "https://www.googleapis.com/auth/identitytoolkit",
    "https://www.googleapis.com/auth/userinfo.email",
];

} // verus!
