//! Typed client model for an identity-management service: validated account
//! descriptions, tri-state partial updates, their wire bodies, and the
//! decoding of service replies into account records or typed errors.
pub mod api;
pub mod error;
pub mod wire;
pub mod account;
pub mod reply;
pub mod request;
pub mod client;
pub mod auth;
pub mod authentication;
pub mod laws;

pub use api::{IDENTITY_TOOLKIT_ENDPOINT, OAUTH_SCOPES};

pub use error::AuthError;
pub use auth::{
    handle_error_response, CreateUserParams, CreateUserParamsBuilder, UpdateUserParams,
    UpdateUserParamsBuilder, UserRecord,
};
