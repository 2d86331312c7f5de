use vstd::prelude::*;

verus! {

/// Every failure the client can report, one variant per kind of cause.
#[derive(Debug)]
pub enum AuthError {
    /// A required builder field was never supplied; holds the field's name.
    MissingField(String),
    /// No bearer token could be obtained.
    Authentication(String),
    /// The request could not be sent or its reply not received.
    Transport(String),
    /// The service answered with a non-success status and this message.
    Service { status: u16, message: String },
    /// A reply did not have the expected shape.
    Decode(String),
    /// A lookup found no account.
    NotFound,
}

pub open spec fn missing_field_text(name: Seq<char>) -> Seq<char> {
    "`"@ + name + "` must be initialized"@
}

/// The text a caller sees for an error.
pub open spec fn error_text(e: AuthError) -> Seq<char> {
    match e {
        AuthError::MissingField(name) => missing_field_text(name@),
        AuthError::Authentication(m) => m@,
        AuthError::Transport(m) => m@,
        AuthError::Service { message, .. } => message@,
        AuthError::Decode(m) => m@,
        AuthError::NotFound => "not found"@,
    }
}

impl AuthError {
    /// The human-readable text of the error; for a service failure it is the
    /// service's message, verbatim.
    pub fn text(&self) -> (r: String)
        ensures
            r@ == error_text(*self),
    {
        match self {
            AuthError::MissingField(name) => {
                let mut s = String::from_str("`");
                s.append(name.as_str());
                s.append("` must be initialized");
                s
            },
            AuthError::Authentication(m) => m.clone(),
            AuthError::Transport(m) => m.clone(),
            AuthError::Service { message, .. } => message.clone(),
            AuthError::Decode(m) => m.clone(),
            AuthError::NotFound => String::from_str("not found"),
        }
    }
}

} // verus!
