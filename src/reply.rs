use vstd::prelude::*;

use crate::error::AuthError;

verus! {

/// An absolute point in time, in milliseconds since the Unix epoch (UTC).
#[derive(Clone, Copy, Debug, PartialEq, Eq, Structural, Hash)]
pub struct Timestamp {
    pub millis: i64,
}

pub open spec fn is_digit(c: char) -> bool {
    '0' <= c && c <= '9'
}

/// The value of a string of decimal digits.
pub open spec fn digits_value(s: Seq<char>) -> int
    decreases s.len(),
{
    if s.len() == 0 {
        0
    } else {
        digits_value(s.drop_last()) * 10 + (s.last() as int - '0' as int)
    }
}

/// One or more decimal digits and nothing else.
pub open spec fn all_digits(s: Seq<char>) -> bool {
    s.len() > 0 && forall|i: int| 0 <= i < s.len() ==> is_digit(#[trigger] s[i])
}

/// The integer a string writes in decimal: an optional sign followed by one
/// or more digits.
pub open spec fn decimal_value(s: Seq<char>) -> Option<int> {
    if s.len() > 0 && (s[0] == '+' || s[0] == '-') {
        if all_digits(s.skip(1)) {
            if s[0] == '-' {
                Some(-digits_value(s.skip(1)))
            } else {
                Some(digits_value(s.skip(1)))
            }
        } else {
            None
        }
    } else if all_digits(s) {
        Some(digits_value(s))
    } else {
        None
    }
}

/// The `i64` a string writes in decimal, if it writes one in range.
pub open spec fn parse_i64_spec(s: Seq<char>) -> Option<i64> {
    match decimal_value(s) {
        Some(v) => if i64::MIN <= v <= i64::MAX {
            Some(v as i64)
        } else {
            None
        },
        None => None,
    }
}

/// Relies on `str::parse::<i64>` (`i64`'s `FromStr`): it accepts an optional
/// `+` or `-` followed by one or more ASCII digits whose value fits in an
/// `i64`, and rejects anything else, whitespace included.
#[verifier::external_body]
fn parse_i64(s: &str) -> (r: Option<i64>)
    ensures
        r == parse_i64_spec(s@),
{
    s.parse::<i64>().ok()
}

pub open spec fn created_at_error() -> Seq<char> {
    "failed to parse 'created_at' as i64"@
}

/// Reads the service's creation time, a decimal count of milliseconds.
pub fn parse_created_at(s: &str) -> (r: Result<Timestamp, AuthError>)
    ensures
        parse_i64_spec(s@) matches Some(ms) ==> r == Ok::<Timestamp, AuthError>(
            Timestamp { millis: ms },
        ),
        parse_i64_spec(s@) is None ==> (r matches Err(AuthError::Decode(m)) && m@
            == created_at_error()),
{
    match parse_i64(s) {
        Some(ms) => Ok(Timestamp { millis: ms }),
        None => Err(AuthError::Decode(String::from_str("failed to parse 'created_at' as i64"))),
    }
}

/// An account as the lookup reply describes it.
#[derive(Debug)]
pub struct UserRecordData {
    pub local_id: String,
    pub created_at: String,
    pub valid_since: String,
    pub display_name: Option<String>,
    pub email: String,
    pub email_verified: bool,
    pub phone_number: Option<String>,
    pub disabled: bool,
}

/// Whether a lookup reply's user list is absent or empty.
pub open spec fn no_users(users: Option<Vec<UserRecordData>>) -> bool {
    match users {
        Some(v) => v@.len() == 0,
        None => true,
    }
}

/// The first account of a lookup reply; the reply lists accounts even when
/// one was asked for, and an absent or empty list means there is none.
pub fn first_user(users: Option<Vec<UserRecordData>>) -> (r: Result<UserRecordData, AuthError>)
    ensures
        no_users(users) ==> r matches Err(AuthError::NotFound),
        !no_users(users) ==> r == Ok::<UserRecordData, AuthError>(users.unwrap()@[0]),
{
    match users {
        Some(mut v) => {
            if v.len() == 0 {
                Err(AuthError::NotFound)
            } else {
                Ok(v.swap_remove(0))
            }
        },
        None => Err(AuthError::NotFound),
    }
}

/// Success statuses: 200 to 299.
pub open spec fn is_success(status: u16) -> bool {
    200 <= status <= 299
}

} // verus!
