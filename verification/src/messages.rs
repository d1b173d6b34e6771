//! The client-visible response texts.
//!
//! Each message is pinned by a spec function over character sequences, and an
//! executable builder returns exactly that text. Failures that must not leak
//! detail to the client (backend errors, hashing failures) share one generic
//! internal-error text, and both unknown-username and wrong-password logins
//! share one invalid-credentials text.

use vstd::prelude::*;

verus! {

/// Confirmation for a completed registration, naming the user.
pub open spec fn register_success_msg(username: Seq<char>) -> Seq<char> {
    "User "@ + username + " registered successfully!"@
}

/// Confirmation for a completed login, naming the user.
pub open spec fn login_success_msg(username: Seq<char>) -> Seq<char> {
    "User "@ + username + " logged in successfully!"@
}

/// The one text for every failed login, whether the username is unknown, the
/// password is wrong, or the stored digest is corrupted: no credential oracle.
pub open spec fn invalid_credentials_msg() -> Seq<char> {
    "Invalid credentials!"@
}

/// Client-facing refusal of a taken username: actionable, but naming no
/// backend detail.
pub open spec fn duplicate_username_msg() -> Seq<char> {
    "Failed to register user: username is already taken"@
}

/// Generic text for internal failures; backend error detail is never echoed
/// to the client.
pub open spec fn internal_error_msg() -> Seq<char> {
    "Internal server error"@
}

/// Build [`register_success_msg`] for a username.
pub fn register_success_message(username: &str) -> (r: String)
    ensures
        r@ == register_success_msg(username@),
{
    let mut s = String::from_str("User ");
    s.append(username);
    s.append(" registered successfully!");
    s
}

/// Build [`login_success_msg`] for a username.
pub fn login_success_message(username: &str) -> (r: String)
    ensures
        r@ == login_success_msg(username@),
{
    let mut s = String::from_str("User ");
    s.append(username);
    s.append(" logged in successfully!");
    s
}

/// Build [`invalid_credentials_msg`].
pub fn invalid_credentials_message() -> (r: String)
    ensures
        r@ == invalid_credentials_msg(),
{
    String::from_str("Invalid credentials!")
}

/// Build [`duplicate_username_msg`].
pub fn duplicate_username_message() -> (r: String)
    ensures
        r@ == duplicate_username_msg(),
{
    String::from_str("Failed to register user: username is already taken")
}

/// Build [`internal_error_msg`].
pub fn internal_error_message() -> (r: String)
    ensures
        r@ == internal_error_msg(),
{
    String::from_str("Internal server error")
}

} // verus!
