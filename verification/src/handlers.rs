//! The register and login handlers.
//!
//! Each handler is the computation between the HTTP edge and the store: given
//! a credential request and the store (or the outcome a backend reported), it
//! decides and formats the client-visible response. The response spec
//! functions pin the text for every case, and the no-oracle law
//! [`lemma_login_no_oracle`] states that failed logins are indistinguishable.

use vstd::prelude::*;

use crate::errors::InsertOutcome;
use crate::errors::LookupOutcome;
use crate::hashing::bcrypt_digest_wf;
use crate::hashing::bcrypt_matches;
use crate::hashing::digest_of;
use crate::hashing::hash_password;
use crate::hashing::verify_password;
use crate::messages::duplicate_username_msg;
use crate::messages::duplicate_username_message;
use crate::messages::internal_error_msg;
use crate::messages::internal_error_message;
use crate::messages::invalid_credentials_msg;
use crate::messages::invalid_credentials_message;
use crate::messages::login_success_msg;
use crate::messages::login_success_message;
use crate::messages::register_success_msg;
use crate::messages::register_success_message;
use crate::store::CredentialStore;

verus! {

/// A credential request: one username and plaintext password, alive only for
/// the duration of a register or login call.
pub struct User {
    pub username: String,
    pub password: String,
}

/// The response to a registration whose digest was computed: success exactly
/// when the username is free, a duplicate refusal otherwise.
pub open spec fn register_response(username: Seq<char>, table: Map<Seq<char>, Seq<char>>) -> Seq<
    char,
> {
    if table.contains_key(username) {
        duplicate_username_msg()
    } else {
        register_success_msg(username)
    }
}

/// The response to a login: success exactly when the username has a record
/// whose digest is well formed and matches the password; every other case —
/// unknown username, wrong password, corrupted digest — gets the one
/// invalid-credentials text.
pub open spec fn login_response(
    username: Seq<char>,
    password: Seq<char>,
    table: Map<Seq<char>, Seq<char>>,
) -> Seq<char> {
    if table.contains_key(username) && bcrypt_digest_wf(table[username]) && bcrypt_matches(
        password,
        table[username],
    ) {
        login_success_msg(username)
    } else {
        invalid_credentials_msg()
    }
}

/// The response to a registration given the outcome the store backend
/// reported; backend failure detail is replaced by the generic internal-error
/// text.
pub open spec fn register_outcome_response(username: Seq<char>, outcome: InsertOutcome) -> Seq<
    char,
> {
    match outcome {
        InsertOutcome::Inserted => register_success_msg(username),
        InsertOutcome::Duplicate => duplicate_username_msg(),
        InsertOutcome::StoreError => internal_error_msg(),
    }
}

/// The response to a login given the outcome the store backend reported for
/// the password-hash lookup.
pub open spec fn login_outcome_response(
    username: Seq<char>,
    password: Seq<char>,
    outcome: LookupOutcome,
) -> Seq<char> {
    match outcome {
        LookupOutcome::Found(digest) => if bcrypt_digest_wf(digest@) && bcrypt_matches(
            password,
            digest@,
        ) {
            login_success_msg(username)
        } else {
            invalid_credentials_msg()
        },
        LookupOutcome::NotFound => invalid_credentials_msg(),
        LookupOutcome::StoreError => internal_error_msg(),
    }
}

/// Register a user against the in-memory store: hash the password, insert the
/// digest, and format the response.
///
/// If the hashing primitive fails, the response is the generic internal-error
/// text and the store is untouched. Otherwise the response is
/// [`register_response`]: success exactly when the username was free, in
/// which case the store gains that one record, holding a digest of the
/// password.
pub fn register_user(user: &User, store: &mut CredentialStore) -> (r: String)
    requires
        old(store).wf(),
    ensures
        final(store).wf(),
        ({
            ||| (r@ == internal_error_msg() && final(store).records() == old(store).records())
            ||| (r@ == register_response(user.username@, old(store).table()) && (old(
                store,
            ).table().contains_key(user.username@) ==> final(store).records() == old(
                store,
            ).records()) && (!old(store).table().contains_key(user.username@) ==> exists|
                d: Seq<char>,
            |
                #[trigger] digest_of(user.password@, d) && final(store).table() == old(
                    store,
                ).table().insert(user.username@, d)))
        }),
{
    let digest = match hash_password(user.password.as_str()) {
        Ok(d) => d,
        Err(_) => { return internal_error_message() },
    };
    let ghost digest_view = digest@;
    match store.insert(user.username.clone(), digest) {
        Ok(_) => {
            proof {
                assert(digest_of(user.password@, digest_view) && store.table() == old(
                    store,
                ).table().insert(user.username@, digest_view));
            }
            register_success_message(user.username.as_str())
        },
        Err(_) => duplicate_username_message(),
    }
}

/// Log a user in against the in-memory store: look the username up, check the
/// password against the stored digest, and format the response — exactly
/// [`login_response`] over the store's table.
pub fn login_user(user: &User, store: &CredentialStore) -> (r: String)
    requires
        store.wf(),
    ensures
        r@ == login_response(user.username@, user.password@, store.table()),
{
    match store.find_password_hash(&user.username) {
        Ok(digest) => {
            match verify_password(user.password.as_str(), digest.as_str()) {
                Ok(true) => login_success_message(user.username.as_str()),
                Ok(false) => invalid_credentials_message(),
                Err(_) => invalid_credentials_message(),
            }
        },
        Err(_) => invalid_credentials_message(),
    }
}

/// Format the registration response for an insert outcome a backend reported:
/// exactly [`register_outcome_response`].
pub fn register_response_for(username: &str, outcome: &InsertOutcome) -> (r: String)
    ensures
        r@ == register_outcome_response(username@, *outcome),
{
    match outcome {
        InsertOutcome::Inserted => register_success_message(username),
        InsertOutcome::Duplicate => duplicate_username_message(),
        InsertOutcome::StoreError => internal_error_message(),
    }
}

/// Format the login response for a lookup outcome a backend reported: exactly
/// [`login_outcome_response`].
pub fn login_response_for(username: &str, password: &str, outcome: &LookupOutcome) -> (r: String)
    ensures
        r@ == login_outcome_response(username@, password@, *outcome),
{
    match outcome {
        LookupOutcome::Found(digest) => {
            match verify_password(password, digest.as_str()) {
                Ok(true) => login_success_message(username),
                Ok(false) => invalid_credentials_message(),
                Err(_) => invalid_credentials_message(),
            }
        },
        LookupOutcome::NotFound => invalid_credentials_message(),
        LookupOutcome::StoreError => internal_error_message(),
    }
}

/// Failed logins are indistinguishable to the client: a login with an unknown
/// username and a login whose stored record does not match the password (the
/// password is wrong, or the stored digest is corrupted) produce the one
/// identical invalid-credentials text.
pub proof fn lemma_login_no_oracle(
    table: Map<Seq<char>, Seq<char>>,
    unknown_user: Seq<char>,
    p1: Seq<char>,
    known_user: Seq<char>,
    p2: Seq<char>,
)
    requires
        !table.contains_key(unknown_user),
        table.contains_key(known_user),
        !(bcrypt_digest_wf(table[known_user]) && bcrypt_matches(p2, table[known_user])),
    ensures
        login_response(unknown_user, p1, table) == invalid_credentials_msg(),
        login_response(known_user, p2, table) == invalid_credentials_msg(),
        login_response(unknown_user, p1, table) == login_response(known_user, p2, table),
{
}

} // verus!
