//! The authentication flow: registration, sign-in against the stored
//! credentials, sign-out, and the session state machine that the
//! protected routes consult. A failed sign-in always yields one and the
//! same 401 error, whether the email was unknown or the password wrong,
//! so the two cases cannot be told apart from outside.

use vstd::prelude::*;
use crate::errors::ApiError;
use crate::errors::hash_error_view;
use crate::errors::invalid_credentials_view;
use crate::errors::storage_error_view;
use crate::errors::unauthorized_view;
use crate::errors::verify_error_view;
use crate::hashing::argon2_encoded;
use crate::hashing::argon2_matches;
use crate::hashing::argon2_verifiable;
use crate::hashing::hash_to_encoded;
use crate::hashing::is_argon2_encoding;
use crate::model::User;
use crate::model::UserMessage;
use crate::store::UserStore;
use crate::store::first_with_email;
use crate::store::has_email;
use crate::store::has_id;

verus! {

/// The session identity attached to a caller: anonymous until a sign-in
/// succeeds, then bound to the signed-in user's id until sign-out.
#[derive(Clone, Copy, Debug, PartialEq, Eq, Structural)]
pub enum Session {
    Anonymous,
    Authenticated { user_id: u128 },
}

/// Register a new account: hash the password under a fresh salt, then
/// store the row. The stored password is the Argon2 encoding of the given
/// one — it verifies against the plaintext and begins with `'$'` — and
/// the plaintext itself is never persisted. With a password of fewer than
/// 2^30 characters the only possible failure is the storage-level id
/// collision, reported as a 500 error, which cannot strike an empty
/// table: the first registration there always succeeds.
pub fn register(store: &mut UserStore, msg: UserMessage) -> (r: Result<User, ApiError>)
    requires
        old(store).wf(),
    ensures
        final(store).wf(),
        r is Ok ==> !has_id(old(store)@, r->Ok_0@.id) && final(store)@ == old(store)@.push(
            r->Ok_0@,
        ),
        r is Ok ==> r->Ok_0@.email == msg@.email && r->Ok_0@.name == msg@.name
            && r->Ok_0@.updated_at is None,
        r is Ok ==> argon2_matches(r->Ok_0@.password, msg@.password),
        r is Ok ==> is_argon2_encoding(r->Ok_0@.password),
        r is Ok ==> argon2_verifiable(r->Ok_0@.password),
        r is Ok ==> (exists|s: Seq<u8>|
            8 <= s.len() <= 0xFFFF_FFFF && r->Ok_0@.password == argon2_encoded(
                msg@.password,
                s,
            )),
        r is Ok ==> r->Ok_0@.password.len() > 0 && r->Ok_0@.password[0] == '$',
        r is Ok && (msg@.password.len() == 0 || msg@.password[0] != '$') ==> r->Ok_0@.password
            != msg@.password,
        r is Err ==> final(store)@ == old(store)@ && (r->Err_0@ == hash_error_view()
            || r->Err_0@ == storage_error_view()),
        r is Err && msg@.password.len() <= 0x3FFF_FFFF ==> r->Err_0@ == storage_error_view(),
        old(store)@.len() == 0 && msg@.password.len() <= 0x3FFF_FFFF ==> r is Ok,
{
    let UserMessage { email, name, password } = msg;
    match hash_to_encoded(password.as_str()) {
        Ok(encoded) => {
            let ghost salt_used = choose|s: Seq<u8>|
                8 <= s.len() <= 0xFFFF_FFFF && encoded@ == argon2_encoded(password@, s);
            let ghost encoded_view = encoded@;
            let created = store.create(UserMessage { email, name, password: encoded });
            proof {
                assert(8 <= salt_used.len() <= 0xFFFF_FFFF && encoded_view == argon2_encoded(
                    password@,
                    salt_used,
                ));
                if created is Ok {
                    assert(created->Ok_0@.password == argon2_encoded(msg@.password, salt_used));
                    if msg@.password.len() == 0 {
                        assert(created->Ok_0@.password.len() != msg@.password.len());
                    } else if msg@.password[0] != '$' {
                        assert(created->Ok_0@.password[0] != msg@.password[0]);
                    }
                }
            }
            created
        },
        Err(e) => Err(e),
    }
}

/// Sign in with an email and a password. The lookup miss is remapped from
/// 404 to the uniform 401 so that an unknown email and a wrong password
/// are indistinguishable: both yield exactly the one 401 value. A
/// malformed stored hash is the one asymmetric case and surfaces,
/// unmapped, as the 500 verification error. On success the caller's
/// session is bound to the found user's id; on failure it is left
/// untouched.
pub fn sign_in(store: &UserStore, session: &mut Session, credentials: UserMessage) -> (r: Result<
    User,
    ApiError,
>)
    ensures
        r is Ok ==> *final(session) == (Session::Authenticated { user_id: r->Ok_0@.id }),
        r is Err ==> *final(session) == *old(session),
        !has_email(store@, credentials@.email) ==> r is Err && r->Err_0@
            == invalid_credentials_view(),
        r is Ok ==> has_email(store@, credentials@.email) && r->Ok_0@ == first_with_email(
            store@,
            credentials@.email,
        ) && r->Ok_0@.email == credentials@.email && argon2_matches(
            r->Ok_0@.password,
            credentials@.password,
        ),
        r is Err ==> r->Err_0@ == invalid_credentials_view() || r->Err_0@ == verify_error_view(),
        has_email(store@, credentials@.email) && !argon2_matches(
            first_with_email(store@, credentials@.email).password,
            credentials@.password,
        ) ==> r is Err,
        has_email(store@, credentials@.email) && (is_argon2_encoding(
            first_with_email(store@, credentials@.email).password,
        ) || argon2_verifiable(first_with_email(store@, credentials@.email).password))
            && credentials@.password.len() <= 0x3FFF_FFFF ==> (r is Ok <==> argon2_matches(
            first_with_email(store@, credentials@.email).password,
            credentials@.password,
        )),
        has_email(store@, credentials@.email) && (is_argon2_encoding(
            first_with_email(store@, credentials@.email).password,
        ) || argon2_verifiable(first_with_email(store@, credentials@.email).password))
            && credentials@.password.len() <= 0x3FFF_FFFF && !argon2_matches(
            first_with_email(store@, credentials@.email).password,
            credentials@.password,
        ) ==> r is Err && r->Err_0@ == invalid_credentials_view(),
        has_email(store@, credentials@.email) && !argon2_verifiable(
            first_with_email(store@, credentials@.email).password,
        ) ==> r is Err && r->Err_0@ == verify_error_view(),
{
    let UserMessage { email, name: _, password } = credentials;
    let user = match store.get_by_email(email) {
        Ok(user) => user,
        Err(e) => {
            let remapped = if e.status_code == 404 {
                ApiError::invalid_credentials()
            } else {
                e
            };
            return Err(remapped);
        },
    };
    match user.verify_password(password.as_str()) {
        Ok(true) => {
            *session = Session::Authenticated { user_id: user.id };
            Ok(user)
        },
        Ok(false) => Err(ApiError::invalid_credentials()),
        Err(e) => Err(e),
    }
}

/// Sign out: clear the session identity. The route demands a session, so
/// an anonymous caller is turned away with the uniform 401 and nothing
/// changes; a signed-in caller always succeeds and is anonymous after.
pub fn sign_out(session: &mut Session) -> (r: Result<(), ApiError>)
    ensures
        (*old(session)) is Authenticated ==> r is Ok,
        (*old(session)) is Anonymous ==> r is Err && r->Err_0@ == unauthorized_view(),
        (*final(session)) is Anonymous,
{
    match *session {
        Session::Authenticated { .. } => {
            *session = Session::Anonymous;
            Ok(())
        },
        Session::Anonymous => Err(ApiError::unauthorized()),
    }
}

/// Law: failed sign-ins are indistinguishable. The error a sign-in with
/// an unknown email yields and the error a sign-in with a known email but
/// wrong password yields are one and the same value — the same 401 status
/// and the same message — so a caller cannot learn from the response
/// which of the two it hit, and cannot enumerate registered emails.
pub proof fn lemma_sign_in_indistinguishable(unknown_email_err: ApiError, wrong_password_err: ApiError)
    requires
        unknown_email_err@ == invalid_credentials_view(),
        wrong_password_err@ == invalid_credentials_view(),
    ensures
        unknown_email_err@ == wrong_password_err@,
{
}

/// Law: the stored password is the hash, never the plaintext. Every
/// encoded hash begins with `'$'`, so whenever the plaintext does not
/// itself begin with `'$'`, the stored field differs from it.
pub proof fn lemma_stored_password_not_plaintext(stored: Seq<char>, plaintext: Seq<char>)
    requires
        stored.len() > 0,
        stored[0] == '$',
        plaintext.len() == 0 || plaintext[0] != '$',
    ensures
        stored != plaintext,
{
    if plaintext.len() == 0 {
        assert(stored.len() != plaintext.len());
    } else {
        assert(stored[0] != plaintext[0]);
    }
}

} // verus!
