use vstd::prelude::*;

use crate::crypto::bcrypt_check;
use crate::crypto::hash_password;
use crate::crypto::verify_password;
use crate::ids::fresh_uuid;
use crate::models::Device;
use crate::models::Session;
use crate::models::User;
use crate::models::MAX_UNIX_TIME;
use crate::store::clone_device;
use crate::store::has_device_ip;
use crate::store::has_session_id;
use crate::store::has_username;
use crate::store::lemma_lookup_username;
use crate::store::lemma_session_user;
use crate::store::lookup_device;
use crate::store::lookup_username;
use crate::store::only_sessions_differ;
use crate::store::only_users_differ;
use crate::store::session_user;
use crate::store::Store;
use crate::text::str_eq;
use crate::validate::joined_messages;
use crate::validate::login_error_messages;
use crate::validate::login_valid;
use crate::validate::map_validation_errors;
use crate::validate::registration_error_messages;
use crate::validate::registration_valid;
use crate::validate::LoginData;
use crate::validate::RegistrationData;

verus! {

/// The body returned by a registration request.
pub struct RegistrationResponse {
    pub message: String,
}

/// The body returned by a refused login request.
pub struct LoginResponse {
    pub message: String,
    pub username: String,
}

/// The body returned by a successful login, whose session identifier is also
/// set as the session cookie.
pub struct LoginSuccessResponse {
    pub message: String,
    pub username: String,
    pub session_id: u128,
}

/// A registration outcome: an HTTP status with its body.
pub struct RegisterReply {
    pub status: u16,
    pub body: RegistrationResponse,
}

/// A login outcome: a refusal with its status, or the successful body.
pub enum LoginReply {
    Failure(u16, LoginResponse),
    Success(LoginSuccessResponse),
}

/// An auth-gated request was rejected.
pub struct AuthRejection;

/// How long a fresh session lives, in seconds.
pub const SESSION_LIFETIME: i64 = 3600;

/// Handles a registration request: validates the body, requires the repeated
/// password to match, hashes the password, and inserts the new user. The
/// store changes only on success, and then by exactly the one new row, whose
/// stored hash is not the plaintext password.
pub fn register_handler(store: &mut Store, registration: RegistrationData) -> (r: RegisterReply)
    requires
        old(store).wf(),
    ensures
        final(store).wf(),
        only_users_differ(*final(store), *old(store)),
        r.status == 200 || r.status == 400 || r.status == 500,
        r.status != 200 ==> *final(store) == *old(store),
        !registration_valid(registration) ==> r.status == 400 && r.body.message@
            == joined_messages(registration_error_messages(registration)),
        registration_valid(registration) && registration.password@ != registration.repeat_password@
            ==> r.status == 400 && r.body.message@ == "Passwords do not match."@,
        registration_valid(registration) && registration.password@ == registration.repeat_password@
            && has_username(old(store).users@, registration.username@) ==> r.status == 500,
        r.status == 500 ==> r.body.message@ == "Failed to hash password."@ || r.body.message@
            == "Failed to save user to database."@,
        registration_valid(registration) && registration.password@ == registration.repeat_password@
            && !has_username(old(store).users@, registration.username@) ==> r.status == 200
            || r.status == 500,
        r.status == 400 ==> !registration_valid(registration) || registration.password@
            != registration.repeat_password@,
        r.status == 200 ==> {
            &&& registration_valid(registration)
            &&& registration.password@ == registration.repeat_password@
            &&& !has_username(old(store).users@, registration.username@)
            &&& final(store).users@.len() == old(store).users@.len() + 1
            &&& final(store).users@.subrange(0, old(store).users@.len() as int) == old(
                store,
            ).users@
            &&& final(store).users@.last().username@ == registration.username@
            &&& final(store).users@.last().invitation_code@ == registration.invitation_code@
            &&& final(store).users@.last().password_hash@.len() == 60
            &&& final(store).users@.last().password_hash@ != registration.password@
            &&& bcrypt_check(registration.password@, final(store).users@.last().password_hash@)
                == Some(true)
            &&& r.body.message@ == "User registered successfully"@
        },
{
    match registration.validate() {
        Err(v) => {
            proof {
                assert(v.deep_view() =~= registration_error_messages(registration));
            }
            return RegisterReply {
                status: 400,
                body: RegistrationResponse { message: map_validation_errors(&v) },
            };
        },
        Ok(()) => {},
    }
    proof {
        crate::validate::lemma_byte_len_at_least_chars(registration.password@);
    }
    if !str_eq(registration.password.as_str(), registration.repeat_password.as_str()) {
        return RegisterReply {
            status: 400,
            body: RegistrationResponse { message: String::from_str("Passwords do not match.") },
        };
    }
    let password_hash = match hash_password(registration.password.as_str()) {
        Some(h) => h,
        None => {
            return RegisterReply {
                status: 500,
                body: RegistrationResponse {
                    message: String::from_str("Failed to hash password."),
                },
            };
        },
    };
    let user_uuid = fresh_uuid();
    let user = User {
        username: registration.username,
        password_hash,
        invitation_code: registration.invitation_code,
        user_uuid,
    };
    match store.save_user_to_db(user) {
        Ok(()) => RegisterReply {
            status: 200,
            body: RegistrationResponse {
                message: String::from_str("User registered successfully"),
            },
        },
        Err(_) => RegisterReply {
            status: 500,
            body: RegistrationResponse {
                message: String::from_str("Failed to save user to database."),
            },
        },
    }
}

/// Handles a login request: validates the body, resolves the user, checks
/// the password against the stored hash, upserts the caller's device row and
/// inserts a fresh one-hour session. Every refusal leaves the store
/// untouched; in particular a wrong password yields 401 and never creates a
/// session.
pub fn login_handler(store: &mut Store, login: LoginData, peer_ip: &str, now: i64) -> (r:
    LoginReply)
    requires
        old(store).wf(),
        0 <= now <= MAX_UNIX_TIME,
    ensures
        final(store).wf(),
        final(store).users@ == old(store).users@,
        final(store).messages@ == old(store).messages@,
        final(store).profiles@ == old(store).profiles@,
        final(store).files@ == old(store).files@,
        r is Failure ==> *final(store) == *old(store),
        !login_valid(login) ==> (r matches LoginReply::Failure(status, body) && status == 400
            && body.message@ == joined_messages(login_error_messages(login)) && body.username@
            == Seq::<char>::empty()),
        login_valid(login) && !has_username(old(store).users@, login.username@) ==> (r matches
            LoginReply::Failure(status, body) && status == 401 && body.message@
            == "Failed to find user."@ && body.username@ == Seq::<char>::empty()),
        login_valid(login) ==> (lookup_username(old(store).users@, login.username@) matches Some(
            u,
        ) ==> {
            let chk = bcrypt_check(login.password@, u.password_hash@);
            &&& (chk is None ==> (r matches LoginReply::Failure(status, body) && status == 500
                && body.message@ == "Failed to verify password."@ && body.username@ == Seq::<
                    char,
                >::empty()))
            &&& (chk == Some(false) ==> (r matches LoginReply::Failure(status, body) && status
                == 401 && body.message@ == "Invalid password."@ && body.username@ == Seq::<
                    char,
                >::empty()))
            &&& (chk == Some(true) ==> r is Success)
            &&& (chk != Some(true) ==> r is Failure && final(store).sessions@ == old(
                store,
            ).sessions@)
        }),
        r matches LoginReply::Success(body) ==> {
            let found = lookup_username(old(store).users@, login.username@);
            &&& login_valid(login)
            &&& found is Some
            &&& bcrypt_check(login.password@, found.unwrap().password_hash@) == Some(true)
            &&& body.message@ == "User logged in successfully."@
            &&& body.username@ == login.username@
            &&& (final(store).sessions@ == old(store).sessions@ <==> has_session_id(
                old(store).sessions@,
                body.session_id,
            ))
            &&& (final(store).sessions@ == old(store).sessions@ || {
                &&& final(store).sessions@.len() == old(store).sessions@.len() + 1
                &&& final(store).sessions@.subrange(0, old(store).sessions@.len() as int) == old(
                    store,
                ).sessions@
                &&& final(store).sessions@.last().session_id == body.session_id
                &&& final(store).sessions@.last().user_uuid == found.unwrap().user_uuid
                &&& final(store).sessions@.last().expires_at == Some((now + SESSION_LIFETIME) as i64)
            })
            &&& (has_device_ip(old(store).devices@, peer_ip@) ==> {
                &&& final(store).devices@ == old(store).devices@
                &&& (final(store).sessions@.len() == old(store).sessions@.len() + 1
                    ==> final(store).sessions@.last().device_id == lookup_device(
                    old(store).devices@,
                    peer_ip@,
                ).unwrap().device_id)
            })
            &&& (!has_device_ip(old(store).devices@, peer_ip@) ==> (final(store).devices@ == old(store).devices@ || {
                &&& final(store).devices@.len() == old(store).devices@.len() + 1
                &&& final(store).devices@.subrange(0, old(store).devices@.len() as int) == old(
                    store,
                ).devices@
                &&& final(store).devices@.last().ip_address@ == peer_ip@
                &&& final(store).devices@.last().user_uuid == found.unwrap().user_uuid
                &&& (final(store).sessions@.len() == old(store).sessions@.len() + 1
                    ==> final(store).sessions@.last().device_id
                    == final(store).devices@.last().device_id)
            }))
        },
{
    match login.validate() {
        Err(v) => {
            proof {
                assert(v.deep_view() =~= login_error_messages(login));
            }
            return LoginReply::Failure(
                400,
                LoginResponse { message: map_validation_errors(&v), username: String::new() },
            );
        },
        Ok(()) => {},
    }
    proof {
        lemma_lookup_username(store.users@, login.username@);
    }
    let user = match store.find_user_by_username(login.username.as_str()) {
        Some(u) => u,
        None => {
            return LoginReply::Failure(
                401,
                LoginResponse {
                    message: String::from_str("Failed to find user."),
                    username: String::new(),
                },
            );
        },
    };
    proof {
        let i = choose|i: int|
            0 <= i < store.users@.len() && #[trigger] store.users@[i] == user && user.username@
                == login.username@;
        assert(lookup_username(store.users@, login.username@) == Some(user));
    }
    match verify_password(login.password.as_str(), user.password_hash.as_str()) {
        None => {
            return LoginReply::Failure(
                500,
                LoginResponse {
                    message: String::from_str("Failed to verify password."),
                    username: String::new(),
                },
            );
        },
        Some(false) => {
            return LoginReply::Failure(
                401,
                LoginResponse {
                    message: String::from_str("Invalid password."),
                    username: String::new(),
                },
            );
        },
        Some(true) => {},
    }
    let device = match store.find_device_by_ip_mac(peer_ip) {
        Some(d) => d,
        None => {
            let fresh = Device {
                device_id: fresh_uuid(),
                user_uuid: user.user_uuid,
                ip_address: String::from_str(peer_ip),
            };
            let kept = clone_device(&fresh);
            let _ = store.save_device_to_db(fresh);
            kept
        },
    };
    let session_id = fresh_uuid();
    let session = Session {
        session_id,
        user_uuid: user.user_uuid,
        device_id: device.device_id,
        expires_at: Some(now + SESSION_LIFETIME),
    };
    let _ = store.save_session_to_db(session);
    LoginReply::Success(
        LoginSuccessResponse {
            message: String::from_str("User logged in successfully."),
            username: login.username,
            session_id,
        },
    )
}

/// Handles a logout: deletes the session row, so a later auth check with the
/// same identifier is rejected. Replies 200 with a confirmation; the cookie
/// is cleared by the transport layer.
pub fn logout_handler(store: &mut Store, session_id: u128) -> (r: (u16, String))
    requires
        old(store).wf(),
    ensures
        final(store).wf(),
        only_sessions_differ(*final(store), *old(store)),
        r.0 == 200,
        r.1@ == "Logged out successfully"@,
        !has_session_id(final(store).sessions@, session_id),
        has_session_id(old(store).sessions@, session_id) ==> exists|i: int|
            0 <= i < old(store).sessions@.len() && (#[trigger] old(
                store,
            ).sessions@[i]).session_id == session_id && final(store).sessions@ == old(
                store,
            ).sessions@.remove(i),
        !has_session_id(old(store).sessions@, session_id) ==> *final(store) == *old(store),
{
    store.delete_session_by_session_id(session_id);
    (200, String::from_str("Logged out successfully"))
}

/// The auth gate in front of every protected request: resolves the session
/// cookie's identifier to the owning user, rejecting the request when no
/// session row carries it.
pub fn with_auth(store: &Store, session_id: u128) -> (r: Result<u128, AuthRejection>)
    requires
        store.wf(),
    ensures
        r matches Ok(u) ==> session_user(store.sessions@, session_id) == Some(u),
        r is Ok <==> session_user(store.sessions@, session_id) is Some,
        r is Err <==> session_user(store.sessions@, session_id) is None,
{
    proof {
        lemma_session_user(store.sessions@, session_id);
    }
    match store.find_session_by_session_id(session_id) {
        Some(s) => {
            proof {
                let i = choose|i: int|
                    0 <= i < store.sessions@.len() && #[trigger] store.sessions@[i] == s
                        && s.session_id == session_id;
                assert(session_user(store.sessions@, session_id) == Some(s.user_uuid));
            }
            Ok(s.user_uuid)
        },
        None => {
            proof {
                crate::store::lemma_no_session_no_auth(store.sessions@, session_id);
            }
            Err(AuthRejection)
        },
    }
}

} // verus!
