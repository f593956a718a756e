use vstd::prelude::*;

use crate::auth::password::{
    argon2_password_matches, argon2_phc_hash, generate_salt, hash_password, phc_string_parses,
    verify_password,
};
use crate::auth::clock::{Delta, UtcInstant};
use crate::auth::token::{access_claims_spec, RefreshToken};
use crate::auth::user_storage::{has_user_named, Error, Query, UserStorage};
use crate::auth::users::{Identifiable, User, WithHashedPassword, WithPlainPassword};
use crate::uuid::{new_v7_id, uuid_version};

verus! {

/// The HTTP statuses the authentication endpoints answer with.
#[derive(Debug, Clone, Copy, PartialEq, Eq, Structural)]
pub enum StatusCode {
    Success,
    Unauthorized,
    InternalServerError,
    Conflict,
}

/// The number of an HTTP status.
pub open spec fn status_number(s: StatusCode) -> u16 {
    match s {
        StatusCode::Success => 200,
        StatusCode::Unauthorized => 401,
        StatusCode::InternalServerError => 500,
        StatusCode::Conflict => 409,
    }
}

impl StatusCode {
    /// The number of this HTTP status.
    pub fn as_u16(&self) -> (r: u16)
        ensures
            r == status_number(*self),
    {
        match self {
            StatusCode::Success => 200,
            StatusCode::Unauthorized => 401,
            StatusCode::InternalServerError => 500,
            StatusCode::Conflict => 409,
        }
    }
}

/// The stored user `k` has this name.
pub open spec fn named(users: Map<u128, User<WithHashedPassword>>, k: u128, name: Seq<char>) -> bool {
    users.contains_key(k) && users[k].username@ == name
}

/// What a login with `name` and `password` may answer, given the stored users:
/// the UUID of a user of that name whose stored hash parses and accepts the
/// password; `Unauthorized` when no user has that name or the user found rejects
/// the password; `InternalServerError` when the user found has a hash that does
/// not parse. Which user is found, when several share a name, is up to the store.
pub open spec fn login_outcome_allowed(
    users: Map<u128, User<WithHashedPassword>>,
    name: Seq<char>,
    password: Seq<char>,
    r: Result<u128, StatusCode>,
) -> bool {
    match r {
        Ok(id) => {
            &&& named(users, id, name)
            &&& phc_string_parses(users[id].secret.hash@)
            &&& argon2_password_matches(password, users[id].secret.hash@)
        },
        Err(StatusCode::Unauthorized) => !has_user_named(users, name) || exists|k: u128| {
            &&& #[trigger] named(users, k, name)
            &&& phc_string_parses(users[k].secret.hash@)
            &&& !argon2_password_matches(password, users[k].secret.hash@)
        },
        Err(StatusCode::InternalServerError) => exists|k: u128| {
            &&& #[trigger] named(users, k, name)
            &&& !phc_string_parses(users[k].secret.hash@)
        },
        _ => false,
    }
}

/// Checks a login: finds a user by name and verifies the password against its
/// stored hash. Answers the user's UUID, or the status to refuse with.
pub fn authenticate<S: UserStorage>(users: &S, user: User<WithPlainPassword>) -> (r: Result<u128, StatusCode>)
    ensures
        login_outcome_allowed(users.users(), user.username@, user.secret.password@, r),
{
    let ghost name = user.username@;
    let password = user.secret.password;
    let matching = match users.get(Query::Name(user.username)) {
        Ok(found) => found,
        Err(_) => return Err(StatusCode::Unauthorized),
    };
    proof {
        assert(named(users.users(), matching.uuid, name));
    }
    login_decision(matching.uuid, verify_password(password.as_str(), matching.data.secret.hash.as_str()))
}

/// The answer to a login once the password was checked against the stored hash
/// of user `uuid`: the user when the password matched, `Unauthorized` when it did
/// not, and an internal error when the stored hash could not be read.
pub fn login_decision(uuid: u128, check: Result<bool, ()>) -> (r: Result<u128, StatusCode>)
    ensures
        match check {
            Ok(true) => r == Ok::<u128, StatusCode>(uuid),
            Ok(false) => r == Err::<u128, StatusCode>(StatusCode::Unauthorized),
            Err(_) => r == Err::<u128, StatusCode>(StatusCode::InternalServerError),
        },
{
    match check {
        Ok(true) => Ok(uuid),
        Ok(false) => Err(StatusCode::Unauthorized),
        Err(_) => Err(StatusCode::InternalServerError),
    }
}

/// The answer to a registration once the store was asked to add user `id`:
/// the user's UUID when the store took it, `Conflict` when it refused.
pub fn registration_result(id: u128, added: Result<(), Error>) -> (r: Result<u128, StatusCode>)
    ensures
        match added {
            Ok(_) => r == Ok::<u128, StatusCode>(id),
            Err(_) => r == Err::<u128, StatusCode>(StatusCode::Conflict),
        },
{
    match added {
        Ok(_) => Ok(id),
        Err(_) => Err(StatusCode::Conflict),
    }
}

/// The user that registration stores under `id`: its name and password hash.
pub open spec fn registered(id: u128, username: String, hash: String) -> Identifiable<User<WithHashedPassword>> {
    Identifiable { uuid: id, data: User { username, secret: WithHashedPassword { hash } } }
}

/// Stores a new user under `id` with the hash computed for its password. A failed
/// hashing is an internal error and stores nothing. Otherwise the user is offered
/// to the store: when the store admits it, it is stored and its UUID answered;
/// when the store refuses it, the answer is `Conflict` and the store keeps what
/// it had.
pub fn record_user<S: UserStorage>(
    users: &mut S,
    id: u128,
    username: String,
    hashed: Result<String, ()>,
) -> (r: Result<u128, StatusCode>)
    ensures
        match hashed {
            Ok(hash) => if old(users).admits(registered(id, username, hash)) {
                &&& final(users).users() == old(users).users().insert(
                    id,
                    registered(id, username, hash).data,
                )
                &&& r == Ok::<u128, StatusCode>(id)
            } else {
                &&& final(users).users() == old(users).users()
                &&& r == Err::<u128, StatusCode>(StatusCode::Conflict)
            },
            Err(_) => {
                &&& final(users).users() == old(users).users()
                &&& r == Err::<u128, StatusCode>(StatusCode::InternalServerError)
            },
        },
{
    let hash = match hashed {
        Ok(hash) => hash,
        Err(_) => return Err(StatusCode::InternalServerError),
    };
    let result = users.add(Identifiable {
        uuid: id,
        data: User { username, secret: WithHashedPassword { hash } },
    });
    registration_result(id, result)
}

/// Registers a user: hashes its password with a fresh random salt, gives it a
/// fresh version 7 UUID and offers the hashed user to the store. On success the
/// user is stored and its stored hash parses and accepts the password that was
/// registered. Argon2 failing on the password with the drawn salt is an internal
/// error; the store refusing the hashed user is a conflict; either way nothing is
/// stored. A store that admits every user is never answered with a conflict,
/// and the drawn salt hashes every password short enough to fit Argon2's
/// length limit, so for such a password into such a store registration
/// succeeds.
pub fn save_user<S: UserStorage>(users: &mut S, user: User<WithPlainPassword>) -> (r: Result<u128, StatusCode>)
    ensures
        match r {
            Ok(id) => {
                &&& uuid_version(id) == 7
                &&& exists|hash: String| {
                    &&& old(users).admits(registered(id, user.username, hash))
                    &&& #[trigger] final(users).users() == old(users).users().insert(
                        id,
                        User { username: user.username, secret: WithHashedPassword { hash } },
                    )
                    &&& phc_string_parses(hash@)
                    &&& argon2_password_matches(user.secret.password@, hash@)
                }
            },
            Err(e) => {
                &&& e == StatusCode::InternalServerError || e == StatusCode::Conflict
                &&& final(users).users() == old(users).users()
                &&& e == StatusCode::InternalServerError ==> exists|salt: Seq<char>| {
                    &&& salt.len() == 22
                    &&& #[trigger] argon2_phc_hash(user.secret.password@, salt) is None
                }
                &&& e == StatusCode::Conflict ==> exists|id: u128, salt: Seq<char>, hash: String| {
                    &&& uuid_version(id) == 7
                    &&& salt.len() == 22
                    &&& #[trigger] argon2_phc_hash(user.secret.password@, salt) == Some(hash@)
                    &&& !old(users).admits(#[trigger] registered(id, user.username, hash))
                }
            },
        },
        (forall|u: Identifiable<User<WithHashedPassword>>| #[trigger] old(users).admits(u))
            ==> r != Err::<u128, StatusCode>(StatusCode::Conflict),
        user.secret.password@.len() <= 0x3FFF_FFFF
            ==> r != Err::<u128, StatusCode>(StatusCode::InternalServerError),
        user.secret.password@.len() <= 0x3FFF_FFFF
            && (forall|u: Identifiable<User<WithHashedPassword>>| #[trigger] old(users).admits(u))
            ==> r is Ok,
{
    let salt = generate_salt();
    let id = new_v7_id();
    let hashed = hash_password(user.secret.password.as_str(), salt.as_str());
    let ghost h = hashed;
    let ghost name = user.username;
    let r = record_user(users, id, user.username, hashed);
    proof {
        if h is Err {
            assert(argon2_phc_hash(user.secret.password@, salt@) is None);
        } else {
            assert(argon2_phc_hash(user.secret.password@, salt@) is Some);
        }
        if let Ok(hash) = h {
            if r is Ok {
                assert(final(users).users() == old(users).users().insert(
                    id,
                    User { username: user.username, secret: WithHashedPassword { hash } },
                ));
            } else {
                assert(!old(users).admits(registered(id, name, hash)));
            }
        }
    }
    r
}

/// Whom a refresh is for: the user of a verified refresh token; a missing or
/// rejected refresh token is unauthorized.
pub open spec fn refresh_outcome(verified: Option<RefreshToken>) -> Result<u128, StatusCode> {
    match verified {
        Some(claims) => Ok(claims.refresh_token.user_id),
        None => Err(StatusCode::Unauthorized),
    }
}

/// Whom a refresh is for: the user of a verified refresh token; a missing or
/// rejected refresh token is unauthorized.
pub fn refresh_user(verified: Option<RefreshToken>) -> (r: Result<u128, StatusCode>)
    ensures
        r == refresh_outcome(verified),
{
    match verified {
        Some(claims) => Ok(claims.refresh_token.user_id),
        None => Err(StatusCode::Unauthorized),
    }
}

/// A user that has just registered can log in: when no stored user had its
/// name, and it was stored with a hash that parses and accepts its password,
/// logging in with that name and password answers its UUID and nothing else.
pub proof fn lemma_registered_user_can_log_in(
    users: Map<u128, User<WithHashedPassword>>,
    id: u128,
    username: String,
    password: Seq<char>,
    hash: String,
    r: Result<u128, StatusCode>,
)
    requires
        !has_user_named(users, username@),
        phc_string_parses(hash@),
        argon2_password_matches(password, hash@),
        login_outcome_allowed(
            users.insert(id, User { username, secret: WithHashedPassword { hash } }),
            username@,
            password,
            r,
        ),
    ensures
        r == Ok::<u128, StatusCode>(id),
{
    let after = users.insert(id, User { username, secret: WithHashedPassword { hash } });
    assert forall|k: u128| #[trigger] named(after, k, username@) implies k == id by {
        if k != id {
            assert(users.contains_key(k) && users[k].username@ == username@);
        }
    }
    assert(has_user_named(after, username@)) by {
        assert(after.contains_key(id));
    }
}

/// A login for a name no user has is unauthorized; so is a login whose password
/// the only user of that name rejects.
pub proof fn lemma_wrong_credentials_are_unauthorized(
    users: Map<u128, User<WithHashedPassword>>,
    name: Seq<char>,
    password: Seq<char>,
    r: Result<u128, StatusCode>,
)
    requires
        login_outcome_allowed(users, name, password, r),
        forall|k: u128| #[trigger] named(users, k, name) ==> {
            &&& phc_string_parses(users[k].secret.hash@)
            &&& !argon2_password_matches(password, users[k].secret.hash@)
        },
    ensures
        r == Err::<u128, StatusCode>(StatusCode::Unauthorized),
{
}

/// A refresh hands out an access token for the very user the refresh token was
/// issued to, whenever it hands one out.
pub proof fn lemma_refresh_keeps_the_user(claims: RefreshToken, now: UtcInstant, delta: Delta)
    ensures
        refresh_outcome(Some(claims)) == Ok::<u128, StatusCode>(claims.refresh_token.user_id),
        access_claims_spec(claims.refresh_token.user_id, now, delta) matches Ok(c)
            ==> c.access_token.user_id == claims.refresh_token.user_id,
        refresh_outcome(None) == Err::<u128, StatusCode>(StatusCode::Unauthorized),
{
}

} // verus!
