use chatauth::auth::config::{RawPublic, RawSecret};
use chatauth::auth::flows::{
    authenticate, login_decision, record_user, refresh_user, registration_result, save_user, StatusCode,
};
use chatauth::auth::token::{RefreshToken, RefreshTokenInternals};
use chatauth::auth::user_storage::{get_without_password, Error, MemoryUserStorage, Query, UserStorage};
use chatauth::auth::users::{
    Identifiable, User, WithHashedPassword, WithPlainPassword, WithoutPassword,
};

fn plain(name: &str, password: &str) -> User<WithPlainPassword> {
    User { username: name.to_string(), secret: WithPlainPassword { password: password.to_string() } }
}

fn hashed(name: &str, hash: &str) -> User<WithHashedPassword> {
    User { username: name.to_string(), secret: WithHashedPassword { hash: hash.to_string() } }
}

#[test]
fn raw_keys_give_back_their_bytes() {
    assert_eq!(RawSecret(vec![1, 2, 3]).bytes(), &[1, 2, 3]);
    assert_eq!(RawPublic(vec![4]).bytes(), &[4]);
    assert!(RawPublic(vec![]).bytes().is_empty());
}

#[test]
fn public_form_keeps_the_name() {
    let u: User<WithoutPassword> = User::from(hashed("ann", "$h"));
    assert_eq!(u.username, "ann");
}

#[test]
fn store_reads_back_writes() {
    let mut store = MemoryUserStorage::empty();
    assert!(store.add(Identifiable { uuid: 10, data: hashed("ann", "h1") }).is_ok());
    assert!(store.add(Identifiable { uuid: 11, data: hashed("bob", "h2") }).is_ok());
    let found = store.get(Query::Id(10)).unwrap();
    assert_eq!(found.uuid, 10);
    assert_eq!(found.data.username, "ann");
    assert_eq!(found.data.secret.hash, "h1");
    let found = store.get(Query::Name("bob".to_string())).unwrap();
    assert_eq!(found.uuid, 11);
    assert_eq!(found.data.secret.hash, "h2");
    let public = get_without_password(&store, Query::Name("ann".to_string())).unwrap();
    assert_eq!(public.uuid, 10);
    assert_eq!(public.data.username, "ann");
}

#[test]
fn store_reports_missing_users() {
    let mut store = MemoryUserStorage::empty();
    store.add(Identifiable { uuid: 10, data: hashed("ann", "h1") }).unwrap();
    assert_eq!(store.get(Query::Id(12)).unwrap_err(), Error::UserNotFoundById(12));
    assert_eq!(
        store.get(Query::Name("cid".to_string())).unwrap_err(),
        Error::UserNotFoundByName("cid".to_string())
    );
    assert!(store.remove(10).is_ok());
    assert_eq!(store.get(Query::Id(10)).unwrap_err(), Error::UserNotFoundById(10));
    assert!(store.remove(10).is_ok());
    assert!(get_without_password(&store, Query::Id(10)).is_err());
}

#[test]
fn adding_under_a_known_uuid_replaces_the_user() {
    let mut store = MemoryUserStorage::empty();
    store.add(Identifiable { uuid: 1, data: hashed("ann", "h1") }).unwrap();
    store.add(Identifiable { uuid: 1, data: hashed("ann", "h2") }).unwrap();
    assert_eq!(store.get(Query::Id(1)).unwrap().data.secret.hash, "h2");
    assert_eq!(store.map.len(), 1);
}

#[test]
fn stored_hash_is_a_salted_argon2_hash() {
    let mut store = MemoryUserStorage::empty();
    let a = save_user(&mut store, plain("ann", "same")).unwrap();
    let b = save_user(&mut store, plain("bob", "same")).unwrap();
    assert_ne!(a, b);
    let ha = store.get(Query::Id(a)).unwrap().data.secret.hash;
    let hb = store.get(Query::Id(b)).unwrap().data.secret.hash;
    assert!(ha.starts_with("$argon2id$"));
    assert_ne!(ha, "same");
    assert_ne!(ha, hb);
}

#[test]
fn registered_user_can_log_in() {
    let mut store = MemoryUserStorage::empty();
    let id = save_user(&mut store, plain("ann", "s3cret")).unwrap();
    assert_eq!((id >> 76) & 0xf, 7);
    let stored = store.get(Query::Id(id)).unwrap();
    assert_eq!(stored.data.username, "ann");
    assert_ne!(stored.data.secret.hash, "s3cret");
    assert_eq!(authenticate(&store, plain("ann", "s3cret")), Ok(id));
}

#[test]
fn wrong_credentials_are_unauthorized() {
    let mut store = MemoryUserStorage::empty();
    save_user(&mut store, plain("ann", "s3cret")).unwrap();
    assert_eq!(authenticate(&store, plain("ann", "guess")), Err(StatusCode::Unauthorized));
    assert_eq!(authenticate(&store, plain("bob", "s3cret")), Err(StatusCode::Unauthorized));
}

#[test]
fn unreadable_stored_hash_is_an_internal_error() {
    let mut store = MemoryUserStorage::empty();
    store.add(Identifiable { uuid: 3, data: hashed("ann", "garbage") }).unwrap();
    assert_eq!(authenticate(&store, plain("ann", "x")), Err(StatusCode::InternalServerError));
}

#[test]
fn failed_hashing_stores_nothing() {
    let mut store = MemoryUserStorage::empty();
    assert_eq!(
        record_user(&mut store, 5, "ann".to_string(), Err(())),
        Err(StatusCode::InternalServerError)
    );
    assert!(store.get(Query::Id(5)).is_err());
    assert_eq!(record_user(&mut store, 5, "ann".to_string(), Ok("h".to_string())), Ok(5));
    assert_eq!(store.get(Query::Id(5)).unwrap().data.secret.hash, "h");
}

#[test]
fn refresh_is_for_the_token_user() {
    let claims = RefreshToken { refresh_token: RefreshTokenInternals { user_id: 42 }, exp: 9 };
    assert_eq!(refresh_user(Some(claims)), Ok(42));
    assert_eq!(refresh_user(None), Err(StatusCode::Unauthorized));
}

#[test]
fn status_numbers() {
    assert_eq!(StatusCode::Success.as_u16(), 200);
    assert_eq!(StatusCode::Unauthorized.as_u16(), 401);
    assert_eq!(StatusCode::Conflict.as_u16(), 409);
    assert_eq!(StatusCode::InternalServerError.as_u16(), 500);
}

#[test]
fn login_and_registration_answers() {
    assert_eq!(login_decision(4, Ok(true)), Ok(4));
    assert_eq!(login_decision(4, Ok(false)), Err(StatusCode::Unauthorized));
    assert_eq!(login_decision(4, Err(())), Err(StatusCode::InternalServerError));
    assert_eq!(registration_result(4, Ok(())), Ok(4));
    assert_eq!(
        registration_result(4, Err(Error::UserAlreadyExistsWithName("ann".to_string()))),
        Err(StatusCode::Conflict)
    );
}
