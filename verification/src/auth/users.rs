use vstd::prelude::*;

verus! {

/// A user as shown to others: no password information at all.
#[derive(Debug, Clone, Copy)]
pub struct WithoutPassword;

/// A user as sent by a client: the password in clear.
#[derive(Debug)]
pub struct WithPlainPassword {
    pub password: String,
}

/// A user as stored: only the PHC string of the password hash.
#[derive(Debug)]
pub struct WithHashedPassword {
    pub hash: String,
}

/// A user name together with one of the password forms above.
#[derive(Debug)]
pub struct User<Secret> {
    pub username: String,
    pub secret: Secret,
}

/// A value together with the UUID (as 128 bits) it is stored under.
#[derive(Debug)]
pub struct Identifiable<T> {
    pub uuid: u128,
    pub data: T,
}

impl Clone for WithPlainPassword {
    fn clone(&self) -> (r: Self)
        ensures
            r == *self,
    {
        WithPlainPassword { password: self.password.clone() }
    }
}

impl Clone for WithHashedPassword {
    fn clone(&self) -> (r: Self)
        ensures
            r == *self,
    {
        WithHashedPassword { hash: self.hash.clone() }
    }
}

impl Clone for User<WithHashedPassword> {
    fn clone(&self) -> (r: Self)
        ensures
            r == *self,
    {
        User { username: self.username.clone(), secret: self.secret.clone() }
    }
}

impl Clone for User<WithPlainPassword> {
    fn clone(&self) -> (r: Self)
        ensures
            r == *self,
    {
        User { username: self.username.clone(), secret: self.secret.clone() }
    }
}

impl From<User<WithHashedPassword>> for User<WithoutPassword> {
    /// Forgets the password hash, keeping the name.
    fn from(u: User<WithHashedPassword>) -> (r: Self) {
        User { username: u.username, secret: WithoutPassword }
    }
}

impl vstd::std_specs::convert::FromSpecImpl<User<WithHashedPassword>> for User<WithoutPassword> {
    open spec fn obeys_from_spec() -> bool {
        true
    }

    open spec fn from_spec(u: User<WithHashedPassword>) -> Self {
        User { username: u.username, secret: WithoutPassword }
    }
}

} // verus!
