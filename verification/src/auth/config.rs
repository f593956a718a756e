use vstd::prelude::*;

verus! {

/// Raw bytes of the private signing key, as read from disk.
pub struct RawSecret(pub Vec<u8>);

impl RawSecret {
    /// The key bytes.
    pub fn bytes(&self) -> (r: &[u8])
        ensures
            r@ == self.0@,
    {
        self.0.as_slice()
    }
}

/// Raw bytes of the public verification key, as read from disk.
#[derive(Clone)]
pub struct RawPublic(pub Vec<u8>);

impl RawPublic {
    /// The key bytes.
    pub fn bytes(&self) -> (r: &[u8])
        ensures
            r@ == self.0@,
    {
        self.0.as_slice()
    }
}


/// Where the key files are.
pub struct CryptoConfig {
    pub private: String,
    pub public: String,
}

/// A length of time as a whole number of seconds and the nanoseconds beyond them,
/// as `std::time::Duration` holds it.
#[derive(Debug, Clone, Copy)]
pub struct TimeSpan {
    pub secs: u64,
    pub nanos: u32,
}

impl TimeSpan {
    /// The nanoseconds part is below one second.
    pub open spec fn wf(&self) -> bool {
        self.nanos < 1_000_000_000
    }
}

/// How long issued tokens stay valid.
#[derive(Debug, Clone, Copy)]
pub struct TokenDuration {
    pub access_token_duration: TimeSpan,
    pub refresh_token_duration: TimeSpan,
}

impl TokenDuration {
    /// Both lengths are well formed.
    pub open spec fn wf(&self) -> bool {
        self.access_token_duration.wf() && self.refresh_token_duration.wf()
    }
}

} // verus!
