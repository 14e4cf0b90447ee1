use vstd::prelude::*;
use vstd::string::*;

verus! {

/// Longest network name the radio takes, in bytes.
pub const WIFI_SSID_MAX: usize = 32;
/// Passwords are shorter than this, in bytes.
pub const WIFI_PASS_MAX: usize = 64;

/// Credentials the radio can take: a name of 1 to 32 bytes, a password of
/// fewer than 64, and no zero byte in either.
pub open spec fn credentials_ok(ssid: Seq<u8>, password: Seq<u8>) -> bool {
    &&& 0 < ssid.len() <= WIFI_SSID_MAX
    &&& password.len() < WIFI_PASS_MAX
    &&& !ssid.contains(0u8)
    &&& !password.contains(0u8)
}

/// A Wi-Fi network name and password, held in fixed buffers.
#[derive(Debug, Clone, Copy, PartialEq, Eq)]
pub struct WifiCredentials {
    ssid: [u8; 32],
    ssid_len: usize,
    password: [u8; 64],
    password_len: usize,
}

impl WifiCredentials {
    #[verifier::type_invariant]
    spec fn lengths_fit(self) -> bool {
        self.ssid_len <= 32 && self.password_len < 64
    }
}

impl View for WifiCredentials {
    type V = (Seq<u8>, Seq<u8>);

    closed spec fn view(&self) -> (Seq<u8>, Seq<u8>) {
        (self.ssid@.take(self.ssid_len as int), self.password@.take(self.password_len as int))
    }
}

/// Whether `bytes` holds a zero byte.
fn has_zero(bytes: &[u8]) -> (r: bool)
    ensures
        r == bytes@.contains(0u8),
{
    let mut i: usize = 0;
    while i < bytes.len()
        invariant
            i <= bytes@.len(),
            forall|j: int| 0 <= j < i ==> bytes@[j] != 0u8,
        decreases bytes@.len() - i,
    {
        if bytes[i] == 0 {
            assert(bytes@[i as int] == 0u8);
            return true;
        }
        i += 1;
    }
    false
}

impl WifiCredentials {
    /// No name and no password.
    pub fn empty() -> (r: Self)
        ensures
            r@.0.len() == 0,
            r@.1.len() == 0,
    {
        WifiCredentials { ssid: [0u8; 32], ssid_len: 0, password: [0u8; 64], password_len: 0 }
    }

    /// The credentials when the radio can take them (see
    /// `credentials_ok`), else `None`.
    pub fn new(ssid: &str, password: &str) -> (r: Option<Self>)
        ensures
            r is Some <==> credentials_ok(ssid.spec_bytes(), password.spec_bytes()),
            r matches Some(c) ==> c@ == (ssid.spec_bytes(), password.spec_bytes()),
    {
        let ssid_bytes = ssid.as_bytes();
        let password_bytes = password.as_bytes();
        if ssid_bytes.len() == 0 || ssid_bytes.len() > WIFI_SSID_MAX || password_bytes.len() >= WIFI_PASS_MAX
            || has_zero(password_bytes) || has_zero(ssid_bytes) {
            return None;
        }
        let mut ssid_buf = [0u8; 32];
        let mut i: usize = 0;
        while i < ssid_bytes.len()
            invariant
                i <= ssid_bytes@.len() <= 32,
                ssid_buf@.len() == 32,
                forall|j: int| 0 <= j < i ==> ssid_buf@[j] == ssid_bytes@[j],
            decreases ssid_bytes@.len() - i,
        {
            ssid_buf[i] = ssid_bytes[i];
            i += 1;
        }
        let mut password_buf = [0u8; 64];
        let mut k: usize = 0;
        while k < password_bytes.len()
            invariant
                k <= password_bytes@.len() < 64,
                password_buf@.len() == 64,
                forall|j: int| 0 <= j < k ==> password_buf@[j] == password_bytes@[j],
            decreases password_bytes@.len() - k,
        {
            password_buf[k] = password_bytes[k];
            k += 1;
        }
        let credentials = WifiCredentials {
            ssid: ssid_buf,
            ssid_len: ssid_bytes.len(),
            password: password_buf,
            password_len: password_bytes.len(),
        };
        assert(credentials.ssid@.take(credentials.ssid_len as int) =~= ssid_bytes@);
        assert(credentials.password@.take(credentials.password_len as int) =~= password_bytes@);
        Some(credentials)
    }

    /// The network name's bytes.
    pub fn ssid(&self) -> (r: Vec<u8>)
        ensures
            r@ == self@.0,
    {
        proof { use_type_invariant(self); }
        let mut r: Vec<u8> = Vec::new();
        let mut i: usize = 0;
        while i < self.ssid_len
            invariant
                i <= self.ssid_len <= 32,
                r@ == self.ssid@.take(i as int),
            decreases self.ssid_len - i,
        {
            r.push(self.ssid[i]);
            assert(self.ssid@.take(i + 1) =~= self.ssid@.take(i as int).push(self.ssid@[i as int]));
            i += 1;
        }
        r
    }

    /// The password's bytes.
    pub fn password(&self) -> (r: Vec<u8>)
        ensures
            r@ == self@.1,
    {
        proof { use_type_invariant(self); }
        let mut r: Vec<u8> = Vec::new();
        let mut i: usize = 0;
        while i < self.password_len
            invariant
                i <= self.password_len < 64,
                r@ == self.password@.take(i as int),
            decreases self.password_len - i,
        {
            r.push(self.password[i]);
            assert(self.password@.take(i + 1) =~= self.password@.take(i as int).push(self.password@[i as int]));
            i += 1;
        }
        r
    }
}

} // verus!
