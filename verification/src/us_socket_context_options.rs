//! TLS / socket-context configuration carried to the engine at startup.
//! Every field is optional; string fields are handed to the engine as
//! C strings, so a value containing a NUL byte cannot cross the boundary
//! and is detected here before the attempt.

use vstd::prelude::*;

verus! {

/// Optional TLS and socket settings for an application's socket context.
pub struct UsSocketContextOptions {
    pub key_file_name: Option<Vec<u8>>,
    pub cert_file_name: Option<Vec<u8>>,
    pub passphrase: Option<Vec<u8>>,
    pub dh_params_file_name: Option<Vec<u8>>,
    pub ca_file_name: Option<Vec<u8>>,
    pub ssl_ciphers: Option<Vec<u8>>,
    pub ssl_prefer_low_memory_usage: Option<bool>,
}

/// A byte string free of NUL can be passed on as a C string.
pub open spec fn nul_free(s: Seq<u8>) -> bool {
    forall|i: int| 0 <= i < s.len() ==> s[i] != 0
}

/// An optional field is C-compatible when absent or NUL-free.
pub open spec fn opt_nul_free(s: Option<Vec<u8>>) -> bool {
    match s {
        Some(v) => nul_free(v@),
        None => true,
    }
}

/// Whether `s` contains no NUL byte.
pub fn check_nul_free(s: &[u8]) -> (r: bool)
    ensures
        r == nul_free(s@),
{
    let mut i: usize = 0;
    while i < s.len()
        invariant
            i <= s@.len(),
            forall|j: int| 0 <= j < i ==> s@[j] != 0,
        decreases s@.len() - i,
    {
        if s[i] == 0 {
            return false;
        }
        i = i + 1;
    }
    true
}

fn check_opt_nul_free(s: &Option<Vec<u8>>) -> (r: bool)
    ensures
        r == opt_nul_free(*s),
{
    match s {
        Some(v) => check_nul_free(v.as_slice()),
        None => true,
    }
}

impl UsSocketContextOptions {
    /// A configuration with nothing set.
    pub fn new() -> (r: UsSocketContextOptions)
        ensures
            r.key_file_name is None,
            r.cert_file_name is None,
            r.passphrase is None,
            r.dh_params_file_name is None,
            r.ca_file_name is None,
            r.ssl_ciphers is None,
            r.ssl_prefer_low_memory_usage is None,
            r.c_compatible(),
    {
        UsSocketContextOptions {
            key_file_name: None,
            cert_file_name: None,
            passphrase: None,
            dh_params_file_name: None,
            ca_file_name: None,
            ssl_ciphers: None,
            ssl_prefer_low_memory_usage: None,
        }
    }

    /// Every string field can be handed to the engine as a C string.
    pub open spec fn c_compatible(self) -> bool {
        &&& opt_nul_free(self.key_file_name)
        &&& opt_nul_free(self.cert_file_name)
        &&& opt_nul_free(self.passphrase)
        &&& opt_nul_free(self.dh_params_file_name)
        &&& opt_nul_free(self.ca_file_name)
        &&& opt_nul_free(self.ssl_ciphers)
    }

    /// Check all string fields for embedded NUL bytes before conversion
    /// to the engine's C representation.
    pub fn validate(&self) -> (r: bool)
        ensures
            r == self.c_compatible(),
    {
        check_opt_nul_free(&self.key_file_name) && check_opt_nul_free(&self.cert_file_name)
            && check_opt_nul_free(&self.passphrase) && check_opt_nul_free(
            &self.dh_params_file_name,
        ) && check_opt_nul_free(&self.ca_file_name) && check_opt_nul_free(&self.ssl_ciphers)
    }
}

} // verus!
