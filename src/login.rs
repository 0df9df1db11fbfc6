//! The login request of the REST interface, and the login response.

use crate::json::chars_to_string;
use crate::json::push_str;
use vstd::prelude::*;

verus! {

/// A login request.
#[derive(Clone, Debug)]
pub struct LoginRequest {
    pub op: String,
    pub args: LoginArgs,
    pub is_testnet: bool,
}

/// The login parameters of the REST interface; the timestamp is the text
/// that is signed.
#[derive(Clone, Debug)]
pub struct LoginArgs {
    pub api_key: String,
    pub passphrase: String,
    pub timestamp: Option<String>,
    pub sign: Option<String>,
}

impl LoginArgs {
    /// The string that is signed: timestamp, method, path and body.
    pub fn merged_string(&self, method: &str, path: &str, body: &str, timestamp: &str) -> (r: String)
        ensures
            r@ == timestamp@ + method@ + path@ + body@,
    {
        let mut out: Vec<char> = Vec::new();
        push_str(&mut out, timestamp);
        push_str(&mut out, method);
        push_str(&mut out, path);
        push_str(&mut out, body);
        assert(out@ =~= timestamp@ + method@ + path@ + body@);
        chars_to_string(&out)
    }
}

/// The answer to a login.
#[derive(Clone, Debug)]
pub struct LoginResponse {
    pub event: String,
    pub code: String,
    pub msg: String,
    pub conn_id: String,
}

} // verus!
