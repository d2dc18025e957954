use vstd::prelude::*;

verus! {

/// The host that requests go to unless configured otherwise.
pub open spec fn default_base_url() -> Seq<char> {
    "http://localhost:8080"@
}

/// The namespace that notifications are shown under unless configured otherwise.
pub open spec fn default_app_id() -> Seq<char> {
    "com.example.user-management"@
}

/// The request deadline, in seconds, unless configured otherwise.
pub const DEFAULT_TIMEOUT_SECONDS: u64 = 30;

/// What the bridge needs to know about its surroundings.
#[derive(Clone, Debug)]
pub struct BridgeConfig {
    /// Scheme and host of the remote API, without a trailing slash.
    pub base_url: String,
    /// Identifier under which notifications are shown.
    pub app_id: String,
    /// Deadline of each HTTP request.
    pub timeout_seconds: u64,
}

/// The base URL of the remote API.
pub fn get_base_url() -> (r: String)
    ensures
        r@ == default_base_url(),
{
    proof {
        reveal_strlit("http://localhost:8080");
    }
    String::from_str("http://localhost:8080")
}

impl Default for BridgeConfig {
    fn default() -> (r: BridgeConfig)
        ensures
            r.base_url@ == default_base_url(),
            r.app_id@ == default_app_id(),
            r.timeout_seconds == DEFAULT_TIMEOUT_SECONDS,
    {
        proof {
            reveal_strlit("com.example.user-management");
        }
        BridgeConfig {
            base_url: get_base_url(),
            app_id: String::from_str("com.example.user-management"),
            timeout_seconds: DEFAULT_TIMEOUT_SECONDS,
        }
    }
}

} // verus!
