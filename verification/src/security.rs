//! The guard in front of every request: the API key check, the listener's
//! bind policy, and the optional proxy in front of the backend.

use crate::error::GatewayError;
use crate::text::{is_prefix_of, same_text, starts_with};
use vstd::prelude::*;
use vstd::string::{StrSliceExecFns, StringExecFns};

verus! {

/// What the guard needs to know of the configuration.
#[derive(Debug)]
pub struct ProxySecurityConfig {
    pub api_key: String,
    pub allow_lan_access: bool,
}

/// The key is accepted: one was presented, and it is the configured one.
pub open spec fn key_accepted(configured: Seq<char>, presented: Option<Seq<char>>) -> bool {
    presented == Some(configured)
}

/// The text of an optional string.
pub open spec fn text_of(presented: Option<&str>) -> Option<Seq<char>> {
    match presented {
        Some(key) => Some(key@),
        None => None,
    }
}

/// The address a listener binds to: every interface when access from the
/// local network is allowed, the loopback interface otherwise.
pub open spec fn bind_address(allow_lan_access: bool) -> Seq<char> {
    if allow_lan_access {
        "0.0.0.0"@
    } else {
        "127.0.0.1"@
    }
}

impl ProxySecurityConfig {
    /// Checks the key that a request presented, before anything else is
    /// looked at. A missing key is a wrong key.
    pub fn authorize(&self, presented: Option<&str>) -> (verdict: Result<(), GatewayError>)
        ensures
            verdict is Ok <==> key_accepted(self.api_key@, text_of(presented)),
            verdict is Err ==> verdict == Err::<(), GatewayError>(GatewayError::Unauthorized),
    {
        match presented {
            Some(key) => {
                if same_text(key, self.api_key.as_str()) {
                    Ok(())
                } else {
                    Err(GatewayError::Unauthorized)
                }
            },
            None => Err(GatewayError::Unauthorized),
        }
    }

    /// The address the listener binds to. This is decided once, at start.
    pub fn bind_host(&self) -> (host: &'static str)
        ensures
            host@ == bind_address(self.allow_lan_access),
    {
        bind_host(self.allow_lan_access)
    }
}

/// The address a listener binds to.
pub fn bind_host(allow_lan_access: bool) -> (host: &'static str)
    ensures
        host@ == bind_address(allow_lan_access),
{
    if allow_lan_access {
        "0.0.0.0"
    } else {
        "127.0.0.1"
    }
}

/// The key inside an `Authorization` header of the bearer form, if the
/// header has that form.
pub fn bearer_key(header: &str) -> (key: Option<&str>)
    ensures
        match key {
            Some(key) => header@ == "Bearer "@ + key@,
            None => !is_prefix_of("Bearer "@, header@),
        },
{
    proof {
        reveal_strlit("Bearer ");
    }
    if !starts_with(header, "Bearer ") {
        return None;
    }
    let length = header.unicode_len();
    let key = header.substring_char(7, length);
    assert(header@ =~= "Bearer "@ + key@);
    Some(key)
}

/// The value of the `Authorization` header that carries `access_token` to
/// the backend.
pub fn bearer_header(access_token: &str) -> (header: String)
    ensures
        header@ == "Bearer "@ + access_token@,
{
    String::from_str("Bearer ").concat(access_token)
}

/// The key a request presents: the one in its `Authorization` header if
/// that has the bearer form, else the one in its key header.
pub fn presented_key<'a>(authorization: Option<&'a str>, key_header: Option<&'a str>) -> (key:
    Option<&'a str>)
    ensures
        match authorization {
            Some(header) => if is_prefix_of("Bearer "@, header@) {
                key matches Some(found) && header@ == "Bearer "@ + found@
            } else {
                key == key_header
            },
            None => key == key_header,
        },
{
    match authorization {
        Some(header) => match bearer_key(header) {
            Some(found) => {
                assert(("Bearer "@ + found@).subrange(0, "Bearer "@.len() as int) == "Bearer "@);
                Some(found)
            },
            None => key_header,
        },
        None => key_header,
    }
}

/// Settings of the proxy that outbound calls may be tunnelled through.
#[derive(Debug)]
pub struct UpstreamProxyConfig {
    pub enabled: bool,
    pub url: String,
}

impl UpstreamProxyConfig {
    /// The proxy every outbound call goes through, if tunnelling is on.
    pub fn tunnel(&self) -> (proxy: Option<&String>)
        ensures
            proxy == if self.enabled {
                Some(&self.url)
            } else {
                None
            },
    {
        if self.enabled {
            Some(&self.url)
        } else {
            None
        }
    }

    pub fn duplicate(&self) -> (copy: UpstreamProxyConfig)
        ensures
            copy == *self,
    {
        UpstreamProxyConfig { enabled: self.enabled, url: self.url.clone() }
    }
}

/// What an outbound call ran into before the backend answered.
#[derive(Clone, Copy, Debug, PartialEq, Eq, Structural)]
pub enum TransportFailure {
    /// The upstream proxy could not be reached.
    ProxyUnreachable,
    /// The backend could not be reached.
    BackendUnreachable,
    /// The time allowed for the request ran out.
    DeadlineExceeded,
}

/// A failure of the transport is a network error or a timeout, never a
/// rejection by the backend.
pub fn classify_transport_failure(failure: TransportFailure) -> (error: GatewayError)
    ensures
        error == match failure {
            TransportFailure::DeadlineExceeded => GatewayError::Timeout,
            _ => GatewayError::NetworkError,
        },
{
    match failure {
        TransportFailure::DeadlineExceeded => GatewayError::Timeout,
        _ => GatewayError::NetworkError,
    }
}

} // verus!
