//! How the gateway is set up: what one listener serves, to whom, and whether
//! over a secure transport. Everything is settled once, when the process
//! starts, from the settings it finds.

use crate::source::json_dir;
use vstd::prelude::*;
use vstd::string::StringExecFns;

verus! {

/// The settings of the process as it finds them, each one present or not.
#[derive(Clone, Debug, PartialEq)]
pub struct Settings {
    /// The address to listen on.
    pub server_url: Option<String>,
    /// The directory that the receiver writes its snapshots to.
    pub json_dir: Option<String>,
    /// The one origin that may call the service from a browser.
    pub allow_origin: Option<String>,
    /// The file of the certificate to serve with.
    pub cert_path: Option<String>,
    /// The file of the private key to serve with.
    pub key_path: Option<String>,
}

/// A request method that the cross-origin policy permits.
#[derive(Clone, Copy, Debug, PartialEq, Eq, Structural)]
pub enum Method {
    Get,
    Post,
}

/// Whom the gateway answers across origins, and for what.
#[derive(Clone, Debug, PartialEq)]
pub struct CorsPolicy {
    /// The permitted origin; `*` permits all.
    pub allow_origin: String,
    /// The permitted request methods.
    pub allow_methods: Vec<Method>,
    /// The permitted request headers.
    pub allow_headers: Vec<String>,
}

/// What a [`CorsPolicy`] is.
pub struct CorsPolicyView {
    pub allow_origin: Seq<char>,
    pub allow_methods: Seq<Method>,
    pub allow_headers: Seq<Seq<char>>,
}

impl View for CorsPolicy {
    type V = CorsPolicyView;

    open spec fn view(&self) -> CorsPolicyView {
        CorsPolicyView {
            allow_origin: self.allow_origin@,
            allow_methods: self.allow_methods@,
            allow_headers: self.allow_headers@.map_values(|h: String| h@),
        }
    }
}

/// The policy that permits `origin`, or every origin where none is given: the
/// methods GET and POST, and the headers `content-type` and `x-grpc-web`, the
/// latter being the one by which the bridging encoding announces itself.
pub open spec fn cors_policy_of(origin: Option<Seq<char>>) -> CorsPolicyView {
    CorsPolicyView {
        allow_origin: match origin {
            Some(o) => o,
            None => "*"@,
        },
        allow_methods: seq![Method::Get, Method::Post],
        allow_headers: seq!["content-type"@, "x-grpc-web"@],
    }
}

/// Whether the gateway serves in cleartext or terminates encrypted connections.
#[derive(Clone, Debug, PartialEq)]
pub enum TransportSecurity {
    /// No encryption.
    Cleartext,
    /// Encryption under the identity that the two files hold.
    Tls { cert_path: String, key_path: String },
}

/// Why the gateway cannot start.
#[derive(Clone, Copy, Debug, PartialEq, Eq, Structural)]
pub enum ConfigError {
    /// No address to listen on is configured.
    MissingServerUrl,
}

/// Everything the gateway is set up with.
#[derive(Clone, Debug, PartialEq)]
pub struct GatewayConfig {
    /// The address to listen on.
    pub server_url: String,
    /// The directory to read snapshots from.
    pub json_dir: String,
    /// The cross-origin policy.
    pub cors: CorsPolicy,
    /// The transport security.
    pub security: TransportSecurity,
}

/// The cross-origin policy for the configured origin.
pub fn cors_policy(allow_origin: Option<String>) -> (policy: CorsPolicy)
    ensures
        policy@ == cors_policy_of(
            match allow_origin {
                Some(o) => Some(o@),
                None => None,
            },
        ),
{
    let origin = match allow_origin {
        Some(o) => o,
        None => String::from_str("*"),
    };
    let mut allow_methods: Vec<Method> = Vec::new();
    allow_methods.push(Method::Get);
    allow_methods.push(Method::Post);
    let mut allow_headers: Vec<String> = Vec::new();
    allow_headers.push(String::from_str("content-type"));
    allow_headers.push(String::from_str("x-grpc-web"));
    let policy = CorsPolicy { allow_origin: origin, allow_methods, allow_headers };
    proof {
        assert(policy@.allow_methods =~= seq![Method::Get, Method::Post]);
        assert(policy@.allow_headers =~= seq!["content-type"@, "x-grpc-web"@]);
    }
    policy
}

/// The transport security for the configured files: encryption exactly if
/// both a certificate and a private key are configured, cleartext if either
/// is missing.
pub fn transport_security(cert_path: Option<String>, key_path: Option<String>) -> (security:
    TransportSecurity)
    ensures
        security == match (cert_path, key_path) {
            (Some(c), Some(k)) => TransportSecurity::Tls { cert_path: c, key_path: k },
            _ => TransportSecurity::Cleartext,
        },
{
    match (cert_path, key_path) {
        (Some(c), Some(k)) => TransportSecurity::Tls { cert_path: c, key_path: k },
        _ => TransportSecurity::Cleartext,
    }
}

/// The gateway's setup, from the settings found. It fails exactly if no
/// address to listen on is configured; every other setting has a default.
pub fn configure(settings: Settings) -> (r: Result<GatewayConfig, ConfigError>)
    ensures
        match settings.server_url {
            None => r == Err::<GatewayConfig, ConfigError>(ConfigError::MissingServerUrl),
            Some(url) => r matches Ok(config) && config.server_url == url && config.json_dir@ == (
            match settings.json_dir {
                Some(d) => d@,
                None => "./test-data"@,
            }) && config.cors@ == cors_policy_of(
                match settings.allow_origin {
                    Some(o) => Some(o@),
                    None => None,
                },
            ) && config.security == (match (settings.cert_path, settings.key_path) {
                (Some(c), Some(k)) => TransportSecurity::Tls { cert_path: c, key_path: k },
                _ => TransportSecurity::Cleartext,
            }),
        },
{
    match settings.server_url {
        None => Err(ConfigError::MissingServerUrl),
        Some(server_url) => Ok(
            GatewayConfig {
                server_url,
                json_dir: json_dir(settings.json_dir),
                cors: cors_policy(settings.allow_origin),
                security: transport_security(settings.cert_path, settings.key_path),
            },
        ),
    }
}

} // verus!
