use vstd::prelude::*;
use vstd::string::*;
use crate::errors::LogError;

verus! {

/// Declares reqwest::Identity, the TLS client identity that the transport
/// authenticates with. Opaque here: the library only produces it and hands
/// it on.
#[verifier::external_type_specification]
#[verifier::external_body]
pub struct ExIdentity(reqwest::Identity);

/// The directory that holds the per-user credential files:
/// `<home>/.tsh/keys/<proxy_host>/<user>@<realm>-app/<proxy_host>/`.
pub open spec fn key_dir_spec(
    home: Seq<char>,
    user: Seq<char>,
    proxy_host: Seq<char>,
    realm: Seq<char>,
) -> Seq<char> {
    home + "/.tsh/keys/"@ + proxy_host + "/"@ + user + "@"@ + realm + "-app/"@ + proxy_host
        + "/"@
}

/// The path of the client certificate file.
pub open spec fn cert_path_spec(
    home: Seq<char>,
    user: Seq<char>,
    proxy_host: Seq<char>,
    realm: Seq<char>,
) -> Seq<char> {
    key_dir_spec(home, user, proxy_host, realm) + "grafana.crt"@
}

/// The path of the client key file.
pub open spec fn key_path_spec(
    home: Seq<char>,
    user: Seq<char>,
    proxy_host: Seq<char>,
    realm: Seq<char>,
) -> Seq<char> {
    key_dir_spec(home, user, proxy_host, realm) + "grafana.key"@
}

fn build_key_dir(home: &str, user: &str, proxy_host: &str, realm: &str) -> (r: String)
    ensures
        r@ == key_dir_spec(home@, user@, proxy_host@, realm@),
{
    let mut s = String::from_str(home);
    s.append("/.tsh/keys/");
    s.append(proxy_host);
    s.append("/");
    s.append(user);
    s.append("@");
    s.append(realm);
    s.append("-app/");
    s.append(proxy_host);
    s.append("/");
    s
}

/// Computes the deterministic per-user paths of the certificate and key
/// files, in that order, from the home directory, the username and the fixed
/// proxy host and realm of the configuration.
pub fn credential_paths(home: &str, user: &str, proxy_host: &str, realm: &str) -> (r: (
    String,
    String,
))
    ensures
        r.0@ == cert_path_spec(home@, user@, proxy_host@, realm@),
        r.1@ == key_path_spec(home@, user@, proxy_host@, realm@),
{
    let dir = build_key_dir(home, user, proxy_host, realm);
    let cert = dir.clone().concat("grafana.crt");
    let key = dir.concat("grafana.key");
    (cert, key)
}

/// Computes the credential paths from optional environment inputs: absent
/// home directory or username is a `ConfigError`, never a panic.
pub fn resolve_credential_paths(
    home: Option<&str>,
    user: Option<&str>,
    proxy_host: &str,
    realm: &str,
) -> (r: Result<(String, String), LogError>)
    ensures
        home is Some && user is Some ==> r is Ok && r->Ok_0.0@ == cert_path_spec(
            home->Some_0@,
            user->Some_0@,
            proxy_host@,
            realm@,
        ) && r->Ok_0.1@ == key_path_spec(home->Some_0@, user->Some_0@, proxy_host@, realm@),
        home is None || user is None ==> r == Result::<(String, String), LogError>::Err(
            LogError::ConfigError,
        ),
{
    match (home, user) {
        (Some(h), Some(u)) => Ok(credential_paths(h, u, proxy_host, realm)),
        _ => Err(LogError::ConfigError),
    }
}

/// The proxy host under which the credential files are stored.
pub fn default_proxy_host() -> (r: String)
    ensures
        r@ == "teleport.parity.io"@,
{
    String::from_str("teleport.parity.io")
}

/// The realm part of the credential directory name.
pub fn default_realm() -> (r: String)
    ensures
        r@ == "parity.io"@,
{
    String::from_str("parity.io")
}

/// The credentials blob: the certificate bytes followed by the key bytes,
/// with no reordering and no truncation.
pub fn credentials_blob(cert: Vec<u8>, key: Vec<u8>) -> (blob: Vec<u8>)
    ensures
        blob@ == cert@ + key@,
{
    let mut blob = cert;
    let mut key = key;
    blob.append(&mut key);
    blob
}

/// Whether the TLS implementation accepts these bytes as concatenated PEM
/// certificate/key material. Named, not spelled out: the PEM grammar is the
/// TLS library's own; the parse is a deterministic function of the bytes
/// alone.
pub uninterp spec fn pem_accepts(b: Seq<u8>) -> bool;

/// Relies on reqwest::Identity::from_pem: parses concatenated PEM
/// certificate/key material into a TLS client identity, succeeding exactly
/// when the bytes are a valid pair; a deterministic function of the bytes
/// alone, with every failure returned as an error, never a panic.
#[verifier::external_body]
fn pem_identity(pem: &[u8]) -> (r: Option<reqwest::Identity>)
    ensures
        r is Some <==> pem_accepts(pem@),
{
    reqwest::Identity::from_pem(pem).ok()
}

/// Converts a credentials blob into a TLS client identity: an identity
/// exactly when the TLS implementation accepts the bytes, and a `TlsError`
/// otherwise — never any other error and never a panic.
pub fn load_identity(blob: &Vec<u8>) -> (r: Result<reqwest::Identity, LogError>)
    ensures
        r is Ok <==> pem_accepts(blob@),
        r is Err ==> r->Err_0 == LogError::TlsError,
{
    match pem_identity(blob.as_slice()) {
        Some(id) => Ok(id),
        None => Err(LogError::TlsError),
    }
}

} // verus!
