//! The access-method data model: descriptor variants, their validation
//! errors, and the builder functions that turn raw field values into a
//! validated descriptor.

use vstd::prelude::*;

verus! {

/// A remote peer address, as plain values: four octets for version 4,
/// eight 16-bit segments for version 6.
#[derive(Clone, Copy, Debug, PartialEq, Eq, Structural)]
pub enum IpAddress {
    V4(u8, u8, u8, u8),
    V6(u16, u16, u16, u16, u16, u16, u16, u16),
}

/// One validated access method: a local SOCKS5 listener forwarding to a
/// remote peer, a remote SOCKS5 proxy with jointly optional credentials,
/// or a bundled Shadowsocks proxy with a supported cipher.
#[derive(Clone, Debug, PartialEq, Eq)]
pub enum AccessMethodDescriptor {
    Socks5Local { local_port: u16, remote_ip: IpAddress, remote_port: u16 },
    Socks5Remote { remote_ip: IpAddress, remote_port: u16, credentials: Option<Credentials> },
    Shadowsocks { remote_ip: IpAddress, remote_port: u16, password: String, cipher: String },
}

/// SOCKS5 authentication credentials: username and password always travel
/// together.
#[derive(Clone, Debug, PartialEq, Eq)]
pub struct Credentials {
    pub username: String,
    pub password: String,
}

/// The mathematical model of a descriptor: strings as character sequences.
#[verifier::ext_equal]
pub enum DescriptorModel {
    Socks5Local { local_port: u16, remote_ip: IpAddress, remote_port: u16 },
    Socks5Remote { remote_ip: IpAddress, remote_port: u16, credentials: Option<CredentialsModel> },
    Shadowsocks { remote_ip: IpAddress, remote_port: u16, password: Seq<char>, cipher: Seq<char> },
}

/// The mathematical model of a credentials pair.
#[verifier::ext_equal]
pub struct CredentialsModel {
    pub username: Seq<char>,
    pub password: Seq<char>,
}

impl View for Credentials {
    type V = CredentialsModel;

    open spec fn view(&self) -> CredentialsModel {
        CredentialsModel { username: self.username@, password: self.password@ }
    }
}

impl DeepView for Credentials {
    type V = CredentialsModel;

    open spec fn deep_view(&self) -> CredentialsModel {
        self@
    }
}

impl View for AccessMethodDescriptor {
    type V = DescriptorModel;

    open spec fn view(&self) -> DescriptorModel {
        match self {
            AccessMethodDescriptor::Socks5Local { local_port, remote_ip, remote_port } => {
                DescriptorModel::Socks5Local {
                    local_port: *local_port,
                    remote_ip: *remote_ip,
                    remote_port: *remote_port,
                }
            },
            AccessMethodDescriptor::Socks5Remote { remote_ip, remote_port, credentials } => {
                DescriptorModel::Socks5Remote {
                    remote_ip: *remote_ip,
                    remote_port: *remote_port,
                    credentials: credentials.deep_view(),
                }
            },
            AccessMethodDescriptor::Shadowsocks { remote_ip, remote_port, password, cipher } => {
                DescriptorModel::Shadowsocks {
                    remote_ip: *remote_ip,
                    remote_port: *remote_port,
                    password: password@,
                    cipher: cipher@,
                }
            },
        }
    }
}

impl DeepView for AccessMethodDescriptor {
    type V = DescriptorModel;

    open spec fn deep_view(&self) -> DescriptorModel {
        self@
    }
}

/// A local, deterministic construction failure, raised before any remote
/// contact: the same inputs will always fail the same way.
#[derive(Clone, Debug, PartialEq, Eq)]
pub enum ValidationError {
    /// Exactly one of username and password was supplied.
    IncompleteCredentials,
    /// The resolved cipher name is not in the supported enumeration; the
    /// offending name is carried along.
    UnsupportedCipher(String),
}

/// The mathematical model of a validation error.
#[verifier::ext_equal]
pub enum ValidationErrorModel {
    IncompleteCredentials,
    UnsupportedCipher(Seq<char>),
}

impl View for ValidationError {
    type V = ValidationErrorModel;

    open spec fn view(&self) -> ValidationErrorModel {
        match self {
            ValidationError::IncompleteCredentials => ValidationErrorModel::IncompleteCredentials,
            ValidationError::UnsupportedCipher(name) => ValidationErrorModel::UnsupportedCipher(
                name@,
            ),
        }
    }
}

impl DeepView for ValidationError {
    type V = ValidationErrorModel;

    open spec fn deep_view(&self) -> ValidationErrorModel {
        self@
    }
}

/// The closed set of cipher names the bundled Shadowsocks proxy accepts,
/// agreed upon with the daemon: the stream ciphers first, then the AEAD
/// ciphers.
pub open spec fn spec_supported_cipher(name: Seq<char>) -> bool {
    ||| name == "aes-128-cfb"@
    ||| name == "aes-128-cfb1"@
    ||| name == "aes-128-cfb8"@
    ||| name == "aes-128-cfb128"@
    ||| name == "aes-256-cfb"@
    ||| name == "aes-256-cfb1"@
    ||| name == "aes-256-cfb8"@
    ||| name == "aes-256-cfb128"@
    ||| name == "rc4"@
    ||| name == "rc4-md5"@
    ||| name == "aes-128-gcm"@
    ||| name == "aes-256-gcm"@
    ||| name == "chacha20-ietf-poly1305"@
}

/// Character-for-character equality of two string slices.
fn str_eq(a: &str, b: &str) -> (r: bool)
    ensures
        r == (a@ == b@),
{
    let x = String::from_str(a);
    let y = String::from_str(b);
    x == y
}

/// Decides membership of a cipher name in the supported enumeration.
pub fn is_supported_cipher(name: &str) -> (b: bool)
    ensures
        b == spec_supported_cipher(name@),
{
    str_eq(name, "aes-128-cfb") || str_eq(name, "aes-128-cfb1") || str_eq(name, "aes-128-cfb8")
        || str_eq(name, "aes-128-cfb128") || str_eq(name, "aes-256-cfb") || str_eq(
        name,
        "aes-256-cfb1",
    ) || str_eq(name, "aes-256-cfb8") || str_eq(name, "aes-256-cfb128") || str_eq(name, "rc4")
        || str_eq(name, "rc4-md5") || str_eq(name, "aes-128-gcm") || str_eq(name, "aes-256-gcm")
        || str_eq(name, "chacha20-ietf-poly1305")
}

/// What a descriptor built from the given local-proxy fields holds: pure
/// field transcription, no cross-field constraint.
pub open spec fn spec_build_socks5_local(
    local_port: u16,
    remote_ip: IpAddress,
    remote_port: u16,
) -> DescriptorModel {
    DescriptorModel::Socks5Local { local_port, remote_ip, remote_port }
}

/// Builds the descriptor of a local SOCKS5 listener forwarding to a remote
/// peer. Always succeeds.
pub fn build_socks5_local(local_port: u16, remote_ip: IpAddress, remote_port: u16) -> (d:
    AccessMethodDescriptor)
    ensures
        d@ == spec_build_socks5_local(local_port, remote_ip, remote_port),
{
    AccessMethodDescriptor::Socks5Local { local_port, remote_ip, remote_port }
}

/// The view of a builder's result: both sides replaced by their models.
pub open spec fn build_result_model(r: Result<AccessMethodDescriptor, ValidationError>) -> Result<
    DescriptorModel,
    ValidationErrorModel,
> {
    match r {
        Ok(d) => Ok(d@),
        Err(e) => Err(e@),
    }
}

/// What building a remote SOCKS5 descriptor yields: the credentials are
/// jointly optional — both present or both absent — and a lone username or
/// password is an incomplete pair, rejected before construction.
pub open spec fn spec_build_socks5_remote(
    remote_ip: IpAddress,
    remote_port: u16,
    username: Option<Seq<char>>,
    password: Option<Seq<char>>,
) -> Result<DescriptorModel, ValidationErrorModel> {
    match (username, password) {
        (Some(u), Some(p)) => Ok(
            DescriptorModel::Socks5Remote {
                remote_ip,
                remote_port,
                credentials: Some(CredentialsModel { username: u, password: p }),
            },
        ),
        (None, None) => Ok(
            DescriptorModel::Socks5Remote { remote_ip, remote_port, credentials: None },
        ),
        _ => Err(ValidationErrorModel::IncompleteCredentials),
    }
}

/// Builds the descriptor of a remote SOCKS5 proxy. Fails with
/// `IncompleteCredentials` exactly when one of username and password is
/// present without the other.
pub fn build_socks5_remote(
    remote_ip: IpAddress,
    remote_port: u16,
    username: Option<String>,
    password: Option<String>,
) -> (r: Result<AccessMethodDescriptor, ValidationError>)
    ensures
        build_result_model(r) == spec_build_socks5_remote(
            remote_ip,
            remote_port,
            username.deep_view(),
            password.deep_view(),
        ),
{
    match (username, password) {
        (Some(username), Some(password)) => Ok(
            AccessMethodDescriptor::Socks5Remote {
                remote_ip,
                remote_port,
                credentials: Some(Credentials { username, password }),
            },
        ),
        (None, None) => Ok(
            AccessMethodDescriptor::Socks5Remote { remote_ip, remote_port, credentials: None },
        ),
        _ => Err(ValidationError::IncompleteCredentials),
    }
}

/// The port a Shadowsocks descriptor gets when the caller supplies none.
pub open spec fn default_shadowsocks_port() -> u16 {
    443
}

/// The password a Shadowsocks descriptor gets when the caller supplies none.
pub open spec fn default_shadowsocks_password() -> Seq<char> {
    "mullvad"@
}

/// The cipher a Shadowsocks descriptor gets when the caller supplies none.
pub open spec fn default_shadowsocks_cipher() -> Seq<char> {
    "aes-256-gcm"@
}

/// The cipher name after defaulting: the supplied name, or the default.
pub open spec fn resolved_cipher(cipher: Option<Seq<char>>) -> Seq<char> {
    match cipher {
        Some(c) => c,
        None => default_shadowsocks_cipher(),
    }
}

/// What building a Shadowsocks descriptor yields: absent optional fields
/// take their documented defaults, and the resolved cipher must belong to
/// the supported enumeration — an unrecognized name is rejected before
/// construction, never stored.
pub open spec fn spec_build_shadowsocks(
    remote_ip: IpAddress,
    remote_port: Option<u16>,
    password: Option<Seq<char>>,
    cipher: Option<Seq<char>>,
) -> Result<DescriptorModel, ValidationErrorModel> {
    let name = resolved_cipher(cipher);
    if spec_supported_cipher(name) {
        Ok(
            DescriptorModel::Shadowsocks {
                remote_ip,
                remote_port: match remote_port {
                    Some(p) => p,
                    None => default_shadowsocks_port(),
                },
                password: match password {
                    Some(p) => p,
                    None => default_shadowsocks_password(),
                },
                cipher: name,
            },
        )
    } else {
        Err(ValidationErrorModel::UnsupportedCipher(name))
    }
}

/// Builds the descriptor of a bundled Shadowsocks proxy, applying the
/// documented defaults for any absent optional field. Fails with
/// `UnsupportedCipher` exactly when the resolved cipher is not in the
/// supported enumeration.
pub fn build_shadowsocks(
    remote_ip: IpAddress,
    remote_port: Option<u16>,
    password: Option<String>,
    cipher: Option<String>,
) -> (r: Result<AccessMethodDescriptor, ValidationError>)
    ensures
        build_result_model(r) == spec_build_shadowsocks(
            remote_ip,
            remote_port,
            password.deep_view(),
            cipher.deep_view(),
        ),
{
    let port: u16 = match remote_port {
        Some(p) => p,
        None => 443,
    };
    let pw: String = match password {
        Some(p) => p,
        None => String::from_str("mullvad"),
    };
    let name: String = match cipher {
        Some(c) => c,
        None => String::from_str("aes-256-gcm"),
    };
    if is_supported_cipher(name.as_str()) {
        Ok(
            AccessMethodDescriptor::Shadowsocks {
                remote_ip,
                remote_port: port,
                password: pw,
                cipher: name,
            },
        )
    } else {
        Err(ValidationError::UnsupportedCipher(name))
    }
}

/// Credentials are jointly optional: building a remote SOCKS5 descriptor
/// succeeds exactly when username and password are both present or both
/// absent, and fails with `IncompleteCredentials` whenever exactly one of
/// them is present.
pub proof fn lemma_socks5_remote_credentials(
    remote_ip: IpAddress,
    remote_port: u16,
    username: Option<Seq<char>>,
    password: Option<Seq<char>>,
)
    ensures
        (username is Some <==> password is Some) <==> spec_build_socks5_remote(
            remote_ip,
            remote_port,
            username,
            password,
        ) is Ok,
        !(username is Some <==> password is Some) ==> spec_build_socks5_remote(
            remote_ip,
            remote_port,
            username,
            password,
        ) == Err::<DescriptorModel, ValidationErrorModel>(
            ValidationErrorModel::IncompleteCredentials,
        ),
{
}

/// A Shadowsocks build succeeds exactly when the resolved cipher belongs to
/// the supported enumeration; on success the descriptor's cipher equals the
/// supplied (or defaulted) name, and on failure the error carries that very
/// name.
pub proof fn lemma_shadowsocks_cipher(
    remote_ip: IpAddress,
    remote_port: Option<u16>,
    password: Option<Seq<char>>,
    cipher: Option<Seq<char>>,
)
    ensures
        spec_build_shadowsocks(remote_ip, remote_port, password, cipher) is Ok
            <==> spec_supported_cipher(resolved_cipher(cipher)),
        spec_build_shadowsocks(remote_ip, remote_port, password, cipher) matches Ok(d) ==> (d
            matches DescriptorModel::Shadowsocks { cipher: name, .. } && name == resolved_cipher(
            cipher,
        )),
        !spec_supported_cipher(resolved_cipher(cipher)) ==> spec_build_shadowsocks(
            remote_ip,
            remote_port,
            password,
            cipher,
        ) == Err::<DescriptorModel, ValidationErrorModel>(
            ValidationErrorModel::UnsupportedCipher(resolved_cipher(cipher)),
        ),
{
}

/// Defaulting is idempotent: a Shadowsocks build with every optional field
/// absent yields the same result as one with the documented defaults
/// supplied explicitly.
pub proof fn lemma_shadowsocks_default_idempotent(remote_ip: IpAddress)
    ensures
        spec_build_shadowsocks(remote_ip, None, None, None) == spec_build_shadowsocks(
            remote_ip,
            Some(default_shadowsocks_port()),
            Some(default_shadowsocks_password()),
            Some(default_shadowsocks_cipher()),
        ),
{
}

} // verus!
