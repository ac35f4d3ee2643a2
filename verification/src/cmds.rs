//! Command dispatch: the two-level command selection, the mapping from a
//! selected command onto the single remote request it drives, and the
//! shaping of what a listing returns.

use vstd::prelude::*;

use crate::access_method::AccessMethodDescriptor;
use crate::access_method::DescriptorModel;
use crate::access_method::IpAddress;
use crate::access_method::ValidationError;
use crate::access_method::ValidationErrorModel;
use crate::access_method::build_result_model;
use crate::access_method::build_socks5_local;
use crate::access_method::build_socks5_remote;
use crate::access_method::build_shadowsocks;
use crate::access_method::spec_build_socks5_local;
use crate::access_method::spec_build_socks5_remote;
use crate::access_method::spec_build_shadowsocks;

verus! {

/// The root command selection: every operation of this surface sits under
/// the api-settings group.
#[derive(Clone, Debug, PartialEq, Eq)]
pub enum Proxy {
    Api(ApiCommands),
}

/// The api-settings operations: list the configured access methods, or add
/// a custom one.
#[derive(Clone, Debug, PartialEq, Eq)]
pub enum ApiCommands {
    List,
    Add(AddCustomCommands),
}

/// The shapes an added custom proxy can take, with the raw field values
/// the builder validates.
#[derive(Clone, Debug, PartialEq, Eq)]
pub enum AddCustomCommands {
    Socks5(Socks5AddCommands),
    Shadowsocks {
        remote_ip: IpAddress,
        remote_port: Option<u16>,
        password: Option<String>,
        cipher: Option<String>,
    },
}

/// The two SOCKS5 variants: a local listener forwarding to a remote peer,
/// or a remote proxy server with jointly optional credentials.
#[derive(Clone, Debug, PartialEq, Eq)]
pub enum Socks5AddCommands {
    Local { local_port: u16, remote_ip: IpAddress, remote_port: u16 },
    Remote { remote_ip: IpAddress, remote_port: u16, username: Option<String>, password: Option<
        String,
    > },
}

/// What resolving a SOCKS5 add-command yields.
pub open spec fn spec_resolve_socks5(cmd: Socks5AddCommands) -> Result<
    DescriptorModel,
    ValidationErrorModel,
> {
    match cmd {
        Socks5AddCommands::Local { local_port, remote_ip, remote_port } => Ok(
            spec_build_socks5_local(local_port, remote_ip, remote_port),
        ),
        Socks5AddCommands::Remote { remote_ip, remote_port, username, password } => {
            spec_build_socks5_remote(
                remote_ip,
                remote_port,
                username.deep_view(),
                password.deep_view(),
            )
        },
    }
}

/// What resolving an add-command yields: the descriptor of the selected
/// variant, built and validated from its raw fields.
pub open spec fn spec_resolve(cmd: AddCustomCommands) -> Result<
    DescriptorModel,
    ValidationErrorModel,
> {
    match cmd {
        AddCustomCommands::Socks5(variant) => spec_resolve_socks5(variant),
        AddCustomCommands::Shadowsocks { remote_ip, remote_port, password, cipher } => {
            spec_build_shadowsocks(remote_ip, remote_port, password.deep_view(), cipher.deep_view())
        },
    }
}

impl Socks5AddCommands {
    /// Resolves the selected SOCKS5 variant into a validated descriptor.
    pub fn resolve(self) -> (r: Result<AccessMethodDescriptor, ValidationError>)
        ensures
            build_result_model(r) == spec_resolve_socks5(self),
    {
        match self {
            Socks5AddCommands::Local { local_port, remote_ip, remote_port } => Ok(
                build_socks5_local(local_port, remote_ip, remote_port),
            ),
            Socks5AddCommands::Remote { remote_ip, remote_port, username, password } => {
                build_socks5_remote(remote_ip, remote_port, username, password)
            },
        }
    }
}

impl AddCustomCommands {
    /// Resolves the selected add-command into a validated descriptor, or
    /// fails without any remote contact.
    pub fn resolve(self) -> (r: Result<AccessMethodDescriptor, ValidationError>)
        ensures
            build_result_model(r) == spec_resolve(self),
    {
        match self {
            AddCustomCommands::Socks5(variant) => variant.resolve(),
            AddCustomCommands::Shadowsocks { remote_ip, remote_port, password, cipher } => {
                build_shadowsocks(remote_ip, remote_port, password, cipher)
            },
        }
    }
}

/// The single remote request a selected command drives: read the configured
/// set, or register one new descriptor.
#[derive(Clone, Debug, PartialEq, Eq)]
pub enum RemoteRequest {
    List,
    Add(AccessMethodDescriptor),
}

/// The mathematical model of a remote request.
#[verifier::ext_equal]
pub enum RemoteRequestModel {
    List,
    Add(DescriptorModel),
}

impl View for RemoteRequest {
    type V = RemoteRequestModel;

    open spec fn view(&self) -> RemoteRequestModel {
        match self {
            RemoteRequest::List => RemoteRequestModel::List,
            RemoteRequest::Add(d) => RemoteRequestModel::Add(d@),
        }
    }
}

impl DeepView for RemoteRequest {
    type V = RemoteRequestModel;

    open spec fn deep_view(&self) -> RemoteRequestModel {
        self@
    }
}

/// The view of a planning result: both sides replaced by their models.
pub open spec fn plan_result_model(r: Result<RemoteRequest, ValidationError>) -> Result<
    RemoteRequestModel,
    ValidationErrorModel,
> {
    match r {
        Ok(req) => Ok(req@),
        Err(e) => Err(e@),
    }
}

/// What planning a command yields: `list` asks for the configured set;
/// `add` asks to register the resolved descriptor, or fails locally.
pub open spec fn spec_plan(cmd: Proxy) -> Result<RemoteRequestModel, ValidationErrorModel> {
    match cmd {
        Proxy::Api(ApiCommands::List) => Ok(RemoteRequestModel::List),
        Proxy::Api(ApiCommands::Add(add)) => match spec_resolve(add) {
            Ok(d) => Ok(RemoteRequestModel::Add(d)),
            Err(e) => Err(e),
        },
    }
}

impl Proxy {
    /// Maps the selected command onto the single remote request to issue.
    /// A validation failure is local and terminal: no request is produced,
    /// so the daemon is never contacted with an invalid descriptor.
    pub fn plan(self) -> (r: Result<RemoteRequest, ValidationError>)
        ensures
            plan_result_model(r) == spec_plan(self),
    {
        match self {
            Proxy::Api(ApiCommands::List) => Ok(RemoteRequest::List),
            Proxy::Api(ApiCommands::Add(add)) => match add.resolve() {
                Ok(d) => Ok(RemoteRequest::Add(d)),
                Err(e) => Err(e),
            },
        }
    }
}

/// A failure of the remote exchange itself — transport failure or a
/// daemon-side rejection. Opaque beyond a human-readable message at this
/// layer; surfaced as-is, never retried.
#[derive(Clone, Debug, PartialEq, Eq)]
pub struct RemoteError {
    pub message: String,
}

impl View for RemoteError {
    type V = Seq<char>;

    open spec fn view(&self) -> Seq<char> {
        self.message@
    }
}

impl DeepView for RemoteError {
    type V = Seq<char>;

    open spec fn deep_view(&self) -> Seq<char> {
        self@
    }
}

/// One record of the daemon's configured access-method set, as a listing
/// returns it. The record is daemon-owned and opaque at this layer, which
/// only reads its rendered form.
#[derive(Clone, Debug, PartialEq, Eq)]
pub struct ListedAccessMethod {
    pub description: String,
}

impl View for ListedAccessMethod {
    type V = Seq<char>;

    open spec fn view(&self) -> Seq<char> {
        self.description@
    }
}

impl DeepView for ListedAccessMethod {
    type V = Seq<char>;

    open spec fn deep_view(&self) -> Seq<char> {
        self@
    }
}

/// The outcome of a `list` command, given what the remote exchange handed
/// back: one rendered line per fetched record, in order. A fetched empty
/// set is success — it renders nothing and is not an error — and a remote
/// failure is surfaced unchanged.
pub fn list_output(fetched: Result<Vec<ListedAccessMethod>, RemoteError>) -> (r: Result<
    Vec<String>,
    RemoteError,
>)
    ensures
        match fetched {
            Ok(entries) => r matches Ok(lines) && lines.deep_view() == entries.deep_view(),
            Err(e) => r == Err::<Vec<String>, RemoteError>(e),
        },
        (fetched matches Ok(entries) && entries.len() == 0) ==> (r matches Ok(lines)
            && lines.len() == 0),
{
    match fetched {
        Ok(entries) => {
            let mut lines: Vec<String> = Vec::new();
            let mut i: usize = 0;
            while i < entries.len()
                invariant
                    i <= entries.len(),
                    lines@.len() == i,
                    forall|j: int| 0 <= j < i ==> lines@[j]@ == entries@[j].description@,
                decreases entries.len() - i,
            {
                lines.push(entries[i].description.clone());
                i += 1;
            }
            proof {
                assert(lines.deep_view() =~= entries.deep_view());
            }
            Ok(lines)
        },
        Err(e) => Err(e),
    }
}

/// The library's model of the daemon's registration contract: the daemon
/// holds the registered descriptors and `add` enters the submitted one into
/// that set; identity and ordering beyond that are the daemon's own.
pub open spec fn spec_register(
    methods: Seq<DescriptorModel>,
    descriptor: DescriptorModel,
) -> Seq<DescriptorModel> {
    methods.push(descriptor)
}

/// Round trip: a descriptor resolved successfully from an add-command and
/// then registered appears, with equal field values, among the entries of
/// the registered set that a subsequent listing returns.
pub proof fn lemma_add_then_list_contains(methods: Seq<DescriptorModel>, cmd: AddCustomCommands)
    requires
        spec_resolve(cmd) is Ok,
    ensures
        spec_register(methods, spec_resolve(cmd)->Ok_0).contains(spec_resolve(cmd)->Ok_0),
{
    let d = spec_resolve(cmd)->Ok_0;
    assert(spec_register(methods, d)[methods.len() as int] == d);
}

} // verus!
