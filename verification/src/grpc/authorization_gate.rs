use vstd::prelude::*;

use crate::bytes::decimal;
use crate::bytes::to_decimal;
use crate::text::trim;
use crate::text::is_blank;
use crate::text::lemma_trimmed_empty_iff_blank;

verus! {

/// Configuration and invocation errors raised before policy evaluation.
#[derive(Debug, Clone, Copy, PartialEq, Eq, Structural)]
pub enum GrpcAuthorizationError {
    /// A trusted gRPC fixture must use an explicit local-host principal.
    InvalidTrustedHost,
    /// The trusted gRPC request namespace must not be empty.
    EmptyRequestNamespace,
    /// The gRPC authorization boundary is not configured.
    Unconfigured,
    /// `x-made-request-id` is required for remote gRPC calls.
    MissingRequestId,
    /// `x-made-request-id` must be printable ASCII.
    InvalidRequestIdEncoding,
    /// The request id was refused by the domain.
    InvalidRequestId,
    /// `x-made-target-digest` is accepted only from an explicitly trusted
    /// MCP proxy.
    UntrustedTargetDigestProxy,
    /// `x-made-target-digest` must be printable ASCII.
    InvalidTargetDigestEncoding,
    /// The target digest was refused by the domain.
    InvalidTargetDigest,
    /// Mutual-TLS authentication failed; its own status applies.
    MutualTls,
}

/// The message an error is reported with. `detail` is the text of the
/// underlying error for the variants that wrap one (the domain's refusal of
/// a request id or target digest, or the mutual-TLS error); the others
/// ignore it.
pub open spec fn authorization_message(e: GrpcAuthorizationError, detail: Seq<char>) -> Seq<char> {
    match e {
        GrpcAuthorizationError::InvalidTrustedHost =>
            "a trusted gRPC fixture must use an explicit local-host principal"@,
        GrpcAuthorizationError::EmptyRequestNamespace => "trusted gRPC request namespace must not be empty"@,
        GrpcAuthorizationError::Unconfigured => "the gRPC authorization boundary is not configured"@,
        GrpcAuthorizationError::MissingRequestId => "x-made-request-id is required for remote gRPC calls"@,
        GrpcAuthorizationError::InvalidRequestIdEncoding => "x-made-request-id must be printable ASCII"@,
        GrpcAuthorizationError::InvalidRequestId => "invalid x-made-request-id: "@ + detail,
        GrpcAuthorizationError::UntrustedTargetDigestProxy =>
            "x-made-target-digest is accepted only from an explicitly trusted MCP proxy"@,
        GrpcAuthorizationError::InvalidTargetDigestEncoding => "x-made-target-digest must be printable ASCII"@,
        GrpcAuthorizationError::InvalidTargetDigest => "invalid x-made-target-digest: "@ + detail,
        GrpcAuthorizationError::MutualTls => detail,
    }
}

impl GrpcAuthorizationError {
    /// The message this error is reported with; see
    /// [`authorization_message`] for `detail`.
    pub fn message(&self, detail: &str) -> (m: String)
        ensures
            m@ == authorization_message(*self, detail@),
    {
        match self {
            GrpcAuthorizationError::InvalidTrustedHost =>
                "a trusted gRPC fixture must use an explicit local-host principal".to_owned(),
            GrpcAuthorizationError::EmptyRequestNamespace => "trusted gRPC request namespace must not be empty".to_owned(),
            GrpcAuthorizationError::Unconfigured => "the gRPC authorization boundary is not configured".to_owned(),
            GrpcAuthorizationError::MissingRequestId => "x-made-request-id is required for remote gRPC calls".to_owned(),
            GrpcAuthorizationError::InvalidRequestIdEncoding => "x-made-request-id must be printable ASCII".to_owned(),
            GrpcAuthorizationError::InvalidRequestId => {
                let mut m = "invalid x-made-request-id: ".to_owned();
                m.append(detail);
                m
            },
            GrpcAuthorizationError::UntrustedTargetDigestProxy =>
                "x-made-target-digest is accepted only from an explicitly trusted MCP proxy".to_owned(),
            GrpcAuthorizationError::InvalidTargetDigestEncoding => "x-made-target-digest must be printable ASCII".to_owned(),
            GrpcAuthorizationError::InvalidTargetDigest => {
                let mut m = "invalid x-made-target-digest: ".to_owned();
                m.append(detail);
                m
            },
            GrpcAuthorizationError::MutualTls => detail.to_owned(),
        }
    }
}

/// The gRPC status class an error is answered with.
#[derive(Debug, Clone, Copy, PartialEq, Eq, Structural)]
pub enum GrpcStatusClass {
    InvalidArgument,
    PermissionDenied,
    FailedPrecondition,
    /// The mutual-TLS error's own status.
    FromMutualTls,
}

/// The caller's request was malformed: invalid argument. An untrusted
/// proxy is denied. A boundary that is not set up properly fails its
/// precondition.
pub open spec fn status_class_of(e: GrpcAuthorizationError) -> GrpcStatusClass {
    match e {
        GrpcAuthorizationError::MutualTls => GrpcStatusClass::FromMutualTls,
        GrpcAuthorizationError::MissingRequestId
        | GrpcAuthorizationError::InvalidRequestIdEncoding
        | GrpcAuthorizationError::InvalidRequestId
        | GrpcAuthorizationError::InvalidTargetDigestEncoding
        | GrpcAuthorizationError::InvalidTargetDigest => GrpcStatusClass::InvalidArgument,
        GrpcAuthorizationError::UntrustedTargetDigestProxy => GrpcStatusClass::PermissionDenied,
        GrpcAuthorizationError::InvalidTrustedHost
        | GrpcAuthorizationError::EmptyRequestNamespace
        | GrpcAuthorizationError::Unconfigured => GrpcStatusClass::FailedPrecondition,
    }
}

pub fn status_class(e: GrpcAuthorizationError) -> (c: GrpcStatusClass)
    ensures
        c == status_class_of(e),
{
    match e {
        GrpcAuthorizationError::MutualTls => GrpcStatusClass::FromMutualTls,
        GrpcAuthorizationError::MissingRequestId
        | GrpcAuthorizationError::InvalidRequestIdEncoding
        | GrpcAuthorizationError::InvalidRequestId
        | GrpcAuthorizationError::InvalidTargetDigestEncoding
        | GrpcAuthorizationError::InvalidTargetDigest => GrpcStatusClass::InvalidArgument,
        GrpcAuthorizationError::UntrustedTargetDigestProxy => GrpcStatusClass::PermissionDenied,
        GrpcAuthorizationError::InvalidTrustedHost
        | GrpcAuthorizationError::EmptyRequestNamespace
        | GrpcAuthorizationError::Unconfigured => GrpcStatusClass::FailedPrecondition,
    }
}

/// A trusted-host gate needs a trusted-host principal authenticated by
/// local-host policy, and a request namespace that is not blank.
pub fn check_trusted_host(
    principal_is_trusted_host: bool,
    authenticated_by_local_host_policy: bool,
    request_namespace: &str,
) -> (r: Result<(), GrpcAuthorizationError>)
    ensures
        !(principal_is_trusted_host && authenticated_by_local_host_policy)
            ==> r == Err::<(), GrpcAuthorizationError>(GrpcAuthorizationError::InvalidTrustedHost),
        principal_is_trusted_host && authenticated_by_local_host_policy && is_blank(request_namespace@)
            ==> r == Err::<(), GrpcAuthorizationError>(GrpcAuthorizationError::EmptyRequestNamespace),
        principal_is_trusted_host && authenticated_by_local_host_policy && !is_blank(request_namespace@)
            ==> r is Ok,
{
    if !principal_is_trusted_host || !authenticated_by_local_host_policy {
        return Err(GrpcAuthorizationError::InvalidTrustedHost);
    }
    let t = trim(request_namespace);
    proof {
        lemma_trimmed_empty_iff_blank(request_namespace@);
    }
    if t.is_empty() {
        return Err(GrpcAuthorizationError::EmptyRequestNamespace);
    }
    Ok(())
}

/// Where the identity of a caller is taken from.
#[derive(Debug, Clone, Copy, PartialEq, Eq, Structural)]
pub enum PrincipalSource {
    /// The principal the mutual-TLS map finds for the peer.
    MutualTls,
    /// The configured trusted host.
    TrustedHost,
}

/// A gate with mutual TLS authenticates by it; otherwise the trusted host
/// is the caller; with neither the boundary is unconfigured.
pub fn principal_source(has_mutual_tls: bool, has_trusted_host: bool) -> (r: Result<PrincipalSource, GrpcAuthorizationError>)
    ensures
        r == if has_mutual_tls {
            Ok::<PrincipalSource, GrpcAuthorizationError>(PrincipalSource::MutualTls)
        } else if has_trusted_host {
            Ok(PrincipalSource::TrustedHost)
        } else {
            Err(GrpcAuthorizationError::Unconfigured)
        },
{
    if has_mutual_tls {
        Ok(PrincipalSource::MutualTls)
    } else if has_trusted_host {
        Ok(PrincipalSource::TrustedHost)
    } else {
        Err(GrpcAuthorizationError::Unconfigured)
    }
}

/// The `x-made-request-id` header as received.
pub enum RequestIdHeader {
    Absent,
    /// The header holds bytes that are not printable ASCII.
    NotPrintable,
    Printable(String),
}

/// Where a request id comes from.
pub enum RequestIdSource {
    /// The caller's header.
    Header(String),
    /// Minted from the trusted namespace and the next sequence number.
    Mint,
}

/// A caller's request id is used when given; otherwise only a trusted
/// gate, which has a namespace, may mint one.
pub fn request_id_source(header: RequestIdHeader, has_namespace: bool) -> (r: Result<RequestIdSource, GrpcAuthorizationError>)
    ensures
        match header {
            RequestIdHeader::Printable(value) => r matches Ok(RequestIdSource::Header(v)) && v@ == value@,
            RequestIdHeader::NotPrintable => r == Err::<RequestIdSource, GrpcAuthorizationError>(GrpcAuthorizationError::InvalidRequestIdEncoding),
            RequestIdHeader::Absent => if has_namespace {
                r matches Ok(RequestIdSource::Mint)
            } else {
                r == Err::<RequestIdSource, GrpcAuthorizationError>(GrpcAuthorizationError::MissingRequestId)
            },
        },
{
    match header {
        RequestIdHeader::Printable(value) => Ok(RequestIdSource::Header(value)),
        RequestIdHeader::NotPrintable => Err(GrpcAuthorizationError::InvalidRequestIdEncoding),
        RequestIdHeader::Absent => {
            if has_namespace {
                Ok(RequestIdSource::Mint)
            } else {
                Err(GrpcAuthorizationError::MissingRequestId)
            }
        },
    }
}

/// The number of a minted request: one past the counter's previous value,
/// saturating.
pub open spec fn minted_sequence(previous: u64) -> u64 {
    if previous == u64::MAX { u64::MAX } else { (previous + 1) as u64 }
}

/// A minted request id: `namespace:action:sequence`.
pub fn minted_request_id(namespace: &str, action: &str, previous: u64) -> (id: String)
    ensures
        id@ == namespace@ + ":"@ + action@ + ":"@ + decimal(minted_sequence(previous) as nat),
{
    let mut id = namespace.to_owned();
    id.append(":");
    id.append(action);
    id.append(":");
    let n = to_decimal(previous.saturating_add(1));
    id.append(n.as_str());
    id
}

/// Why a decision refused an operation.
pub fn denial_message(decision_id: &str) -> (m: String)
    ensures
        m@ == "authorization decision "@ + decision_id@ + " denied the operation"@,
{
    let mut m = "authorization decision ".to_owned();
    m.append(decision_id);
    m.append(" denied the operation");
    m
}

/// Why an expired decision refused an operation.
pub fn expiry_message(decision_id: &str) -> (m: String)
    ensures
        m@ == "authorization decision "@ + decision_id@ + " has expired"@,
{
    let mut m = "authorization decision ".to_owned();
    m.append(decision_id);
    m.append(" has expired");
    m
}

} // verus!
