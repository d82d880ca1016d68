use made_adapters::grpc::service_wiring::{first_missing, required_reason};
use made_adapters::grpc::authorization_gate::{
    check_trusted_host, denial_message, expiry_message, minted_request_id, principal_source, request_id_source,
    status_class, GrpcAuthorizationError, GrpcStatusClass, PrincipalSource, RequestIdHeader, RequestIdSource,
};

#[test]
fn errors_are_answered_by_their_class() {
    assert_eq!(status_class(GrpcAuthorizationError::MissingRequestId), GrpcStatusClass::InvalidArgument);
    assert_eq!(status_class(GrpcAuthorizationError::InvalidTargetDigest), GrpcStatusClass::InvalidArgument);
    assert_eq!(status_class(GrpcAuthorizationError::UntrustedTargetDigestProxy), GrpcStatusClass::PermissionDenied);
    assert_eq!(status_class(GrpcAuthorizationError::Unconfigured), GrpcStatusClass::FailedPrecondition);
    assert_eq!(status_class(GrpcAuthorizationError::MutualTls), GrpcStatusClass::FromMutualTls);
}

#[test]
fn a_trusted_host_gate_needs_a_local_principal_and_a_namespace() {
    assert_eq!(check_trusted_host(true, true, "made-local"), Ok(()));
    assert_eq!(check_trusted_host(false, true, "made-local"), Err(GrpcAuthorizationError::InvalidTrustedHost));
    assert_eq!(check_trusted_host(true, false, ""), Err(GrpcAuthorizationError::InvalidTrustedHost));
    assert_eq!(check_trusted_host(true, true, "   "), Err(GrpcAuthorizationError::EmptyRequestNamespace));
}

#[test]
fn request_ids_come_from_the_caller_or_the_trusted_namespace() {
    assert!(matches!(
        request_id_source(RequestIdHeader::Printable("req-1".to_owned()), false),
        Ok(RequestIdSource::Header(id)) if id == "req-1"
    ));
    assert!(matches!(request_id_source(RequestIdHeader::Absent, true), Ok(RequestIdSource::Mint)));
    assert!(matches!(request_id_source(RequestIdHeader::Absent, false), Err(GrpcAuthorizationError::MissingRequestId)));
    assert!(matches!(
        request_id_source(RequestIdHeader::NotPrintable, true),
        Err(GrpcAuthorizationError::InvalidRequestIdEncoding)
    ));
    assert_eq!(minted_request_id("made-local", "Read", 0), "made-local:Read:1");
    assert_eq!(minted_request_id("ns", "Write", u64::MAX), format!("ns:Write:{}", u64::MAX));
}

#[test]
fn the_principal_comes_from_mutual_tls_first() {
    assert_eq!(principal_source(true, true), Ok(PrincipalSource::MutualTls));
    assert_eq!(principal_source(false, true), Ok(PrincipalSource::TrustedHost));
    assert_eq!(principal_source(false, false), Err(GrpcAuthorizationError::Unconfigured));
}

#[test]
fn refusals_name_the_decision() {
    assert_eq!(denial_message("dec-1"), "authorization decision dec-1 denied the operation");
    assert_eq!(expiry_message("dec-1"), "authorization decision dec-1 has expired");
}

#[test]
fn gate_errors_carry_their_messages() {
    assert_eq!(
        GrpcAuthorizationError::InvalidTrustedHost.message(""),
        "a trusted gRPC fixture must use an explicit local-host principal"
    );
    assert_eq!(
        GrpcAuthorizationError::EmptyRequestNamespace.message("ignored"),
        "trusted gRPC request namespace must not be empty"
    );
    assert_eq!(
        GrpcAuthorizationError::MissingRequestId.message(""),
        "x-made-request-id is required for remote gRPC calls"
    );
    assert_eq!(
        GrpcAuthorizationError::InvalidRequestId.message("too long"),
        "invalid x-made-request-id: too long"
    );
    assert_eq!(
        GrpcAuthorizationError::InvalidTargetDigest.message("not hex"),
        "invalid x-made-target-digest: not hex"
    );
    assert_eq!(
        GrpcAuthorizationError::UntrustedTargetDigestProxy.message(""),
        "x-made-target-digest is accepted only from an explicitly trusted MCP proxy"
    );
    assert_eq!(GrpcAuthorizationError::MutualTls.message("certificate expired"), "certificate expired");
}

#[test]
fn the_first_missing_dependency_is_reported() {
    assert_eq!(first_missing(&vec![true, true, true]), None);
    assert_eq!(first_missing(&vec![true, false, false]), Some(1));
    assert_eq!(first_missing(&vec![]), None);
    assert_eq!(required_reason("statistics", "port"), "grpc: statistics port is required");
    assert_eq!(required_reason("deliberate", "use case"), "grpc: deliberate use case is required");
}
