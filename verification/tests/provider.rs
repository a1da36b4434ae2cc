use cloudflare_ddns::failure::{CallFailure, Failure, Step, SyncError};
use cloudflare_ddns::provider::{
    credential_variable_name, echo_address, record_request, records_request,
    resolver_target_for, zones_request,
};

#[test]
fn credential_comes_from_the_named_variable() {
    assert_eq!(credential_variable_name(), "CLOUDFLARE_API_KEY");
}

#[test]
fn echo_service_is_fixed() {
    assert_eq!(echo_address(), "https://api.ipify.org");
}

#[test]
fn resolver_gets_name_and_port() {
    assert_eq!(resolver_target_for("example.com"), "example.com:80");
}

#[test]
fn zones_request_is_authorized() {
    let request = zones_request("secret");
    assert_eq!(request.url, "https://api.cloudflare.com/client/v4/zones");
    assert_eq!(request.authorization, "Bearer secret");
    assert_eq!(request.content_type, "application/json");
}

#[test]
fn records_request_names_the_zone() {
    let request = records_request("secret", "z1");
    assert_eq!(request.url, "https://api.cloudflare.com/client/v4/zones/z1/dns_records");
    assert_eq!(request.authorization, "Bearer secret");
    assert_eq!(request.content_type, "application/json");
}

#[test]
fn record_request_names_zone_and_record() {
    let request = record_request("secret", "z1", "r1");
    assert_eq!(request.url, "https://api.cloudflare.com/client/v4/zones/z1/dns_records/r1");
    assert_eq!(request.authorization, "Bearer secret");
    assert_eq!(request.content_type, "application/json");
}

#[test]
fn failed_calls_are_classified() {
    let provider = [Step::GettingZone, Step::GettingRecord, Step::PatchingRecord];
    for step in provider {
        assert_eq!(CallFailure::Transport.error_at(step), SyncError::NetworkError);
        assert_eq!(CallFailure::Malformed.error_at(step), SyncError::ParseError);
        assert_eq!(CallFailure::Status(401).error_at(step), SyncError::AuthError);
        assert_eq!(CallFailure::Status(403).error_at(step), SyncError::AuthError);
        assert_eq!(CallFailure::Status(400).error_at(step), SyncError::ApiError);
        assert_eq!(CallFailure::Status(404).error_at(step), SyncError::ApiError);
        assert_eq!(CallFailure::Status(500).error_at(step), SyncError::ApiError);
    }
}

#[test]
fn echo_service_failures_are_of_the_network() {
    let step = Step::GettingPublicAddress;
    assert_eq!(CallFailure::Transport.error_at(step), SyncError::NetworkError);
    assert_eq!(CallFailure::Status(401).error_at(step), SyncError::NetworkError);
    assert_eq!(CallFailure::Status(503).error_at(step), SyncError::NetworkError);
    assert_eq!(CallFailure::Malformed.error_at(step), SyncError::ParseError);
}

#[test]
fn steps_are_named_in_diagnostics() {
    assert_eq!(Step::ReadingCredential.context_text(), "Reading CLOUDFLARE_API_KEY");
    assert_eq!(Step::GettingPublicAddress.context_text(), "Getting current public IPv4 Address");
    assert_eq!(
        Step::GettingDomainAddress.context_text(),
        "Getting IPv4 Address Associated With Domain"
    );
    assert_eq!(Step::GettingZone.context_text(), "Getting Zone for Domain");
    assert_eq!(Step::GettingRecord.context_text(), "Getting A Record");
    assert_eq!(Step::PatchingRecord.context_text(), "Patching DNS Record");
}

#[test]
fn errors_are_described_in_diagnostics() {
    assert_eq!(SyncError::NetworkError.description_text(), "network error");
    assert_eq!(SyncError::ParseError.description_text(), "malformed response");
    assert_eq!(SyncError::ResolutionError.description_text(), "no IPv4 address found");
    assert_eq!(SyncError::ZoneNotFound.description_text(), "zone not found");
    assert_eq!(SyncError::RecordNotFound.description_text(), "record not found");
    assert_eq!(SyncError::AuthError.description_text(), "missing or rejected credential");
    assert_eq!(SyncError::ApiError.description_text(), "request rejected by the provider");
    assert_eq!(SyncError::UnexpectedReply.description_text(), "unexpected reply");
}

#[test]
fn diagnostic_is_one_line_of_step_and_error() {
    let failure = Failure { step: Step::GettingZone, error: SyncError::ZoneNotFound };
    assert_eq!(failure.message(), "Getting Zone for Domain: zone not found");
    let failure = Failure { step: Step::ReadingCredential, error: SyncError::AuthError };
    assert_eq!(failure.message(), "Reading CLOUDFLARE_API_KEY: missing or rejected credential");
    assert!(!failure.message().contains('\n'));
}
