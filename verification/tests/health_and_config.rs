use konnektoren_vc::certificate_data::Timestamp;
use konnektoren_vc::config::Config;
use konnektoren_vc::error::{IssuerError, NotFoundError, OfferError, ValidationError};
use konnektoren_vc::health::{health_check, readiness_check, test_storage, HealthChecks};
use konnektoren_vc::storage::memory_storage::MemoryStorage as CertificateStore;
use konnektoren_vc::storage::{new_shared_storage, MemoryStorage, Storage};

#[test]
fn config_keeps_both_values() {
    let config = Config::new("secret".to_string(), "https://issuer.example".to_string());
    assert_eq!(config.private_key, "secret");
    assert_eq!(config.issuer_url, Some("https://issuer.example".to_string()));
}

#[test]
fn health_is_always_healthy() {
    let response = health_check("1.2.3".to_string(), "2024-09-30T08:00:00+00:00".to_string());
    assert_eq!(response.status, "healthy");
    assert_eq!(response.version, "1.2.3");
    assert_eq!(response.timestamp, "2024-09-30T08:00:00+00:00");
}

#[test]
fn checks_start_unknown() {
    let checks = HealthChecks::unknown();
    assert_eq!(checks.storage, "unknown");
    assert_eq!(checks.did_generation, "unknown");
    assert_eq!(checks.credential_issuer, "unknown");
}

#[test]
fn ready_only_when_every_check_passed() {
    let ready = readiness_check(true, true, true).expect("all passed");
    assert_eq!(ready.status, "ready");
    assert_eq!(ready.checks.storage, "healthy");
    assert_eq!(ready.checks.did_generation, "healthy");
    assert_eq!(ready.checks.credential_issuer, "healthy");
    for (storage, did, issuer) in [
        (false, true, true),
        (true, false, true),
        (true, true, false),
        (false, false, false),
    ] {
        let word = |ok: bool| if ok { "healthy" } else { "unhealthy" };
        let not_ready = readiness_check(storage, did, issuer).expect_err("a check failed");
        assert_eq!(not_ready.status, "not_ready");
        assert_eq!(not_ready.checks.storage, word(storage));
        assert_eq!(not_ready.checks.did_generation, word(did));
        assert_eq!(not_ready.checks.credential_issuer, word(issuer));
    }
}

#[test]
fn storage_check_writes_a_probe_record() {
    let mut storage = CertificateStore::new();
    let now = Timestamp::from_unix(1_727_683_200, 0).expect("in range");
    assert!(test_storage(&mut storage, "probe-1".to_string(), now));
    let probe = storage.get_certificate("probe-1").expect("the probe");
    assert_eq!(probe.game_path_name, "health_check");
    assert_eq!(probe.profile_name, "health_check");
    assert_eq!(probe.total_challenges, 1);
    assert_eq!(probe.solved_challenges, 1);
    assert_eq!(probe.performance_percentage, 100);
    assert!(test_storage(&mut storage, "probe-1".to_string(), now));
}

#[test]
fn key_value_storage_reads_back_what_it_stored() {
    let mut storage = new_shared_storage();
    assert_eq!(storage.retrieve("k"), None);
    assert_eq!(storage.store("k".to_string(), "v1".to_string()), Ok(()));
    assert_eq!(storage.retrieve("k"), Some("v1".to_string()));
    assert_eq!(storage.store("k".to_string(), "v2".to_string()), Ok(()));
    assert_eq!(storage.retrieve("k"), Some("v2".to_string()));
    assert_eq!(storage.retrieve("K"), None);
    let mut other = MemoryStorage::new();
    assert_eq!(other.retrieve("k"), None);
    assert_eq!(other.store(String::new(), String::new()), Ok(()));
    assert_eq!(other.retrieve(""), Some(String::new()));
}

#[test]
fn errors_describe_themselves() {
    assert_eq!(NotFoundError::UnknownGrant.message(), "unknown or expired grant");
    assert_eq!(NotFoundError::UnknownToken.message(), "unknown token");
    assert_eq!(NotFoundError::CertificateMissing.message(), "certificate missing");
    assert_eq!(
        IssuerError::NotFound(NotFoundError::UnknownToken).message(),
        "unknown token"
    );
    assert_eq!(
        IssuerError::Validation(ValidationError::SolvedExceedsTotal).message(),
        "solved challenges exceed total challenges"
    );
    assert_eq!(
        ValidationError::PercentageOutOfRange.message(),
        "performance percentage is above 100"
    );
    assert_eq!(IssuerError::Conflict.message(), "already bound to a different certificate");
    assert_eq!(IssuerError::SigningFailure.message(), "the signer rejected the claims");
    assert_eq!(
        IssuerError::Configuration.message(),
        "issuer configuration is missing or malformed"
    );
    assert_eq!(
        IssuerError::Offer(OfferError::MissingOffer).message(),
        "No credential offer found in URL"
    );
    assert_eq!(OfferError::MissingCode.message(), "No pre-authorized code found");
    assert_eq!(OfferError::InvalidUrl.message(), "offer is no URL");
    assert_eq!(OfferError::InvalidEncoding.message(), "credential offer is badly encoded");
    assert_eq!(OfferError::InvalidJson.message(), "credential offer is no JSON");
    assert_eq!(OfferError::TooLongForQr.message(), "offer is too long for a QR code");
}

#[test]
fn client_errors_are_told_from_server_errors() {
    assert!(IssuerError::Validation(ValidationError::PercentageOutOfRange).is_client_error());
    assert!(IssuerError::NotFound(NotFoundError::UnknownGrant).is_client_error());
    assert!(IssuerError::Conflict.is_client_error());
    assert!(!IssuerError::SigningFailure.is_client_error());
    assert!(!IssuerError::Configuration.is_client_error());
    assert!(!IssuerError::Offer(OfferError::InvalidJson).is_client_error());
}
