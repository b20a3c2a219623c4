use konnektoren_vc::certificate_data::{CertificateData, Timestamp};
use konnektoren_vc::error::{IssuerError, ValidationError};
use konnektoren_vc::storage::memory_storage::MemoryStorage;

fn record(total: usize, solved: usize, percentage: u8) -> CertificateData {
    CertificateData {
        game_path_name: "Intro".to_string(),
        total_challenges: total,
        solved_challenges: solved,
        performance_percentage: percentage,
        profile_name: "Alice".to_string(),
        date: Timestamp::from_unix(1_727_683_200, 0).expect("a date in range"),
    }
}

#[test]
fn stored_certificate_is_read_back_under_its_id() {
    let mut storage = MemoryStorage::new();
    assert_eq!(storage.store_certificate("id-1".to_string(), record(10, 8, 80)), Ok(()));
    let found = storage.get_certificate("id-1").expect("stored");
    assert_eq!(found.game_path_name, "Intro");
    assert_eq!(found.total_challenges, 10);
    assert_eq!(found.solved_challenges, 8);
    assert_eq!(found.performance_percentage, 80);
    assert_eq!(found.profile_name, "Alice");
    assert_eq!(found.date.unix_seconds(), 1_727_683_200);
    assert_eq!(found.date.subsec_nanos(), 0);
    assert!(storage.contains_certificate("id-1"));
}

#[test]
fn new_store_holds_nothing() {
    let storage = MemoryStorage::new();
    assert!(storage.get_certificate("id-1").is_none());
    assert!(!storage.contains_certificate("id-1"));
    assert_eq!(storage.get_certificate_id_by_pre_authorized_code("code"), None);
    assert_eq!(storage.get_certificate_id_by_access_token("token"), None);
}

#[test]
fn unknown_id_finds_nothing_even_when_other_records_exist() {
    let mut storage = MemoryStorage::new();
    assert_eq!(storage.store_certificate("id-1".to_string(), record(10, 8, 80)), Ok(()));
    assert!(storage.get_certificate("id-2").is_none());
    assert!(storage.get_certificate("").is_none());
    assert!(storage.get_certificate("id-").is_none());
    assert!(storage.get_certificate("id-11").is_none());
    assert!(storage.get_certificate("ID-1").is_none());
}

#[test]
fn invalid_payload_is_refused_and_not_stored() {
    let mut storage = MemoryStorage::new();
    assert_eq!(
        storage.store_certificate("a".to_string(), record(10, 11, 80)),
        Err(IssuerError::Validation(ValidationError::SolvedExceedsTotal))
    );
    assert_eq!(
        storage.store_certificate("a".to_string(), record(10, 8, 101)),
        Err(IssuerError::Validation(ValidationError::PercentageOutOfRange))
    );
    assert_eq!(
        storage.store_certificate("a".to_string(), record(10, 11, 255)),
        Err(IssuerError::Validation(ValidationError::SolvedExceedsTotal))
    );
    assert!(storage.get_certificate("a").is_none());
    assert!(matches!(
        storage.create_certificate(record(1, 2, 0)),
        Err(IssuerError::Validation(ValidationError::SolvedExceedsTotal))
    ));
    assert!(matches!(
        storage.create_certificate(record(0, 0, 200)),
        Err(IssuerError::Validation(ValidationError::PercentageOutOfRange))
    ));
}

#[test]
fn boundary_payloads_are_accepted() {
    let mut storage = MemoryStorage::new();
    assert_eq!(storage.store_certificate("zero".to_string(), record(0, 0, 0)), Ok(()));
    assert_eq!(storage.store_certificate("full".to_string(), record(7, 7, 100)), Ok(()));
    assert_eq!(record(7, 7, 100).validate(), Ok(()));
    assert_eq!(record(7, 8, 100).validate(), Err(ValidationError::SolvedExceedsTotal));
    assert_eq!(record(7, 7, 101).validate(), Err(ValidationError::PercentageOutOfRange));
}

#[test]
fn id_in_use_is_never_overwritten() {
    let mut storage = MemoryStorage::new();
    assert_eq!(storage.store_certificate("id-1".to_string(), record(10, 8, 80)), Ok(()));
    assert_eq!(
        storage.store_certificate("id-1".to_string(), record(5, 5, 100)),
        Err(IssuerError::Conflict)
    );
    let found = storage.get_certificate("id-1").expect("stored");
    assert_eq!(found.total_challenges, 10);
    assert_eq!(found.performance_percentage, 80);
}

#[test]
fn created_certificates_get_fresh_ids() {
    let mut storage = MemoryStorage::new();
    let first = storage.create_certificate(record(10, 8, 80)).expect("valid");
    let second = storage.create_certificate(record(10, 9, 90)).expect("valid");
    assert_ne!(first, second);
    assert_eq!(first.len(), 36);
    assert_eq!(second.len(), 36);
    assert_eq!(storage.get_certificate(&first).expect("stored").solved_challenges, 8);
    assert_eq!(storage.get_certificate(&second).expect("stored").solved_challenges, 9);
}

#[test]
fn pre_authorized_code_resolves_to_its_certificate_only() {
    let mut storage = MemoryStorage::new();
    assert_eq!(
        storage.associate_pre_authorized_code("code-1".to_string(), "id-1".to_string()),
        Ok(())
    );
    assert_eq!(
        storage.get_certificate_id_by_pre_authorized_code("code-1"),
        Some("id-1".to_string())
    );
    assert_eq!(storage.get_certificate_id_by_pre_authorized_code("code-2"), None);
    assert_eq!(storage.get_certificate_id_by_access_token("code-1"), None);
}

#[test]
fn access_token_resolves_to_its_certificate_only() {
    let mut storage = MemoryStorage::new();
    assert_eq!(storage.associate_access_token("token-1".to_string(), "id-1".to_string()), Ok(()));
    assert_eq!(storage.get_certificate_id_by_access_token("token-1"), Some("id-1".to_string()));
    assert_eq!(storage.get_certificate_id_by_access_token("token-2"), None);
    assert_eq!(storage.get_certificate_id_by_pre_authorized_code("token-1"), None);
}

#[test]
fn rebinding_to_another_certificate_is_a_conflict() {
    let mut storage = MemoryStorage::new();
    assert_eq!(
        storage.associate_pre_authorized_code("code-1".to_string(), "id-1".to_string()),
        Ok(())
    );
    assert_eq!(
        storage.associate_pre_authorized_code("code-1".to_string(), "id-2".to_string()),
        Err(IssuerError::Conflict)
    );
    assert_eq!(
        storage.get_certificate_id_by_pre_authorized_code("code-1"),
        Some("id-1".to_string())
    );
    assert_eq!(storage.associate_access_token("token-1".to_string(), "id-1".to_string()), Ok(()));
    assert_eq!(
        storage.associate_access_token("token-1".to_string(), "id-2".to_string()),
        Err(IssuerError::Conflict)
    );
    assert_eq!(storage.get_certificate_id_by_access_token("token-1"), Some("id-1".to_string()));
}

#[test]
fn rebinding_to_the_same_certificate_changes_nothing() {
    let mut storage = MemoryStorage::new();
    assert_eq!(
        storage.associate_pre_authorized_code("code-1".to_string(), "id-1".to_string()),
        Ok(())
    );
    assert_eq!(
        storage.associate_pre_authorized_code("code-1".to_string(), "id-1".to_string()),
        Ok(())
    );
    assert_eq!(
        storage.get_certificate_id_by_pre_authorized_code("code-1"),
        Some("id-1".to_string())
    );
}

#[test]
fn cloned_record_equals_its_source() {
    let source = record(10, 8, 80);
    let copy = source.clone();
    assert_eq!(copy.game_path_name, source.game_path_name);
    assert_eq!(copy.total_challenges, source.total_challenges);
    assert_eq!(copy.solved_challenges, source.solved_challenges);
    assert_eq!(copy.performance_percentage, source.performance_percentage);
    assert_eq!(copy.profile_name, source.profile_name);
    assert_eq!(copy.date.unix_seconds(), source.date.unix_seconds());
}
