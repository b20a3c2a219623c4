use konnektoren_vc::certificate_data::{CertificateData, Timestamp};
use konnektoren_vc::error::{IssuerError, OfferError, ValidationError};
use konnektoren_vc::services::certificate_service::{
    find_query_value, pre_authorized_code_of, CertificateService,
};
use konnektoren_vc::storage::memory_storage::MemoryStorage;

const OFFER_JSON: &str = r#"{"credential_issuer":"https://issuer.example/","credential_configuration_ids":["KonnektorenCertificate"],"grants":{"urn:ietf:params:oauth:grant-type:pre-authorized_code":{"pre-authorized_code":"0YI5DXtuCltKyNa5"}}}"#;

fn offer_url(json: &str) -> String {
    format!("openid-credential-offer://?credential_offer={}", urlencoding::encode(json))
}

fn payload() -> CertificateData {
    CertificateData {
        game_path_name: "Intro".to_string(),
        total_challenges: 10,
        solved_challenges: 8,
        performance_percentage: 80,
        profile_name: "Alice".to_string(),
        date: Timestamp::from_unix(1_727_683_200, 0).expect("a date in range"),
    }
}

fn service() -> CertificateService {
    CertificateService::new("https://issuer.example/".to_string())
}

#[test]
fn code_is_read_out_of_an_offer_url() {
    assert_eq!(pre_authorized_code_of(&offer_url(OFFER_JSON)), Ok("0YI5DXtuCltKyNa5".to_string()));
}

#[test]
fn code_survives_a_second_level_of_escapes() {
    let twice = urlencoding::encode(OFFER_JSON).into_owned();
    assert_eq!(pre_authorized_code_of(&offer_url(&twice)), Ok("0YI5DXtuCltKyNa5".to_string()));
}

#[test]
fn text_that_is_no_url_is_refused() {
    assert_eq!(pre_authorized_code_of("not a url"), Err(OfferError::InvalidUrl));
    assert_eq!(pre_authorized_code_of(""), Err(OfferError::InvalidUrl));
}

#[test]
fn url_without_the_offer_parameter_is_refused() {
    assert_eq!(
        pre_authorized_code_of("openid-credential-offer://?other=1"),
        Err(OfferError::MissingOffer)
    );
    assert_eq!(pre_authorized_code_of("https://issuer.example/"), Err(OfferError::MissingOffer));
}

#[test]
fn offer_with_escapes_that_are_no_text_is_refused() {
    assert_eq!(
        pre_authorized_code_of("openid-credential-offer://?credential_offer=%25FF"),
        Err(OfferError::InvalidEncoding)
    );
}

#[test]
fn offer_that_is_no_json_is_refused() {
    assert_eq!(pre_authorized_code_of(&offer_url("{not json")), Err(OfferError::InvalidJson));
    assert_eq!(
        pre_authorized_code_of("openid-credential-offer://?credential_offer="),
        Err(OfferError::InvalidJson)
    );
}

#[test]
fn offer_without_a_code_is_refused() {
    assert_eq!(pre_authorized_code_of(&offer_url("{}")), Err(OfferError::MissingCode));
    assert_eq!(
        pre_authorized_code_of(&offer_url(r#"{"grants":{"authorization_code":{}}}"#)),
        Err(OfferError::MissingCode)
    );
    assert_eq!(
        pre_authorized_code_of(&offer_url(
            r#"{"grants":{"urn:ietf:params:oauth:grant-type:pre-authorized_code":{"pre-authorized_code":17}}}"#
        )),
        Err(OfferError::MissingCode)
    );
    assert_eq!(pre_authorized_code_of(&offer_url("[1,2]")), Err(OfferError::MissingCode));
}

#[test]
fn first_pair_with_the_key_wins() {
    let pairs = vec![
        ("a".to_string(), "1".to_string()),
        ("b".to_string(), "2".to_string()),
        ("a".to_string(), "3".to_string()),
    ];
    assert_eq!(find_query_value(&pairs, "a"), Some("1".to_string()));
    assert_eq!(find_query_value(&pairs, "b"), Some("2".to_string()));
    assert_eq!(find_query_value(&pairs, "c"), None);
    assert_eq!(find_query_value(&pairs, ""), None);
    assert_eq!(find_query_value(&Vec::new(), "a"), None);
    assert_eq!(
        pre_authorized_code_of(&format!("{}&credential_offer=%7B%7D", offer_url(OFFER_JSON))),
        Ok("0YI5DXtuCltKyNa5".to_string())
    );
}

#[test]
fn offer_url_binds_its_code_to_a_fresh_certificate() {
    let mut storage = MemoryStorage::new();
    let url = offer_url(OFFER_JSON);
    assert_eq!(service().generate_offer_url(&mut storage, &url, &payload()), Ok(url.clone()));
    let id = storage
        .get_certificate_id_by_pre_authorized_code("0YI5DXtuCltKyNa5")
        .expect("the code is bound");
    assert_eq!(id.len(), 36);
    assert_eq!(service().get_certificate(&storage, &id).expect("stored").profile_name, "Alice");
    assert!(service().get_certificate(&storage, "0YI5DXtuCltKyNa5").is_none());
}

#[test]
fn unusable_offer_url_stores_nothing() {
    let mut storage = MemoryStorage::new();
    assert_eq!(
        service().generate_offer_url(&mut storage, "https://issuer.example/", &payload()),
        Err(IssuerError::Offer(OfferError::MissingOffer))
    );
    let mut invalid = payload();
    invalid.solved_challenges = 11;
    assert_eq!(
        service().generate_offer_url(&mut storage, &offer_url(OFFER_JSON), &invalid),
        Err(IssuerError::Validation(ValidationError::SolvedExceedsTotal))
    );
    assert_eq!(storage.get_certificate_id_by_pre_authorized_code("0YI5DXtuCltKyNa5"), None);
}

#[test]
fn offer_url_with_a_code_in_use_is_a_conflict() {
    let mut storage = MemoryStorage::new();
    let url = offer_url(OFFER_JSON);
    assert_eq!(service().generate_offer_url(&mut storage, &url, &payload()), Ok(url.clone()));
    assert_eq!(
        service().generate_offer_url(&mut storage, &url, &payload()),
        Err(IssuerError::Conflict)
    );
}
