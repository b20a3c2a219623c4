use chrono::{NaiveDateTime, TimeZone, Utc};
use konnektoren_vc::certificate_data::{CertificateData, Timestamp};
use konnektoren_vc::credential::{
    transform, transform_dated, CredentialDocument, Issuer, IssuerMetadata,
};
use konnektoren_vc::error::{IssuerError, ValidationError};
use konnektoren_vc::text::{append_decimal, to_decimal};

const LOGO: &str = "data:image/png;base64,AAAA";

fn issuer() -> IssuerMetadata {
    IssuerMetadata::with_logo_uri(LOGO.to_string())
}

fn rust_intro() -> CertificateData {
    let naive_date = NaiveDateTime::parse_from_str("2024-09-30 08:00:00", "%Y-%m-%d %H:%M:%S")
        .expect("Failed to parse date");
    let utc_date = Utc.from_utc_datetime(&naive_date);
    CertificateData {
        game_path_name: "Introduction to Rust".to_string(),
        total_challenges: 10,
        solved_challenges: 8,
        performance_percentage: 80,
        profile_name: "Alice Rustacean".to_string(),
        date: Timestamp::from_unix(utc_date.timestamp(), utc_date.timestamp_subsec_nanos())
            .expect("a date in range"),
    }
}

fn assert_logo(image: &konnektoren_vc::credential::Image) {
    assert_eq!(image.id, LOGO);
    assert_eq!(image.type_, "Image");
    assert_eq!(image.caption, "Konnektoren Logo");
}

fn assert_rust_intro_document(doc: &CredentialDocument, date: &str) {
    assert_eq!(
        doc.context,
        vec![
            "https://www.w3.org/2018/credentials/v1".to_string(),
            "https://purl.imsglobal.org/spec/ob/v3p0/context-3.0.2.json".to_string(),
        ]
    );
    assert_eq!(doc.id, "http://example.com/credentials/3527");
    assert_eq!(
        doc.type_,
        vec!["VerifiableCredential".to_string(), "OpenBadgeCredential".to_string()]
    );
    assert_eq!(doc.name, "Introduction to Rust");
    assert_eq!(
        doc.description,
        "This certificate recognizes the achievement of Alice Rustacean in completing the Introduction to Rust course."
    );
    assert_logo(&doc.image);
    assert_eq!(doc.issuance_date, date);
    assert_eq!(doc.awarded_date, date);

    let subject = &doc.credential_subject;
    assert_eq!(subject.id, "did:example:ebfeb1f712ebc6f1c276e12ec21");
    assert_eq!(subject.type_, "AchievementSubject");
    assert_logo(&subject.image);
    assert_eq!(subject.credits_earned, 8);
    assert_eq!(subject.credits_earned as f64, 8.0);
    assert_eq!(subject.result.len(), 1);
    assert_eq!(subject.result[0].achieved_level, "Introduction to Rust");
    assert_eq!(subject.result[0].type_, "Result");
    assert_eq!(subject.result[0].value, Some("80%".to_string()));

    let achievement = &subject.achievement;
    assert_eq!(achievement.id, "https://example.com/achievements/certificate");
    assert_eq!(achievement.type_, "Achievement");
    assert_eq!(
        achievement.criteria.narrative,
        "Completed 8 out of 10 challenges with a performance of 80%"
    );
    assert_eq!(achievement.name, "Introduction to Rust");
    assert_eq!(
        achievement.description,
        "This certificate recognizes the achievement of Alice Rustacean in completing the course."
    );
    assert_logo(&achievement.image);
    assert_eq!(achievement.credits_available, 10);
    assert_eq!(achievement.credits_available as f64, 10.0);

    match &doc.issuer {
        Issuer::Profile(profile) => {
            assert_eq!(profile.id, "vc.konnektoren.help");
            assert_eq!(profile.type_, "Profile");
            assert_eq!(profile.name, "Konnektoren");
            assert_logo(&profile.image);
        }
        Issuer::Id(id) => panic!("issuer is the bare id {id}"),
    }
}

#[test]
fn test_conversion() {
    let cert_data = rust_intro();
    let document = transform(&cert_data, &issuer()).expect("a valid record");
    assert_rust_intro_document(&document, "2024-09-30T08:00:00+00:00");
}

#[test]
fn transform_is_repeatable() {
    let cert_data = rust_intro();
    let first = transform(&cert_data, &issuer()).expect("a valid record");
    let second = transform(&cert_data, &issuer()).expect("a valid record");
    assert_eq!(format!("{first:?}"), format!("{second:?}"));
    assert_eq!(cert_data.solved_challenges, 8);
}

#[test]
fn transform_takes_the_date_text_as_given() {
    let document =
        transform_dated(&rust_intro(), &issuer(), "some day".to_string()).expect("a valid record");
    assert_rust_intro_document(&document, "some day");
}

#[test]
fn transform_refuses_a_record_that_breaks_a_rule() {
    let mut too_many = rust_intro();
    too_many.solved_challenges = 11;
    assert!(matches!(
        transform(&too_many, &issuer()),
        Err(IssuerError::Validation(ValidationError::SolvedExceedsTotal))
    ));
    let mut too_good = rust_intro();
    too_good.performance_percentage = 101;
    assert!(matches!(
        transform(&too_good, &issuer()),
        Err(IssuerError::Validation(ValidationError::PercentageOutOfRange))
    ));
    assert!(matches!(
        transform_dated(&too_good, &issuer(), String::new()),
        Err(IssuerError::Validation(ValidationError::PercentageOutOfRange))
    ));
}

#[test]
fn transform_shows_the_numbers_of_every_valid_record() {
    for (total, solved, percentage) in [(0usize, 0usize, 0u8), (1, 1, 100), (250, 3, 7), (12, 12, 99)]
    {
        let mut cert_data = rust_intro();
        cert_data.total_challenges = total;
        cert_data.solved_challenges = solved;
        cert_data.performance_percentage = percentage;
        let document = transform(&cert_data, &issuer()).expect("a valid record");
        let subject = &document.credential_subject;
        assert_eq!(subject.achievement.credits_available, total);
        assert_eq!(subject.credits_earned, solved);
        assert_eq!(subject.result[0].value, Some(format!("{percentage}%")));
        assert_eq!(
            subject.achievement.criteria.narrative,
            format!(
                "Completed {solved} out of {total} challenges with a performance of {percentage}%"
            )
        );
    }
}

#[test]
fn timestamp_prints_as_rfc3339() {
    let epoch = Timestamp::from_unix(0, 0).expect("the epoch");
    assert_eq!(epoch.to_rfc3339(), "1970-01-01T00:00:00+00:00");
    let fraction = Timestamp::from_unix(1_727_683_200, 500_000_000).expect("in range");
    assert_eq!(fraction.to_rfc3339(), "2024-09-30T08:00:00.500+00:00");
    assert_eq!(fraction.unix_seconds(), 1_727_683_200);
    assert_eq!(fraction.subsec_nanos(), 500_000_000);
    let before = Timestamp::from_unix(-1, 0).expect("in range");
    assert_eq!(before.to_rfc3339(), "1969-12-31T23:59:59+00:00");
}

#[test]
fn timestamp_outside_the_calendar_is_refused() {
    assert!(Timestamp::from_unix(i64::MAX, 0).is_none());
    assert!(Timestamp::from_unix(i64::MIN, 0).is_none());
    assert!(Timestamp::from_unix(0, 2_000_000_000).is_none());
    assert!(Timestamp::from_unix(0, 1_500_000_000).is_none());
}

#[test]
fn logo_is_a_base64_data_uri() {
    let issuer = IssuerMetadata::konnektoren(b"hello").expect("a short logo");
    assert_eq!(issuer.logo, "data:image/png;base64,aGVsbG8=");
    assert_eq!(issuer.id, "vc.konnektoren.help");
    assert_eq!(issuer.name, "Konnektoren");
    let empty = IssuerMetadata::konnektoren(b"").expect("an empty logo");
    assert_eq!(empty.logo, "data:image/png;base64,");
    let bytes = IssuerMetadata::konnektoren(&[0xfb, 0xff]).expect("a short logo");
    assert_eq!(bytes.logo, "data:image/png;base64,+/8=");
}

#[test]
fn decimal_numerals_are_exact() {
    assert_eq!(to_decimal(0), "0");
    assert_eq!(to_decimal(7), "7");
    assert_eq!(to_decimal(10), "10");
    assert_eq!(to_decimal(99), "99");
    assert_eq!(to_decimal(100), "100");
    assert_eq!(to_decimal(1_234_567_890), "1234567890");
    assert_eq!(to_decimal(u64::MAX), "18446744073709551615");
    let mut text = "n=".to_string();
    append_decimal(&mut text, 4096);
    assert_eq!(text, "n=4096");
}
