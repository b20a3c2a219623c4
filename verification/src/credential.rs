//! The credential document of a certificate: an Open Badges achievement
//! credential with a fixed shape, filled from one record and the issuer's
//! fixed metadata.

use crate::bindings::{base64_encode, base64_of};
use crate::certificate_data::{CertificateData, CertificateDataView, Timestamp};
use crate::error::IssuerError;
use crate::text::{append_decimal, decimal};
use vstd::prelude::*;
use vstd::string::StringExecFns;

verus! {

/// An embedded picture.
#[derive(Debug)]
pub struct Image {
    pub id: String,
    pub type_: String,
    pub caption: String,
}

#[verifier::ext_equal]
pub struct ImageView {
    pub id: Seq<char>,
    pub type_: Seq<char>,
    pub caption: Seq<char>,
}

impl View for Image {
    type V = ImageView;

    open spec fn view(&self) -> ImageView {
        ImageView { id: self.id@, type_: self.type_@, caption: self.caption@ }
    }
}

/// How the achievement is earned.
#[derive(Debug)]
pub struct Criteria {
    pub narrative: String,
}

#[verifier::ext_equal]
pub struct CriteriaView {
    pub narrative: Seq<char>,
}

impl View for Criteria {
    type V = CriteriaView;

    open spec fn view(&self) -> CriteriaView {
        CriteriaView { narrative: self.narrative@ }
    }
}

/// The achievement that the credential attests.
#[derive(Debug)]
pub struct Achievement {
    pub id: String,
    pub type_: String,
    pub criteria: Criteria,
    pub name: String,
    pub description: String,
    pub image: Image,
    pub credits_available: usize,
}

#[verifier::ext_equal]
pub struct AchievementView {
    pub id: Seq<char>,
    pub type_: Seq<char>,
    pub criteria: CriteriaView,
    pub name: Seq<char>,
    pub description: Seq<char>,
    pub image: ImageView,
    pub credits_available: nat,
}

impl View for Achievement {
    type V = AchievementView;

    open spec fn view(&self) -> AchievementView {
        AchievementView {
            id: self.id@,
            type_: self.type_@,
            criteria: self.criteria@,
            name: self.name@,
            description: self.description@,
            image: self.image@,
            credits_available: self.credits_available as nat,
        }
    }
}

/// One result of the subject on the achievement.
#[derive(Debug)]
pub struct ResultEntry {
    pub achieved_level: String,
    pub type_: String,
    pub value: Option<String>,
}

#[verifier::ext_equal]
pub struct ResultEntryView {
    pub achieved_level: Seq<char>,
    pub type_: Seq<char>,
    pub value: Option<Seq<char>>,
}

impl View for ResultEntry {
    type V = ResultEntryView;

    open spec fn view(&self) -> ResultEntryView {
        ResultEntryView {
            achieved_level: self.achieved_level@,
            type_: self.type_@,
            value: match self.value {
                Some(text) => Some(text@),
                None => None,
            },
        }
    }
}

/// Who earned the achievement, and with what result.
#[derive(Debug)]
pub struct AchievementSubject {
    pub id: String,
    pub type_: String,
    pub achievement: Achievement,
    pub image: Image,
    pub credits_earned: usize,
    pub result: Vec<ResultEntry>,
}

#[verifier::ext_equal]
pub struct AchievementSubjectView {
    pub id: Seq<char>,
    pub type_: Seq<char>,
    pub achievement: AchievementView,
    pub image: ImageView,
    pub credits_earned: nat,
    pub result: Seq<ResultEntryView>,
}

impl View for AchievementSubject {
    type V = AchievementSubjectView;

    open spec fn view(&self) -> AchievementSubjectView {
        AchievementSubjectView {
            id: self.id@,
            type_: self.type_@,
            achievement: self.achievement@,
            image: self.image@,
            credits_earned: self.credits_earned as nat,
            result: self.result@.map_values(|entry: ResultEntry| entry@),
        }
    }
}

/// The issuer as a profile of its own.
#[derive(Debug)]
pub struct Profile {
    pub id: String,
    pub type_: String,
    pub name: String,
    pub image: Image,
}

#[verifier::ext_equal]
pub struct ProfileView {
    pub id: Seq<char>,
    pub type_: Seq<char>,
    pub name: Seq<char>,
    pub image: ImageView,
}

impl View for Profile {
    type V = ProfileView;

    open spec fn view(&self) -> ProfileView {
        ProfileView { id: self.id@, type_: self.type_@, name: self.name@, image: self.image@ }
    }
}

/// The issuer of a document: its profile, or, once the document is bound to
/// a signer, the signer's identifier alone.
#[derive(Debug)]
pub enum Issuer {
    Profile(Profile),
    Id(String),
}

#[verifier::ext_equal]
pub enum IssuerView {
    Profile(ProfileView),
    Id(Seq<char>),
}

impl View for Issuer {
    type V = IssuerView;

    open spec fn view(&self) -> IssuerView {
        match self {
            Issuer::Profile(profile) => IssuerView::Profile(profile@),
            Issuer::Id(id) => IssuerView::Id(id@),
        }
    }
}

/// The credential document of one certificate.
#[derive(Debug)]
pub struct CredentialDocument {
    pub context: Vec<String>,
    pub id: String,
    pub type_: Vec<String>,
    pub name: String,
    pub description: String,
    pub image: Image,
    pub credential_subject: AchievementSubject,
    pub issuer: Issuer,
    pub issuance_date: String,
    pub awarded_date: String,
}

#[verifier::ext_equal]
pub struct CredentialDocumentView {
    pub context: Seq<Seq<char>>,
    pub id: Seq<char>,
    pub type_: Seq<Seq<char>>,
    pub name: Seq<char>,
    pub description: Seq<char>,
    pub image: ImageView,
    pub credential_subject: AchievementSubjectView,
    pub issuer: IssuerView,
    pub issuance_date: Seq<char>,
    pub awarded_date: Seq<char>,
}

impl View for CredentialDocument {
    type V = CredentialDocumentView;

    open spec fn view(&self) -> CredentialDocumentView {
        CredentialDocumentView {
            context: self.context@.map_values(|entry: String| entry@),
            id: self.id@,
            type_: self.type_@.map_values(|entry: String| entry@),
            name: self.name@,
            description: self.description@,
            image: self.image@,
            credential_subject: self.credential_subject@,
            issuer: self.issuer@,
            issuance_date: self.issuance_date@,
            awarded_date: self.awarded_date@,
        }
    }
}

/// What is fixed about the issuer, whatever the record: its identity, its
/// name, and its logo as a data URI.
#[derive(Debug)]
pub struct IssuerMetadata {
    pub id: String,
    pub name: String,
    pub logo: String,
}

#[verifier::ext_equal]
pub struct IssuerMetadataView {
    pub id: Seq<char>,
    pub name: Seq<char>,
    pub logo: Seq<char>,
}

impl View for IssuerMetadata {
    type V = IssuerMetadataView;

    open spec fn view(&self) -> IssuerMetadataView {
        IssuerMetadataView { id: self.id@, name: self.name@, logo: self.logo@ }
    }
}

/// The data URI of a PNG picture with the given base64 text.
pub open spec fn png_data_uri(base64_text: Seq<char>) -> Seq<char> {
    "data:image/png;base64,"@ + base64_text
}

/// The issuer that signs for Konnektoren, with `logo` as its picture.
pub open spec fn konnektoren_issuer(logo: Seq<char>) -> IssuerMetadataView {
    IssuerMetadataView { id: "vc.konnektoren.help"@, name: "Konnektoren"@, logo }
}

/// The longest picture, in bytes, whose base64 text still has a length.
pub open spec fn max_logo_len() -> int {
    (usize::MAX - 4) / 4 * 3
}

impl IssuerMetadata {
    /// The Konnektoren issuer with a logo that is already a data URI.
    pub fn with_logo_uri(logo: String) -> (issuer: IssuerMetadata)
        ensures
            issuer@ == konnektoren_issuer(logo@),
    {
        IssuerMetadata {
            id: String::from_str("vc.konnektoren.help"),
            name: String::from_str("Konnektoren"),
            logo,
        }
    }

    /// The Konnektoren issuer with the PNG picture `logo_png` as its logo.
    /// A picture too long to be encoded is a configuration error.
    pub fn konnektoren(logo_png: &[u8]) -> (r: Result<IssuerMetadata, IssuerError>)
        ensures
            r is Ok <==> logo_png@.len() <= max_logo_len(),
            r matches Ok(issuer) ==> issuer@ == konnektoren_issuer(
                png_data_uri(base64_of(logo_png@)),
            ),
            r matches Err(e) ==> e == IssuerError::Configuration,
    {
        if logo_png.len() > (usize::MAX - 4) / 4 * 3 {
            return Err(IssuerError::Configuration);
        }
        let mut logo = String::from_str("data:image/png;base64,");
        let encoded = base64_encode(logo_png);
        logo.append(encoded.as_str());
        Ok(Self::with_logo_uri(logo))
    }
}

/// The picture that every part of a document carries: the issuer's logo.
pub open spec fn logo_image(logo: Seq<char>) -> ImageView {
    ImageView { id: logo, type_: "Image"@, caption: "Konnektoren Logo"@ }
}

/// The sentence that says how the achievement was earned.
pub open spec fn narrative_of(solved: nat, total: nat, percentage: nat) -> Seq<char> {
    "Completed "@ + decimal(solved) + " out of "@ + decimal(total)
        + " challenges with a performance of "@ + decimal(percentage) + "%"@
}

/// A percentage as the result entry shows it.
pub open spec fn percent_text(percentage: nat) -> Seq<char> {
    decimal(percentage) + "%"@
}

/// The description of the achievement.
pub open spec fn achievement_description(profile_name: Seq<char>) -> Seq<char> {
    "This certificate recognizes the achievement of "@ + profile_name
        + " in completing the course."@
}

/// The description of the credential.
pub open spec fn credential_description(
    profile_name: Seq<char>,
    game_path_name: Seq<char>,
) -> Seq<char> {
    "This certificate recognizes the achievement of "@ + profile_name + " in completing the "@
        + game_path_name + " course."@
}

/// The achievement of a record.
pub open spec fn achievement_of(record: CertificateDataView, logo: Seq<char>) -> AchievementView {
    AchievementView {
        id: "https://example.com/achievements/certificate"@,
        type_: "Achievement"@,
        criteria: CriteriaView {
            narrative: narrative_of(
                record.solved_challenges,
                record.total_challenges,
                record.performance_percentage,
            ),
        },
        name: record.game_path_name,
        description: achievement_description(record.profile_name),
        image: logo_image(logo),
        credits_available: record.total_challenges,
    }
}

/// The subject of a record's credential, before a holder is named.
pub open spec fn subject_of(record: CertificateDataView, logo: Seq<char>) -> AchievementSubjectView {
    AchievementSubjectView {
        id: "did:example:ebfeb1f712ebc6f1c276e12ec21"@,
        type_: "AchievementSubject"@,
        achievement: achievement_of(record, logo),
        image: logo_image(logo),
        credits_earned: record.solved_challenges,
        result: seq![
            ResultEntryView {
                achieved_level: record.game_path_name,
                type_: "Result"@,
                value: Some(percent_text(record.performance_percentage)),
            },
        ],
    }
}

/// The document of a record: every field is either fixed, or taken from the
/// record, the issuer or the date text.
pub open spec fn document_of(
    record: CertificateDataView,
    issuer: IssuerMetadataView,
    issued_at: Seq<char>,
) -> CredentialDocumentView {
    CredentialDocumentView {
        context: seq![
            "https://www.w3.org/2018/credentials/v1"@,
            "https://purl.imsglobal.org/spec/ob/v3p0/context-3.0.2.json"@,
        ],
        id: "http://example.com/credentials/3527"@,
        type_: seq!["VerifiableCredential"@, "OpenBadgeCredential"@],
        name: record.game_path_name,
        description: credential_description(record.profile_name, record.game_path_name),
        image: logo_image(issuer.logo),
        credential_subject: subject_of(record, issuer.logo),
        issuer: IssuerView::Profile(
            ProfileView {
                id: issuer.id,
                type_: "Profile"@,
                name: issuer.name,
                image: logo_image(issuer.logo),
            },
        ),
        issuance_date: issued_at,
        awarded_date: issued_at,
    }
}

/// The issuer's logo as a picture.
fn make_logo_image(logo: &String) -> (image: Image)
    ensures
        image@ == logo_image(logo@),
{
    Image {
        id: logo.clone(),
        type_: String::from_str("Image"),
        caption: String::from_str("Konnektoren Logo"),
    }
}

/// The criteria sentence of a record.
fn make_narrative(record: &CertificateData) -> (s: String)
    ensures
        s@ == narrative_of(
            record@.solved_challenges,
            record@.total_challenges,
            record@.performance_percentage,
        ),
{
    let mut s = String::from_str("Completed ");
    append_decimal(&mut s, record.solved_challenges as u64);
    s.append(" out of ");
    append_decimal(&mut s, record.total_challenges as u64);
    s.append(" challenges with a performance of ");
    append_decimal(&mut s, record.performance_percentage as u64);
    s.append("%");
    s
}

/// The percentage of a record as its result entry shows it.
fn make_percent_text(record: &CertificateData) -> (s: String)
    ensures
        s@ == percent_text(record@.performance_percentage),
{
    let mut s = String::new();
    append_decimal(&mut s, record.performance_percentage as u64);
    s.append("%");
    assert(s@ =~= percent_text(record@.performance_percentage));
    s
}

/// The achievement of a record.
fn make_achievement(record: &CertificateData, logo: &String) -> (achievement: Achievement)
    ensures
        achievement@ == achievement_of(record@, logo@),
{
    let mut description = String::from_str("This certificate recognizes the achievement of ");
    description.append(record.profile_name.as_str());
    description.append(" in completing the course.");
    Achievement {
        id: String::from_str("https://example.com/achievements/certificate"),
        type_: String::from_str("Achievement"),
        criteria: Criteria { narrative: make_narrative(record) },
        name: record.game_path_name.clone(),
        description,
        image: make_logo_image(logo),
        credits_available: record.total_challenges,
    }
}

/// The subject of a record's credential.
fn make_subject(record: &CertificateData, logo: &String) -> (subject: AchievementSubject)
    ensures
        subject@ == subject_of(record@, logo@),
{
    let entry = ResultEntry {
        achieved_level: record.game_path_name.clone(),
        type_: String::from_str("Result"),
        value: Some(make_percent_text(record)),
    };
    let ghost entry_view = entry@;
    let mut result: Vec<ResultEntry> = Vec::new();
    result.push(entry);
    assert(result@.map_values(|entry: ResultEntry| entry@) =~= seq![entry_view]);
    let subject = AchievementSubject {
        id: String::from_str("did:example:ebfeb1f712ebc6f1c276e12ec21"),
        type_: String::from_str("AchievementSubject"),
        achievement: make_achievement(record, logo),
        image: make_logo_image(logo),
        credits_earned: record.solved_challenges,
        result,
    };
    assert(subject@ =~~= subject_of(record@, logo@));
    subject
}

/// Turns a record into its credential document, with `issued_at` as the text
/// of both dates. A record that breaks a rule is refused with that rule;
/// every other record has exactly one document.
pub fn transform_dated(
    record: &CertificateData,
    issuer: &IssuerMetadata,
    issued_at: String,
) -> (r: Result<CredentialDocument, IssuerError>)
    ensures
        r is Ok <==> record@.is_valid(),
        r matches Ok(doc) ==> doc@ == document_of(record@, issuer@, issued_at@),
        r matches Err(e) ==> record@.defect() matches Some(rule) && e == IssuerError::Validation(
            rule,
        ),
{
    match record.validate() {
        Err(rule) => {
            return Err(IssuerError::Validation(rule));
        },
        Ok(_) => {},
    }
    let mut context: Vec<String> = Vec::new();
    context.push(String::from_str("https://www.w3.org/2018/credentials/v1"));
    context.push(String::from_str("https://purl.imsglobal.org/spec/ob/v3p0/context-3.0.2.json"));
    let mut type_: Vec<String> = Vec::new();
    type_.push(String::from_str("VerifiableCredential"));
    type_.push(String::from_str("OpenBadgeCredential"));
    let mut description = String::from_str("This certificate recognizes the achievement of ");
    description.append(record.profile_name.as_str());
    description.append(" in completing the ");
    description.append(record.game_path_name.as_str());
    description.append(" course.");
    let doc = CredentialDocument {
        context,
        id: String::from_str("http://example.com/credentials/3527"),
        type_,
        name: record.game_path_name.clone(),
        description,
        image: make_logo_image(&issuer.logo),
        credential_subject: make_subject(record, &issuer.logo),
        issuer: Issuer::Profile(
            Profile {
                id: issuer.id.clone(),
                type_: String::from_str("Profile"),
                name: issuer.name.clone(),
                image: make_logo_image(&issuer.logo),
            },
        ),
        issuance_date: issued_at.clone(),
        awarded_date: issued_at,
    };
    assert(doc@.context =~= document_of(record@, issuer@, issued_at@).context);
    assert(doc@.type_ =~= document_of(record@, issuer@, issued_at@).type_);
    assert(doc@ =~~= document_of(record@, issuer@, issued_at@));
    Ok(doc)
}

/// Turns a record into its credential document, dated with the record's own
/// instant in RFC 3339 form.
pub fn transform(record: &CertificateData, issuer: &IssuerMetadata) -> (r: Result<
    CredentialDocument,
    IssuerError,
>)
    ensures
        r is Ok <==> record@.is_valid(),
        r matches Ok(doc) ==> doc@ == document_of(
            record@,
            issuer@,
            Timestamp::text_of(record@.date),
        ),
        r matches Err(e) ==> record@.defect() matches Some(rule) && e == IssuerError::Validation(
            rule,
        ),
{
    transform_dated(record, issuer, record.date.to_rfc3339())
}

} // verus!
