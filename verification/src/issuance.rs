//! The steps of an issuance: a grant is exchanged for an access token, and
//! the token is redeemed for the claims of a credential, which a signer
//! outside this library turns into the signed credential.
//!
//! Grants and tokens stay valid after use: exchanging a grant again binds
//! one more token to the same certificate, and a token can be redeemed any
//! number of times.

use crate::bindings::random_uuid;
use crate::certificate_data::{CertificateDataView, Timestamp};
use crate::credential::{
    document_of, transform, AchievementSubjectView, CredentialDocument, CredentialDocumentView,
    Issuer, IssuerMetadata, IssuerMetadataView, IssuerView,
};
use crate::error::{IssuerError, NotFoundError};
use crate::storage::memory_storage::{MemoryStorage, StorageView};
use vstd::prelude::*;
use vstd::string::StringExecFns;

verus! {

/// Seconds for which a token response and its nonce are announced as valid.
pub const TOKEN_LIFETIME_SECS: u64 = 86400;

/// The `iat` claim of every credential.
pub const CLAIMS_ISSUED_AT: i64 = 0;

/// The `exp` claim of every credential.
pub const CLAIMS_EXPIRY: i64 = 9999999999;

/// The grant of the authorization-code flow, as an offer carries it.
#[derive(Debug)]
pub struct AuthorizationCode {
    pub issuer_state: Option<String>,
    pub authorization_server: Option<String>,
}

/// A grant of the authorization-code flow with a state drawn at random: a
/// UUID in its hyphenated form. No authorization server is named.
pub fn get_authorization_code() -> (grant: AuthorizationCode)
    ensures
        grant.issuer_state matches Some(state) && state@.len() == 36,
        grant.authorization_server is None,
{
    AuthorizationCode { issuer_state: Some(random_uuid()), authorization_server: None }
}

/// What a wallet sends to obtain an access token.
#[derive(Debug)]
pub enum TokenRequest {
    AuthorizationCode { code: String },
    PreAuthorizedCode { pre_authorized_code: String },
}

/// What a wallet receives for a grant.
#[derive(Debug)]
pub struct TokenResponse {
    pub access_token: String,
    pub token_type: String,
    pub expires_in: Option<u64>,
    pub refresh_token: Option<String>,
    pub scope: Option<String>,
    pub c_nonce: Option<String>,
    pub c_nonce_expires_in: Option<u64>,
}

#[verifier::ext_equal]
pub struct TokenResponseView {
    pub access_token: Seq<char>,
    pub token_type: Seq<char>,
    pub expires_in: Option<u64>,
    pub refresh_token: Option<Seq<char>>,
    pub scope: Option<Seq<char>>,
    pub c_nonce: Option<Seq<char>>,
    pub c_nonce_expires_in: Option<u64>,
}

/// The text of an optional string.
pub open spec fn text_view(text: Option<String>) -> Option<Seq<char>> {
    match text {
        Some(s) => Some(s@),
        None => None,
    }
}

impl View for TokenResponse {
    type V = TokenResponseView;

    open spec fn view(&self) -> TokenResponseView {
        TokenResponseView {
            access_token: self.access_token@,
            token_type: self.token_type@,
            expires_in: self.expires_in,
            refresh_token: text_view(self.refresh_token),
            scope: text_view(self.scope),
            c_nonce: text_view(self.c_nonce),
            c_nonce_expires_in: self.c_nonce_expires_in,
        }
    }
}

/// The claim set that the signer signs.
#[derive(Debug)]
pub struct CredentialClaims {
    pub sub: String,
    pub iss: String,
    pub iat: i64,
    pub exp: i64,
    pub vc: CredentialDocument,
}

#[verifier::ext_equal]
pub struct CredentialClaimsView {
    pub sub: Seq<char>,
    pub iss: Seq<char>,
    pub iat: int,
    pub exp: int,
    pub vc: CredentialDocumentView,
}

impl View for CredentialClaims {
    type V = CredentialClaimsView;

    open spec fn view(&self) -> CredentialClaimsView {
        CredentialClaimsView {
            sub: self.sub@,
            iss: self.iss@,
            iat: self.iat as int,
            exp: self.exp as int,
            vc: self.vc@,
        }
    }
}

/// What a wallet receives for an access token.
#[derive(Debug)]
pub struct CredentialResponse {
    pub credential: String,
    pub notification_id: Option<String>,
    pub c_nonce: Option<String>,
    pub c_nonce_expires_in: Option<u64>,
}

#[verifier::ext_equal]
pub struct CredentialResponseView {
    pub credential: Seq<char>,
    pub notification_id: Option<Seq<char>>,
    pub c_nonce: Option<Seq<char>>,
    pub c_nonce_expires_in: Option<u64>,
}

impl View for CredentialResponse {
    type V = CredentialResponseView;

    open spec fn view(&self) -> CredentialResponseView {
        CredentialResponseView {
            credential: self.credential@,
            notification_id: text_view(self.notification_id),
            c_nonce: text_view(self.c_nonce),
            c_nonce_expires_in: self.c_nonce_expires_in,
        }
    }
}

/// The store after the grant `code` was exchanged for `token`, or why it was
/// not: an unbound code is an unknown grant; otherwise the token is bound to
/// the certificate of the code, unless it is bound to another one already.
pub open spec fn exchange(store: StorageView, code: Seq<char>, token: Seq<char>) -> Result<
    StorageView,
    IssuerError,
> {
    if store.pre_authorized_codes.contains_key(code) {
        store.associate_access_token(token, store.pre_authorized_codes[code])
    } else {
        Err(IssuerError::NotFound(NotFoundError::UnknownGrant))
    }
}

impl TokenRequest {
    /// The code that the request presents as its grant.
    pub open spec fn presented_code(self) -> Seq<char> {
        match self {
            TokenRequest::AuthorizationCode { code } => code@,
            TokenRequest::PreAuthorizedCode { pre_authorized_code } => pre_authorized_code@,
        }
    }
}

/// The store after a token request was served with `token`, or why it was
/// not. Whichever kind the request is, the code it presents is exchanged as
/// a grant: a code that is no grant, an access token among them, is refused.
pub open spec fn serve_token_request(
    store: StorageView,
    request: TokenRequest,
    token: Seq<char>,
) -> Result<StorageView, IssuerError> {
    exchange(store, request.presented_code(), token)
}

/// The response that announces `token` together with the nonce `nonce`.
pub open spec fn token_response_of(token: Seq<char>, nonce: Seq<char>) -> TokenResponseView {
    TokenResponseView {
        access_token: token,
        token_type: "bearer"@,
        expires_in: Some(TOKEN_LIFETIME_SECS),
        refresh_token: None,
        scope: None,
        c_nonce: Some(nonce),
        c_nonce_expires_in: Some(TOKEN_LIFETIME_SECS),
    }
}

/// The record that an access token leads to, or what is missing.
pub open spec fn redeem(store: StorageView, token: Seq<char>) -> Result<
    CertificateDataView,
    IssuerError,
> {
    if !store.access_tokens.contains_key(token) {
        Err(IssuerError::NotFound(NotFoundError::UnknownToken))
    } else if !store.certificates.contains_key(store.access_tokens[token]) {
        Err(IssuerError::NotFound(NotFoundError::CertificateMissing))
    } else {
        Ok(store.certificates[store.access_tokens[token]])
    }
}

/// A document bound to its parties: the issuer is the signer's identifier,
/// and the subject is the holder's.
pub open spec fn bound_document(
    doc: CredentialDocumentView,
    subject_did: Seq<char>,
    issuer_did: Seq<char>,
) -> CredentialDocumentView {
    CredentialDocumentView {
        issuer: IssuerView::Id(issuer_did),
        credential_subject: AchievementSubjectView { id: subject_did, ..doc.credential_subject },
        ..doc
    }
}

/// The claims over a document for a holder and a signer.
pub open spec fn claims_over(
    doc: CredentialDocumentView,
    subject_did: Seq<char>,
    issuer_did: Seq<char>,
) -> CredentialClaimsView {
    CredentialClaimsView {
        sub: subject_did,
        iss: issuer_did,
        iat: CLAIMS_ISSUED_AT as int,
        exp: CLAIMS_EXPIRY as int,
        vc: bound_document(doc, subject_did, issuer_did),
    }
}

/// The claims that an access token is redeemed for, or why there are none:
/// an unknown token, a missing record, or a stored record that breaks a rule.
pub open spec fn claims_for(
    store: StorageView,
    issuer: IssuerMetadataView,
    token: Seq<char>,
    subject_did: Seq<char>,
    issuer_did: Seq<char>,
) -> Result<CredentialClaimsView, IssuerError> {
    match redeem(store, token) {
        Err(e) => Err(e),
        Ok(record) => match record.defect() {
            Some(rule) => Err(IssuerError::Validation(rule)),
            None => Ok(
                claims_over(
                    document_of(record, issuer, Timestamp::text_of(record.date)),
                    subject_did,
                    issuer_did,
                ),
            ),
        },
    }
}

/// Exchanges the grant `pre_authorized_code` for `access_token`: the token
/// is bound to the certificate of the grant. The grant stays valid.
pub fn exchange_grant_for_token(
    storage: &mut MemoryStorage,
    pre_authorized_code: &str,
    access_token: String,
) -> (r: Result<(), IssuerError>)
    ensures
        match exchange(old(storage)@, pre_authorized_code@, access_token@) {
            Ok(next) => r is Ok && final(storage)@ == next,
            Err(e) => r == Err::<(), IssuerError>(e) && final(storage)@ == old(storage)@,
        },
        old(storage)@.well_formed() ==> final(storage)@.well_formed(),
{
    match storage.get_certificate_id_by_pre_authorized_code(pre_authorized_code) {
        Some(certificate_id) => storage.associate_access_token(access_token, certificate_id),
        None => Err(IssuerError::NotFound(NotFoundError::UnknownGrant)),
    }
}

/// Serves a token request with the fresh values `access_token` and `c_nonce`.
/// A token is announced only where the presented code is a grant, and then
/// it leads to the certificate of that grant.
pub fn get_token_response(
    storage: &mut MemoryStorage,
    token_request: TokenRequest,
    access_token: String,
    c_nonce: String,
) -> (r: Result<TokenResponse, IssuerError>)
    ensures
        match serve_token_request(old(storage)@, token_request, access_token@) {
            Ok(next) => final(storage)@ == next && (r matches Ok(response) && response@
                == token_response_of(access_token@, c_nonce@)),
            Err(e) => r matches Err(returned) && returned == e && final(storage)@ == old(
                storage,
            )@,
        },
        r is Ok ==> old(storage)@.pre_authorized_codes.contains_key(
            token_request.presented_code(),
        ) && final(storage)@.access_tokens.contains_pair(
            access_token@,
            old(storage)@.pre_authorized_codes[token_request.presented_code()],
        ),
        !old(storage)@.pre_authorized_codes.contains_key(token_request.presented_code()) ==> r
            == Err::<TokenResponse, _>(IssuerError::NotFound(NotFoundError::UnknownGrant)),
        old(storage)@.well_formed() ==> final(storage)@.well_formed(),
{
    let code = match token_request {
        TokenRequest::AuthorizationCode { code } => code,
        TokenRequest::PreAuthorizedCode { pre_authorized_code } => pre_authorized_code,
    };
    match exchange_grant_for_token(storage, code.as_str(), access_token.clone()) {
        Ok(_) => {},
        Err(e) => {
            return Err(e);
        },
    }
    Ok(
        TokenResponse {
            access_token,
            token_type: String::from_str("bearer"),
            expires_in: Some(TOKEN_LIFETIME_SECS),
            refresh_token: None,
            scope: None,
            c_nonce: Some(c_nonce),
            c_nonce_expires_in: Some(TOKEN_LIFETIME_SECS),
        },
    )
}

/// Binds a document to a holder and a signer, and wraps it in the claims to
/// be signed.
pub fn bind_document(doc: CredentialDocument, subject_did: &str, issuer_did: &str) -> (claims:
    CredentialClaims)
    ensures
        claims@ == claims_over(doc@, subject_did@, issuer_did@),
{
    let mut vc = doc;
    vc.issuer = Issuer::Id(String::from_str(issuer_did));
    vc.credential_subject.id = String::from_str(subject_did);
    let claims = CredentialClaims {
        sub: String::from_str(subject_did),
        iss: String::from_str(issuer_did),
        iat: CLAIMS_ISSUED_AT,
        exp: CLAIMS_EXPIRY,
        vc,
    };
    assert(claims@ =~~= claims_over(doc@, subject_did@, issuer_did@));
    claims
}

/// Redeems an access token for the claims of its credential. The store is
/// read and never changed; an unknown token yields no claims.
pub fn credential_claims(
    storage: &MemoryStorage,
    issuer: &IssuerMetadata,
    access_token: &str,
    subject_did: &str,
    issuer_did: &str,
) -> (r: Result<CredentialClaims, IssuerError>)
    ensures
        match claims_for(storage@, issuer@, access_token@, subject_did@, issuer_did@) {
            Ok(claims) => r matches Ok(returned) && returned@ == claims,
            Err(e) => r matches Err(returned) && returned == e,
        },
        !storage@.access_tokens.contains_key(access_token@) ==> r matches Err(
            IssuerError::NotFound(NotFoundError::UnknownToken),
        ),
{
    let certificate_id = match storage.get_certificate_id_by_access_token(access_token) {
        Some(id) => id,
        None => {
            return Err(IssuerError::NotFound(NotFoundError::UnknownToken));
        },
    };
    let record = match storage.get_certificate(certificate_id.as_str()) {
        Some(record) => record,
        None => {
            return Err(IssuerError::NotFound(NotFoundError::CertificateMissing));
        },
    };
    match transform(&record, issuer) {
        Ok(doc) => Ok(bind_document(doc, subject_did, issuer_did)),
        Err(e) => Err(e),
    }
}

/// The response that carries a signed credential and the nonce `nonce`.
pub open spec fn credential_response_of(
    credential: Seq<char>,
    nonce: Seq<char>,
) -> CredentialResponseView {
    CredentialResponseView {
        credential,
        notification_id: None,
        c_nonce: Some(nonce),
        c_nonce_expires_in: Some(TOKEN_LIFETIME_SECS),
    }
}

/// Wraps what the signer returned: the signed credential goes out with the
/// fresh nonce `c_nonce`; a signer that returned nothing is a signing failure.
pub fn credential_response(signed: Option<String>, c_nonce: String) -> (r: Result<
    CredentialResponse,
    IssuerError,
>)
    ensures
        match signed {
            Some(credential) => r matches Ok(response) && response@ == credential_response_of(
                credential@,
                c_nonce@,
            ),
            None => r matches Err(e) && e == IssuerError::SigningFailure,
        },
{
    match signed {
        Some(credential) => Ok(
            CredentialResponse {
                credential,
                notification_id: None,
                c_nonce: Some(c_nonce),
                c_nonce_expires_in: Some(TOKEN_LIFETIME_SECS),
            },
        ),
        None => Err(IssuerError::SigningFailure),
    }
}

} // verus!
