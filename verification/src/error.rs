//! The failures an issuer can report, and which side of the wire caused them.

use vstd::prelude::*;
use vstd::string::StringExecFns;

verus! {

/// Which rule a certificate payload breaks.
#[derive(Debug, Clone, Copy, PartialEq, Eq, Structural)]
pub enum ValidationError {
    /// More challenges solved than the learning path has.
    SolvedExceedsTotal,
    /// A performance percentage above 100.
    PercentageOutOfRange,
}

/// What a lookup failed to find.
#[derive(Debug, Clone, Copy, PartialEq, Eq, Structural)]
pub enum NotFoundError {
    /// The pre-authorized code is bound to no certificate.
    UnknownGrant,
    /// The access token is bound to no certificate.
    UnknownToken,
    /// The bearer value is bound to an id under which no record is stored.
    CertificateMissing,
}

/// Why an offer URL names no pre-authorized code.
#[derive(Debug, Clone, Copy, PartialEq, Eq, Structural)]
pub enum OfferError {
    /// The text is no absolute URL.
    InvalidUrl,
    /// The query has no `credential_offer` parameter.
    MissingOffer,
    /// The parameter's percent escapes do not resolve to text.
    InvalidEncoding,
    /// The offer is no JSON document.
    InvalidJson,
    /// The offer holds no pre-authorized code.
    MissingCode,
    /// The offer is too long for a QR code.
    TooLongForQr,
}

/// Every failure of the store, the transformer and the issuance steps.
#[derive(Debug, Clone, Copy, PartialEq, Eq, Structural)]
pub enum IssuerError {
    /// The certificate payload is malformed.
    Validation(ValidationError),
    /// An id, grant or token is unknown.
    NotFound(NotFoundError),
    /// A key is already bound to something else.
    Conflict,
    /// The signer rejected the claims.
    SigningFailure,
    /// Fixed issuer configuration is missing or malformed.
    Configuration,
    /// The offer handed in by the protocol layer cannot be used.
    Offer(OfferError),
}

impl NotFoundError {
    /// The text of `message`.
    pub open spec fn message_text(self) -> Seq<char> {
        match self {
            NotFoundError::UnknownGrant => "unknown or expired grant"@,
            NotFoundError::UnknownToken => "unknown token"@,
            NotFoundError::CertificateMissing => "certificate missing"@,
        }
    }

    /// A short description for the caller.
    pub fn message(&self) -> (s: String)
        ensures
            s@ == self.message_text(),
    {
        match self {
            NotFoundError::UnknownGrant => String::from_str("unknown or expired grant"),
            NotFoundError::UnknownToken => String::from_str("unknown token"),
            NotFoundError::CertificateMissing => String::from_str("certificate missing"),
        }
    }
}

impl OfferError {
    /// The text of `message`.
    pub open spec fn message_text(self) -> Seq<char> {
        match self {
            OfferError::InvalidUrl => "offer is no URL"@,
            OfferError::MissingOffer => "No credential offer found in URL"@,
            OfferError::InvalidEncoding => "credential offer is badly encoded"@,
            OfferError::InvalidJson => "credential offer is no JSON"@,
            OfferError::MissingCode => "No pre-authorized code found"@,
            OfferError::TooLongForQr => "offer is too long for a QR code"@,
        }
    }

    /// A short description for the caller.
    pub fn message(&self) -> (s: String)
        ensures
            s@ == self.message_text(),
    {
        match self {
            OfferError::InvalidUrl => String::from_str("offer is no URL"),
            OfferError::MissingOffer => String::from_str("No credential offer found in URL"),
            OfferError::InvalidEncoding => String::from_str("credential offer is badly encoded"),
            OfferError::InvalidJson => String::from_str("credential offer is no JSON"),
            OfferError::MissingCode => String::from_str("No pre-authorized code found"),
            OfferError::TooLongForQr => String::from_str("offer is too long for a QR code"),
        }
    }
}

impl ValidationError {
    /// The text of `message`.
    pub open spec fn message_text(self) -> Seq<char> {
        match self {
            ValidationError::SolvedExceedsTotal => "solved challenges exceed total challenges"@,
            ValidationError::PercentageOutOfRange => "performance percentage is above 100"@,
        }
    }

    /// A short description for the caller.
    pub fn message(&self) -> (s: String)
        ensures
            s@ == self.message_text(),
    {
        match self {
            ValidationError::SolvedExceedsTotal => String::from_str(
                "solved challenges exceed total challenges",
            ),
            ValidationError::PercentageOutOfRange => String::from_str(
                "performance percentage is above 100",
            ),
        }
    }
}

impl IssuerError {
    /// Whether the caller, not the issuer, is at fault.
    pub open spec fn client_caused(self) -> bool {
        self is Validation || self is NotFound || self is Conflict
    }

    /// True for failures that the request caused and that are no server
    /// fault; false for a degraded issuer (signing, configuration).
    pub fn is_client_error(&self) -> (b: bool)
        ensures
            b == self.client_caused(),
    {
        match self {
            IssuerError::Validation(_) => true,
            IssuerError::NotFound(_) => true,
            IssuerError::Conflict => true,
            IssuerError::SigningFailure => false,
            IssuerError::Configuration => false,
            IssuerError::Offer(_) => false,
        }
    }

    /// The text of `message`.
    pub open spec fn message_text(self) -> Seq<char> {
        match self {
            IssuerError::Validation(v) => v.message_text(),
            IssuerError::NotFound(n) => n.message_text(),
            IssuerError::Conflict => "already bound to a different certificate"@,
            IssuerError::SigningFailure => "the signer rejected the claims"@,
            IssuerError::Configuration => "issuer configuration is missing or malformed"@,
            IssuerError::Offer(o) => o.message_text(),
        }
    }

    /// A short description for the caller.
    pub fn message(&self) -> (s: String)
        ensures
            s@ == self.message_text(),
    {
        match self {
            IssuerError::Validation(v) => v.message(),
            IssuerError::NotFound(n) => n.message(),
            IssuerError::Conflict => String::from_str("already bound to a different certificate"),
            IssuerError::SigningFailure => String::from_str("the signer rejected the claims"),
            IssuerError::Configuration => String::from_str(
                "issuer configuration is missing or malformed",
            ),
            IssuerError::Offer(o) => o.message(),
        }
    }
}

} // verus!
