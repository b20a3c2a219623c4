//! Offers: a certificate is recorded, and a pre-authorized code is bound to
//! it, in one step.

use crate::bindings::{
    json_string_at, json_string_member, pairs_text, percent_decode, percent_decoded, qr_modules_of,
    query_pairs, random_uuid, url_query_pairs, ErrorCorrection,
};
use crate::certificate_data::CertificateData;
use crate::error::{IssuerError, OfferError};
use crate::qr::{encode_offer, qr_text, qr_to_string};
use crate::storage::memory_storage::{is_drawn_id, MemoryStorage, StorageView};
use vstd::prelude::*;
use vstd::string::StringExecFns;

verus! {

/// What a wallet needs to start the exchange for one certificate.
#[derive(Debug)]
pub struct CredentialOffer {
    pub certificate_id: String,
    pub pre_authorized_code: String,
    pub credential_issuer: String,
    pub credential_configuration_ids: Vec<String>,
}

#[verifier::ext_equal]
pub struct CredentialOfferView {
    pub certificate_id: Seq<char>,
    pub pre_authorized_code: Seq<char>,
    pub credential_issuer: Seq<char>,
    pub credential_configuration_ids: Seq<Seq<char>>,
}

impl View for CredentialOffer {
    type V = CredentialOfferView;

    open spec fn view(&self) -> CredentialOfferView {
        CredentialOfferView {
            certificate_id: self.certificate_id@,
            pre_authorized_code: self.pre_authorized_code@,
            credential_issuer: self.credential_issuer@,
            credential_configuration_ids: self.credential_configuration_ids@.map_values(
                |id: String| id@,
            ),
        }
    }
}

/// The offer of the certificate `id` under the grant `code`.
pub open spec fn offer_of(
    credential_issuer: Seq<char>,
    id: Seq<char>,
    code: Seq<char>,
) -> CredentialOfferView {
    CredentialOfferView {
        certificate_id: id,
        pre_authorized_code: code,
        credential_issuer,
        credential_configuration_ids: seq!["KonnektorenCertificate"@],
    }
}

/// The value of the first pair whose key is `key`.
pub open spec fn first_value(pairs: Seq<(Seq<char>, Seq<char>)>, key: Seq<char>) -> Option<
    Seq<char>,
>
    decreases pairs.len(),
{
    if pairs.len() == 0 {
        None
    } else if pairs[0].0 == key {
        Some(pairs[0].1)
    } else {
        first_value(pairs.drop_first(), key)
    }
}

/// The value of the first pair of `pairs` whose key is `key`.
pub fn find_query_value(pairs: &Vec<(String, String)>, key: &str) -> (r: Option<String>)
    ensures
        match r {
            Some(value) => first_value(pairs_text(pairs@), key@) == Some(value@),
            None => first_value(pairs_text(pairs@), key@) is None,
        },
{
    let wanted = String::from_str(key);
    let ghost all = pairs_text(pairs@);
    let mut i: usize = 0;
    assert(all.skip(0) =~= all);
    while i < pairs.len()
        invariant
            0 <= i <= pairs.len(),
            all == pairs_text(pairs@),
            wanted@ == key@,
            first_value(all, key@) == first_value(all.skip(i as int), key@),
        decreases pairs.len() - i,
    {
        assert(all.skip(i as int)[0] == all[i as int]);
        if pairs[i].0 == wanted {
            return Some(pairs[i].1.clone());
        }
        assert(all.skip(i as int).drop_first() =~= all.skip(i + 1));
        i = i + 1;
    }
    None
}

/// The pre-authorized code inside a decoded credential offer, given what a
/// JSON reader found at the place of the code.
pub open spec fn code_in_offer(found: Option<Option<Seq<char>>>) -> Result<Seq<char>, OfferError> {
    match found {
        None => Err(OfferError::InvalidJson),
        Some(None) => Err(OfferError::MissingCode),
        Some(Some(code)) => Ok(code),
    }
}

/// The pre-authorized code that an offer URL names: the URL's query has a
/// parameter `credential_offer`, whose value, with its percent escapes
/// resolved, is a JSON document that holds the code among its grants.
pub open spec fn offered_code(offer_url: Seq<char>) -> Result<Seq<char>, OfferError> {
    match url_query_pairs(offer_url) {
        None => Err(OfferError::InvalidUrl),
        Some(pairs) => match first_value(pairs, "credential_offer"@) {
            None => Err(OfferError::MissingOffer),
            Some(encoded) => match percent_decoded(encoded) {
                None => Err(OfferError::InvalidEncoding),
                Some(offer) => code_in_offer(
                    json_string_at(
                        offer,
                        "grants"@,
                        "urn:ietf:params:oauth:grant-type:pre-authorized_code"@,
                        "pre-authorized_code"@,
                    ),
                ),
            },
        },
    }
}

/// Reads the pre-authorized code out of an offer URL.
pub fn pre_authorized_code_of(offer_url: &str) -> (r: Result<String, OfferError>)
    ensures
        match r {
            Ok(code) => offered_code(offer_url@) == Ok::<_, OfferError>(code@),
            Err(e) => offered_code(offer_url@) == Err::<Seq<char>, _>(e),
        },
{
    let pairs = match query_pairs(offer_url) {
        Some(pairs) => pairs,
        None => {
            return Err(OfferError::InvalidUrl);
        },
    };
    let encoded = match find_query_value(&pairs, "credential_offer") {
        Some(encoded) => encoded,
        None => {
            return Err(OfferError::MissingOffer);
        },
    };
    let offer = match percent_decode(encoded.as_str()) {
        Some(offer) => offer,
        None => {
            return Err(OfferError::InvalidEncoding);
        },
    };
    match json_string_member(
        offer.as_str(),
        "grants",
        "urn:ietf:params:oauth:grant-type:pre-authorized_code",
        "pre-authorized_code",
    ) {
        None => Err(OfferError::InvalidJson),
        Some(None) => Err(OfferError::MissingCode),
        Some(Some(code)) => Ok(code),
    }
}

/// Makes offers in the name of one credential issuer.
#[derive(Debug)]
pub struct CertificateService {
    credential_issuer: String,
}

impl View for CertificateService {
    type V = Seq<char>;

    /// The URL of the credential issuer.
    closed spec fn view(&self) -> Seq<char> {
        self.credential_issuer@
    }
}

impl CertificateService {
    /// A service for the issuer at `credential_issuer`.
    pub fn new(credential_issuer: String) -> (service: CertificateService)
        ensures
            service@ == credential_issuer@,
    {
        CertificateService { credential_issuer }
    }

    /// Records `certificate_data` under `certificate_id` and binds
    /// `pre_authorized_code` to it. Either both happen or nothing does: a
    /// record that breaks a rule, an id in use, or a code that belongs to
    /// another certificate leave the store as it was.
    pub fn offer_certificate(
        &self,
        storage: &mut MemoryStorage,
        certificate_id: String,
        pre_authorized_code: String,
        certificate_data: &CertificateData,
    ) -> (r: Result<CredentialOffer, IssuerError>)
        ensures
            match old(storage)@.offer(certificate_id@, pre_authorized_code@, certificate_data@) {
                Ok(next) => final(storage)@ == next && (r matches Ok(offer) && offer@ == offer_of(
                    self@,
                    certificate_id@,
                    pre_authorized_code@,
                )),
                Err(e) => final(storage)@ == old(storage)@ && (r matches Err(returned) && returned
                    == e),
            },
            old(storage)@.well_formed() ==> final(storage)@.well_formed(),
    {
        match certificate_data.validate() {
            Err(rule) => {
                return Err(IssuerError::Validation(rule));
            },
            Ok(_) => {},
        }
        if storage.contains_certificate(certificate_id.as_str()) {
            return Err(IssuerError::Conflict);
        }
        match storage.get_certificate_id_by_pre_authorized_code(pre_authorized_code.as_str()) {
            Some(bound) => {
                if bound != certificate_id {
                    return Err(IssuerError::Conflict);
                }
            },
            None => {},
        }
        let stored = storage.store_certificate(certificate_id.clone(), certificate_data.clone());
        let bound = storage.associate_pre_authorized_code(
            pre_authorized_code.clone(),
            certificate_id.clone(),
        );
        assert(stored is Ok && bound is Ok);
        let mut credential_configuration_ids: Vec<String> = Vec::new();
        credential_configuration_ids.push(String::from_str("KonnektorenCertificate"));
        let offer = CredentialOffer {
            certificate_id,
            pre_authorized_code,
            credential_issuer: self.credential_issuer.clone(),
            credential_configuration_ids,
        };
        assert(offer@.credential_configuration_ids =~= seq!["KonnektorenCertificate"@]);
        Ok(offer)
    }

    /// Records `certificate_data` under an id drawn at random and binds
    /// `pre_authorized_code` to it. A failure leaves the store as it was, and
    /// is the failure of the offer under the drawn id: the record's defect,
    /// or a conflict where the draw hit an id in use or the code belongs to
    /// another certificate. On a store that holds no id of the drawn shape
    /// and does not know the code, every valid record is offered.
    pub fn generate_offer(
        &self,
        storage: &mut MemoryStorage,
        certificate_data: &CertificateData,
        pre_authorized_code: String,
    ) -> (r: Result<CredentialOffer, IssuerError>)
        ensures
            certificate_data@.defect() matches Some(rule) ==> r matches Err(e) && e
                == IssuerError::Validation(rule),
            r matches Ok(offer) ==> is_drawn_id(offer@.certificate_id) && old(storage)@.offer(
                offer@.certificate_id,
                pre_authorized_code@,
                certificate_data@,
            ) == Ok::<_, IssuerError>(final(storage)@) && offer@ == offer_of(
                self@,
                offer@.certificate_id,
                pre_authorized_code@,
            ),
            r matches Err(e) ==> final(storage)@ == old(storage)@ && old(
                storage,
            )@.drawn_offer_fails(pre_authorized_code@, certificate_data@, e),
            certificate_data@.is_valid() && old(storage)@.free_of_drawn_ids() && !old(
                storage,
            )@.pre_authorized_codes.contains_key(pre_authorized_code@) ==> r is Ok,
            old(storage)@.well_formed() ==> final(storage)@.well_formed(),
    {
        let certificate_id = random_uuid();
        let ghost drawn = certificate_id@;
        let r = self.offer_certificate(
            storage,
            certificate_id,
            pre_authorized_code,
            certificate_data,
        );
        proof {
            if r is Err {
                assert(old(storage)@.offer(drawn, pre_authorized_code@, certificate_data@)
                    == Err::<StorageView, IssuerError>(r->Err_0));
            }
        }
        r
    }

    /// Takes an offer URL that the protocol layer made, records
    /// `certificate_data` under a fresh id, binds the code that the URL names
    /// to it, and hands the URL back. A URL that names no code is refused
    /// with the reason, before anything is stored; any other failure is the
    /// failure of the offer under the drawn id. On a store that holds no id
    /// of the drawn shape and does not know the code, every valid record is
    /// offered.
    pub fn generate_offer_url(
        &self,
        storage: &mut MemoryStorage,
        offer_url: &str,
        certificate_data: &CertificateData,
    ) -> (r: Result<String, IssuerError>)
        ensures
            r matches Ok(url) ==> url@ == offer_url@ && offered_code(offer_url@) is Ok && exists|
                id: Seq<char>,
            |
                is_drawn_id(id) && #[trigger] old(storage)@.offer(
                    id,
                    offered_code(offer_url@)->Ok_0,
                    certificate_data@,
                ) == Ok::<_, IssuerError>(final(storage)@),
            r matches Err(e) ==> final(storage)@ == old(storage)@ && match offered_code(
                offer_url@,
            ) {
                Err(o) => e == IssuerError::Offer(o),
                Ok(code) => old(storage)@.drawn_offer_fails(code, certificate_data@, e),
            },
            offered_code(offer_url@) matches Ok(code) ==> (certificate_data@.is_valid() && old(
                storage,
            )@.free_of_drawn_ids() && !old(storage)@.pre_authorized_codes.contains_key(code)
                ==> r is Ok),
            old(storage)@.well_formed() ==> final(storage)@.well_formed(),
    {
        let pre_authorized_code = match pre_authorized_code_of(offer_url) {
            Ok(code) => code,
            Err(e) => {
                return Err(IssuerError::Offer(e));
            },
        };
        match self.generate_offer(storage, certificate_data, pre_authorized_code) {
            Ok(offer) => {
                assert(old(storage)@.offer(
                    offer@.certificate_id,
                    offered_code(offer_url@)->Ok_0,
                    certificate_data@,
                ) == Ok::<_, IssuerError>(storage@));
                Ok(String::from_str(offer_url))
            },
            Err(e) => Err(e),
        }
    }

    /// Does what `generate_offer_url` does, and returns the offer URL as a
    /// QR code in text form. A URL too long for a QR code is refused before
    /// anything is stored, and only such a URL is; every other failure is
    /// that of `generate_offer_url`.
    pub fn generate_qr_code(
        &self,
        storage: &mut MemoryStorage,
        offer_url: &str,
        certificate_data: &CertificateData,
    ) -> (r: Result<String, IssuerError>)
        ensures
            r matches Ok(text) ==> qr_modules_of(offer_url@, ErrorCorrection::Medium) matches Some(
                rows,
            ) && text@ == qr_text(rows) && offered_code(offer_url@) is Ok && exists|id: Seq<char>|
                is_drawn_id(id) && #[trigger] old(storage)@.offer(
                    id,
                    offered_code(offer_url@)->Ok_0,
                    certificate_data@,
                ) == Ok::<_, IssuerError>(final(storage)@),
            r matches Err(e) ==> final(storage)@ == old(storage)@ && if qr_modules_of(
                offer_url@,
                ErrorCorrection::Medium,
            ) is None {
                e == IssuerError::Offer(OfferError::TooLongForQr)
            } else {
                match offered_code(offer_url@) {
                    Err(o) => e == IssuerError::Offer(o),
                    Ok(code) => old(storage)@.drawn_offer_fails(code, certificate_data@, e),
                }
            },
            qr_modules_of(offer_url@, ErrorCorrection::Medium) is None ==> r is Err,
            qr_modules_of(offer_url@, ErrorCorrection::Medium) is Some ==> (offered_code(
                offer_url@,
            ) matches Ok(code) ==> (certificate_data@.is_valid() && old(
                storage,
            )@.free_of_drawn_ids() && !old(storage)@.pre_authorized_codes.contains_key(code)
                ==> r is Ok)),
            old(storage)@.well_formed() ==> final(storage)@.well_formed(),
    {
        let qr = match encode_offer(offer_url) {
            Some(qr) => qr,
            None => {
                return Err(IssuerError::Offer(OfferError::TooLongForQr));
            },
        };
        match self.generate_offer_url(storage, offer_url, certificate_data) {
            Ok(_) => Ok(qr_to_string(&qr)),
            Err(e) => Err(e),
        }
    }

    /// The record of an offer, by the certificate id that the offer names.
    pub fn get_certificate(&self, storage: &MemoryStorage, offer_id: &str) -> (r: Option<
        CertificateData,
    >)
        ensures
            match r {
                Some(record) => storage@.certificates.index_opt(offer_id@) == Some(record@),
                None => !storage@.certificates.contains_key(offer_id@),
            },
    {
        storage.get_certificate(offer_id)
    }
}

} // verus!
