//! The certificate store: records by id, and the two kinds of bearer value
//! that lead to an id. Nothing is ever removed or overwritten.

use crate::bindings::random_uuid;
use crate::certificate_data::{CertificateData, CertificateDataView};
use crate::error::IssuerError;
use vstd::hash_map::StringHashMap;
use vstd::prelude::*;

verus! {

/// The contents of a store as three maps.
#[verifier::ext_equal]
pub struct StorageView {
    /// Certificate id to record.
    pub certificates: Map<Seq<char>, CertificateDataView>,
    /// Pre-authorized code to certificate id.
    pub pre_authorized_codes: Map<Seq<char>, Seq<char>>,
    /// Access token to certificate id.
    pub access_tokens: Map<Seq<char>, Seq<char>>,
}

/// Binds `key` to `id` in `bindings`. A key stays with the id it has: binding
/// it to that id again changes nothing, binding it to another id is refused.
pub open spec fn bind(
    bindings: Map<Seq<char>, Seq<char>>,
    key: Seq<char>,
    id: Seq<char>,
) -> Result<Map<Seq<char>, Seq<char>>, IssuerError> {
    if bindings.contains_key(key) && bindings[key] != id {
        Err(IssuerError::Conflict)
    } else {
        Ok(bindings.insert(key, id))
    }
}

/// The shape of every id that is drawn at random: a UUID in its hyphenated
/// form, 36 characters long.
pub open spec fn is_drawn_id(id: Seq<char>) -> bool {
    id.len() == 36
}

impl StorageView {
    /// The store that holds nothing.
    pub open spec fn empty() -> StorageView {
        StorageView {
            certificates: Map::empty(),
            pre_authorized_codes: Map::empty(),
            access_tokens: Map::empty(),
        }
    }

    /// Every record in the store keeps the two rules of a record.
    pub open spec fn well_formed(self) -> bool {
        forall|id: Seq<char>| #[trigger]
            self.certificates.contains_key(id) ==> self.certificates[id].is_valid()
    }

    /// The store after `record` was put under `id`, or why it was not: a
    /// record that breaks a rule is refused with that rule, and an id in use
    /// is a conflict.
    pub open spec fn store_certificate(
        self,
        id: Seq<char>,
        record: CertificateDataView,
    ) -> Result<StorageView, IssuerError> {
        match record.defect() {
            Some(rule) => Err(IssuerError::Validation(rule)),
            None => if self.certificates.contains_key(id) {
                Err(IssuerError::Conflict)
            } else {
                Ok(StorageView { certificates: self.certificates.insert(id, record), ..self })
            },
        }
    }

    /// No record is stored under an id of the shape that is drawn, so no
    /// draw can hit an id in use.
    pub open spec fn free_of_drawn_ids(self) -> bool {
        forall|id: Seq<char>| is_drawn_id(id) ==> !#[trigger] self.certificates.contains_key(id)
    }

    /// Storing `record` fails with `e` under some id that can be drawn.
    pub open spec fn drawn_store_fails(self, record: CertificateDataView, e: IssuerError) -> bool {
        exists|id: Seq<char>|
            is_drawn_id(id) && #[trigger] self.store_certificate(id, record) == Err::<
                StorageView,
                IssuerError,
            >(e)
    }

    /// Offering `record` under `code` fails with `e` under some id that can
    /// be drawn.
    pub open spec fn drawn_offer_fails(
        self,
        code: Seq<char>,
        record: CertificateDataView,
        e: IssuerError,
    ) -> bool {
        exists|id: Seq<char>|
            is_drawn_id(id) && #[trigger] self.offer(id, code, record) == Err::<
                StorageView,
                IssuerError,
            >(e)
    }

    /// The store after `code` was bound to `id`, or the conflict.
    pub open spec fn associate_pre_authorized_code(
        self,
        code: Seq<char>,
        id: Seq<char>,
    ) -> Result<StorageView, IssuerError> {
        match bind(self.pre_authorized_codes, code, id) {
            Ok(bindings) => Ok(StorageView { pre_authorized_codes: bindings, ..self }),
            Err(e) => Err(e),
        }
    }

    /// The store after `record` was put under `id` and `code` was bound to
    /// `id`, or why neither happened.
    pub open spec fn offer(
        self,
        id: Seq<char>,
        code: Seq<char>,
        record: CertificateDataView,
    ) -> Result<StorageView, IssuerError> {
        match self.store_certificate(id, record) {
            Ok(stored) => stored.associate_pre_authorized_code(code, id),
            Err(e) => Err(e),
        }
    }

    /// The store after `token` was bound to `id`, or the conflict.
    pub open spec fn associate_access_token(
        self,
        token: Seq<char>,
        id: Seq<char>,
    ) -> Result<StorageView, IssuerError> {
        match bind(self.access_tokens, token, id) {
            Ok(bindings) => Ok(StorageView { access_tokens: bindings, ..self }),
            Err(e) => Err(e),
        }
    }
}

/// An in-memory certificate store.
pub struct MemoryStorage {
    certificates: StringHashMap<CertificateData>,
    pre_authorized_codes: StringHashMap<String>,
    access_tokens: StringHashMap<String>,
}

impl View for MemoryStorage {
    type V = StorageView;

    closed spec fn view(&self) -> StorageView {
        StorageView {
            certificates: self.certificates@.map_values(|record: CertificateData| record@),
            pre_authorized_codes: self.pre_authorized_codes@.map_values(|id: String| id@),
            access_tokens: self.access_tokens@.map_values(|id: String| id@),
        }
    }
}

/// Looks `key` up in a table of bindings.
fn lookup(bindings: &StringHashMap<String>, key: &str) -> (r: Option<String>)
    ensures
        match r {
            Some(id) => bindings@.contains_key(key@) && id == bindings@[key@],
            None => !bindings@.contains_key(key@),
        },
{
    match bindings.get(key) {
        Some(id) => Some(id.clone()),
        None => None,
    }
}

/// Binds `key` to `id` in a table of bindings, as `bind` says.
fn bind_in(bindings: &mut StringHashMap<String>, key: String, id: String) -> (r: Result<
    (),
    IssuerError,
>)
    ensures
        match bind(old(bindings)@.map_values(|id: String| id@), key@, id@) {
            Ok(next) => r is Ok && final(bindings)@.map_values(|id: String| id@) == next,
            Err(e) => r == Err::<(), IssuerError>(e) && final(bindings)@ == old(bindings)@,
        },
{
    let ghost before = bindings@.map_values(|id: String| id@);
    match bindings.get(key.as_str()) {
        Some(bound) => {
            if *bound == id {
                assert(before.insert(key@, id@) =~= before);
                Ok(())
            } else {
                Err(IssuerError::Conflict)
            }
        },
        None => {
            bindings.insert(key, id);
            assert(bindings@.map_values(|id: String| id@) =~= before.insert(key@, id@));
            Ok(())
        },
    }
}

impl MemoryStorage {
    /// A store that holds nothing.
    pub fn new() -> (store: MemoryStorage)
        ensures
            store@ == StorageView::empty(),
    {
        let store = MemoryStorage {
            certificates: StringHashMap::new(),
            pre_authorized_codes: StringHashMap::new(),
            access_tokens: StringHashMap::new(),
        };
        assert(store@ =~~= StorageView::empty());
        store
    }

    /// Puts `certificate_data` under `certificate_id`. The record is checked
    /// first; an id that is in use is never overwritten.
    pub fn store_certificate(
        &mut self,
        certificate_id: String,
        certificate_data: CertificateData,
    ) -> (r: Result<(), IssuerError>)
        ensures
            match old(self)@.store_certificate(certificate_id@, certificate_data@) {
                Ok(next) => r is Ok && final(self)@ == next,
                Err(e) => r == Err::<(), IssuerError>(e) && final(self)@ == old(self)@,
            },
            old(self)@.well_formed() ==> final(self)@.well_formed(),
    {
        match certificate_data.validate() {
            Err(rule) => {
                return Err(IssuerError::Validation(rule));
            },
            Ok(_) => {},
        }
        if self.certificates.contains_key(certificate_id.as_str()) {
            return Err(IssuerError::Conflict);
        }
        let ghost before = self@;
        self.certificates.insert(certificate_id, certificate_data);
        assert(self@.certificates =~= before.certificates.insert(
            certificate_id@,
            certificate_data@,
        ));
        Ok(())
    }

    /// Stores `certificate_data` under an id drawn at random, and returns the
    /// id. A record that breaks a rule is refused and nothing is stored. A
    /// valid record is stored under the drawn id, unless the draw hits an id
    /// in use: only then the call ends in a conflict, and stores nothing. On
    /// a store that holds no id of the drawn shape, every valid record is
    /// stored.
    pub fn create_certificate(&mut self, certificate_data: CertificateData) -> (r: Result<
        String,
        IssuerError,
    >)
        ensures
            certificate_data@.defect() matches Some(rule) ==> r == Err::<String, IssuerError>(
                IssuerError::Validation(rule),
            ),
            r matches Ok(id) ==> is_drawn_id(id@) && old(self)@.store_certificate(
                id@,
                certificate_data@,
            ) == Ok::<StorageView, IssuerError>(final(self)@),
            r matches Err(e) ==> final(self)@ == old(self)@ && old(self)@.drawn_store_fails(
                certificate_data@,
                e,
            ),
            certificate_data@.is_valid() && old(self)@.free_of_drawn_ids() ==> r is Ok,
            old(self)@.well_formed() ==> final(self)@.well_formed(),
    {
        let id = random_uuid();
        match self.store_certificate(id.clone(), certificate_data) {
            Ok(_) => Ok(id),
            Err(e) => {
                assert(old(self)@.store_certificate(id@, certificate_data@) == Err::<
                    StorageView,
                    IssuerError,
                >(e));
                Err(e)
            },
        }
    }

    /// Whether a record is stored under exactly `certificate_id`.
    pub fn contains_certificate(&self, certificate_id: &str) -> (found: bool)
        ensures
            found == self@.certificates.contains_key(certificate_id@),
    {
        self.certificates.contains_key(certificate_id)
    }

    /// The record stored under exactly `certificate_id`, if there is one.
    pub fn get_certificate(&self, certificate_id: &str) -> (r: Option<CertificateData>)
        ensures
            match r {
                Some(record) => self@.certificates.index_opt(certificate_id@) == Some(record@),
                None => !self@.certificates.contains_key(certificate_id@),
            },
            self@.well_formed() ==> (r matches Some(record) ==> record@.is_valid()),
    {
        match self.certificates.get(certificate_id) {
            Some(record) => Some(record.clone()),
            None => None,
        }
    }

    /// Binds a pre-authorized code to a certificate id.
    pub fn associate_pre_authorized_code(
        &mut self,
        pre_authorized_code: String,
        certificate_id: String,
    ) -> (r: Result<(), IssuerError>)
        ensures
            match old(self)@.associate_pre_authorized_code(pre_authorized_code@, certificate_id@) {
                Ok(next) => r is Ok && final(self)@ == next,
                Err(e) => r == Err::<(), IssuerError>(e) && final(self)@ == old(self)@,
            },
            old(self)@.well_formed() ==> final(self)@.well_formed(),
    {
        bind_in(&mut self.pre_authorized_codes, pre_authorized_code, certificate_id)
    }

    /// Binds an access token to a certificate id.
    pub fn associate_access_token(&mut self, access_token: String, certificate_id: String) -> (r:
        Result<(), IssuerError>)
        ensures
            match old(self)@.associate_access_token(access_token@, certificate_id@) {
                Ok(next) => r is Ok && final(self)@ == next,
                Err(e) => r == Err::<(), IssuerError>(e) && final(self)@ == old(self)@,
            },
            old(self)@.well_formed() ==> final(self)@.well_formed(),
    {
        bind_in(&mut self.access_tokens, access_token, certificate_id)
    }

    /// The certificate id that a pre-authorized code is bound to, if any.
    pub fn get_certificate_id_by_pre_authorized_code(&self, pre_authorized_code: &str) -> (r:
        Option<String>)
        ensures
            match r {
                Some(id) => self@.pre_authorized_codes.index_opt(pre_authorized_code@) == Some(id@),
                None => !self@.pre_authorized_codes.contains_key(pre_authorized_code@),
            },
    {
        lookup(&self.pre_authorized_codes, pre_authorized_code)
    }

    /// The certificate id that an access token is bound to, if any.
    pub fn get_certificate_id_by_access_token(&self, access_token: &str) -> (r: Option<String>)
        ensures
            match r {
                Some(id) => self@.access_tokens.index_opt(access_token@) == Some(id@),
                None => !self@.access_tokens.contains_key(access_token@),
            },
    {
        lookup(&self.access_tokens, access_token)
    }
}

} // verus!
