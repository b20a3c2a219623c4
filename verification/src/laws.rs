//! What holds of the store and the issuance steps over any history of calls.
//!
//! A history is a sequence of steps applied to the empty store. A step that
//! is refused leaves the store as it was, as the functions of this library
//! do.

use crate::certificate_data::CertificateDataView;
use crate::credential::{document_of, percent_text, IssuerMetadataView, IssuerView};
use crate::error::{IssuerError, NotFoundError};
use crate::issuance::{claims_for, exchange, redeem};
use crate::storage::memory_storage::{bind, StorageView};
use vstd::prelude::*;

verus! {

/// One call that can change a store.
pub enum Step {
    /// A certificate is offered: recorded under `id`, with `code` bound to it.
    Offer { id: Seq<char>, code: Seq<char>, record: CertificateDataView },
    /// The grant `code` is exchanged for `token`.
    Exchange { code: Seq<char>, token: Seq<char> },
    /// A record is put under `id` directly.
    Store { id: Seq<char>, record: CertificateDataView },
    /// A pre-authorized code is bound to `id` directly.
    BindCode { code: Seq<char>, id: Seq<char> },
    /// An access token is bound to `id` directly.
    BindToken { token: Seq<char>, id: Seq<char> },
}

impl Step {
    /// What the step makes of `store`, or why it is refused.
    pub open spec fn outcome(self, store: StorageView) -> Result<StorageView, IssuerError> {
        match self {
            Step::Offer { id, code, record } => store.offer(id, code, record),
            Step::Exchange { code, token } => exchange(store, code, token),
            Step::Store { id, record } => store.store_certificate(id, record),
            Step::BindCode { code, id } => store.associate_pre_authorized_code(code, id),
            Step::BindToken { token, id } => store.associate_access_token(token, id),
        }
    }

    /// The store after the step.
    pub open spec fn apply(self, store: StorageView) -> StorageView {
        match self.outcome(store) {
            Ok(next) => next,
            Err(_) => store,
        }
    }

    /// A step of the issuance flow proper: an offer or an exchange.
    pub open spec fn is_flow(self) -> bool {
        self is Offer || self is Exchange
    }
}

/// The store after a history, starting from the empty store.
pub open spec fn run(steps: Seq<Step>) -> StorageView
    decreases steps.len(),
{
    if steps.len() == 0 {
        StorageView::empty()
    } else {
        steps.last().apply(run(steps.drop_last()))
    }
}

/// The store as step `i` of a history finds it.
pub open spec fn before(steps: Seq<Step>, i: int) -> StorageView {
    run(steps.take(i))
}

/// Every binding of `small` is a binding of `large`.
pub open spec fn within<V>(small: Map<Seq<char>, V>, large: Map<Seq<char>, V>) -> bool {
    forall|key: Seq<char>| #[trigger]
        small.contains_key(key) ==> large.contains_key(key) && small[key] == large[key]
}

/// Everything that `earlier` holds, `later` holds unchanged.
pub open spec fn grown_from(later: StorageView, earlier: StorageView) -> bool {
    &&& within(earlier.certificates, later.certificates)
    &&& within(earlier.pre_authorized_codes, later.pre_authorized_codes)
    &&& within(earlier.access_tokens, later.access_tokens)
}

/// A step never removes or changes what a store holds, whatever the step
/// and whether or not it is refused.
pub proof fn law_step_only_adds(step: Step, store: StorageView)
    ensures
        grown_from(step.apply(store), store),
{
}

/// A step keeps every record of the store valid.
pub proof fn law_step_keeps_records_valid(step: Step, store: StorageView)
    requires
        store.well_formed(),
    ensures
        step.apply(store).well_formed(),
{
}

/// After any history every stored record is valid.
pub proof fn law_records_always_valid(steps: Seq<Step>)
    ensures
        run(steps).well_formed(),
    decreases steps.len(),
{
    if steps.len() > 0 {
        law_records_always_valid(steps.drop_last());
        law_step_keeps_records_valid(steps.last(), run(steps.drop_last()));
    }
}

/// A history only ever adds: what the store held before step `i` it still
/// holds, unchanged, before any later step and at the end.
pub proof fn law_history_only_adds(steps: Seq<Step>, i: int, j: int)
    requires
        0 <= i <= j <= steps.len(),
    ensures
        grown_from(before(steps, j), before(steps, i)),
    decreases j - i,
{
    if i < j {
        law_history_only_adds(steps, i, j - 1);
        assert(steps.take(j).drop_last() =~= steps.take(j - 1));
        assert(steps.take(j).last() == steps[j - 1]);
        law_step_only_adds(steps[j - 1], before(steps, j - 1));
    }
}

/// A record that breaks a rule is never stored: offering or storing it is
/// refused with the rule it breaks, and the store stays as it was.
pub proof fn law_invalid_record_is_refused(
    store: StorageView,
    id: Seq<char>,
    code: Seq<char>,
    record: CertificateDataView,
)
    requires
        !record.is_valid(),
    ensures
        store.store_certificate(id, record) matches Err(IssuerError::Validation(rule))
            && record.defect() == Some(rule),
        store.offer(id, code, record) matches Err(IssuerError::Validation(rule))
            && record.defect() == Some(rule),
        (Step::Store { id, record }).apply(store) == store,
        (Step::Offer { id, code, record }).apply(store) == store,
{
}

/// The document of a valid record shows the record's numbers: the credits
/// available are the total, the credits earned are the solved challenges,
/// and the one result is the percentage followed by a percent sign.
pub proof fn law_document_shows_record(
    record: CertificateDataView,
    issuer: IssuerMetadataView,
    issued_at: Seq<char>,
)
    ensures
        ({
            let doc = document_of(record, issuer, issued_at);
            &&& doc.credential_subject.achievement.credits_available == record.total_challenges
            &&& doc.credential_subject.credits_earned == record.solved_challenges
            &&& doc.credential_subject.result.len() == 1
            &&& doc.credential_subject.result[0].value == Some(
                percent_text(record.performance_percentage),
            )
            &&& doc.credential_subject.result[0].achieved_level == record.game_path_name
            &&& doc.issuance_date == issued_at
            &&& doc.awarded_date == issued_at
        }),
{
}

/// An id under which nothing is stored leads to no record, whatever else
/// the store holds; and a token that leads to such an id yields no claims.
pub proof fn law_unknown_id_has_no_record(
    store: StorageView,
    id: Seq<char>,
    token: Seq<char>,
)
    requires
        !store.certificates.contains_key(id),
    ensures
        store.certificates.index_opt(id) is None,
        store.access_tokens.contains_pair(token, id) ==> redeem(store, token) == Err::<
            CertificateDataView,
            IssuerError,
        >(IssuerError::NotFound(NotFoundError::CertificateMissing)),
{
}

/// A token that is bound to nothing yields no claims: redeeming it is
/// refused as an unknown token, whoever asks.
pub proof fn law_unknown_token_yields_nothing(
    store: StorageView,
    issuer: IssuerMetadataView,
    token: Seq<char>,
    subject_did: Seq<char>,
    issuer_did: Seq<char>,
)
    requires
        !store.access_tokens.contains_key(token),
    ensures
        claims_for(store, issuer, token, subject_did, issuer_did) matches Err(
            IssuerError::NotFound(NotFoundError::UnknownToken),
        ),
{
}

/// Step `i` of a history is an exchange that was granted and that bound
/// `token` to `id`.
pub open spec fn exchanged_at(steps: Seq<Step>, i: int, token: Seq<char>, id: Seq<char>) -> bool {
    &&& 0 <= i < steps.len()
    &&& steps[i] matches Step::Exchange { code, token: bound }
    &&& bound == token
    &&& exchange(before(steps, i), code, token) is Ok
    &&& before(steps, i).pre_authorized_codes.contains_pair(code, id)
}

/// In a history in which no step binds a token directly, an access token
/// leads to an id exactly when some exchange in the history was granted
/// for a code of that id and bound that token. No other string leads
/// anywhere.
pub proof fn law_token_resolves_iff_exchanged(steps: Seq<Step>, token: Seq<char>, id: Seq<char>)
    requires
        forall|i: int| 0 <= i < steps.len() ==> !((#[trigger] steps[i]) is BindToken),
    ensures
        run(steps).access_tokens.contains_pair(token, id) <==> exists|i: int|
            exchanged_at(steps, i, token, id),
    decreases steps.len(),
{
    if steps.len() == 0 {
        assert(steps.take(0) =~= steps);
    } else {
        let prefix = steps.drop_last();
        let last = steps.last();
        let n = steps.len() - 1;
        assert(prefix =~= steps.take(n));
        law_token_resolves_iff_exchanged(prefix, token, id);
        assert forall|i: int| 0 <= i < n implies before(prefix, i) == before(steps, i) by {
            assert(prefix.take(i) =~= steps.take(i));
        }
        assert(steps.take(steps.len() as int) =~= steps);
        let pre = run(prefix);
        let post = run(steps);
        assert(post == last.apply(pre));
        assert(before(steps, n) == pre);
        if post.access_tokens.contains_pair(token, id) {
            if pre.access_tokens.contains_pair(token, id) {
                let i = choose|i: int| exchanged_at(prefix, i, token, id);
                assert(steps[i] == prefix[i]);
                assert(exchanged_at(steps, i, token, id));
            } else {
                assert(exchanged_at(steps, n, token, id));
            }
        }
        if exists|i: int| exchanged_at(steps, i, token, id) {
            let i = choose|i: int| exchanged_at(steps, i, token, id);
            if i < n {
                assert(steps[i] == prefix[i]);
                assert(exchanged_at(prefix, i, token, id));
                law_step_only_adds(last, pre);
            } else {
                assert(post.access_tokens.contains_pair(token, id));
            }
        }
    }
}

/// Step `i` of a history is an offer of `id` under `code` that was made.
pub open spec fn offered_at(steps: Seq<Step>, i: int, id: Seq<char>, code: Seq<char>) -> bool {
    &&& 0 <= i < steps.len()
    &&& steps[i] matches Step::Offer { id: offered, code: granted, record }
    &&& offered == id
    &&& granted == code
    &&& before(steps, i).offer(id, code, record) is Ok
}

/// Two offers that were made at different steps of one history differ in
/// their ids and in their codes, whatever happened between them.
pub proof fn law_offers_are_distinct(
    steps: Seq<Step>,
    i: int,
    j: int,
    id_i: Seq<char>,
    code_i: Seq<char>,
    id_j: Seq<char>,
    code_j: Seq<char>,
)
    requires
        i < j,
        offered_at(steps, i, id_i, code_i),
        offered_at(steps, j, id_j, code_j),
    ensures
        id_i != id_j,
        code_i != code_j,
{
    let after_i = before(steps, i + 1);
    assert(steps.take(i + 1).drop_last() =~= steps.take(i));
    assert(steps.take(i + 1).last() == steps[i]);
    assert(after_i == steps[i].apply(before(steps, i)));
    assert(after_i.certificates.contains_key(id_i));
    assert(after_i.pre_authorized_codes.contains_pair(code_i, id_i));
    law_history_only_adds(steps, i + 1, j);
    let pre_j = before(steps, j);
    assert(pre_j.certificates.contains_key(id_i));
    assert(pre_j.pre_authorized_codes.contains_pair(code_i, id_i));
}

/// A grant stays valid after it was exchanged: a second exchange of the
/// same code is granted for every token that is not bound to another
/// certificate, and both tokens then lead to the certificate of the code.
pub proof fn law_grant_is_reusable(
    store: StorageView,
    code: Seq<char>,
    first: Seq<char>,
    second: Seq<char>,
)
    requires
        exchange(store, code, first) is Ok,
        !store.access_tokens.contains_key(second) || store.access_tokens[second]
            == store.pre_authorized_codes[code],
    ensures
        ({
            let once = exchange(store, code, first)->Ok_0;
            let twice = exchange(once, code, second);
            &&& twice is Ok
            &&& twice->Ok_0.access_tokens.contains_pair(first, store.pre_authorized_codes[code])
            &&& twice->Ok_0.access_tokens.contains_pair(second, store.pre_authorized_codes[code])
            &&& twice->Ok_0.pre_authorized_codes == store.pre_authorized_codes
        }),
{
}

/// However often a grant is exchanged, no exchange binds a token to another
/// certificate than that of the grant: a second exchange of a code, with
/// any token and after any steps in between, either binds the token to the
/// certificate that the first exchange served, or is refused because the
/// token belongs to another certificate, and then binds nothing.
pub proof fn law_grant_always_leads_to_its_certificate(
    steps: Seq<Step>,
    i: int,
    j: int,
    code: Seq<char>,
    first: Seq<char>,
    second: Seq<char>,
)
    requires
        0 <= i < j < steps.len(),
        steps[i] == (Step::Exchange { code, token: first }),
        steps[j] == (Step::Exchange { code, token: second }),
        exchange(before(steps, i), code, first) is Ok,
    ensures
        ({
            let id = before(steps, i).pre_authorized_codes[code];
            let found = before(steps, j);
            let served = exchange(found, code, second);
            &&& found.access_tokens.contains_pair(first, id)
            &&& served matches Ok(next) ==> next.access_tokens.contains_pair(second, id)
                && next.access_tokens.contains_pair(first, id)
            &&& served matches Err(e) ==> e == IssuerError::Conflict
                && found.access_tokens.contains_key(second) && found.access_tokens[second] != id
            &&& first != second ==> (served is Ok <==> !found.access_tokens.contains_key(second)
                || found.access_tokens[second] == id)
        }),
{
    let after_i = before(steps, i + 1);
    assert(steps.take(i + 1).drop_last() =~= steps.take(i));
    assert(steps.take(i + 1).last() == steps[i]);
    assert(after_i == steps[i].apply(before(steps, i)));
    law_history_only_adds(steps, i, i + 1);
    law_history_only_adds(steps, i + 1, j);
    let id = before(steps, i).pre_authorized_codes[code];
    assert(before(steps, i).pre_authorized_codes.contains_pair(code, id));
    assert(after_i.access_tokens.contains_pair(first, id));
    assert(after_i.pre_authorized_codes.contains_pair(code, id));
}

/// Redeeming a token changes nothing, so a token can be redeemed again
/// with the same outcome: the claims are a function of the store and the
/// arguments, and the store that is read is the store that is left.
pub proof fn law_token_is_reusable(
    store: StorageView,
    issuer: IssuerMetadataView,
    token: Seq<char>,
    subject_did: Seq<char>,
    issuer_did: Seq<char>,
    step: Step,
)
    requires
        claims_for(store, issuer, token, subject_did, issuer_did) is Ok,
    ensures
        claims_for(step.apply(store), issuer, token, subject_did, issuer_did) == claims_for(
            store,
            issuer,
            token,
            subject_did,
            issuer_did,
        ),
{
    law_step_only_adds(step, store);
    let next = step.apply(store);
    assert(store.access_tokens.contains_key(token));
    assert(next.access_tokens[token] == store.access_tokens[token]);
    assert(store.certificates.contains_key(store.access_tokens[token]));
}

/// On a store that does not hold the id and does not know the code or the
/// token, the whole flow goes through for every valid record: the offer is
/// made, the code is exchanged at once, and the token is redeemed for
/// claims over the document of that very record, bound to the two parties.
pub proof fn law_flow_goes_through(
    store: StorageView,
    issuer: IssuerMetadataView,
    id: Seq<char>,
    code: Seq<char>,
    token: Seq<char>,
    record: CertificateDataView,
    subject_did: Seq<char>,
    issuer_did: Seq<char>,
)
    requires
        record.is_valid(),
        !store.certificates.contains_key(id),
        !store.pre_authorized_codes.contains_key(code),
        !store.access_tokens.contains_key(token),
    ensures
        ({
            let offered = store.offer(id, code, record);
            let exchanged = exchange(offered->Ok_0, code, token);
            let claims = claims_for(exchanged->Ok_0, issuer, token, subject_did, issuer_did);
            &&& offered is Ok
            &&& offered->Ok_0.certificates.index_opt(id) == Some(record)
            &&& offered->Ok_0.pre_authorized_codes.index_opt(code) == Some(id)
            &&& exchanged is Ok
            &&& exchanged->Ok_0.access_tokens.index_opt(token) == Some(id)
            &&& redeem(exchanged->Ok_0, token) == Ok::<_, IssuerError>(record)
            &&& claims is Ok
            &&& claims->Ok_0.iss == issuer_did
            &&& claims->Ok_0.sub == subject_did
            &&& claims->Ok_0.vc.issuer == IssuerView::Id(issuer_did)
            &&& claims->Ok_0.vc.credential_subject.id == subject_did
            &&& claims->Ok_0.vc.credential_subject.credits_earned == record.solved_challenges
            &&& claims->Ok_0.vc.credential_subject.achievement.credits_available
                == record.total_challenges
            &&& claims->Ok_0.vc.credential_subject.result[0].value == Some(
                percent_text(record.performance_percentage),
            )
        }),
{
}

/// How far the issuance of one certificate has come. Redeeming a token
/// leaves no trace in the store, so the last stage that a store shows is the
/// exchanged grant.
pub enum Stage {
    /// Nothing is stored under the id.
    Unknown,
    /// The record is stored; no code leads to it.
    Created,
    /// A pre-authorized code leads to the record; no token does.
    OfferIssued,
    /// An access token leads to the record.
    GrantExchanged,
}

impl Stage {
    /// The position of a stage in the order of the flow.
    pub open spec fn rank(self) -> nat {
        match self {
            Stage::Unknown => 0,
            Stage::Created => 1,
            Stage::OfferIssued => 2,
            Stage::GrantExchanged => 3,
        }
    }
}

/// Some key of `bindings` leads to `id`.
pub open spec fn leads_to(bindings: Map<Seq<char>, Seq<char>>, id: Seq<char>) -> bool {
    exists|key: Seq<char>| #[trigger] bindings.contains_pair(key, id)
}

/// The stage of the certificate `id` in `store`.
pub open spec fn stage_of(store: StorageView, id: Seq<char>) -> Stage {
    if !store.certificates.contains_key(id) {
        Stage::Unknown
    } else if leads_to(store.access_tokens, id) {
        Stage::GrantExchanged
    } else if leads_to(store.pre_authorized_codes, id) {
        Stage::OfferIssued
    } else {
        Stage::Created
    }
}

/// No step moves a certificate back to an earlier stage.
pub proof fn law_stage_never_falls(step: Step, store: StorageView, id: Seq<char>)
    ensures
        stage_of(step.apply(store), id).rank() >= stage_of(store, id).rank(),
{
    law_step_only_adds(step, store);
    let next = step.apply(store);
    if leads_to(store.access_tokens, id) {
        let token = choose|token: Seq<char>| store.access_tokens.contains_pair(token, id);
        assert(next.access_tokens.contains_pair(token, id));
    }
    if leads_to(store.pre_authorized_codes, id) {
        let code = choose|code: Seq<char>| store.pre_authorized_codes.contains_pair(code, id);
        assert(next.pre_authorized_codes.contains_pair(code, id));
    }
}

/// An offer that is made takes its certificate from unknown to offered, and
/// an exchange that is granted takes the certificate of its code to the
/// last stage.
pub proof fn law_flow_advances_stage(
    store: StorageView,
    id: Seq<char>,
    code: Seq<char>,
    token: Seq<char>,
    record: CertificateDataView,
)
    ensures
        store.offer(id, code, record) matches Ok(offered) ==> stage_of(store, id) is Unknown
            && stage_of(offered, id).rank() >= 2,
        exchange(store, code, token) matches Ok(exchanged) ==> (store.certificates.contains_key(
            store.pre_authorized_codes[code],
        ) ==> stage_of(exchanged, store.pre_authorized_codes[code]) is GrantExchanged),
{
    if store.offer(id, code, record) is Ok {
        let offered = store.offer(id, code, record)->Ok_0;
        assert(offered.pre_authorized_codes.contains_pair(code, id));
    }
    if exchange(store, code, token) is Ok {
        let exchanged = exchange(store, code, token)->Ok_0;
        assert(exchanged.access_tokens.contains_pair(token, store.pre_authorized_codes[code]));
    }
}

/// In a history of offers and exchanges, every access token leads to a
/// certificate that was offered: its record is stored, and a code leads to
/// it. So no token of the flow can run into a missing certificate.
pub proof fn law_flow_tokens_are_backed(steps: Seq<Step>, token: Seq<char>)
    requires
        forall|i: int| 0 <= i < steps.len() ==> (#[trigger] steps[i]).is_flow(),
        run(steps).access_tokens.contains_key(token),
    ensures
        run(steps).certificates.contains_key(run(steps).access_tokens[token]),
        leads_to(run(steps).pre_authorized_codes, run(steps).access_tokens[token]),
        redeem(run(steps), token) is Ok,
    decreases steps.len(),
{
    lemma_flow_codes_are_backed(steps);
    if steps.len() > 0 {
        let prefix = steps.drop_last();
        let pre = run(prefix);
        let post = run(steps);
        law_step_only_adds(steps.last(), pre);
        lemma_flow_codes_are_backed(prefix);
        if pre.access_tokens.contains_key(token) {
            lemma_token_is_stable(prefix, steps, token);
            law_flow_tokens_are_backed(prefix, token);
            let id = pre.access_tokens[token];
            let code = choose|code: Seq<char>| pre.pre_authorized_codes.contains_pair(code, id);
            assert(post.pre_authorized_codes.contains_pair(code, id));
        } else {
            let id = post.access_tokens[token];
            match steps.last() {
                Step::Exchange { code, token: bound } => {
                    assert(pre.pre_authorized_codes.contains_pair(code, id));
                    assert(post.pre_authorized_codes.contains_pair(code, id));
                },
                _ => {},
            }
        }
    }
}

/// What a token leads to before the last step of a history, it leads to
/// after it.
proof fn lemma_token_is_stable(prefix: Seq<Step>, steps: Seq<Step>, token: Seq<char>)
    requires
        steps.len() > 0,
        prefix == steps.drop_last(),
        run(prefix).access_tokens.contains_key(token),
    ensures
        run(steps).access_tokens.contains_key(token),
        run(steps).access_tokens[token] == run(prefix).access_tokens[token],
{
    law_step_only_adds(steps.last(), run(prefix));
}

/// In a history of offers and exchanges, every pre-authorized code leads to
/// a stored record.
proof fn lemma_flow_codes_are_backed(steps: Seq<Step>)
    requires
        forall|i: int| 0 <= i < steps.len() ==> (#[trigger] steps[i]).is_flow(),
    ensures
        forall|code: Seq<char>| #[trigger]
            run(steps).pre_authorized_codes.contains_key(code) ==> run(
                steps,
            ).certificates.contains_key(run(steps).pre_authorized_codes[code]),
    decreases steps.len(),
{
    if steps.len() > 0 {
        let prefix = steps.drop_last();
        lemma_flow_codes_are_backed(prefix);
        law_step_only_adds(steps.last(), run(prefix));
        assert(steps.last().is_flow());
    }
}

/// Binding a key twice to the same id changes nothing the second time.
pub proof fn law_binding_is_idempotent(
    bindings: Map<Seq<char>, Seq<char>>,
    key: Seq<char>,
    id: Seq<char>,
)
    requires
        bind(bindings, key, id) is Ok,
    ensures
        bind(bind(bindings, key, id)->Ok_0, key, id) == bind(bindings, key, id),
{
    let once = bind(bindings, key, id)->Ok_0;
    assert(once.insert(key, id) =~= once);
}

} // verus!
