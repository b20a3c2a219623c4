//! What the liveness and readiness probes answer.

use crate::certificate_data::{CertificateData, CertificateDataView, Timestamp};
use crate::storage::memory_storage::MemoryStorage;
use vstd::prelude::*;
use vstd::string::StringExecFns;

verus! {

/// The answer of the liveness probe.
#[derive(Debug)]
pub struct HealthResponse {
    pub status: String,
    pub version: String,
    pub timestamp: String,
}

/// The state of each part that readiness depends on.
#[derive(Debug)]
pub struct HealthChecks {
    pub storage: String,
    pub did_generation: String,
    pub credential_issuer: String,
}

/// The answer of the readiness probe.
#[derive(Debug)]
pub struct ReadinessResponse {
    pub status: String,
    pub checks: HealthChecks,
}

/// The word for the state of one part.
pub open spec fn check_word(healthy: bool) -> Seq<char> {
    if healthy {
        "healthy"@
    } else {
        "unhealthy"@
    }
}

/// The word for the state of the whole service.
pub open spec fn readiness_word(ready: bool) -> Seq<char> {
    if ready {
        "ready"@
    } else {
        "not_ready"@
    }
}

/// The answer of a running service: always healthy, with the version and the
/// time that the caller read.
pub fn health_check(version: String, timestamp: String) -> (response: HealthResponse)
    ensures
        response.status@ == "healthy"@,
        response.version == version,
        response.timestamp == timestamp,
{
    HealthResponse { status: String::from_str("healthy"), version, timestamp }
}

impl HealthChecks {
    /// The checks before any of them ran.
    pub fn unknown() -> (checks: HealthChecks)
        ensures
            checks.storage@ == "unknown"@,
            checks.did_generation@ == "unknown"@,
            checks.credential_issuer@ == "unknown"@,
    {
        HealthChecks {
            storage: String::from_str("unknown"),
            did_generation: String::from_str("unknown"),
            credential_issuer: String::from_str("unknown"),
        }
    }
}

/// The word for the state of one part.
fn check_status(healthy: bool) -> (word: String)
    ensures
        word@ == check_word(healthy),
{
    if healthy {
        String::from_str("healthy")
    } else {
        String::from_str("unhealthy")
    }
}

/// Sums up the three checks. The service is ready exactly when all three
/// passed: then the answer comes as `Ok`, else as `Err`; either way it names
/// the state of each part.
pub fn readiness_check(storage_ok: bool, did_generation_ok: bool, credential_issuer_ok: bool) -> (r:
    Result<ReadinessResponse, ReadinessResponse>)
    ensures
        r is Ok <==> storage_ok && did_generation_ok && credential_issuer_ok,
        ({
            let response = match r {
                Ok(response) => response,
                Err(response) => response,
            };
            &&& response.status@ == readiness_word(r is Ok)
            &&& response.checks.storage@ == check_word(storage_ok)
            &&& response.checks.did_generation@ == check_word(did_generation_ok)
            &&& response.checks.credential_issuer@ == check_word(credential_issuer_ok)
        }),
{
    let checks = HealthChecks {
        storage: check_status(storage_ok),
        did_generation: check_status(did_generation_ok),
        credential_issuer: check_status(credential_issuer_ok),
    };
    if storage_ok && did_generation_ok && credential_issuer_ok {
        Ok(ReadinessResponse { status: String::from_str("ready"), checks })
    } else {
        Err(ReadinessResponse { status: String::from_str("not_ready"), checks })
    }
}

/// The record that the storage check writes.
pub open spec fn probe_record(date: (int, int)) -> CertificateDataView {
    CertificateDataView {
        game_path_name: "health_check"@,
        total_challenges: 1,
        solved_challenges: 1,
        performance_percentage: 100,
        profile_name: "health_check"@,
        date,
    }
}

/// Checks that the store takes a record and hands it back: a probe record is
/// stored under `test_id`, unless that id is in use, and read again. The
/// answer is whether a record was found under `test_id` afterwards, which an
/// in-memory store cannot fail.
pub fn test_storage(storage: &mut MemoryStorage, test_id: String, date: Timestamp) -> (healthy:
    bool)
    ensures
        healthy,
        final(storage)@ == match old(storage)@.store_certificate(test_id@, probe_record(date@)) {
            Ok(next) => next,
            Err(_) => old(storage)@,
        },
        final(storage)@.certificates.contains_key(test_id@),
        old(storage)@.well_formed() ==> final(storage)@.well_formed(),
{
    let test_certificate = CertificateData {
        game_path_name: String::from_str("health_check"),
        total_challenges: 1,
        solved_challenges: 1,
        performance_percentage: 100,
        profile_name: String::from_str("health_check"),
        date,
    };
    assert(test_certificate@ == probe_record(date@));
    let _ = storage.store_certificate(test_id.clone(), test_certificate);
    match storage.get_certificate(test_id.as_str()) {
        Some(_) => true,
        None => false,
    }
}

} // verus!
