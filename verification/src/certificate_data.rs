//! The certificate record: what a learner achieved, and when.

use crate::bindings::{format_rfc3339, rfc3339_of};
use crate::error::ValidationError;
use vstd::prelude::*;

verus! {

/// A UTC instant that can be printed: seconds and nanoseconds since the Unix
/// epoch, kept only where the calendar has a date for them.
#[derive(Clone, Copy, Debug)]
pub struct Timestamp {
    secs: i64,
    nanos: u32,
}

impl View for Timestamp {
    type V = (int, int);

    closed spec fn view(&self) -> (int, int) {
        (self.secs as int, self.nanos as int)
    }
}

impl Timestamp {
    #[verifier::type_invariant]
    spec fn printable(self) -> bool {
        rfc3339_of(self.secs as int, self.nanos as int) is Some
    }

    /// The RFC 3339 text of an instant; empty where the calendar has none.
    pub open spec fn text_of(instant: (int, int)) -> Seq<char> {
        match rfc3339_of(instant.0, instant.1) {
            Some(text) => text,
            None => Seq::empty(),
        }
    }

    /// The instant `secs` seconds and `nanos` nanoseconds after the Unix
    /// epoch, or `None` where the calendar has no date for it.
    pub fn from_unix(secs: i64, nanos: u32) -> (r: Option<Timestamp>)
        ensures
            r is Some <==> rfc3339_of(secs as int, nanos as int) is Some,
            r matches Some(t) ==> t@ == (secs as int, nanos as int),
    {
        match format_rfc3339(secs, nanos) {
            Some(_) => Some(Timestamp { secs, nanos }),
            None => None,
        }
    }

    /// Whole seconds since the Unix epoch.
    pub fn unix_seconds(&self) -> (secs: i64)
        ensures
            secs == self@.0,
    {
        self.secs
    }

    /// Nanoseconds past the whole second.
    pub fn subsec_nanos(&self) -> (nanos: u32)
        ensures
            nanos == self@.1,
    {
        self.nanos
    }

    /// The instant in RFC 3339 form.
    pub fn to_rfc3339(&self) -> (s: String)
        ensures
            rfc3339_of(self@.0, self@.1) == Some(s@),
            s@ == Self::text_of(self@),
    {
        proof {
            use_type_invariant(self);
        }
        format_rfc3339(self.secs, self.nanos).unwrap()
    }
}

/// What a learner achieved on one learning path.
#[derive(Debug)]
pub struct CertificateData {
    pub game_path_name: String,
    pub total_challenges: usize,
    pub solved_challenges: usize,
    pub performance_percentage: u8,
    pub profile_name: String,
    pub date: Timestamp,
}

/// A certificate record as plain values.
pub struct CertificateDataView {
    pub game_path_name: Seq<char>,
    pub total_challenges: nat,
    pub solved_challenges: nat,
    pub performance_percentage: nat,
    pub profile_name: Seq<char>,
    pub date: (int, int),
}

impl View for CertificateData {
    type V = CertificateDataView;

    open spec fn view(&self) -> CertificateDataView {
        CertificateDataView {
            game_path_name: self.game_path_name@,
            total_challenges: self.total_challenges as nat,
            solved_challenges: self.solved_challenges as nat,
            performance_percentage: self.performance_percentage as nat,
            profile_name: self.profile_name@,
            date: self.date@,
        }
    }
}

impl CertificateDataView {
    /// The rule a record breaks, if any: the count of solved challenges is
    /// looked at first, then the percentage.
    pub open spec fn defect(self) -> Option<ValidationError> {
        if self.solved_challenges > self.total_challenges {
            Some(ValidationError::SolvedExceedsTotal)
        } else if self.performance_percentage > 100 {
            Some(ValidationError::PercentageOutOfRange)
        } else {
            None
        }
    }

    /// No more challenges solved than there are, and a percentage of at most 100.
    pub open spec fn is_valid(self) -> bool {
        self.solved_challenges <= self.total_challenges && self.performance_percentage <= 100
    }

    /// A record is valid exactly when it has no defect.
    pub proof fn lemma_valid_iff_no_defect(self)
        ensures
            self.is_valid() <==> self.defect() is None,
    {
    }
}

impl CertificateData {
    /// Checks the two rules of a record.
    pub fn validate(&self) -> (r: Result<(), ValidationError>)
        ensures
            r is Ok <==> self@.is_valid(),
            r matches Err(e) ==> self@.defect() == Some(e),
    {
        if self.solved_challenges > self.total_challenges {
            Err(ValidationError::SolvedExceedsTotal)
        } else if self.performance_percentage > 100 {
            Err(ValidationError::PercentageOutOfRange)
        } else {
            Ok(())
        }
    }
}

impl Clone for CertificateData {
    fn clone(&self) -> (copy: CertificateData)
        ensures
            copy == *self,
    {
        CertificateData {
            game_path_name: self.game_path_name.clone(),
            total_challenges: self.total_challenges,
            solved_challenges: self.solved_challenges,
            performance_percentage: self.performance_percentage,
            profile_name: self.profile_name.clone(),
            date: self.date,
        }
    }
}

} // verus!
