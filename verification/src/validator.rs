//! Judgement on a session result: from the two statuses and the disclosed
//! groups to exactly one outcome.

use vstd::prelude::*;
use crate::attributes::{AttributeMap, AttributeMapping};
use crate::config::{
    all_known, answers_offer, check_response, law_offered_response_accepted,
    lemma_verdict_unique, request_for,
    response_verdict, Error, ErrorView,
};
use crate::irma::{session_failure, IrmaResult, ProofStatus, RawIrmaResult, SessionStatus};

verus! {

/// Why an authentication failed.
#[derive(Debug, PartialEq, Eq, Structural, Clone, Copy)]
pub enum FailureReason {
    Incomplete,
    Cancelled,
    TimedOut,
    InvalidProof,
    ResponseMismatch,
    InvalidResponse,
}

impl FailureReason {
    /// The name of the reason in a sealed result.
    pub open spec fn name_spec(self) -> Seq<char> {
        match self {
            FailureReason::Incomplete => "incomplete"@,
            FailureReason::Cancelled => "cancelled"@,
            FailureReason::TimedOut => "timed_out"@,
            FailureReason::InvalidProof => "invalid_proof"@,
            FailureReason::ResponseMismatch => "response_mismatch"@,
            FailureReason::InvalidResponse => "invalid_response"@,
        }
    }

    pub fn name(&self) -> (r: &'static str)
        ensures
            r@ == self.name_spec(),
    {
        match self {
            FailureReason::Incomplete => "incomplete",
            FailureReason::Cancelled => "cancelled",
            FailureReason::TimedOut => "timed_out",
            FailureReason::InvalidProof => "invalid_proof",
            FailureReason::ResponseMismatch => "response_mismatch",
            FailureReason::InvalidResponse => "invalid_response",
        }
    }

    /// The reason that a session failure stands for.
    pub open spec fn of_session_spec(e: crate::irma::Error) -> FailureReason {
        match e {
            crate::irma::Error::Incomplete() => FailureReason::Incomplete,
            crate::irma::Error::Cancelled() => FailureReason::Cancelled,
            crate::irma::Error::Timeout() => FailureReason::TimedOut,
            crate::irma::Error::Invalid() => FailureReason::InvalidProof,
        }
    }

    pub fn of_session(e: &crate::irma::Error) -> (r: FailureReason)
        ensures
            r == Self::of_session_spec(*e),
    {
        match e {
            crate::irma::Error::Incomplete() => FailureReason::Incomplete,
            crate::irma::Error::Cancelled() => FailureReason::Cancelled,
            crate::irma::Error::Timeout() => FailureReason::TimedOut,
            crate::irma::Error::Invalid() => FailureReason::InvalidProof,
        }
    }

    /// The reason that a rejected response stands for; a name that is not
    /// configured, or a key that cannot be read, is no failure of the
    /// session, so it has none.
    pub open spec fn of_response_spec(e: ErrorView) -> Option<FailureReason> {
        match e {
            ErrorView::NotMatching(_) => Some(FailureReason::ResponseMismatch),
            ErrorView::InvalidResponse(_) => Some(FailureReason::InvalidResponse),
            ErrorView::UnknownAttribute(_) => None,
            ErrorView::Jwt => None,
        }
    }
}

/// How an authentication ended: with the disclosed values by logical name,
/// or with the reason of its failure.
#[derive(Debug)]
pub enum Outcome {
    Success(AttributeMap),
    Failed(FailureReason),
}

/// An `Outcome` with its values as a map of texts.
pub enum OutcomeView {
    Success(Map<Seq<char>, Seq<char>>),
    Failed(FailureReason),
}

impl View for Outcome {
    type V = OutcomeView;

    open spec fn view(&self) -> OutcomeView {
        match self {
            Outcome::Success(values) => OutcomeView::Success(values@),
            Outcome::Failed(reason) => OutcomeView::Failed(*reason),
        }
    }
}

/// The judgement on a session: `verdict` is what the statuses and the
/// disclosed groups amount to for a request for `names`.
///
/// A session that is not done with a valid proof fails with the reason of
/// its statuses, whatever was disclosed. Otherwise the groups are checked
/// against the request: the values by name where all is in order, a failure
/// where the response does not fit, and an error where a name is not
/// configured.
pub open spec fn judged(
    mapping: Map<Seq<char>, Seq<Seq<char>>>,
    names: Seq<Seq<char>>,
    status: SessionStatus,
    proof_status: ProofStatus,
    disclosed: Seq<Seq<(Seq<char>, Seq<char>)>>,
    verdict: Result<OutcomeView, ErrorView>,
) -> bool {
    match session_failure(status, proof_status) {
        Some(e) => verdict == Ok::<OutcomeView, ErrorView>(
            OutcomeView::Failed(FailureReason::of_session_spec(e)),
        ),
        None => match verdict {
            Ok(OutcomeView::Success(values)) => response_verdict(
                mapping,
                names,
                disclosed,
                Ok(values),
            ),
            Ok(OutcomeView::Failed(reason)) => exists|e: ErrorView|
                #[trigger] response_verdict(mapping, names, disclosed, Err(e))
                    && FailureReason::of_response_spec(e) == Some(reason),
            Err(e) => e is UnknownAttribute && response_verdict(mapping, names, disclosed, Err(e)),
        },
    }
}

/// The outcome for a response that was rejected with `e`, or the error
/// itself where it is no failure of the session.
pub fn outcome_of_rejection(e: Error) -> (r: Result<Outcome, Error>)
    ensures
        match FailureReason::of_response_spec(e@) {
            Some(reason) => r matches Ok(Outcome::Failed(given)) && given == reason,
            None => r == Err::<Outcome, Error>(e),
        },
{
    match e {
        Error::NotMatching(_) => Ok(Outcome::Failed(FailureReason::ResponseMismatch)),
        Error::InvalidResponse(_) => Ok(Outcome::Failed(FailureReason::InvalidResponse)),
        Error::UnknownAttribute(name) => Err(Error::UnknownAttribute(name)),
        Error::Jwt(e) => Err(Error::Jwt(e)),
    }
}

/// Judges the raw result of a session that was started for `attributes`.
pub fn validate(mapping: &AttributeMapping, attributes: &[String], raw: RawIrmaResult) -> (r: Result<
    Outcome,
    Error,
>)
    ensures
        judged(
            mapping@,
            attributes.deep_view(),
            raw.status,
            raw.proof_status,
            raw.disclosed.deep_view(),
            match r {
                Ok(outcome) => Ok(outcome@),
                Err(e) => Err(e@),
            },
        ),
{
    match IrmaResult::try_from(raw) {
        Err(e) => Ok(Outcome::Failed(FailureReason::of_session(&e))),
        Ok(result) => {
            match check_response(mapping, attributes, result) {
                Ok(values) => Ok(Outcome::Success(values)),
                Err(e) => {
                    let ghost rejected = e@;
                    let r = outcome_of_rejection(e);
                    assert(response_verdict(
                        mapping@,
                        attributes.deep_view(),
                        raw.disclosed.deep_view(),
                        Err(rejected),
                    ));
                    r
                },
            }
        },
    }
}

/// A session has one judgement.
pub proof fn lemma_judgement_unique(
    mapping: Map<Seq<char>, Seq<Seq<char>>>,
    names: Seq<Seq<char>>,
    status: SessionStatus,
    proof_status: ProofStatus,
    disclosed: Seq<Seq<(Seq<char>, Seq<char>)>>,
    first: Result<OutcomeView, ErrorView>,
    second: Result<OutcomeView, ErrorView>,
)
    requires
        judged(mapping, names, status, proof_status, disclosed, first),
        judged(mapping, names, status, proof_status, disclosed, second),
    ensures
        first == second,
{
    if session_failure(status, proof_status) is None {
        let a = response_of(mapping, names, disclosed, first);
        let b = response_of(mapping, names, disclosed, second);
        lemma_verdict_unique(mapping, names, disclosed, a, b);
    }
}

/// The verdict on the response that lies behind a judgement.
pub open spec fn response_of(
    mapping: Map<Seq<char>, Seq<Seq<char>>>,
    names: Seq<Seq<char>>,
    disclosed: Seq<Seq<(Seq<char>, Seq<char>)>>,
    verdict: Result<OutcomeView, ErrorView>,
) -> Result<Map<Seq<char>, Seq<char>>, ErrorView> {
    match verdict {
        Ok(OutcomeView::Success(values)) => Ok(values),
        Ok(OutcomeView::Failed(reason)) => Err(
            choose|e: ErrorView|
                #[trigger] response_verdict(mapping, names, disclosed, Err(e))
                    && FailureReason::of_response_spec(e) == Some(reason),
        ),
        Err(e) => Err(e),
    }
}

/// A session that is done with a valid proof and answers each slot of the
/// request for `names` with one of the conjunctions offered there, position
/// by position, succeeds: exactly the names asked for have a value, and
/// where no name is asked for twice there are as many values as names,
/// each the value disclosed at its name's position.
pub proof fn law_offered_session_accepted(
    mapping: Map<Seq<char>, Seq<Seq<char>>>,
    names: Seq<Seq<char>>,
    disclosed: Seq<Seq<(Seq<char>, Seq<char>)>>,
    verdict: Result<OutcomeView, ErrorView>,
)
    requires
        all_known(mapping, names),
        answers_offer(request_for(mapping, names), disclosed),
        judged(mapping, names, SessionStatus::Done, ProofStatus::Valid, disclosed, verdict),
    ensures
        verdict matches Ok(OutcomeView::Success(values)) && (forall|name: Seq<char>|
            values.contains_key(name) <==> names.contains(name)) && (names.no_duplicates()
            ==> values.len() == names.len() && forall|i: int|
            0 <= i < names.len() ==> values.contains_key(#[trigger] names[i]) && values[names[i]]
                == disclosed[i][0].1),
{
    let response = response_of(mapping, names, disclosed, verdict);
    law_offered_response_accepted(mapping, names, disclosed, response);
}

/// A cancelled or timed-out session fails with that reason, whatever the
/// proof status and whatever was disclosed.
pub proof fn law_terminal_status_decides(
    mapping: Map<Seq<char>, Seq<Seq<char>>>,
    names: Seq<Seq<char>>,
    status: SessionStatus,
    proof_status: ProofStatus,
    disclosed: Seq<Seq<(Seq<char>, Seq<char>)>>,
    verdict: Result<OutcomeView, ErrorView>,
)
    requires
        status == SessionStatus::Cancelled || status == SessionStatus::Timeout,
        judged(mapping, names, status, proof_status, disclosed, verdict),
    ensures
        status == SessionStatus::Cancelled ==> verdict == Ok::<OutcomeView, ErrorView>(
            OutcomeView::Failed(FailureReason::Cancelled),
        ),
        status == SessionStatus::Timeout ==> verdict == Ok::<OutcomeView, ErrorView>(
            OutcomeView::Failed(FailureReason::TimedOut),
        ),
{
}

/// A session that is done with a valid proof but discloses another number
/// of groups than names were asked for fails as a mismatch.
pub proof fn law_group_count_must_match(
    mapping: Map<Seq<char>, Seq<Seq<char>>>,
    names: Seq<Seq<char>>,
    disclosed: Seq<Seq<(Seq<char>, Seq<char>)>>,
    verdict: Result<OutcomeView, ErrorView>,
)
    requires
        names.len() != disclosed.len(),
        judged(mapping, names, SessionStatus::Done, ProofStatus::Valid, disclosed, verdict),
    ensures
        verdict == Ok::<OutcomeView, ErrorView>(
            OutcomeView::Failed(FailureReason::ResponseMismatch),
        ),
{
    match verdict {
        Ok(OutcomeView::Failed(reason)) => {
            let e = choose|e: ErrorView|
                #[trigger] response_verdict(mapping, names, disclosed, Err(e))
                    && FailureReason::of_response_spec(e) == Some(reason);
        },
        _ => {},
    }
}

/// A session that is done with a valid proof, with one group for each
/// name, fails as an invalid response if some group holds one attribute
/// whose identifier is not accepted for the name at its position. Left out
/// are the requests in which the first slot out of order bears a name that
/// is not configured: that is an error of the request.
pub proof fn law_substitution_rejected(
    mapping: Map<Seq<char>, Seq<Seq<char>>>,
    names: Seq<Seq<char>>,
    disclosed: Seq<Seq<(Seq<char>, Seq<char>)>>,
    position: int,
    verdict: Result<OutcomeView, ErrorView>,
)
    requires
        names.len() == disclosed.len(),
        0 <= position < names.len(),
        disclosed[position].len() == 1,
        mapping.contains_key(names[position]),
        !mapping[names[position]].contains(disclosed[position][0].0),
        judged(mapping, names, SessionStatus::Done, ProofStatus::Valid, disclosed, verdict),
        verdict is Ok,
    ensures
        verdict == Ok::<OutcomeView, ErrorView>(OutcomeView::Failed(FailureReason::InvalidResponse)),
{
    match verdict {
        Ok(OutcomeView::Failed(reason)) => {
            let e = choose|e: ErrorView|
                #[trigger] response_verdict(mapping, names, disclosed, Err(e))
                    && FailureReason::of_response_spec(e) == Some(reason);
            let i = choose|i: int|
                0 <= i < names.len() && crate::config::slots_accepted(mapping, names, disclosed, i)
                    && #[trigger] crate::config::slot_failure(mapping, names[i], disclosed[i])
                    == Some(e);
        },
        Ok(OutcomeView::Success(values)) => {
            assert(crate::config::slot_failure(mapping, names[position], disclosed[position])
                is None);
        },
        _ => {},
    }
}

} // verus!
