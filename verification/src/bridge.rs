//! The two flows of the bridge, as decisions: what session to start and
//! where to send the user, what a returning request asks for, and what
//! goes back to the caller. Whoever talks to the disclosure server runs
//! between these steps and hands in what the server said.

use vstd::prelude::*;
use crate::codec::{
    decode_names, decode_text, encode_names, encode_text, names_segment, segment_names,
    segment_text, text_segment, Failure, SegmentError,
};
use crate::config::{all_known, first_unknown, request_for, Config, ConfigView, ErrorView};
use crate::idauth::{AuthRequest, StartAuthResponse};
use crate::irma::{IrmaDisclosureRequest, IrmaRequest, IrmaSession, RawIrmaResult};
use crate::jwe::{dots, sign_and_encrypt_outcome};
use crate::text::has_char;
use crate::validator::{judged, lemma_judgement_unique, validate};

verus! {

/// Why a step of a flow failed.
#[derive(Debug)]
pub enum Error {
    Config(crate::config::Error),
    Segment(SegmentError),
    Jwt(crate::jwe::Error),
}

impl Error {
    /// Human-readable description of the error: that of its cause.
    pub fn message(&self) -> (r: String)
        ensures
            self matches Error::Config(e) ==> (e@.message() matches Some(text) ==> r@ == text),
    {
        match self {
            Error::Config(e) => e.message(),
            Error::Segment(e) => e.message(),
            Error::Jwt(e) => e.message(),
        }
    }
}

/// How the result of a session comes back.
#[derive(Debug)]
pub enum Flow {
    /// The disclosure server calls back, at this URL, when the session is
    /// complete.
    OutOfBand { callback_url: String },
    /// The user returns to this URL, to which the session token is added.
    InBand { continuation_url: String },
}

/// The session to start, and the flow it belongs to.
#[derive(Debug)]
pub struct SessionPlan {
    pub request: IrmaRequest,
    pub flow: Flow,
}

/// What a returning request carries in its path: where to go on, and the
/// attributes that were asked for.
#[derive(Debug)]
pub struct ContinuationState {
    pub url: String,
    pub attributes: Vec<String>,
}

/// `request` is a disclosure request with these contents.
pub open spec fn is_disclosure(
    request: IrmaRequest,
    disclose: Seq<Seq<Seq<Seq<char>>>>,
    return_url: Seq<char>,
    augment_return: bool,
) -> bool {
    match request {
        IrmaRequest::Disclosure(d) => {
            &&& d.disclose.deep_view() == disclose
            &&& d.return_url matches Some(url) && url@ == return_url
            &&& d.augment_return == augment_return
        },
    }
}

/// Where the disclosure server reports that a session is complete.
pub open spec fn callback_url_spec(
    internal_url: Seq<char>,
    names: Seq<Seq<char>>,
    attr_url: Seq<char>,
) -> Seq<char> {
    internal_url + "/session_complete/"@ + names_segment(names) + "/"@ + text_segment(attr_url)
}

/// Where the user returns to after the disclosure.
pub open spec fn continuation_url_spec(
    server_url: Seq<char>,
    names: Seq<Seq<char>>,
    continuation: Seq<char>,
) -> Seq<char> {
    server_url + "/decorated_continue/"@ + names_segment(names) + "/"@ + text_segment(continuation)
}

/// Where the user is sent to see the session.
pub open spec fn client_url_spec(
    server_url: Seq<char>,
    qr: Seq<char>,
    continuation: Seq<char>,
) -> Seq<char> {
    server_url + "/auth/"@ + text_segment(qr) + "/"@ + text_segment(continuation)
}

/// The continuation of the in-band flow with the session token added.
pub open spec fn with_token(continuation_url: Seq<char>, token: Seq<char>) -> Seq<char> {
    continuation_url + "?token="@ + token
}

/// Where the user finally goes: the continuation with the sealed result
/// added as a query parameter, after `&` where the continuation has a
/// query already and after `?` where it has none.
pub open spec fn redirect_target_spec(continuation: Seq<char>, sealed: Seq<char>) -> Seq<char> {
    if continuation.contains('?') {
        continuation + "&result="@ + sealed
    } else {
        continuation + "?result="@ + sealed
    }
}

/// `base`, `path` and the two segments with a slash between them.
fn join_segments(base: &str, path: &str, first: &str, second: &str) -> (r: String)
    ensures
        r@ == base@ + path@ + first@ + "/"@ + second@,
{
    base.to_owned().concat(path).concat(first).concat("/").concat(second)
}

/// The error of an unknown attribute, as a step's error.
pub open spec fn is_unknown_attribute(
    e: Error,
    mapping: Map<Seq<char>, Seq<Seq<char>>>,
    names: Seq<Seq<char>>,
) -> bool {
    e matches Error::Config(c) && exists|i: int|
        #[trigger] first_unknown(mapping, names, i) && c@ == ErrorView::UnknownAttribute(names[i])
}

/// What the two segments of a returning request carry. The URL is read
/// first, so its failure is the one reported where both fail.
pub open spec fn carried_state(
    attributes_segment: Seq<char>,
    url_segment: Seq<char>,
) -> Result<(Seq<char>, Seq<Seq<char>>), Failure> {
    match segment_text(url_segment) {
        Err(failure) => Err(failure),
        Ok(url) => match segment_names(attributes_segment) {
            Err(failure) => Err(failure),
            Ok(names) => Ok((url, names)),
        },
    }
}

/// Writes the state that a request is to carry across the redirects: the
/// segment of the attributes, then that of the URL. Read back, the two
/// segments give the same attributes and the same URL, whatever characters
/// they hold.
pub fn write_state(attributes: &[String], url: &str) -> (r: Result<(String, String), Error>)
    ensures
        r matches Ok(segments) && segments.0@ == names_segment(attributes.deep_view())
            && segments.1@ == text_segment(url@) && carried_state(segments.0@, segments.1@) == Ok::<
            (Seq<char>, Seq<Seq<char>>),
            Failure,
        >((url@, attributes.deep_view())),
{
    match encode_names(attributes) {
        Ok(names_part) => Ok((names_part, encode_text(url))),
        Err(e) => Err(Error::Segment(e)),
    }
}

/// `plan` is the out-of-band plan for the request: the disclosure of what
/// the names map to, with the caller's continuation as the plain return
/// URL, and the bridge's callback for `attr_url`.
pub open spec fn is_oob_plan(
    config: ConfigView,
    names: Seq<Seq<char>>,
    continuation: Seq<char>,
    attr_url: Seq<char>,
    plan: SessionPlan,
) -> bool {
    &&& is_disclosure(plan.request, request_for(config.attributes, names), continuation, false)
    &&& plan.flow matches Flow::OutOfBand { callback_url } && callback_url@ == callback_url_spec(
        config.internal_url,
        names,
        attr_url,
    )
}

/// `plan` is the in-band plan for the request: the disclosure of what the
/// names map to, with the bridge's own continuation as the return URL, to
/// which the session token is to be added.
pub open spec fn is_ib_plan(
    config: ConfigView,
    names: Seq<Seq<char>>,
    continuation: Seq<char>,
    plan: SessionPlan,
) -> bool {
    let url = continuation_url_spec(config.server_url, names, continuation);
    &&& is_disclosure(plan.request, request_for(config.attributes, names), url, true)
    &&& plan.flow matches Flow::InBand { continuation_url } && continuation_url@ == url
}

/// Plans a session whose result is delivered out of band, to `attr_url`:
/// the user returns to the caller's continuation as it is, and the
/// disclosure server calls the bridge back.
pub fn start_oob(config: &Config, request: &AuthRequest, attr_url: &str) -> (r: Result<
    SessionPlan,
    Error,
>)
    ensures
        r is Ok <==> all_known(config@.attributes, request.attributes.deep_view()),
        match r {
            Ok(plan) => is_oob_plan(
                config@,
                request.attributes.deep_view(),
                request.continuation@,
                attr_url@,
                plan,
            ),
            Err(e) => is_unknown_attribute(e, config@.attributes, request.attributes.deep_view()),
        },
{
    let names = request.attributes.as_slice();
    let disclose = match config.map_attributes(names) {
        Ok(disclose) => disclose,
        Err(e) => {
            return Err(Error::Config(e));
        },
    };
    let session_request = IrmaRequest::Disclosure(
        IrmaDisclosureRequest {
            disclose,
            return_url: Some(request.continuation.clone()),
            augment_return: false,
        },
    );
    let segments = match write_state(names, attr_url) {
        Ok(segments) => segments,
        Err(e) => {
            return Err(e);
        },
    };
    let callback_url = join_segments(
        config.internal_url(),
        "/session_complete/",
        segments.0.as_str(),
        segments.1.as_str(),
    );
    Ok(SessionPlan { request: session_request, flow: Flow::OutOfBand { callback_url } })
}

/// Plans a session whose result comes back in band: the user returns to
/// the bridge, at a continuation that carries the attributes asked for and
/// the caller's continuation, and to which the session token is added.
pub fn start_ib(config: &Config, request: &AuthRequest) -> (r: Result<SessionPlan, Error>)
    ensures
        r is Ok <==> all_known(config@.attributes, request.attributes.deep_view()),
        match r {
            Ok(plan) => is_ib_plan(
                config@,
                request.attributes.deep_view(),
                request.continuation@,
                plan,
            ),
            Err(e) => is_unknown_attribute(e, config@.attributes, request.attributes.deep_view()),
        },
{
    let names = request.attributes.as_slice();
    let segments = match write_state(names, request.continuation.as_str()) {
        Ok(segments) => segments,
        Err(e) => {
            return Err(e);
        },
    };
    let continuation_url = join_segments(
        config.server_url(),
        "/decorated_continue/",
        segments.0.as_str(),
        segments.1.as_str(),
    );
    let disclose = match config.map_attributes(names) {
        Ok(disclose) => disclose,
        Err(e) => {
            return Err(Error::Config(e));
        },
    };
    let session_request = IrmaRequest::Disclosure(
        IrmaDisclosureRequest {
            disclose,
            return_url: Some(continuation_url.clone()),
            augment_return: true,
        },
    );
    Ok(SessionPlan { request: session_request, flow: Flow::InBand { continuation_url } })
}

/// Plans the session for a request: out of band where the caller names a
/// URL for the attributes, in band where it names none.
pub fn start_authentication(config: &Config, request: &AuthRequest) -> (r: Result<
    SessionPlan,
    Error,
>)
    ensures
        r is Ok <==> all_known(config@.attributes, request.attributes.deep_view()),
        r matches Err(e) ==> is_unknown_attribute(
            e,
            config@.attributes,
            request.attributes.deep_view(),
        ),
        r matches Ok(plan) ==> match request.attr_url {
            Some(attr_url) => is_oob_plan(
                config@,
                request.attributes.deep_view(),
                request.continuation@,
                attr_url@,
                plan,
            ),
            None => is_ib_plan(
                config@,
                request.attributes.deep_view(),
                request.continuation@,
                plan,
            ),
        },
{
    match &request.attr_url {
        Some(attr_url) => start_oob(config, request, attr_url.as_str()),
        None => start_ib(config, request),
    }
}

/// The continuation that the page showing the session goes on to: the
/// caller's own out of band, the bridge's with the session token in band.
pub open spec fn shown_continuation(
    flow: Flow,
    continuation: Seq<char>,
    token: Seq<char>,
) -> Seq<char> {
    match flow {
        Flow::OutOfBand { callback_url } => continuation,
        Flow::InBand { continuation_url } => with_token(continuation_url@, token),
    }
}

/// The answer to the caller once the session is started: the URL that
/// shows the session to the user and then goes on.
pub fn client_url(config: &Config, request: &AuthRequest, flow: &Flow, session: &IrmaSession) -> (r:
    StartAuthResponse)
    ensures
        r.client_url@ == client_url_spec(
            config@.server_url,
            session.qr@,
            shown_continuation(*flow, request.continuation@, session.token@),
        ),
{
    let qr = encode_text(session.qr.as_str());
    let continuation = match flow {
        Flow::OutOfBand { callback_url } => encode_text(request.continuation.as_str()),
        Flow::InBand { continuation_url } => {
            let target = continuation_url.clone().concat("?token=").concat(session.token.as_str());
            encode_text(target.as_str())
        },
    };
    StartAuthResponse {
        client_url: join_segments(config.server_url(), "/auth/", qr.as_str(), continuation.as_str()),
    }
}

/// Reads the state that a returning request carries in its path.
pub fn read_state(attributes_segment: &str, url_segment: &str) -> (r: Result<
    ContinuationState,
    Error,
>)
    ensures
        match r {
            Ok(state) => carried_state(attributes_segment@, url_segment@) == Ok::<
                (Seq<char>, Seq<Seq<char>>),
                Failure,
            >((state.url@, state.attributes.deep_view())),
            Err(e) => e matches Error::Segment(s) && carried_state(
                attributes_segment@,
                url_segment@,
            ) == Err::<(Seq<char>, Seq<Seq<char>>), Failure>(s@),
        },
{
    let url = match decode_text(url_segment) {
        Ok(url) => url,
        Err(e) => {
            return Err(Error::Segment(e));
        },
    };
    let attributes = match decode_names(attributes_segment) {
        Ok(attributes) => attributes,
        Err(e) => {
            return Err(Error::Segment(e));
        },
    };
    Ok(ContinuationState { url, attributes })
}

/// What the two segments of a request for the session page carry: where
/// to continue, read first, and the session pointer.
pub open spec fn carried_session(
    qr_segment: Seq<char>,
    continuation_segment: Seq<char>,
) -> Result<(Seq<char>, Seq<char>), Failure> {
    match segment_text(continuation_segment) {
        Err(failure) => Err(failure),
        Ok(continuation) => match segment_text(qr_segment) {
            Err(failure) => Err(failure),
            Ok(qr) => Ok((continuation, qr)),
        },
    }
}

/// Reads the continuation and the session pointer that a request for the
/// session page carries in its path, in that order.
pub fn read_session(qr_segment: &str, continuation_segment: &str) -> (r: Result<
    (String, String),
    Error,
>)
    ensures
        match r {
            Ok(pair) => carried_session(qr_segment@, continuation_segment@) == Ok::<
                (Seq<char>, Seq<char>),
                Failure,
            >((pair.0@, pair.1@)),
            Err(e) => e matches Error::Segment(s) && carried_session(
                qr_segment@,
                continuation_segment@,
            ) == Err::<(Seq<char>, Seq<char>), Failure>(s@),
        },
{
    let continuation = match decode_text(continuation_segment) {
        Ok(continuation) => continuation,
        Err(e) => {
            return Err(Error::Segment(e));
        },
    };
    let qr = match decode_text(qr_segment) {
        Ok(qr) => qr,
        Err(e) => {
            return Err(Error::Segment(e));
        },
    };
    Ok((continuation, qr))
}

/// Where the user is sent to see the session: the page's address with the
/// signed parameters as its query.
pub fn auth_redirect(config: &Config, token: &str) -> (r: String)
    ensures
        r@ == config@.ui_irma_url + "?"@ + token@,
{
    config.ui_irma_url().to_owned().concat("?").concat(token)
}

/// The request itself is at fault: the session is done with a valid proof,
/// and the first slot that is out of order bears a name that is not
/// configured.
pub open spec fn request_at_fault(
    mapping: Map<Seq<char>, Seq<Seq<char>>>,
    names: Seq<Seq<char>>,
    raw: RawIrmaResult,
) -> bool {
    exists|e: ErrorView| #[trigger]
        judged(mapping, names, raw.status, raw.proof_status, raw.disclosed.deep_view(), Err(e))
}

/// What a step that seals an outcome may end in: the error of a request
/// at fault, in exactly that case, and then nothing is sealed; otherwise
/// whatever the sealing gave. No path is read, so no segment fails.
pub open spec fn sealing_step<T>(
    mapping: Map<Seq<char>, Seq<Seq<char>>>,
    names: Seq<Seq<char>>,
    raw: RawIrmaResult,
    r: Result<T, Error>,
) -> bool {
    &&& (r matches Err(Error::Config(_))) <==> request_at_fault(mapping, names, raw)
    &&& (r matches Err(Error::Config(e)) ==> judged(
        mapping,
        names,
        raw.status,
        raw.proof_status,
        raw.disclosed.deep_view(),
        Err(e@),
    ))
    &&& !(r matches Err(Error::Segment(_)))
}

/// Judges the result of a session that was started for `attributes` and
/// seals the outcome, success or failure alike. Only a request for a name
/// that is not configured is an error of its own; then nothing is sealed.
pub fn finish(config: &Config, attributes: &[String], raw: RawIrmaResult) -> (r: Result<
    String,
    Error,
>)
    ensures
        sealing_step(config@.attributes, attributes.deep_view(), raw, r),
        r matches Ok(sealed) ==> dots(sealed@) == 4,
{
    match validate(config.attributes(), attributes, raw) {
        Err(e) => Err(Error::Config(e)),
        Ok(outcome) => {
            proof {
                assert forall|e: ErrorView|
                    !#[trigger] judged(
                        config@.attributes,
                        attributes.deep_view(),
                        raw.status,
                        raw.proof_status,
                        raw.disclosed.deep_view(),
                        Err(e),
                    ) by {
                    if judged(
                        config@.attributes,
                        attributes.deep_view(),
                        raw.status,
                        raw.proof_status,
                        raw.disclosed.deep_view(),
                        Err(e),
                    ) {
                        lemma_judgement_unique(
                            config@.attributes,
                            attributes.deep_view(),
                            raw.status,
                            raw.proof_status,
                            raw.disclosed.deep_view(),
                            Ok(outcome@),
                            Err(e),
                        );
                    }
                }
            }
            match sign_and_encrypt_outcome(&outcome, config.signer(), config.encrypter()) {
                Ok(sealed) => Ok(sealed),
                Err(e) => Err(Error::Jwt(e)),
            }
        },
    }
}

/// The in-band return, once the session's result is there: the sealed
/// outcome goes to the caller's continuation as a query parameter, and the
/// user is sent there.
pub fn decorated_continue(config: &Config, state: &ContinuationState, raw: RawIrmaResult) -> (r:
    Result<String, Error>)
    ensures
        sealing_step(config@.attributes, state.attributes.deep_view(), raw, r),
        r matches Ok(target) ==> exists|sealed: Seq<char>|
            dots(sealed) == 4 && target@ == #[trigger] redirect_target_spec(state.url@, sealed),
{
    match finish(config, state.attributes.as_slice(), raw) {
        Err(e) => Err(e),
        Ok(sealed) => Ok(redirect_target(state.url.as_str(), sealed.as_str())),
    }
}

/// What is delivered out of band, and where.
#[derive(Debug)]
pub struct Delivery {
    pub url: String,
    pub body: String,
}

/// The out-of-band return, once the session's result is there: the sealed
/// outcome is the body to post to the URL that the caller named.
pub fn session_complete(config: &Config, state: &ContinuationState, raw: RawIrmaResult) -> (r:
    Result<Delivery, Error>)
    ensures
        sealing_step(config@.attributes, state.attributes.deep_view(), raw, r),
        r matches Ok(delivery) ==> delivery.url@ == state.url@ && dots(delivery.body@) == 4,
{
    match finish(config, state.attributes.as_slice(), raw) {
        Err(e) => Err(e),
        Ok(sealed) => Ok(Delivery { url: state.url.clone(), body: sealed }),
    }
}

/// Where the user finally goes: the caller's continuation with the sealed
/// result attached.
pub fn redirect_target(continuation: &str, sealed: &str) -> (r: String)
    ensures
        r@ == redirect_target_spec(continuation@, sealed@),
{
    if has_char(continuation, '?') {
        continuation.to_owned().concat("&result=").concat(sealed)
    } else {
        continuation.to_owned().concat("?result=").concat(sealed)
    }
}

} // verus!
