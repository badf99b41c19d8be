//! One exchange with the API, without the transport: the GET that is to be
//! made, and what a reply to it amounts to.

use crate::error::DeezerError;
use crate::models::DeezerArray;
use crate::params::QueryParams;
use vstd::prelude::*;

verus! {

/// The origin that every relative path is joined to.
pub const BASE_URL: &'static str = "https://api.deezer.com";

/// The status by which the server says that nothing lives at an address.
pub const NOT_FOUND: u16 = 404;

/// The absolute address of a relative path: the origin, a slash, the path.
pub open spec fn absolute_url(path: Seq<char>) -> Seq<char> {
    BASE_URL@ + "/"@ + path
}

/// Whether a status lies in the success range.
pub open spec fn is_success(status: u16) -> bool {
    200 <= status <= 299
}

/// What the status "not found" means for a request.
#[derive(Debug, Clone, Copy, PartialEq, Eq, Structural)]
pub enum OnMissing {
    /// A lookup by identifier: nothing lives there, which is a result.
    Absent,
    /// Any other request: the address is expected to answer, so it is a
    /// failure like every other unsuccessful status.
    Fail,
}

/// What is to be done with a response, once its status is known.
#[derive(Debug, Clone, Copy, PartialEq, Eq, Structural)]
pub enum Disposition {
    /// The resource does not exist; the body is not read.
    Absent,
    /// The body is to be read and decoded.
    Decode,
    /// The fetch has failed with this error; the body is not read.
    Fail(DeezerError),
}

/// The disposition of a response by its status. "Not found" is looked at
/// first, and only for lookups; then the success range decides.
pub open spec fn disposition_of(on_missing: OnMissing, status: u16) -> Disposition {
    if on_missing == OnMissing::Absent && status == NOT_FOUND {
        Disposition::Absent
    } else if is_success(status) {
        Disposition::Decode
    } else {
        Disposition::Fail(DeezerError::Status(status))
    }
}

/// One GET: the absolute address, the query parameters if any are to be
/// attached, and the meaning of "not found".
#[derive(Debug)]
pub struct Request {
    pub url: String,
    pub params: Option<QueryParams>,
    pub on_missing: OnMissing,
}

/// A request as contracts see it.
pub struct RequestView {
    pub url: Seq<char>,
    pub params: Option<Seq<(Seq<char>, Seq<char>)>>,
    pub on_missing: OnMissing,
}

impl View for Request {
    type V = RequestView;

    open spec fn view(&self) -> RequestView {
        RequestView {
            url: self.url@,
            params: match self.params {
                Some(params) => Some(params@),
                None => None,
            },
            on_missing: self.on_missing,
        }
    }
}

/// The request for `path` with the given parameters and policy.
pub open spec fn request_for(
    path: Seq<char>,
    params: Option<Seq<(Seq<char>, Seq<char>)>>,
    on_missing: OnMissing,
) -> RequestView {
    RequestView { url: absolute_url(path), params, on_missing }
}

/// The lookup of the instance at `path`: no parameters, and "not found" means absent.
pub open spec fn lookup_request(path: Seq<char>) -> RequestView {
    request_for(path, None, OnMissing::Absent)
}

/// The plain GET of `path`: no parameters, and "not found" is a failure.
pub open spec fn plain_request(path: Seq<char>) -> RequestView {
    request_for(path, None, OnMissing::Fail)
}

/// The GET of `path` with parameters attached; "not found" is a failure.
pub open spec fn query_request(path: Seq<char>, params: Seq<(Seq<char>, Seq<char>)>) -> RequestView {
    request_for(path, Some(params), OnMissing::Fail)
}

/// Joins the origin and a relative path.
pub fn make_absolute_url(path: &str) -> (url: String)
    ensures
        url@ == absolute_url(path@),
{
    let mut url = String::from_str(BASE_URL);
    url.append("/");
    url.append(path);
    url
}

impl Request {
    /// The request for the relative path `path`.
    pub fn new(path: &str, params: Option<QueryParams>, on_missing: OnMissing) -> (request: Request)
        ensures
            request@ == request_for(
                path@,
                match params {
                    Some(p) => Some(p@),
                    None => None,
                },
                on_missing,
            ),
    {
        Request { url: make_absolute_url(path), params, on_missing }
    }

    /// What is to be done with a response of this status.
    pub fn disposition(&self, status: u16) -> (disposition: Disposition)
        ensures
            disposition == disposition_of(self.on_missing, status),
    {
        if self.on_missing == OnMissing::Absent && status == NOT_FOUND {
            Disposition::Absent
        } else if 200 <= status && status <= 299 {
            Disposition::Decode
        } else {
            Disposition::Fail(DeezerError::Status(status))
        }
    }
}

/// What the transport reports of one exchange.
#[derive(Debug)]
pub enum Reply<T> {
    /// No response arrived.
    Unreachable,
    /// A response arrived. `body` holds what its body decoded to; it is
    /// `None` where the body was not read or did not decode.
    Answered { status: u16, body: Option<T> },
}

/// The result of a lookup by identifier, for every reply.
pub open spec fn entity_outcome<T>(reply: Reply<T>) -> Result<Option<T>, DeezerError> {
    match reply {
        Reply::Unreachable => Err(DeezerError::Transport),
        Reply::Answered { status, body } => match disposition_of(OnMissing::Absent, status) {
            Disposition::Absent => Ok(None),
            Disposition::Fail(error) => Err(error),
            Disposition::Decode => match body {
                Some(value) => Ok(Some(value)),
                None => Err(DeezerError::Decode),
            },
        },
    }
}

/// The result of a fetch that expects an answer, for every reply.
pub open spec fn payload_outcome<T>(reply: Reply<T>) -> Result<T, DeezerError> {
    match reply {
        Reply::Unreachable => Err(DeezerError::Transport),
        Reply::Answered { status, body } => match disposition_of(OnMissing::Fail, status) {
            Disposition::Absent => Err(DeezerError::Status(status)),
            Disposition::Fail(error) => Err(error),
            Disposition::Decode => match body {
                Some(value) => Ok(value),
                None => Err(DeezerError::Decode),
            },
        },
    }
}

/// The result of a fetch of a collection, for every reply: the items of the
/// envelope, in the server's order.
pub open spec fn array_outcome<T>(reply: Reply<DeezerArray<T>>) -> Result<Seq<T>, DeezerError> {
    match payload_outcome(reply) {
        Ok(envelope) => Ok(envelope@),
        Err(error) => Err(error),
    }
}

/// Concludes a lookup by identifier: `None` where the server says "not
/// found", the decoded value where it answers with success, an error
/// otherwise.
pub fn resolve_entity<T>(reply: Reply<T>) -> (result: Result<Option<T>, DeezerError>)
    ensures
        result == entity_outcome(reply),
{
    match reply {
        Reply::Unreachable => Err(DeezerError::Transport),
        Reply::Answered { status, body } => {
            if status == NOT_FOUND {
                Ok(None)
            } else if 200 <= status && status <= 299 {
                match body {
                    Some(value) => Ok(Some(value)),
                    None => Err(DeezerError::Decode),
                }
            } else {
                Err(DeezerError::Status(status))
            }
        },
    }
}

/// Concludes a fetch that expects an answer: the decoded value where the
/// server answers with success, an error otherwise.
pub fn resolve_payload<T>(reply: Reply<T>) -> (result: Result<T, DeezerError>)
    ensures
        result == payload_outcome(reply),
{
    match reply {
        Reply::Unreachable => Err(DeezerError::Transport),
        Reply::Answered { status, body } => {
            if 200 <= status && status <= 299 {
                match body {
                    Some(value) => Ok(value),
                    None => Err(DeezerError::Decode),
                }
            } else {
                Err(DeezerError::Status(status))
            }
        },
    }
}

/// Concludes a fetch of a collection: the items of the envelope as a plain
/// sequence, in the server's order, or an error.
pub fn resolve_array<T>(reply: Reply<DeezerArray<T>>) -> (result: Result<Vec<T>, DeezerError>)
    ensures
        match array_outcome(reply) {
            Ok(items) => result matches Ok(v) && v@ == items,
            Err(error) => result == Err::<Vec<T>, DeezerError>(error),
        },
{
    match resolve_payload(reply) {
        Ok(envelope) => Ok(envelope.data),
        Err(error) => Err(error),
    }
}

/// An absolute address is the origin, one slash, and the relative path,
/// unchanged.
pub proof fn lemma_absolute_url_shape(path: Seq<char>)
    ensures
        absolute_url(path).len() == BASE_URL@.len() + 1 + path.len(),
        absolute_url(path).subrange(0, BASE_URL@.len() as int) == BASE_URL@,
        absolute_url(path)[BASE_URL@.len() as int] == '/',
        absolute_url(path).subrange(BASE_URL@.len() as int + 1, absolute_url(path).len() as int) == path,
{
    reveal_strlit("/");
    let url = absolute_url(path);
    assert(url.subrange(0, BASE_URL@.len() as int) =~= BASE_URL@);
    assert(url.subrange(BASE_URL@.len() as int + 1, url.len() as int) =~= path);
}

/// Two relative paths with the same absolute address are the same path.
pub proof fn lemma_absolute_url_injective(a: Seq<char>, b: Seq<char>)
    requires
        absolute_url(a) == absolute_url(b),
    ensures
        a == b,
{
    lemma_absolute_url_shape(a);
    lemma_absolute_url_shape(b);
}

/// Every status has exactly one disposition: "not found" is absence for a
/// lookup and for nothing else, the success range calls for decoding, and
/// every other status is a failure that carries it.
pub proof fn lemma_disposition_cases(on_missing: OnMissing, status: u16)
    ensures
        disposition_of(on_missing, status) == Disposition::Absent <==> (on_missing
            == OnMissing::Absent && status == NOT_FOUND),
        disposition_of(on_missing, status) == Disposition::Decode <==> is_success(status),
        disposition_of(on_missing, status) is Fail <==> (!is_success(status) && !(on_missing
            == OnMissing::Absent && status == NOT_FOUND)),
        disposition_of(on_missing, status) matches Disposition::Fail(error) ==> error
            == DeezerError::Status(status),
{
}

/// A lookup that the server answers with "not found" yields `None`, and no
/// error, whatever came with the response.
pub proof fn lemma_not_found_is_absent<T>(body: Option<T>)
    ensures
        entity_outcome(Reply::Answered { status: NOT_FOUND, body }) == Ok::<
            Option<T>,
            DeezerError,
        >(None),
{
}

/// A lookup yields `None` only where the server answers "not found".
pub proof fn lemma_absent_only_on_not_found<T>(reply: Reply<T>)
    requires
        entity_outcome(reply) == Ok::<Option<T>, DeezerError>(None),
    ensures
        reply matches Reply::Answered { status, .. } && status == NOT_FOUND,
{
}

/// A lookup that the server answers with success and a body of the right
/// shape yields that value.
pub proof fn lemma_success_is_found<T>(status: u16, value: T)
    requires
        is_success(status),
    ensures
        entity_outcome(Reply::Answered { status, body: Some(value) }) == Ok::<
            Option<T>,
            DeezerError,
        >(Some(value)),
        payload_outcome(Reply::Answered { status, body: Some(value) }) == Ok::<T, DeezerError>(
            value,
        ),
{
}

/// The three kinds of failure, each with the replies that give it: no
/// response, a status outside the success range, and a body that does not
/// decode. Where "not found" is no absence, it is a failure by status.
pub proof fn lemma_failures<T>(reply: Reply<T>)
    ensures
        payload_outcome(reply) == Err::<T, DeezerError>(DeezerError::Transport) <==> reply
            is Unreachable,
        payload_outcome(reply) == Err::<T, DeezerError>(DeezerError::Decode) <==> (reply matches Reply::Answered {
            status,
            body,
        } && is_success(status) && body is None),
        forall|code: u16|
            payload_outcome(reply) == Err::<T, DeezerError>(DeezerError::Status(code)) <==> (
            reply matches Reply::Answered { status, .. } && status == code && !is_success(code)),
        entity_outcome(reply) == Err::<Option<T>, DeezerError>(DeezerError::Transport) <==> reply
            is Unreachable,
        entity_outcome(reply) == Err::<Option<T>, DeezerError>(DeezerError::Decode) <==> (reply matches Reply::Answered {
            status,
            body,
        } && is_success(status) && body is None),
        forall|code: u16|
            entity_outcome(reply) == Err::<Option<T>, DeezerError>(DeezerError::Status(code)) <==> (
            reply matches Reply::Answered { status, .. } && status == code && !is_success(code)
                && code != NOT_FOUND),
{
}

/// Unwrapping an envelope keeps its items and their order; an envelope
/// without items yields the empty sequence, and no error.
pub proof fn lemma_envelope_unwrapped<T>(status: u16, envelope: DeezerArray<T>)
    requires
        is_success(status),
    ensures
        array_outcome(Reply::Answered { status, body: Some(envelope) }) == Ok::<
            Seq<T>,
            DeezerError,
        >(envelope@),
        envelope@.len() == 0 ==> array_outcome(Reply::Answered { status, body: Some(envelope) })
            == Ok::<Seq<T>, DeezerError>(Seq::empty()),
{
    if envelope@.len() == 0 {
        assert(envelope@ =~= Seq::<T>::empty());
    }
}

/// What a fetch yields agrees with the disposition of the response: the
/// body counts where, and only where, the disposition is to decode it.
pub proof fn lemma_outcome_follows_disposition<T>(status: u16, body: Option<T>)
    ensures
        match disposition_of(OnMissing::Absent, status) {
            Disposition::Absent => entity_outcome(Reply::Answered { status, body }) == Ok::<
                Option<T>,
                DeezerError,
            >(None),
            Disposition::Fail(error) => entity_outcome(Reply::Answered { status, body }) == Err::<
                Option<T>,
                DeezerError,
            >(error),
            Disposition::Decode => entity_outcome(Reply::Answered { status, body }) == (match body {
                Some(value) => Ok::<Option<T>, DeezerError>(Some(value)),
                None => Err::<Option<T>, DeezerError>(DeezerError::Decode),
            }),
        },
        match disposition_of(OnMissing::Fail, status) {
            Disposition::Absent => false,
            Disposition::Fail(error) => payload_outcome(Reply::Answered { status, body }) == Err::<
                T,
                DeezerError,
            >(error),
            Disposition::Decode => payload_outcome(Reply::Answered { status, body }) == (match body {
                Some(value) => Ok::<T, DeezerError>(value),
                None => Err::<T, DeezerError>(DeezerError::Decode),
            }),
        },
{
}

/// Asking twice is asking the same: two requests planned for the same
/// address, parameters and policy are equal, and equal replies to them give
/// equal results. Nothing that was planned or concluded before plays a part.
pub proof fn lemma_fetch_repeatable<T>(
    path: Seq<char>,
    params: Option<Seq<(Seq<char>, Seq<char>)>>,
    on_missing: OnMissing,
    first: Request,
    second: Request,
    first_reply: Reply<T>,
    second_reply: Reply<T>,
)
    requires
        first@ == request_for(path, params, on_missing),
        second@ == request_for(path, params, on_missing),
        first_reply == second_reply,
    ensures
        first@ == second@,
        forall|status: u16|
            disposition_of(first.on_missing, status) == disposition_of(second.on_missing, status),
        entity_outcome(first_reply) == entity_outcome(second_reply),
        payload_outcome(first_reply) == payload_outcome(second_reply),
{
}

} // verus!
