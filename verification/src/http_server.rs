//! The HTTP side of the gateway: the two routes, the two encodings of a
//! query, and the response for every outcome of a request.

use crate::dns_client::{check_query, checked, parsed_questions, ParsedQuestion, QuestionShape};
use crate::text::{bytes_eq, text_eq};
use vstd::prelude::*;
use vstd::string::*;
use vstd::utf8::encode_utf8;

verus! {

/// How the handling of one request ended.
#[derive(Debug, Clone)]
pub enum GatewayOutcome {
    Success(Vec<u8>),
    BadRequest(&'static str),
    UnsupportedMediaType,
    Timeout,
    NotFound,
    ServerError,
}

/// Mathematical model of [`GatewayOutcome`].
pub ghost enum Outcome {
    Success(Seq<u8>),
    BadRequest(Seq<char>),
    UnsupportedMediaType,
    Timeout,
    NotFound,
    ServerError,
}

impl View for GatewayOutcome {
    type V = Outcome;

    open spec fn view(&self) -> Outcome {
        match self {
            GatewayOutcome::Success(body) => Outcome::Success(body@),
            GatewayOutcome::BadRequest(reason) => Outcome::BadRequest(reason@),
            GatewayOutcome::UnsupportedMediaType => Outcome::UnsupportedMediaType,
            GatewayOutcome::Timeout => Outcome::Timeout,
            GatewayOutcome::NotFound => Outcome::NotFound,
            GatewayOutcome::ServerError => Outcome::ServerError,
        }
    }
}

/// What is sent back: the status, the content type, the content length, and
/// the body.
#[derive(Debug, Clone)]
pub struct HttpResponse {
    pub status: u16,
    pub content_type: &'static str,
    pub content_length: usize,
    pub body: Vec<u8>,
}

/// Mathematical model of [`HttpResponse`]; the content length is that of the
/// body.
pub ghost struct ResponseShape {
    pub status: u16,
    pub content_type: Seq<char>,
    pub body: Seq<u8>,
}

impl HttpResponse {
    /// The content length is the length of the body.
    pub open spec fn wf(&self) -> bool {
        self.content_length == self.body@.len()
    }

    /// Whether the response is the one that `shape` describes, with the
    /// content length of its body.
    pub open spec fn has_shape(&self, shape: ResponseShape) -> bool {
        &&& self.status == shape.status
        &&& self.content_type@ == shape.content_type
        &&& self.body@ == shape.body
        &&& self.content_length == shape.body.len()
    }
}

pub open spec fn mime_text() -> Seq<char> {
    "text/plain"@
}

pub open spec fn mime_dns() -> Seq<char> {
    "application/dns-message"@
}

/// The reason phrase of the statuses that the gateway sends without a text
/// of its own: 404, 408 and 500.
pub open spec fn reason_phrase(status: u16) -> Seq<char> {
    if status == 404 {
        "Not Found"@
    } else if status == 408 {
        "Request Timeout"@
    } else {
        "Internal Server Error"@
    }
}

/// A response that carries a text.
pub open spec fn text_response(status: u16, text: Seq<char>) -> ResponseShape {
    ResponseShape { status: status, content_type: mime_text(), body: encode_utf8(text) }
}

/// The response for each outcome.
pub open spec fn response_of(outcome: Outcome) -> ResponseShape {
    match outcome {
        Outcome::Success(body) => ResponseShape {
            status: 200,
            content_type: mime_dns(),
            body: body,
        },
        Outcome::BadRequest(reason) => text_response(400, reason),
        Outcome::UnsupportedMediaType => text_response(415, "Unsupported content type"@),
        Outcome::Timeout => text_response(408, reason_phrase(408)),
        Outcome::NotFound => text_response(404, reason_phrase(404)),
        Outcome::ServerError => text_response(500, reason_phrase(500)),
    }
}

/// Calls `StatusCode::from_u16` and then `StatusCode::canonical_reason`, of
/// the crate `http` as `hyper` hands it on. Trusted: for 404, 408 and 500 the
/// phrase is there and is the one that `reason_phrase` gives; of the other
/// statuses nothing is claimed.
#[verifier::external_body]
fn canonical_reason(status: u16) -> (r: Option<&'static str>)
    ensures
        match r {
            Some(phrase) => status == 404 || status == 408 || status == 500 ==> phrase@
                == reason_phrase(status),
            None => status != 404 && status != 408 && status != 500,
        },
{
    hyper::StatusCode::from_u16(status).ok()?.canonical_reason()
}

/// HTTP status code 200
pub fn response_ok(body: Vec<u8>) -> (r: HttpResponse)
    ensures
        r.has_shape(response_of(Outcome::Success(body@))),
        r.wf(),
{
    HttpResponse {
        status: 200,
        content_type: "application/dns-message",
        content_length: body.len(),
        body: body,
    }
}

/// HTTP status code 400
pub fn response_bad_request(body: &'static str) -> (r: HttpResponse)
    ensures
        r.has_shape(response_of(Outcome::BadRequest(body@))),
{
    response_error2(400, body)
}

/// HTTP status code 404
pub fn response_not_found() -> (r: HttpResponse)
    ensures
        r.has_shape(response_of(Outcome::NotFound)),
{
    response_error(404)
}

/// HTTP status code 408
pub fn response_timeout() -> (r: HttpResponse)
    ensures
        r.has_shape(response_of(Outcome::Timeout)),
{
    response_error(408)
}

/// HTTP status code 415
pub fn response_unsupported_content_type() -> (r: HttpResponse)
    ensures
        r.has_shape(response_of(Outcome::UnsupportedMediaType)),
{
    response_error2(415, "Unsupported content type")
}

/// HTTP status code 500
pub fn response_server_error() -> (r: HttpResponse)
    ensures
        r.has_shape(response_of(Outcome::ServerError)),
{
    response_error(500)
}

/// The response for a status that is sent with its reason phrase as text.
pub fn response_error(status_code: u16) -> (r: HttpResponse)
    requires
        status_code == 404 || status_code == 408 || status_code == 500,
    ensures
        r.has_shape(text_response(status_code, reason_phrase(status_code))),
{
    match canonical_reason(status_code) {
        Some(phrase) => response_error2(status_code, phrase),
        None => vstd::pervasive::unreached(),
    }
}

/// The response with the given status and text.
pub fn response_error2(status_code: u16, body: &'static str) -> (r: HttpResponse)
    ensures
        r.has_shape(text_response(status_code, body@)),
        r.wf(),
{
    let bytes = body.as_bytes_vec();
    HttpResponse {
        status: status_code,
        content_type: "text/plain",
        content_length: bytes.len(),
        body: bytes,
    }
}

/// Maps the outcome of a request to its response.
pub fn encode_response(outcome: GatewayOutcome) -> (r: HttpResponse)
    ensures
        r.has_shape(response_of(outcome@)),
        r.wf(),
{
    match outcome {
        GatewayOutcome::Success(body) => response_ok(body),
        GatewayOutcome::BadRequest(reason) => response_bad_request(reason),
        GatewayOutcome::UnsupportedMediaType => response_unsupported_content_type(),
        GatewayOutcome::Timeout => response_timeout(),
        GatewayOutcome::NotFound => response_not_found(),
        GatewayOutcome::ServerError => response_server_error(),
    }
}

/// Where a request goes.
#[derive(Debug, Clone, Copy, PartialEq, Eq, Structural)]
pub enum Route {
    /// The query is in the `dns` parameter of the URL.
    Query,
    /// The query is the body of the request.
    Body,
    NotFound,
}

/// `GET /` and `POST /` are the two routes; nothing else is found.
pub open spec fn route_of(method: Seq<char>, path: Seq<char>) -> Route {
    if path == "/"@ && method == "GET"@ {
        Route::Query
    } else if path == "/"@ && method == "POST"@ {
        Route::Body
    } else {
        Route::NotFound
    }
}

/// Picks the route of a request from its method and the path of its URL.
/// A path other than `/` is not found, whatever the method and the query.
pub fn router(method: &str, path: &str) -> (r: Route)
    ensures
        r == route_of(method@, path@),
        path@ != "/"@ ==> r == Route::NotFound,
{
    if !text_eq(path, "/") {
        Route::NotFound
    } else if text_eq(method, "GET") {
        Route::Query
    } else if text_eq(method, "POST") {
        Route::Body
    } else {
        Route::NotFound
    }
}

/// The names and values of a list of parameters, in order.
pub open spec fn pairs_of(pairs: Seq<(String, String)>) -> Seq<(Seq<char>, Seq<char>)> {
    pairs.map_values(|p: (String, String)| (p.0@, p.1@))
}

/// The parameters that `form_urlencoded` reads from a query string, names
/// and values percent-decoded, in the order of the string.
pub uninterp spec fn parsed_pairs(query: Seq<char>) -> Seq<(Seq<char>, Seq<char>)>;

/// Calls `url::form_urlencoded::parse` on the bytes of the query string and
/// collects the pairs. Trusted: the result is what `parsed_pairs` names.
#[verifier::external_body]
fn query_pairs(query: &str) -> (r: Vec<(String, String)>)
    ensures
        pairs_of(r@) == parsed_pairs(query@),
{
    url::form_urlencoded::parse(query.as_bytes()).into_owned().collect()
}

#[verifier::external_type_specification]
#[verifier::external_body]
pub struct ExDecodeError(base64::DecodeError);

/// The bytes that a text stands for in URL-safe base64 without padding, as
/// `base64` decodes it, or `None` where it refuses the text.
pub uninterp spec fn base64url_decoded(text: Seq<char>) -> Option<Seq<u8>>;

/// Calls `base64::decode_config` with `URL_SAFE_NO_PAD`. Trusted: the result
/// is what `base64url_decoded` names, and an error comes exactly where that
/// is `None`.
#[verifier::external_body]
fn decode_base64url(text: &str) -> (r: Result<Vec<u8>, base64::DecodeError>)
    ensures
        match r {
            Ok(bytes) => base64url_decoded(text@) == Some(bytes@),
            Err(_) => base64url_decoded(text@) is None,
        },
{
    base64::decode_config(text, base64::URL_SAFE_NO_PAD)
}

/// The value of the first parameter with the given name.
pub open spec fn first_named(pairs: Seq<(Seq<char>, Seq<char>)>, name: Seq<char>) -> Option<
    Seq<char>,
>
    decreases pairs.len(),
{
    if pairs.len() == 0 {
        None
    } else if pairs[0].0 == name {
        Some(pairs[0].1)
    } else {
        first_named(pairs.drop_first(), name)
    }
}

/// The view of a text that may be absent.
pub open spec fn text_of(value: Option<String>) -> Option<Seq<char>> {
    match value {
        Some(v) => Some(v@),
        None => None,
    }
}

/// The value of the first parameter named `dns`.
pub fn first_dns_value(pairs: &Vec<(String, String)>) -> (r: Option<String>)
    ensures
        text_of(r) == first_named(pairs_of(pairs@), "dns"@),
{
    let ghost all = pairs_of(pairs@);
    proof {
        assert(all.subrange(0, all.len() as int) =~= all);
    }
    let mut i: usize = 0;
    while i < pairs.len()
        invariant
            i <= pairs@.len(),
            all == pairs_of(pairs@),
            first_named(all, "dns"@) == first_named(all.subrange(i as int, all.len() as int), "dns"@),
        decreases pairs@.len() - i,
    {
        let ghost rest = all.subrange(i as int, all.len() as int);
        proof {
            assert(rest.drop_first() =~= all.subrange(i + 1, all.len() as int));
            assert(rest[0] == all[i as int]);
        }
        if text_eq(pairs[i].0.as_str(), "dns") {
            return Some(pairs[i].1.clone());
        }
        i = i + 1;
    }
    proof {
        assert(all.subrange(i as int, all.len() as int).len() == 0);
    }
    None
}

/// The query of a GET request, from the value of its `dns` parameter and
/// what that value decodes to. A parameter that is absent or empty is
/// missing; a value that does not decode is refused.
pub open spec fn query_of(value: Option<Seq<char>>, decoded: Option<Seq<u8>>) -> Result<
    Seq<u8>,
    Outcome,
> {
    match value {
        None => Err(Outcome::BadRequest("Missing the dns parameter"@)),
        Some(v) => if v.len() == 0 {
            Err(Outcome::BadRequest("Missing the dns parameter"@))
        } else {
            match decoded {
                Some(bytes) => Ok(bytes),
                None => Err(Outcome::BadRequest("Could not decode the request"@)),
            }
        },
    }
}

/// The query of a GET request, from its query string.
pub open spec fn query_of_url(query: Option<Seq<char>>) -> Result<Seq<u8>, Outcome> {
    let value = match query {
        Some(q) => first_named(parsed_pairs(q), "dns"@),
        None => None,
    };
    query_of(
        value,
        match value {
            Some(v) => base64url_decoded(v),
            None => None,
        },
    )
}

/// Whether `r` is the decoding `expected`: the same bytes, or the same
/// outcome.
pub open spec fn decoding_is(
    r: Result<Vec<u8>, GatewayOutcome>,
    expected: Result<Seq<u8>, Outcome>,
) -> bool {
    match expected {
        Ok(bytes) => r matches Ok(b) && b@ == bytes,
        Err(outcome) => r matches Err(e) && e@ == outcome,
    }
}

/// What the decoder of base64 returned, as the decoding of a request.
pub fn decoded_or_refused(decoded: Result<Vec<u8>, base64::DecodeError>) -> (r: Result<
    Vec<u8>,
    GatewayOutcome,
>)
    ensures
        match decoded {
            Ok(bytes) => r matches Ok(b) && b@ == bytes@,
            Err(_) => r matches Err(e) && e@ == Outcome::BadRequest(
                "Could not decode the request"@,
            ),
        },
{
    match decoded {
        Ok(bytes) => Ok(bytes),
        Err(_) => Err(GatewayOutcome::BadRequest("Could not decode the request")),
    }
}

/// Decodes the value of the `dns` parameter.
pub fn decode_parameter(value: Option<String>) -> (r: Result<Vec<u8>, GatewayOutcome>)
    ensures
        decoding_is(
            r,
            query_of(
                text_of(value),
                match value {
                    Some(v) => base64url_decoded(v@),
                    None => None,
                },
            ),
        ),
{
    match value {
        None => Err(GatewayOutcome::BadRequest("Missing the dns parameter")),
        Some(v) => {
            if v.as_str().is_empty() {
                Err(GatewayOutcome::BadRequest("Missing the dns parameter"))
            } else {
                decoded_or_refused(decode_base64url(v.as_str()))
            }
        },
    }
}

/// Decodes the query of a GET request from the query string of its URL,
/// `None` where the URL has none.
pub fn decode_from_query(query: Option<&str>) -> (r: Result<Vec<u8>, GatewayOutcome>)
    ensures
        decoding_is(
            r,
            query_of_url(
                match query {
                    Some(q) => Some(q@),
                    None => None,
                },
            ),
        ),
{
    match query {
        Some(q) => {
            let pairs = query_pairs(q);
            decode_parameter(first_dns_value(&pairs))
        },
        None => decode_parameter(None),
    }
}

/// How the reading of a request's body ended.
#[derive(Debug, Clone)]
pub enum BodyRead {
    Complete(Vec<u8>),
    NetworkError,
    TimedOut,
}

/// The time that the reading of a body may take, in milliseconds.
pub open spec fn body_wait_millis() -> u64 {
    1000
}

/// Whether the header names the content type of a DNS message, exactly.
pub open spec fn is_dns_message(content_type: Option<&[u8]>) -> bool {
    content_type matches Some(value) && value@ == encode_utf8(mime_dns())
}

/// The query of a POST request, from its content type and the reading of
/// its body.
pub open spec fn query_of_body(dns_message: bool, read: BodyRead) -> Result<Seq<u8>, Outcome> {
    if !dns_message {
        Err(Outcome::UnsupportedMediaType)
    } else {
        match read {
            BodyRead::Complete(bytes) => Ok(bytes@),
            BodyRead::NetworkError => Err(Outcome::BadRequest("Network error"@)),
            BodyRead::TimedOut => Err(Outcome::Timeout),
        }
    }
}

/// Decides from the content type of a POST request whether its body is
/// read: the bound on the wait for it, or the outcome where it is not read.
pub fn body_read_limit(content_type: Option<&[u8]>) -> (r: Result<u64, GatewayOutcome>)
    ensures
        match r {
            Ok(millis) => is_dns_message(content_type) && millis == body_wait_millis(),
            Err(e) => !is_dns_message(content_type) && e@ == Outcome::UnsupportedMediaType,
        },
{
    match content_type {
        Some(value) => {
            if bytes_eq(value, "application/dns-message".as_bytes()) {
                Ok(1000)
            } else {
                Err(GatewayOutcome::UnsupportedMediaType)
            }
        },
        None => Err(GatewayOutcome::UnsupportedMediaType),
    }
}

/// The query that the reading of a body gave.
pub fn body_outcome(read: BodyRead) -> (r: Result<Vec<u8>, GatewayOutcome>)
    ensures
        decoding_is(r, query_of_body(true, read)),
{
    match read {
        BodyRead::Complete(bytes) => Ok(bytes),
        BodyRead::NetworkError => Err(GatewayOutcome::BadRequest("Network error")),
        BodyRead::TimedOut => Err(GatewayOutcome::Timeout),
    }
}

/// Decodes the query of a POST request from its content type and the
/// reading of its body.
pub fn decode_from_body(content_type: Option<&[u8]>, read: BodyRead) -> (r: Result<
    Vec<u8>,
    GatewayOutcome,
>)
    ensures
        decoding_is(r, query_of_body(is_dns_message(content_type), read)),
{
    match body_read_limit(content_type) {
        Ok(_) => body_outcome(read),
        Err(e) => Err(e),
    }
}

/// Checks a decoded query before it is forwarded: the question to ask the
/// resolver, where the query is a readable message with exactly one
/// question, and a server error where it is not.
pub fn accept_query(request: &[u8]) -> (r: Result<ParsedQuestion, GatewayOutcome>)
    ensures
        match checked(parsed_questions(request@)) {
            Ok(question) => r matches Ok(q) && q@ == question,
            Err(_) => r matches Err(e) && e@ == Outcome::ServerError,
        },
{
    match check_query(request) {
        Ok(question) => Ok(question),
        Err(_) => Err(GatewayOutcome::ServerError),
    }
}

/// The outcome of a forwarded query, from what the resolver gave: its
/// answer as it is, or a server error where it gave none.
pub fn forward_outcome(answer: Option<Vec<u8>>) -> (r: GatewayOutcome)
    ensures
        r@ == forwarded(
            match answer {
                Some(bytes) => Some(bytes@),
                None => None,
            },
        ),
{
    match answer {
        Some(bytes) => GatewayOutcome::Success(bytes),
        None => GatewayOutcome::ServerError,
    }
}

pub open spec fn forwarded(answer: Option<Seq<u8>>) -> Outcome {
    match answer {
        Some(bytes) => Outcome::Success(bytes),
        None => Outcome::ServerError,
    }
}

/// What the gateway does next for a request.
#[derive(Debug, Clone)]
pub enum Step {
    /// Send the response: the request is done.
    Respond(HttpResponse),
    /// Read the body of the request, waiting no longer than the given
    /// number of milliseconds, and go on with `on_body`.
    ReadBody(u64),
    /// Ask the resolver the question of the query, whose bytes come with
    /// it, and go on with `on_answer`.
    Resolve(Vec<u8>, ParsedQuestion),
}

/// Mathematical model of [`Step`].
pub ghost enum StepShape {
    Respond(ResponseShape),
    ReadBody(u64),
    Resolve(Seq<u8>, QuestionShape),
}

impl Step {
    /// Whether the step is the one that `shape` describes.
    pub open spec fn has_shape(&self, shape: StepShape) -> bool {
        match shape {
            StepShape::Respond(response) => *self matches Step::Respond(r) && r.has_shape(response),
            StepShape::ReadBody(millis) => *self matches Step::ReadBody(m) && m == millis,
            StepShape::Resolve(bytes, question) => *self matches Step::Resolve(b, q) && b@ == bytes
                && q@ == question,
        }
    }
}

/// The step after the decoding of a query: a query that was decoded and
/// holds exactly one question goes to the resolver; one that was decoded
/// and cannot be read, or holds another number of questions, is a server
/// error; one that was not decoded has the response of its outcome.
pub open spec fn step_after_decoding(decoded: Result<Seq<u8>, Outcome>) -> StepShape {
    match decoded {
        Err(outcome) => StepShape::Respond(response_of(outcome)),
        Ok(bytes) => match checked(parsed_questions(bytes)) {
            Ok(question) => StepShape::Resolve(bytes, question),
            Err(_) => StepShape::Respond(response_of(Outcome::ServerError)),
        },
    }
}

/// The first step for a request, from its method, the path and the query
/// string of its URL, and its content type.
pub open spec fn first_step(
    method: Seq<char>,
    path: Seq<char>,
    query: Option<Seq<char>>,
    content_type: Option<&[u8]>,
) -> StepShape {
    match route_of(method, path) {
        Route::Query => step_after_decoding(query_of_url(query)),
        Route::Body => if is_dns_message(content_type) {
            StepShape::ReadBody(body_wait_millis())
        } else {
            StepShape::Respond(response_of(Outcome::UnsupportedMediaType))
        },
        Route::NotFound => StepShape::Respond(response_of(Outcome::NotFound)),
    }
}

/// Goes on with a query that was decoded, or not.
pub fn after_decoding(decoded: Result<Vec<u8>, GatewayOutcome>) -> (r: Step)
    ensures
        r.has_shape(
            step_after_decoding(
                match decoded {
                    Ok(bytes) => Ok(bytes@),
                    Err(outcome) => Err(outcome@),
                },
            ),
        ),
{
    match decoded {
        Err(outcome) => Step::Respond(encode_response(outcome)),
        Ok(bytes) => match accept_query(bytes.as_slice()) {
            Ok(question) => Step::Resolve(bytes, question),
            Err(outcome) => Step::Respond(encode_response(outcome)),
        },
    }
}

/// Takes a request: `query` is the query string of its URL, where it has
/// one, and `content_type` the value of its content type header, where it
/// has one.
pub fn on_request(method: &str, path: &str, query: Option<&str>, content_type: Option<&[u8]>) -> (r:
    Step)
    ensures
        r.has_shape(
            first_step(
                method@,
                path@,
                match query {
                    Some(q) => Some(q@),
                    None => None,
                },
                content_type,
            ),
        ),
{
    match router(method, path) {
        Route::Query => after_decoding(decode_from_query(query)),
        Route::Body => match body_read_limit(content_type) {
            Ok(millis) => Step::ReadBody(millis),
            Err(outcome) => Step::Respond(encode_response(outcome)),
        },
        Route::NotFound => Step::Respond(encode_response(GatewayOutcome::NotFound)),
    }
}

/// Goes on after the reading of the body.
pub fn on_body(read: BodyRead) -> (r: Step)
    ensures
        r.has_shape(step_after_decoding(query_of_body(true, read))),
{
    after_decoding(body_outcome(read))
}

/// The response after the resolver was asked: `answer` is what it gave,
/// `None` where it failed.
pub fn on_answer(answer: Option<Vec<u8>>) -> (r: HttpResponse)
    ensures
        r.has_shape(
            response_of(
                forwarded(
                    match answer {
                        Some(bytes) => Some(bytes@),
                        None => None,
                    },
                ),
            ),
        ),
        r.wf(),
{
    encode_response(forward_outcome(answer))
}

/// A request for a path other than `/` is not found, whatever its method,
/// its query string and its content type.
pub proof fn lemma_other_path_is_not_found(
    method: Seq<char>,
    path: Seq<char>,
    query: Option<Seq<char>>,
    content_type: Option<&[u8]>,
)
    requires
        path != "/"@,
    ensures
        first_step(method, path, query, content_type) == StepShape::Respond(
            response_of(Outcome::NotFound),
        ),
        response_of(Outcome::NotFound).status == 404,
{
}

/// A GET request on `/` whose `dns` parameter is absent or empty is a bad
/// request with the text `Missing the dns parameter`.
pub proof fn lemma_missing_parameter_is_bad_request(
    query: Option<Seq<char>>,
    content_type: Option<&[u8]>,
)
    requires
        query matches Some(q) ==> (first_named(parsed_pairs(q), "dns"@) matches Some(v) ==> v.len()
            == 0),
    ensures
        first_step("GET"@, "/"@, query, content_type) == StepShape::Respond(
            text_response(400, "Missing the dns parameter"@),
        ),
{
}

/// A GET request on `/` whose `dns` parameter is not empty and does not
/// decode is a bad request with the text `Could not decode the request`.
pub proof fn lemma_undecodable_parameter_is_bad_request(
    query: Seq<char>,
    content_type: Option<&[u8]>,
)
    requires
        first_named(parsed_pairs(query), "dns"@) matches Some(v) && v.len() > 0
            && base64url_decoded(v) is None,
    ensures
        first_step("GET"@, "/"@, Some(query), content_type) == StepShape::Respond(
            text_response(400, "Could not decode the request"@),
        ),
{
}

/// A POST request on `/` whose content type is not that of a DNS message,
/// or is not there, is answered with status 415, and its body is not read.
pub proof fn lemma_other_content_type_is_unsupported(
    query: Option<Seq<char>>,
    content_type: Option<&[u8]>,
)
    requires
        !is_dns_message(content_type),
    ensures
        first_step("POST"@, "/"@, query, content_type) == StepShape::Respond(
            text_response(415, "Unsupported content type"@),
        ),
{
    reveal_strlit("POST");
    reveal_strlit("GET");
    assert("POST"@.len() == 4 && "GET"@.len() == 3);
}

/// A POST request on `/` with the content type of a DNS message has its
/// body read, with a wait of 1000 milliseconds at most.
pub proof fn lemma_dns_message_body_is_read(query: Option<Seq<char>>, content_type: Option<&[u8]>)
    requires
        is_dns_message(content_type),
    ensures
        first_step("POST"@, "/"@, query, content_type) == StepShape::ReadBody(1000),
{
    reveal_strlit("POST");
    reveal_strlit("GET");
    assert("POST"@.len() == 4 && "GET"@.len() == 3);
}

/// A body whose reading took too long is answered with status 408.
pub proof fn lemma_stalled_body_is_timeout()
    ensures
        step_after_decoding(query_of_body(true, BodyRead::TimedOut)) == StepShape::Respond(
            text_response(408, reason_phrase(408)),
        ),
{
}

/// A decoded query that cannot be read, or that holds no question or more
/// than one, is answered with status 500 and never reaches the resolver.
pub proof fn lemma_question_count_is_enforced(request: Seq<u8>)
    requires
        parsed_questions(request) matches Some(questions) ==> questions.len() != 1,
    ensures
        step_after_decoding(Ok(request)) == StepShape::Respond(
            text_response(500, reason_phrase(500)),
        ),
{
}

/// A decoded query with exactly one question goes to the resolver with that
/// question, and with the bytes as they were decoded.
pub proof fn lemma_single_question_is_forwarded(request: Seq<u8>)
    requires
        parsed_questions(request) matches Some(questions) && questions.len() == 1,
    ensures
        step_after_decoding(Ok(request)) == StepShape::Resolve(
            request,
            parsed_questions(request)->0[0],
        ),
{
}

/// The response to a query that the resolver answered holds the answer
/// unchanged: status 200, the content type of a DNS message, the answer as
/// body and its length as content length.
pub proof fn lemma_answer_is_sent_unchanged(answer: Seq<u8>, response: HttpResponse)
    requires
        response.has_shape(response_of(forwarded(Some(answer)))),
    ensures
        response.status == 200,
        response.content_type@ == "application/dns-message"@,
        response.content_length == answer.len(),
        response.body@ == answer,
{
}

/// A text that decodes to some bytes, given as the first `dns` parameter of
/// a query string, is decoded to those bytes.
pub proof fn lemma_query_gives_decoded_bytes(query: Seq<char>, text: Seq<char>, bytes: Seq<u8>)
    requires
        first_named(parsed_pairs(query), "dns"@) == Some(text),
        text.len() > 0,
        base64url_decoded(text) == Some(bytes),
    ensures
        query_of_url(Some(query)) == Ok::<Seq<u8>, Outcome>(bytes),
{
}

} // verus!
