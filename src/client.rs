//! The client: its authenticated connection, what a status reply means, and
//! what the polling loop does after each check. The requests themselves are
//! sent by the caller, which hands the outcomes back here.

use vstd::prelude::*;
use vstd::string::StringExecFns;

use crate::error::DiffusionError;
use crate::image::DiffusionImage;

verus! {

/// An HTTP client that keeps its connections and default headers.
#[verifier::external_type_specification]
#[verifier::external_body]
pub struct ExClient(reqwest::Client);

/// The value of one HTTP header.
#[verifier::external_type_specification]
#[verifier::external_body]
pub struct ExHeaderValue(reqwest::header::HeaderValue);

/// Where a request is submitted.
pub const API_URL: &'static str = "https://diffusion.to/api/image";

/// Where the status of a token is asked for.
pub const STATUS_URL: &'static str = "https://diffusion.to/api/image/status";

/// The status code of a reply whose body holds the finished image.
pub const HTTP_CREATED: u16 = 201;

/// The status code of a reply that says the image is not finished yet.
pub const HTTP_NO_CONTENT: u16 = 204;

/// The time between two checks of the polling loop, in milliseconds.
pub const POLL_INTERVAL_MS: u64 = 5000;

/// The media type asked for in every reply.
pub const ACCEPT_JSON: &'static str = "application/json";

/// Whether `c` may stand in an HTTP header value: a tab, or neither a control
/// character below 32 nor DEL. (Characters beyond ASCII are accepted: each of
/// their UTF-8 bytes is 128 or more.)
pub open spec fn valid_header_char(c: char) -> bool {
    c == '\t' || (c as u32 >= 32 && c as u32 != 127)
}

/// Whether `s` may stand as an HTTP header value.
pub open spec fn valid_header_text(s: Seq<char>) -> bool {
    forall|i: int| 0 <= i < s.len() ==> valid_header_char(#[trigger] s[i])
}

/// The value of the authorization header for the key `key`.
pub open spec fn bearer_text(key: Seq<char>) -> Seq<char> {
    "Bearer "@ + key
}

/// Relies on `HeaderValue::from_str`: it accepts exactly the strings whose
/// bytes are each a tab, or at least 32 and not 127.
#[verifier::external_body]
fn header_value(s: &str) -> (r: Result<reqwest::header::HeaderValue, reqwest::header::InvalidHeaderValue>)
    ensures
        r is Ok <==> valid_header_text(s@),
{
    reqwest::header::HeaderValue::from_str(s)
}

/// Relies on `HeaderValue::set_sensitive`: the value is kept out of logs.
#[verifier::external_body]
fn mark_sensitive(v: &mut reqwest::header::HeaderValue) {
    v.set_sensitive(true)
}

/// Relies on `ClientBuilder::default_headers` and `ClientBuilder::build`: a
/// client that sends the two headers with every request, or the error that
/// building it met.
#[verifier::external_body]
fn build_client(
    authorization: reqwest::header::HeaderValue,
    accept: reqwest::header::HeaderValue,
) -> (r: Result<reqwest::Client, reqwest::Error>) {
    let mut headers = reqwest::header::HeaderMap::new();
    headers.insert(reqwest::header::AUTHORIZATION, authorization);
    headers.insert(reqwest::header::ACCEPT, accept);
    reqwest::Client::builder().default_headers(headers).build()
}

/// The headers that a client sends with every request, as text.
pub ghost struct ClientView {
    pub authorization: Seq<char>,
    pub accept: Seq<char>,
}

/// The client of the service. It sends the bearer key and asks for JSON with
/// every request.
pub struct DiffusionClient {
    api: reqwest::Client,
    authorization: Ghost<Seq<char>>,
    accept: Ghost<Seq<char>>,
}

impl View for DiffusionClient {
    type V = ClientView;

    closed spec fn view(&self) -> ClientView {
        ClientView { authorization: self.authorization@, accept: self.accept@ }
    }
}

/// The value of the authorization header for the key `key`: `Bearer `, then
/// the key.
pub fn authorization_value(key: &str) -> (r: String)
    ensures
        r@ == bearer_text(key@),
{
    let mut bearer = "Bearer ".to_owned();
    bearer.append(key);
    bearer
}

impl DiffusionClient {
    /// A client that authenticates with `key`: it sends `Bearer <key>`, marked
    /// sensitive, as its authorization header and asks for JSON. A key that
    /// cannot stand in a header gives `InvalidHeader`; otherwise only the HTTP
    /// client's own set-up can fail.
    pub fn new(key: String) -> (r: Result<DiffusionClient, DiffusionError>)
        ensures
            r matches Err(DiffusionError::InvalidHeader(_)) <==> !valid_header_text(
                bearer_text(key@),
            ),
            r is Ok || r matches Err(DiffusionError::InvalidHeader(_)) || r matches Err(
                DiffusionError::ReqwestError(_),
            ),
            r matches Ok(c) ==> c@.authorization == bearer_text(key@) && c@.accept
                == ACCEPT_JSON@,
    {
        let bearer = authorization_value(key.as_str());
        let ghost authorization_text = bearer@;
        let mut authorization = match header_value(bearer.as_str()) {
            Ok(v) => v,
            Err(e) => return Err(DiffusionError::InvalidHeader(e)),
        };
        mark_sensitive(&mut authorization);
        proof {
            reveal_strlit("application/json");
            assert(valid_header_text(ACCEPT_JSON@));
        }
        let ghost accept_text = ACCEPT_JSON@;
        let accept = match header_value(ACCEPT_JSON) {
            Ok(v) => v,
            Err(e) => return Err(DiffusionError::InvalidHeader(e)),
        };
        match build_client(authorization, accept) {
            Ok(api) => Ok(
                DiffusionClient {
                    api,
                    authorization: Ghost(authorization_text),
                    accept: Ghost(accept_text),
                },
            ),
            Err(e) => Err(DiffusionError::ReqwestError(e)),
        }
    }

    /// The HTTP client, with the headers set.
    pub fn api(&self) -> &reqwest::Client {
        &self.api
    }
}

/// What a status reply with code `code` means: `Ok` where its body holds
/// the image, the not-ready signal on 204, and any other code as an
/// unexpected one.
pub open spec fn status_meaning(code: u16) -> Result<(), DiffusionError> {
    if code == HTTP_CREATED {
        Ok(())
    } else if code == HTTP_NO_CONTENT {
        Err(DiffusionError::ImageStatusNotReady)
    } else {
        Err(DiffusionError::UnknownHttpError(code))
    }
}

/// Reads the status code of a reply from the status endpoint. `Ok` says
/// that the body is to be read for the image.
pub fn status_outcome(code: u16) -> (r: Result<(), DiffusionError>)
    ensures
        r == status_meaning(code),
        r is Ok <==> code == 201,
        r matches Err(DiffusionError::ImageStatusNotReady) <==> code == 204,
        code != 201 && code != 204 ==> r == Err::<(), DiffusionError>(
            DiffusionError::UnknownHttpError(code),
        ),
{
    if code == HTTP_CREATED {
        Ok(())
    } else if code == HTTP_NO_CONTENT {
        Err(DiffusionError::ImageStatusNotReady)
    } else {
        Err(DiffusionError::UnknownHttpError(code))
    }
}

/// What the polling loop does after a check.
#[derive(Debug)]
pub enum PollStep {
    /// Stop, and return this.
    Finished(Result<DiffusionImage, DiffusionError>),
    /// Wait this many milliseconds, then check again.
    Sleep(u64),
}

/// Whether the deadline, given as a wait in milliseconds from the start of
/// the loop, has passed at `elapsed_ms` after the start. Without a deadline
/// it never does.
pub open spec fn deadline_passed(max_wait_ms: Option<u64>, elapsed_ms: u64) -> bool {
    match max_wait_ms {
        Some(m) => elapsed_ms >= m,
        None => false,
    }
}

/// The step after a check: a ready image ends the loop; any failed check
/// past the deadline ends it with `TimeExpired`; any other failed check
/// waits the fixed interval.
pub open spec fn poll_step(
    checked: Result<DiffusionImage, DiffusionError>,
    max_wait_ms: Option<u64>,
    elapsed_ms: u64,
) -> PollStep {
    match checked {
        Ok(image) => PollStep::Finished(Ok(image)),
        Err(_) => if deadline_passed(max_wait_ms, elapsed_ms) {
            PollStep::Finished(Err(DiffusionError::TimeExpired))
        } else {
            PollStep::Sleep(POLL_INTERVAL_MS)
        },
    }
}

/// Decides what the polling loop does with the outcome of one status check,
/// made `elapsed_ms` milliseconds after the loop started.
pub fn next_poll_step(
    checked: Result<DiffusionImage, DiffusionError>,
    max_wait_ms: Option<u64>,
    elapsed_ms: u64,
) -> (r: PollStep)
    ensures
        r == poll_step(checked, max_wait_ms, elapsed_ms),
{
    match checked {
        Ok(image) => PollStep::Finished(Ok(image)),
        Err(_) => {
            let expired = match max_wait_ms {
                Some(m) => elapsed_ms >= m,
                None => false,
            };
            if expired {
                PollStep::Finished(Err(DiffusionError::TimeExpired))
            } else {
                PollStep::Sleep(POLL_INTERVAL_MS)
            }
        },
    }
}

/// With a deadline of zero, a check that fails ends the loop at once with
/// `TimeExpired`, whenever it is made.
pub proof fn lemma_zero_deadline_times_out(error: DiffusionError, elapsed_ms: u64)
    ensures
        poll_step(Err(error), Some(0), elapsed_ms) == PollStep::Finished(
            Err::<DiffusionImage, DiffusionError>(DiffusionError::TimeExpired),
        ),
{
}

/// Against an endpoint that never has the image, the loop with a deadline
/// ends: if each check is made at least one interval after the one before
/// it, the check made after `k` waits, where `k` intervals reach the
/// deadline, ends the loop with `TimeExpired`.
pub proof fn lemma_deadline_ends_polling(
    error: DiffusionError,
    max_wait_ms: u64,
    times: Seq<u64>,
    k: int,
)
    requires
        0 <= k < times.len(),
        k * POLL_INTERVAL_MS >= max_wait_ms,
        forall|j: int|
            0 <= j < times.len() - 1 ==> #[trigger] times[j + 1] >= times[j] + POLL_INTERVAL_MS,
    ensures
        poll_step(Err(error), Some(max_wait_ms), times[k]) == PollStep::Finished(
            Err::<DiffusionImage, DiffusionError>(DiffusionError::TimeExpired),
        ),
{
    lemma_checks_spaced(times, k);
}

/// The `k`th of checks spaced at least one interval apart is made at least
/// `k` intervals after the start.
proof fn lemma_checks_spaced(times: Seq<u64>, k: int)
    requires
        0 <= k < times.len(),
        forall|j: int|
            0 <= j < times.len() - 1 ==> #[trigger] times[j + 1] >= times[j] + POLL_INTERVAL_MS,
    ensures
        times[k] >= k * POLL_INTERVAL_MS,
    decreases k,
{
    if k > 0 {
        lemma_checks_spaced(times, k - 1);
        assert(times[(k - 1) + 1] >= times[k - 1] + POLL_INTERVAL_MS);
        assert(k * POLL_INTERVAL_MS == (k - 1) * POLL_INTERVAL_MS + POLL_INTERVAL_MS) by (nonlinear_arith);
    }
}

} // verus!
